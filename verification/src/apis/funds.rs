//! Requests of the funds API, version 1.

use crate::options::ConfigurationView;
use crate::options::Options;
use crate::requests::Request;
use crate::requests::RequestView;
use crate::requests::Requests;
use std::sync::Arc;
use vstd::prelude::*;
use vstd::string::StringExecFns;

verus! {

/// The path of the list of funds.
pub open spec fn funds_path(version: Seq<char>) -> Seq<char> {
    "/"@ + version + "/funds"@
}

/// Writes the path of the list of funds.
pub fn path_of_funds(version: &str) -> (r: String)
    ensures
        r@ == funds_path(version@),
{
    let mut path = "/".to_owned();
    path.append(version);
    path.append("/funds");
    path
}

/// Client of the funds API.
///
/// The API is at version 1: set the version of the store to `v1`.
pub struct FundsApi {
    options: Arc<Options>,
}

impl FundsApi {
    /// The store that the client reads its settings from.
    pub closed spec fn store(&self) -> Arc<Options> {
        self.options
    }

    /// Creates the client on a store.
    pub fn new(options: Arc<Options>) -> (r: FundsApi)
        ensures
            r.store() == options,
    {
        FundsApi { options }
    }

    /// The request for all funds.
    pub fn funds(&self) -> (r: Request)
        ensures
            exists|configuration: ConfigurationView|
                r@ == #[trigger] RequestView::get(
                    configuration,
                    funds_path(configuration.version),
                    None,
                ),
    {
        let version = self.options.version();
        let url = path_of_funds(version.as_str());
        let r = Requests::get(&self.options, url.as_str(), None);
        proof {
            let read = choose|read: ConfigurationView|
                r@ == #[trigger] RequestView::get(read, url@, None);
            let configuration = ConfigurationView { version: version@, ..read };
            assert(r@ == RequestView::get(configuration, funds_path(configuration.version), None));
        }
        r
    }
}

} // verus!
