//! Requests of the holdings API, version 1.

use crate::options::ConfigurationView;
use crate::options::Options;
use crate::requests::Request;
use crate::requests::RequestView;
use crate::requests::Requests;
use std::sync::Arc;
use vstd::prelude::*;
use vstd::string::StringExecFns;

verus! {

/// The path of the holdings information.
pub open spec fn holdings_path(version: Seq<char>) -> Seq<char> {
    "/holdings/info/"@ + version + "/holdings"@
}

/// Writes the path of the holdings information.
pub fn path_of_holdings(version: &str) -> (r: String)
    ensures
        r@ == holdings_path(version@),
{
    let mut path = "/holdings/info/".to_owned();
    path.append(version);
    path.append("/holdings");
    path
}

/// Client of the holdings API.
///
/// The API is at version 1: set the version of the store to `v1`.
pub struct HoldingsApi {
    options: Arc<Options>,
}

impl HoldingsApi {
    /// The store that the client reads its settings from.
    pub closed spec fn store(&self) -> Arc<Options> {
        self.options
    }

    /// Creates the client on a store.
    pub fn new(options: Arc<Options>) -> (r: HoldingsApi)
        ensures
            r.store() == options,
    {
        HoldingsApi { options }
    }

    /// The request for the holdings information.
    pub fn holdings(&self) -> (r: Request)
        ensures
            exists|configuration: ConfigurationView|
                r@ == #[trigger] RequestView::get(
                    configuration,
                    holdings_path(configuration.version),
                    None,
                ),
    {
        let version = self.options.version();
        let url = path_of_holdings(version.as_str());
        let r = Requests::get(&self.options, url.as_str(), None);
        proof {
            let read = choose|read: ConfigurationView|
                r@ == #[trigger] RequestView::get(read, url@, None);
            let configuration = ConfigurationView { version: version@, ..read };
            assert(r@ == RequestView::get(
                configuration,
                holdings_path(configuration.version),
                None,
            ));
        }
        r
    }
}

} // verus!
