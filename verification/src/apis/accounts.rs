//! Requests of the accounts API, version 3.

use crate::model::accounts::TransactionParams;
use crate::options::ConfigurationView;
use crate::options::Options;
use crate::requests::view_of;
use crate::requests::Request;
use crate::requests::RequestView;
use crate::requests::Requests;
use std::sync::Arc;
use vstd::prelude::*;
use vstd::string::StringExecFns;

verus! {

/// The path of the list of accounts.
pub open spec fn accounts_path(version: Seq<char>) -> Seq<char> {
    "/accounts/"@ + version + "/accounts"@
}

/// The path of one account. The identifier stands in the path as it is.
pub open spec fn account_path(version: Seq<char>, account_id: Seq<char>) -> Seq<char> {
    accounts_path(version) + "/"@ + account_id
}

/// The path of the transactions of one account.
pub open spec fn transactions_path(version: Seq<char>, account_id: Seq<char>) -> Seq<char> {
    account_path(version, account_id) + "/transactions"@
}

/// Writes the path of the list of accounts.
pub fn path_of_accounts(version: &str) -> (r: String)
    ensures
        r@ == accounts_path(version@),
{
    let mut path = "/accounts/".to_owned();
    path.append(version);
    path.append("/accounts");
    path
}

/// Writes the path of one account.
pub fn path_of_account(version: &str, account_id: &str) -> (r: String)
    ensures
        r@ == account_path(version@, account_id@),
{
    let mut path = path_of_accounts(version);
    path.append("/");
    path.append(account_id);
    path
}

/// Writes the path of the transactions of one account.
pub fn path_of_transactions(version: &str, account_id: &str) -> (r: String)
    ensures
        r@ == transactions_path(version@, account_id@),
{
    let mut path = path_of_account(version, account_id);
    path.append("/transactions");
    path
}

/// Client of the accounts API.
///
/// The API is at version 3: set the version of the store to `v3`.
pub struct AccountsApi {
    options: Arc<Options>,
}

impl AccountsApi {
    /// The store that the client reads its settings from.
    pub closed spec fn store(&self) -> Arc<Options> {
        self.options
    }

    /// Creates the client on a store.
    pub fn new(options: Arc<Options>) -> (r: AccountsApi)
        ensures
            r.store() == options,
    {
        AccountsApi { options }
    }

    /// The request for the list of all accounts.
    pub fn accounts(&self) -> (r: Request)
        ensures
            exists|configuration: ConfigurationView|
                r@ == #[trigger] RequestView::get(
                    configuration,
                    accounts_path(configuration.version),
                    None,
                ),
    {
        let version = self.options.version();
        let url = path_of_accounts(version.as_str());
        let r = Requests::get(&self.options, url.as_str(), None);
        proof {
            let read = choose|read: ConfigurationView|
                r@ == #[trigger] RequestView::get(read, url@, None);
            let configuration = ConfigurationView { version: version@, ..read };
            assert(r@ == RequestView::get(
                configuration,
                accounts_path(configuration.version),
                None,
            ));
        }
        r
    }

    /// The request for one account.
    pub fn account(&self, account_id: String) -> (r: Request)
        ensures
            exists|configuration: ConfigurationView|
                r@ == #[trigger] RequestView::get(
                    configuration,
                    account_path(configuration.version, account_id@),
                    None,
                ),
    {
        let version = self.options.version();
        let url = path_of_account(version.as_str(), account_id.as_str());
        let r = Requests::get(&self.options, url.as_str(), None);
        proof {
            let read = choose|read: ConfigurationView|
                r@ == #[trigger] RequestView::get(read, url@, None);
            let configuration = ConfigurationView { version: version@, ..read };
            assert(r@ == RequestView::get(
                configuration,
                account_path(configuration.version, account_id@),
                None,
            ));
        }
        r
    }

    /// The request for the transactions of one account, with optional
    /// filters.
    pub fn transactions(&self, account_id: String, params: Option<TransactionParams>) -> (r:
        Request)
        ensures
            exists|configuration: ConfigurationView|
                r@ == #[trigger] RequestView::get(
                    configuration,
                    transactions_path(configuration.version, account_id@),
                    view_of(params),
                ),
    {
        let version = self.options.version();
        let url = path_of_transactions(version.as_str(), account_id.as_str());
        let ghost filters = view_of(params);
        let r = Requests::get(&self.options, url.as_str(), params);
        proof {
            let read = choose|read: ConfigurationView|
                r@ == #[trigger] RequestView::get(read, url@, filters);
            let configuration = ConfigurationView { version: version@, ..read };
            assert(r@ == RequestView::get(
                configuration,
                transactions_path(configuration.version, account_id@),
                filters,
            ));
        }
        r
    }
}

} // verus!
