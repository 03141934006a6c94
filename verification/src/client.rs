//! One client for all the APIs.

use crate::apis::accounts::account_path;
use crate::apis::accounts::accounts_path;
use crate::apis::accounts::transactions_path;
use crate::apis::accounts::AccountsApi;
use crate::apis::funds::funds_path;
use crate::apis::funds::FundsApi;
use crate::apis::holdings::holdings_path;
use crate::apis::holdings::HoldingsApi;
use crate::model::accounts::TransactionParams;
use crate::options::ConfigurationView;
use crate::options::Options;
use crate::requests::view_of;
use crate::requests::Request;
use crate::requests::RequestView;
use std::sync::Arc;
use vstd::prelude::*;

verus! {

/// The client of all the APIs, over one configuration store.
pub struct Client {
    options: Arc<Options>,
    accounts_api: AccountsApi,
    funds_api: FundsApi,
    holdings_api: HoldingsApi,
}

impl Client {
    /// The store that the client and its API clients read their settings
    /// from.
    pub closed spec fn store(&self) -> Arc<Options> {
        self.options
    }

    /// Whether the client and each of its API clients are on one store.
    pub closed spec fn shares_one_store(&self) -> bool {
        &&& self.accounts_api.store() == self.options
        &&& self.funds_api.store() == self.options
        &&& self.holdings_api.store() == self.options
    }

    /// Creates the client of all the APIs on a store.
    pub fn new(options: Arc<Options>) -> (r: Client)
        ensures
            r.store() == options,
            r.shares_one_store(),
    {
        Client {
            options: options.clone(),
            accounts_api: AccountsApi::new(options.clone()),
            funds_api: FundsApi::new(options.clone()),
            holdings_api: HoldingsApi::new(options.clone()),
        }
    }

    /// The store of the client, not a copy of it: a setting that is changed
    /// through the result is used by the next request of the client.
    pub fn options(&self) -> (r: Arc<Options>)
        ensures
            r == self.store(),
    {
        self.options.clone()
    }

    /// The request for the list of all accounts.
    pub fn accounts(&self) -> (r: Request)
        ensures
            exists|configuration: ConfigurationView|
                r@ == #[trigger] RequestView::get(
                    configuration,
                    accounts_path(configuration.version),
                    None,
                ),
    {
        self.accounts_api.accounts()
    }

    /// The request for one account.
    pub fn account(&self, account_id: String) -> (r: Request)
        ensures
            exists|configuration: ConfigurationView|
                r@ == #[trigger] RequestView::get(
                    configuration,
                    account_path(configuration.version, account_id@),
                    None,
                ),
    {
        self.accounts_api.account(account_id)
    }

    /// The request for all funds.
    pub fn funds(&self) -> (r: Request)
        ensures
            exists|configuration: ConfigurationView|
                r@ == #[trigger] RequestView::get(
                    configuration,
                    funds_path(configuration.version),
                    None,
                ),
    {
        self.funds_api.funds()
    }

    /// The request for the holdings information.
    pub fn holdings(&self) -> (r: Request)
        ensures
            exists|configuration: ConfigurationView|
                r@ == #[trigger] RequestView::get(
                    configuration,
                    holdings_path(configuration.version),
                    None,
                ),
    {
        self.holdings_api.holdings()
    }

    /// The request for the transactions of one account, with optional
    /// filters.
    pub fn transactions(&self, account_id: String, params: Option<TransactionParams>) -> (r:
        Request)
        ensures
            exists|configuration: ConfigurationView|
                r@ == #[trigger] RequestView::get(
                    configuration,
                    transactions_path(configuration.version, account_id@),
                    view_of(params),
                ),
    {
        self.accounts_api.transactions(account_id, params)
    }
}

} // verus!
