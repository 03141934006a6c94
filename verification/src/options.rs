//! Endpoint and credential settings shared by every API client.
//!
//! [`Configuration`] is the plain record of the four settings; its
//! operations have exact contracts, and the laws of reading and writing are
//! proved of its model. [`Options`] keeps one `Configuration` behind a
//! reader-writer lock, so that every holder of the store may read or replace
//! a setting at any time. Each access of the store takes the lock once and
//! runs one operation of `Configuration` under it: a read sees a whole
//! setting, never a part of one.

use std::sync::Arc;
use vstd::prelude::*;
use vstd::rwlock::RwLock;
use vstd::rwlock::RwLockPredicate;

verus! {

/// Base URL of the production environment.
pub const PRODUCTION_BASE_URL: &'static str = "https://prod.apis.op-palvelut.fi/";

/// Base URL of the sandbox environment.
pub const SANDBOX_BASE_URL: &'static str = "https://sandbox.apis.op-palvelut.fi/";

/// API version that a new configuration starts with.
pub const DEFAULT_VERSION: &'static str = "v1";

/// The authorization that the sandbox documents for everyone. It is a shared
/// fixture of the sandbox, not a credential of any user.
pub const SANDBOX_AUTHORIZATION: &'static str = "b6910384440ce06f495976f96a162e2ab1bafbb4";

/// The four settings of a configuration.
pub enum Field {
    ApiKey,
    Authorization,
    Version,
    BaseUrl,
}

/// Mathematical model of a [`Configuration`]: each setting as a sequence of
/// characters.
pub ghost struct ConfigurationView {
    pub api_key: Seq<char>,
    pub authorization: Seq<char>,
    pub version: Seq<char>,
    pub base_url: Seq<char>,
}

/// One write to a store: the setting and its new value.
pub ghost struct Write {
    pub field: Field,
    pub value: Seq<char>,
}

impl ConfigurationView {
    /// The value of one setting.
    pub open spec fn get(self, field: Field) -> Seq<char> {
        match field {
            Field::ApiKey => self.api_key,
            Field::Authorization => self.authorization,
            Field::Version => self.version,
            Field::BaseUrl => self.base_url,
        }
    }

    /// The configuration with one setting replaced and the other three kept.
    pub open spec fn set(self, field: Field, value: Seq<char>) -> ConfigurationView {
        match field {
            Field::ApiKey => ConfigurationView { api_key: value, ..self },
            Field::Authorization => ConfigurationView { authorization: value, ..self },
            Field::Version => ConfigurationView { version: value, ..self },
            Field::BaseUrl => ConfigurationView { base_url: value, ..self },
        }
    }

    /// The configuration after a sequence of writes, applied in order.
    pub open spec fn apply(self, writes: Seq<Write>) -> ConfigurationView
        decreases writes.len(),
    {
        if writes.len() == 0 {
            self
        } else {
            self.apply(writes.drop_last()).set(writes.last().field, writes.last().value)
        }
    }

    /// What a new production configuration holds.
    pub open spec fn production(api_key: Seq<char>, authorization: Seq<char>) -> ConfigurationView {
        ConfigurationView {
            api_key,
            authorization,
            version: DEFAULT_VERSION@,
            base_url: PRODUCTION_BASE_URL@,
        }
    }

    /// What a new sandbox configuration holds.
    pub open spec fn sandbox(api_key: Seq<char>) -> ConfigurationView {
        ConfigurationView {
            api_key,
            authorization: SANDBOX_AUTHORIZATION@,
            version: DEFAULT_VERSION@,
            base_url: SANDBOX_BASE_URL@,
        }
    }
}

/// Whether no write at or after position `from` is to `field`.
pub open spec fn untouched_from(writes: Seq<Write>, field: Field, from: int) -> bool {
    forall|j: int| from <= j < writes.len() ==> (#[trigger] writes[j]).field != field
}

/// A setting that was never written still has its first value.
pub proof fn lemma_unwritten_setting_keeps_its_value(
    initial: ConfigurationView,
    writes: Seq<Write>,
    field: Field,
)
    requires
        untouched_from(writes, field, 0),
    ensures
        initial.apply(writes).get(field) == initial.get(field),
    decreases writes.len(),
{
    if writes.len() > 0 {
        let earlier = writes.drop_last();
        assert(writes.last() == writes[writes.len() - 1]);
        assert forall|j: int| 0 <= j < earlier.len() implies (#[trigger] earlier[j]).field
            != field by {
            assert(earlier[j] == writes[j]);
        }
        lemma_unwritten_setting_keeps_its_value(initial, earlier, field);
    }
}

/// A read that follows a sequence of writes returns the value of the last
/// write to that setting.
pub proof fn lemma_read_returns_the_last_write(
    initial: ConfigurationView,
    writes: Seq<Write>,
    field: Field,
    i: int,
)
    requires
        0 <= i < writes.len(),
        writes[i].field == field,
        untouched_from(writes, field, i + 1),
    ensures
        initial.apply(writes).get(field) == writes[i].value,
    decreases writes.len(),
{
    let earlier = writes.drop_last();
    if i == writes.len() - 1 {
        assert(writes.last() == writes[i]);
    } else {
        assert(writes.last() == writes[writes.len() - 1]);
        assert(earlier[i] == writes[i]);
        assert forall|j: int| i + 1 <= j < earlier.len() implies (#[trigger] earlier[j]).field
            != field by {
            assert(earlier[j] == writes[j]);
        }
        lemma_read_returns_the_last_write(initial, earlier, field, i);
    }
}

/// Whatever writes came before it, a read returns a whole value that was
/// put there: the setting's first value, or the value of one of the writes
/// to that setting. It never returns a mixture of two values.
pub proof fn lemma_read_returns_a_written_value(
    initial: ConfigurationView,
    writes: Seq<Write>,
    field: Field,
)
    ensures
        initial.apply(writes).get(field) == initial.get(field) || exists|i: int|
            0 <= i < writes.len() && (#[trigger] writes[i]).field == field && writes[i].value
                == initial.apply(writes).get(field),
    decreases writes.len(),
{
    if writes.len() > 0 {
        let earlier = writes.drop_last();
        let last = writes.len() - 1;
        assert(writes.last() == writes[last]);
        if writes[last].field == field {
            assert(writes[last].value == initial.apply(writes).get(field));
        } else {
            lemma_read_returns_a_written_value(initial, earlier, field);
            assert(initial.apply(writes).get(field) == initial.apply(earlier).get(field));
            if initial.apply(earlier).get(field) != initial.get(field) {
                let i = choose|i: int|
                    0 <= i < earlier.len() && (#[trigger] earlier[i]).field == field
                        && earlier[i].value == initial.apply(earlier).get(field);
                assert(writes[i] == earlier[i]);
            }
        }
    }
}

/// One consistent set of the four settings.
pub struct Configuration {
    api_key: String,
    authorization: String,
    version: String,
    base_url: String,
}

impl View for Configuration {
    type V = ConfigurationView;

    closed spec fn view(&self) -> ConfigurationView {
        ConfigurationView {
            api_key: self.api_key@,
            authorization: self.authorization@,
            version: self.version@,
            base_url: self.base_url@,
        }
    }
}

impl Configuration {
    /// The configuration for production access: the given credentials, the
    /// default version and the production host. `authorization` is the bare
    /// token, without the word `Bearer`.
    pub fn production(api_key: String, authorization: String) -> (r: Configuration)
        ensures
            r@ == ConfigurationView::production(api_key@, authorization@),
    {
        Configuration {
            api_key,
            authorization,
            version: DEFAULT_VERSION.to_owned(),
            base_url: PRODUCTION_BASE_URL.to_owned(),
        }
    }

    /// The configuration for sandbox access: the given API key, the
    /// authorization that the sandbox documents, the default version and the
    /// sandbox host.
    pub fn sandbox(api_key: String) -> (r: Configuration)
        ensures
            r@ == ConfigurationView::sandbox(api_key@),
    {
        Configuration {
            api_key,
            authorization: SANDBOX_AUTHORIZATION.to_owned(),
            version: DEFAULT_VERSION.to_owned(),
            base_url: SANDBOX_BASE_URL.to_owned(),
        }
    }

    /// The base URL.
    pub fn base_url(&self) -> (r: String)
        ensures
            r@ == self@.get(Field::BaseUrl),
    {
        self.base_url.clone()
    }

    /// Replaces the base URL and leaves the other settings as they are.
    pub fn set_base_url(&mut self, base_url: String)
        ensures
            final(self)@ == old(self)@.set(Field::BaseUrl, base_url@),
    {
        self.base_url = base_url;
    }

    /// The API key.
    pub fn api_key(&self) -> (r: String)
        ensures
            r@ == self@.get(Field::ApiKey),
    {
        self.api_key.clone()
    }

    /// Replaces the API key and leaves the other settings as they are.
    pub fn set_api_key(&mut self, api_key: String)
        ensures
            final(self)@ == old(self)@.set(Field::ApiKey, api_key@),
    {
        self.api_key = api_key;
    }

    /// The authorization token, without the word `Bearer`.
    pub fn authorization(&self) -> (r: String)
        ensures
            r@ == self@.get(Field::Authorization),
    {
        self.authorization.clone()
    }

    /// Replaces the authorization token and leaves the other settings as
    /// they are.
    pub fn set_authorization(&mut self, authorization: String)
        ensures
            final(self)@ == old(self)@.set(Field::Authorization, authorization@),
    {
        self.authorization = authorization;
    }

    /// The API version.
    pub fn version(&self) -> (r: String)
        ensures
            r@ == self@.get(Field::Version),
    {
        self.version.clone()
    }

    /// Replaces the API version and leaves the other settings as they are.
    pub fn set_version(&mut self, version: String)
        ensures
            final(self)@ == old(self)@.set(Field::Version, version@),
    {
        self.version = version;
    }
}

/// What the lock of a store admits: any configuration. It also records the
/// configuration that the store was created with.
pub ghost struct Admitted {
    pub initial: ConfigurationView,
}

impl RwLockPredicate<Configuration> for Admitted {
    open spec fn inv(self, v: Configuration) -> bool {
        true
    }
}

/// The configuration store: one [`Configuration`] that all holders share.
///
/// A store is handed out inside an `Arc`; every clone of the `Arc` is the
/// same store. What a read returns depends on the writes of all holders, so
/// the contracts of the reading and writing methods promise nothing about
/// values: each method is exactly one operation of [`Configuration`], run
/// while the lock is held.
pub struct Options {
    inner: RwLock<Configuration, Admitted>,
}

impl Options {
    /// The configuration that the store held when it was created.
    pub closed spec fn initial(&self) -> ConfigurationView {
        self.inner.pred().initial
    }

    /// Creates the store for production access.
    ///
    /// `authorization` is the token fetched from OAuth, without the word
    /// `Bearer`.
    pub fn new(api_key: String, authorization: String) -> (r: Arc<Options>)
        ensures
            r.initial() == ConfigurationView::production(api_key@, authorization@),
    {
        let configuration = Configuration::production(api_key, authorization);
        let ghost admitted = Admitted { initial: configuration@ };
        Arc::new(Options { inner: RwLock::new(configuration, Ghost(admitted)) })
    }

    /// Creates the store for sandbox access, which needs no authorization of
    /// the caller's own.
    pub fn new_dev(api_key: String) -> (r: Arc<Options>)
        ensures
            r.initial() == ConfigurationView::sandbox(api_key@),
    {
        let configuration = Configuration::sandbox(api_key);
        let ghost admitted = Admitted { initial: configuration@ };
        Arc::new(Options { inner: RwLock::new(configuration, Ghost(admitted)) })
    }

    /// The base URL that the store holds now.
    pub fn base_url(&self) -> String {
        let handle = self.inner.acquire_read();
        let value = handle.borrow().base_url();
        handle.release_read();
        value
    }

    /// Sets the base URL for all later requests, for instance to that of a
    /// local test server.
    pub fn set_base_url(&self, base_url: String) {
        let (mut configuration, handle) = self.inner.acquire_write();
        configuration.set_base_url(base_url);
        handle.release_write(configuration);
    }

    /// The API key that the store holds now. It is sent as the header
    /// `x-api-key`.
    pub fn api_key(&self) -> String {
        let handle = self.inner.acquire_read();
        let value = handle.borrow().api_key();
        handle.release_read();
        value
    }

    /// Sets the API key for all later requests.
    pub fn set_api_key(&self, api_key: String) {
        let (mut configuration, handle) = self.inner.acquire_write();
        configuration.set_api_key(api_key);
        handle.release_write(configuration);
    }

    /// The authorization token that the store holds now. It is sent after
    /// the word `Bearer` in the header `Authorization`.
    pub fn authorization(&self) -> String {
        let handle = self.inner.acquire_read();
        let value = handle.borrow().authorization();
        handle.release_read();
        value
    }

    /// Sets the authorization token for all later requests. The token must
    /// not begin with `Bearer`: the request builder puts the word in front.
    pub fn set_authorization(&self, authorization: String) {
        let (mut configuration, handle) = self.inner.acquire_write();
        configuration.set_authorization(authorization);
        handle.release_write(configuration);
    }

    /// Sets the API version for all later requests. The APIs are on
    /// different versions; the version is part of the request path.
    pub fn set_version(&self, version: String) {
        let (mut configuration, handle) = self.inner.acquire_write();
        configuration.set_version(version);
        handle.release_write(configuration);
    }

    /// The API version that the store holds now.
    pub fn version(&self) -> String {
        let handle = self.inner.acquire_read();
        let value = handle.borrow().version();
        handle.release_read();
        value
    }
}

} // verus!
