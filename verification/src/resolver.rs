//! Resolving the secret: the password from the secure storage, with one
//! fallback account, then the encrypted key, then the plaintext.

use crate::codec::{unsealed, IvPolicy};
use crate::config::{load_config, loaded, ConfigReader};
use crate::crypt::OSCrypt;
use crate::error::{lifted, resolved_outcome, ResolveError};
use crate::kdf::derived_key;
use vstd::prelude::*;

verus! {

/// Why the secure storage gave no secret.
#[derive(Clone, Copy, Debug, PartialEq, Eq, Structural)]
pub enum StoreError {
    /// The storage holds no entry for the service and account.
    NotFound,
    /// The storage refused access to its entries.
    AccessDenied,
    /// The storage itself failed.
    PlatformError,
}

/// A secure storage of secrets, each under a service and an account.
pub trait SecretStore {
    /// The secret kept for `account` under `service`.
    fn get_secret(&self, service: &str, account: &str) -> Result<String, StoreError>;
}

/// Whether `store` may give `outcome` when asked for `account` under
/// `service`: whether the contract of its `get_secret` allows it.
pub open spec fn may_answer<S: SecretStore>(
    store: &S,
    service: &str,
    account: &str,
    outcome: Result<String, StoreError>,
) -> bool {
    call_ensures(S::get_secret, (store, service, account), outcome)
}

/// Whether `store` may fail when asked for `account` under `service`.
pub open spec fn may_fail<S: SecretStore>(store: &S, service: &str, account: &str) -> bool {
    exists|e: StoreError| #[trigger]
        may_answer(store, service, account, Err::<String, StoreError>(e))
}

/// The accounts under which the password may be kept.
#[derive(Clone, Copy, Debug, PartialEq, Eq, Structural)]
pub enum Account {
    /// The account that is asked first.
    Primary,
    /// The account that is asked once, after the primary one failed.
    Fallback,
}

/// What follows a lookup.
#[derive(Debug, PartialEq, Eq)]
pub enum LookupStep {
    /// The password is there; no further lookup.
    Found(String),
    /// Ask again, for this account.
    Retry(Account),
    /// Both lookups failed; there is no further fallback.
    Unavailable,
}

/// What follows when the lookup for `asked` came back with `outcome`: a
/// secret ends the search; a failure of any kind leads from the primary
/// account to the fallback account, and from there to giving up.
pub open spec fn next_step(asked: Account, outcome: Result<String, StoreError>) -> LookupStep {
    match outcome {
        Ok(password) => LookupStep::Found(password),
        Err(_) => match asked {
            Account::Primary => LookupStep::Retry(Account::Fallback),
            Account::Fallback => LookupStep::Unavailable,
        },
    }
}

/// Decides what follows the lookup for `asked`.
pub fn after_lookup(asked: Account, outcome: Result<String, StoreError>) -> (step: LookupStep)
    ensures
        step == next_step(asked, outcome),
{
    match outcome {
        Ok(password) => LookupStep::Found(password),
        Err(_) => match asked {
            Account::Primary => LookupStep::Retry(Account::Fallback),
            Account::Fallback => LookupStep::Unavailable,
        },
    }
}

/// The fallback account is asked only after the primary one failed, whatever
/// the failure, and nothing is asked after the fallback account.
pub proof fn lemma_fallback_order(primary: Result<String, StoreError>, fallback: Result<String, StoreError>)
    ensures
        primary matches Ok(password) ==> next_step(Account::Primary, primary) == LookupStep::Found(
            password,
        ),
        primary is Err ==> next_step(Account::Primary, primary) == LookupStep::Retry(
            Account::Fallback,
        ),
        fallback matches Ok(password) ==> next_step(Account::Fallback, fallback)
            == LookupStep::Found(password),
        fallback is Err ==> next_step(Account::Fallback, fallback) == LookupStep::Unavailable,
        !(next_step(Account::Fallback, fallback) is Retry),
{
}

/// Whether `r` may come of asking `store` under `service` with one
/// fallback: a password is what the store gave for the primary account, or,
/// only where the store failed for the primary account, what it gave for the
/// fallback account; the only error is that the store failed for both.
pub open spec fn looked_up<S: SecretStore>(
    store: &S,
    service: &str,
    primary_account: &str,
    fallback_account: &str,
    r: Result<String, ResolveError>,
) -> bool {
    match r {
        Ok(password) => {
            ||| may_answer(store, service, primary_account, Ok(password))
            ||| (may_fail(store, service, primary_account) && may_answer(
                store,
                service,
                fallback_account,
                Ok(password),
            ))
        },
        Err(e) => {
            &&& e == ResolveError::SecretUnavailable
            &&& may_fail(store, service, primary_account)
            &&& may_fail(store, service, fallback_account)
        },
    }
}

/// Asks `store` for the password under `service`: first for
/// `primary_account`, and after a failure once more for `fallback_account`.
/// The store is asked at most twice.
pub fn lookup_with_fallback<S: SecretStore>(
    store: &S,
    service: &str,
    primary_account: &str,
    fallback_account: &str,
) -> (r: Result<String, ResolveError>)
    ensures
        looked_up(store, service, primary_account, fallback_account, r),
{
    let mut asked = Account::Primary;
    loop
        invariant
            asked == Account::Fallback ==> may_fail(store, service, primary_account),
        decreases
            (if asked == Account::Primary {
                1int
            } else {
                0int
            }),
    {
        let account = match asked {
            Account::Primary => primary_account,
            Account::Fallback => fallback_account,
        };
        let outcome = store.get_secret(service, account);
        let ghost seen = outcome;
        match after_lookup(asked, outcome) {
            LookupStep::Found(password) => {
                return Ok(password);
            },
            LookupStep::Retry(next) => {
                assert(may_answer(
                    store,
                    service,
                    primary_account,
                    Err::<String, StoreError>(seen->Err_0),
                ));
                asked = next;
            },
            LookupStep::Unavailable => {
                assert(may_answer(
                    store,
                    service,
                    fallback_account,
                    Err::<String, StoreError>(seen->Err_0),
                ));
                return Err(ResolveError::SecretUnavailable);
            },
        }
    }
}

/// A store that fails for the primary account and gives one secret for the
/// fallback account yields that secret.
pub proof fn lemma_fallback_secret_used<S: SecretStore>(
    store: &S,
    service: &str,
    primary_account: &str,
    fallback_account: &str,
    secret: String,
    r: Result<String, ResolveError>,
)
    requires
        forall|outcome: Result<String, StoreError>| #[trigger]
            may_answer(store, service, primary_account, outcome) ==> outcome is Err,
        forall|outcome: Result<String, StoreError>| #[trigger]
            may_answer(store, service, fallback_account, outcome) ==> outcome == Ok::<
                String,
                StoreError,
            >(secret),
        looked_up(store, service, primary_account, fallback_account, r),
    ensures
        r == Ok::<String, ResolveError>(secret),
{
}

/// A store that gives one secret for the primary account yields that secret,
/// whatever it holds for the fallback account.
pub proof fn lemma_primary_secret_used<S: SecretStore>(
    store: &S,
    service: &str,
    primary_account: &str,
    fallback_account: &str,
    secret: String,
    r: Result<String, ResolveError>,
)
    requires
        forall|outcome: Result<String, StoreError>| #[trigger]
            may_answer(store, service, primary_account, outcome) ==> outcome == Ok::<
                String,
                StoreError,
            >(secret),
        looked_up(store, service, primary_account, fallback_account, r),
    ensures
        r == Ok::<String, ResolveError>(secret),
{
}

/// Where the encrypted key comes from.
#[derive(Debug, PartialEq, Eq)]
pub enum BlobSource {
    /// The envelope text itself.
    Literal(String),
    /// The path of a configuration file that holds it.
    ConfigFile(String),
}

/// What a password and an envelope text resolve to.
pub open spec fn resolved(password: Seq<char>, blob: Seq<char>) -> Result<Seq<char>, ResolveError> {
    lifted(unsealed(blob, derived_key(password), IvPolicy::Fixed))
}

/// Derives the key for `password` and opens `blob` with it under the fixed
/// initialization vector.
pub fn open_blob(password: &str, blob: String) -> (r: Result<String, ResolveError>)
    ensures
        resolved_outcome(r) == resolved(password@, blob@),
{
    let crypt = OSCrypt::new_with_password(blob, password);
    match crypt.decrypt_string(crypt.encrypted_key.as_str()) {
        Ok(text) => Ok(text),
        Err(e) => Err(ResolveError::Decode(e)),
    }
}

/// Whether `r` may be the encrypted key of a source: the text of a literal
/// source as it stands, else what comes of loading the configuration at the
/// path of the source.
pub open spec fn blob_found<R: ConfigReader>(
    reader: &R,
    source: BlobSource,
    r: Result<String, ResolveError>,
) -> bool {
    match source {
        BlobSource::Literal(text) => resolved_outcome(r) == Ok::<Seq<char>, ResolveError>(text@),
        BlobSource::ConfigFile(file) => exists|path: &str|
            path@ == file@ && #[trigger] loaded(reader, path, r),
    }
}

/// The encrypted key of a source. A literal source is never read from.
pub fn blob_of<R: ConfigReader>(reader: &R, source: &BlobSource) -> (r: Result<String, ResolveError>)
    ensures
        blob_found(reader, *source, r),
{
    match source {
        BlobSource::Literal(text) => Ok(text.clone()),
        BlobSource::ConfigFile(file) => load_config(reader, file.as_str()),
    }
}

/// What comes of a password and an encrypted key, each found or not: the
/// first error, else what the two resolve to.
pub open spec fn resolved_from(
    password: Result<String, ResolveError>,
    blob: Result<String, ResolveError>,
) -> Result<Seq<char>, ResolveError> {
    match password {
        Err(e) => Err(e),
        Ok(secret) => match blob {
            Err(e) => Err(e),
            Ok(text) => resolved(secret@, text@),
        },
    }
}

/// Whether `r` may come of resolving: there are a password that may come of
/// the lookup and, where the lookup gave one, an encrypted key that may come
/// of the source, and `r` is what comes of the two.
pub open spec fn resolved_by<S: SecretStore, R: ConfigReader>(
    store: &S,
    reader: &R,
    service: &str,
    primary_account: &str,
    fallback_account: &str,
    blob_source: BlobSource,
    r: Result<String, ResolveError>,
) -> bool {
    exists|password: Result<String, ResolveError>, blob: Result<String, ResolveError>|
        #![trigger resolved_from(password, blob)]
        {
            &&& looked_up(store, service, primary_account, fallback_account, password)
            &&& password is Ok ==> blob_found(reader, blob_source, blob)
            &&& resolved_outcome(r) == resolved_from(password, blob)
        }
}

/// Resolves the secret. The password comes from `store`, asked for
/// `primary_account` and after a failure once for `fallback_account`; the
/// encrypted key comes from `blob_source`; the key derived from the password
/// opens it. The store is asked before the source is read, and each error
/// ends the run.
pub fn resolve<S: SecretStore, R: ConfigReader>(
    store: &S,
    reader: &R,
    service: &str,
    primary_account: &str,
    fallback_account: &str,
    blob_source: &BlobSource,
) -> (r: Result<String, ResolveError>)
    ensures
        resolved_by(store, reader, service, primary_account, fallback_account, *blob_source, r),
{
    let password = match lookup_with_fallback(store, service, primary_account, fallback_account) {
        Ok(password) => password,
        Err(e) => {
            proof {
                let found = Err::<String, ResolveError>(e);
                assert(resolved_outcome(found) == resolved_from(found, found));
            }
            return Err(e);
        },
    };
    let ghost found = Ok::<String, ResolveError>(password);
    let blob = match blob_of(reader, blob_source) {
        Ok(blob) => blob,
        Err(e) => {
            proof {
                let missing = Err::<String, ResolveError>(e);
                assert(resolved_outcome(missing) == resolved_from(found, missing));
            }
            return Err(e);
        },
    };
    let ghost held = Ok::<String, ResolveError>(blob);
    let r = open_blob(password.as_str(), blob);
    assert(resolved_outcome(r) == resolved_from(found, held));
    r
}

/// With a store that fails for the primary account and gives one secret for
/// the fallback account, a literal encrypted key resolves to what the key
/// derived from that secret opens it to.
pub proof fn lemma_resolve_uses_fallback_secret<S: SecretStore, R: ConfigReader>(
    store: &S,
    reader: &R,
    service: &str,
    primary_account: &str,
    fallback_account: &str,
    secret: String,
    blob: String,
    r: Result<String, ResolveError>,
)
    requires
        forall|outcome: Result<String, StoreError>| #[trigger]
            may_answer(store, service, primary_account, outcome) ==> outcome is Err,
        forall|outcome: Result<String, StoreError>| #[trigger]
            may_answer(store, service, fallback_account, outcome) ==> outcome == Ok::<
                String,
                StoreError,
            >(secret),
        resolved_by(
            store,
            reader,
            service,
            primary_account,
            fallback_account,
            BlobSource::Literal(blob),
            r,
        ),
    ensures
        resolved_outcome(r) == resolved(secret@, blob@),
{
}

} // verus!
