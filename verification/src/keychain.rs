//! The secure storage of the platform, reached through the `keyring` crate.

use crate::error::ResolveError;
use crate::resolver::{looked_up, lookup_with_fallback, SecretStore, StoreError};
use vstd::prelude::*;

verus! {

/// Service under which the application keeps its password.
pub fn service_name() -> (name: &'static str)
    ensures
        name@ == "Signal Safe Storage"@,
{
    "Signal Safe Storage"
}

/// Account that is asked first.
pub fn primary_account() -> (name: &'static str)
    ensures
        name@ == "Signal Key"@,
{
    "Signal Key"
}

/// Account that is asked after the first one failed.
pub fn fallback_account() -> (name: &'static str)
    ensures
        name@ == "Signal"@,
{
    "Signal"
}

/// Whether a service and an account name an entry of the secure storage:
/// neither of the two is empty.
pub open spec fn names_entry(service: Seq<char>, account: Seq<char>) -> bool {
    service.len() > 0 && account.len() > 0
}

/// Makes the entry for a service and an account with `keyring::Entry::new`,
/// asks for its password with `Entry::get_password`, and tells the variants
/// of `keyring::Error` apart: no entry, no access, and every other failure.
/// An entry made with an empty service or account is invalid, and asking it
/// reports no entry without reaching the platform. For every other entry
/// what comes back depends on what the storage of the platform holds.
#[verifier::external_body]
fn entry_password(service: &str, account: &str) -> (r: Result<String, StoreError>)
    ensures
        !names_entry(service@, account@) ==> r matches Err(StoreError::NotFound),
{
    match keyring::Entry::new(service, account).get_password() {
        Ok(password) => Ok(password),
        Err(keyring::Error::NoEntry) => Err(StoreError::NotFound),
        Err(keyring::Error::NoStorageAccess(_)) => Err(StoreError::AccessDenied),
        Err(keyring::Error::PlatformFailure(_)) => Err(StoreError::PlatformError),
        Err(keyring::Error::BadEncoding(_)) => Err(StoreError::PlatformError),
        Err(keyring::Error::TooLong(_, _)) => Err(StoreError::PlatformError),
        Err(keyring::Error::WrongCredentialPlatform) => Err(StoreError::PlatformError),
    }
}

/// Retrieves the password kept in the secure storage of the platform for
/// `account_name` under `service_name`. Without a service or without an
/// account there is no entry to look up, and none is found; for every other
/// pair of names the storage of the platform decides.
pub fn get_secure_storage_password(service_name: &str, account_name: &str) -> (r: Result<
    String,
    StoreError,
>)
    ensures
        !names_entry(service_name@, account_name@) ==> r matches Err(StoreError::NotFound),
{
    entry_password(service_name, account_name)
}

/// The secure storage of the platform.
pub struct Keychain;

impl SecretStore for Keychain {
    /// The password of the entry for `account` under `service`, as
    /// [`get_secure_storage_password`] retrieves it.
    fn get_secret(&self, service: &str, account: &str) -> (r: Result<String, StoreError>)
        ensures
            !names_entry(service@, account@) ==> r matches Err(StoreError::NotFound),
    {
        get_secure_storage_password(service, account)
    }
}

/// Retrieves the password under `service_name` from the secure storage of
/// the platform: first for the account `Signal Key`, and where that fails for
/// the account `Signal`. The only error is that both lookups failed.
pub fn get_secure_password_fallback(service_name: &str) -> (r: Result<String, ResolveError>)
    ensures
        r matches Err(e) ==> e == ResolveError::SecretUnavailable,
        exists|primary: &str, fallback: &str|
            primary@ == "Signal Key"@ && fallback@ == "Signal"@ && #[trigger] looked_up(
                &Keychain,
                service_name,
                primary,
                fallback,
                r,
            ),
{
    lookup_with_fallback(&Keychain, service_name, primary_account(), fallback_account())
}

} // verus!
