use vstd::prelude::*;
use vstd::string::*;

verus! {

/// Service identifier under which the secret is filed in the OS vault.
pub const SERVICE_NAME: &'static str = "ClaudeFlow";

/// Account identifier of the single credential slot.
pub const API_KEY_ACCOUNT: &'static str = "claude_api_key";

/// keyring's `Entry`, a handle on one platform credential, carried opaquely.
#[verifier::external_type_specification]
#[verifier::external_body]
pub struct ExEntry(keyring::Entry);

/// keyring's `Error`, carried opaquely until `vault_failure_of` classifies it.
#[verifier::external_type_specification]
#[verifier::external_body]
pub struct ExKeyringError(keyring::Error);

/// Relies on keyring's `Entry::new`: resolves the platform credential for a service and user.
/// It panics only if the crate's internal builder lock is poisoned.
pub assume_specification[ keyring::Entry::new ](service: &str, user: &str) -> keyring::Result<
    keyring::Entry,
>;

/// Relies on keyring's `Entry::set_password`: stores the password in the platform vault.
pub assume_specification[ keyring::Entry::set_password ](
    entry: &keyring::Entry,
    password: &str,
) -> keyring::Result<()>;

/// Relies on keyring's `Entry::get_password`: reads the stored password back.
pub assume_specification[ keyring::Entry::get_password ](entry: &keyring::Entry) -> keyring::Result<
    String,
>;

/// Relies on keyring's `Entry::delete_credential`: removes the stored credential.
pub assume_specification[ keyring::Entry::delete_credential ](
    entry: &keyring::Entry,
) -> keyring::Result<()>;

/// Kind of failure reported by the credential operations.
#[derive(Clone, Copy, Debug, PartialEq, Eq, Structural)]
pub enum ApiKeyErrorKind {
    /// No secret is stored in the slot.
    NotFound,
    /// The vault could not be opened, read or written.
    Vault,
    /// The remote endpoint rejected the secret.
    InvalidCredential,
    /// The remote endpoint answered with an unexpected status.
    Api(u16),
    /// The remote endpoint could not be reached.
    Network,
}

/// Error of the credential operations: a kind the caller can branch on, and a readable message.
#[derive(Clone, Debug)]
pub struct ApiKeyError {
    pub kind: ApiKeyErrorKind,
    pub message: String,
}

impl ApiKeyError {
    pub fn new(kind: ApiKeyErrorKind, message: String) -> (r: ApiKeyError)
        ensures
            r.kind == kind,
            r.message@ == message@,
    {
        ApiKeyError { kind, message }
    }

    pub fn kind(&self) -> (r: ApiKeyErrorKind)
        ensures
            r == self.kind,
    {
        self.kind
    }

    pub fn message(&self) -> (r: String)
        ensures
            r@ == self.message@,
    {
        self.message.clone()
    }
}

/// A vault failure, as far as this library tells failures apart.
#[derive(Clone, Debug)]
pub enum VaultFailure {
    /// The vault holds no credential for the entry.
    NoEntry,
    /// Any other failure, with the vault's description of it.
    Other(String),
}

/// Relies on keyring's `Error`: `NoEntry` is the variant for a missing credential; every
/// other variant is kept as its displayed text.
#[verifier::external_body]
fn vault_failure_of(e: keyring::Error) -> (r: VaultFailure) {
    match e {
        keyring::Error::NoEntry => VaultFailure::NoEntry,
        other => VaultFailure::Other(other.to_string()),
    }
}

/// What the vault answered to one request, seen abstractly.
pub enum Answer<T> {
    /// The request succeeded with this value.
    Value(T),
    /// The vault holds no credential for the entry.
    NoEntry,
    /// The vault failed for another reason.
    Failed,
}

/// The abstract answer to a read.
pub open spec fn read_answer(r: Result<String, VaultFailure>) -> Answer<Seq<char>> {
    match r {
        Ok(s) => Answer::Value(s@),
        Err(VaultFailure::NoEntry) => Answer::NoEntry,
        Err(VaultFailure::Other(_)) => Answer::Failed,
    }
}

/// The abstract answer to a write or a removal.
pub open spec fn ack_answer(r: Result<(), VaultFailure>) -> Answer<()> {
    match r {
        Ok(_) => Answer::Value(()),
        Err(VaultFailure::NoEntry) => Answer::NoEntry,
        Err(VaultFailure::Other(_)) => Answer::Failed,
    }
}

/// Result of `get_api_key` for a read answer.
pub open spec fn get_spec(a: Answer<Seq<char>>) -> Result<Seq<char>, ApiKeyErrorKind> {
    match a {
        Answer::Value(s) => Ok(s),
        Answer::NoEntry => Err(ApiKeyErrorKind::NotFound),
        Answer::Failed => Err(ApiKeyErrorKind::Vault),
    }
}

/// Result of `has_api_key` for a read answer.
pub open spec fn has_spec(a: Answer<Seq<char>>) -> Result<bool, ApiKeyErrorKind> {
    match a {
        Answer::Value(_) => Ok(true),
        Answer::NoEntry => Ok(false),
        Answer::Failed => Err(ApiKeyErrorKind::Vault),
    }
}

/// Result of `save_api_key` for a write answer: every failure is a vault failure.
pub open spec fn save_spec(a: Answer<()>) -> Result<(), ApiKeyErrorKind> {
    match a {
        Answer::Value(_) => Ok(()),
        _ => Err(ApiKeyErrorKind::Vault),
    }
}

/// Result of `delete_api_key` for a removal answer: a missing credential is already deleted.
pub open spec fn delete_spec(a: Answer<()>) -> Result<(), ApiKeyErrorKind> {
    match a {
        Answer::Failed => Err(ApiKeyErrorKind::Vault),
        _ => Ok(()),
    }
}

pub open spec fn secret_view(r: Result<String, ApiKeyError>) -> Result<Seq<char>, ApiKeyErrorKind> {
    match r {
        Ok(s) => Ok(s@),
        Err(e) => Err(e.kind),
    }
}

pub open spec fn flag_view(r: Result<bool, ApiKeyError>) -> Result<bool, ApiKeyErrorKind> {
    match r {
        Ok(b) => Ok(b),
        Err(e) => Err(e.kind),
    }
}

pub open spec fn unit_view(r: Result<(), ApiKeyError>) -> Result<(), ApiKeyErrorKind> {
    match r {
        Ok(_) => Ok(()),
        Err(e) => Err(e.kind),
    }
}

fn prefixed(prefix: &str, detail: &str) -> (r: String)
    ensures
        r@ == prefix@ + detail@,
{
    String::from_str(prefix).concat(detail)
}

fn failure_text(f: &VaultFailure) -> (r: String) {
    match f {
        VaultFailure::NoEntry => String::from_str("no matching entry found in secure storage"),
        VaultFailure::Other(s) => s.clone(),
    }
}

/// The error for a vault entry that could not be opened.
pub fn entry_error(f: &VaultFailure) -> (r: ApiKeyError)
    ensures
        r.kind == ApiKeyErrorKind::Vault,
{
    let detail = failure_text(f);
    ApiKeyError::new(
        ApiKeyErrorKind::Vault,
        prefixed("Failed to create keyring entry: ", detail.as_str()),
    )
}

/// Interprets the vault's answer to storing the secret.
pub fn save_outcome(answer: Result<(), VaultFailure>) -> (r: Result<(), ApiKeyError>)
    ensures
        unit_view(r) == save_spec(ack_answer(answer)),
{
    match answer {
        Ok(()) => Ok(()),
        Err(f) => {
            let detail = failure_text(&f);
            Err(
                ApiKeyError::new(
                    ApiKeyErrorKind::Vault,
                    prefixed("Failed to save API key: ", detail.as_str()),
                ),
            )
        },
    }
}

/// Interprets the vault's answer to reading the secret.
pub fn get_outcome(answer: Result<String, VaultFailure>) -> (r: Result<String, ApiKeyError>)
    ensures
        secret_view(r) == get_spec(read_answer(answer)),
{
    match answer {
        Ok(secret) => Ok(secret),
        Err(VaultFailure::NoEntry) => Err(
            ApiKeyError::new(ApiKeyErrorKind::NotFound, String::from_str("No API key found")),
        ),
        Err(VaultFailure::Other(detail)) => Err(
            ApiKeyError::new(
                ApiKeyErrorKind::Vault,
                prefixed("Failed to retrieve API key: ", detail.as_str()),
            ),
        ),
    }
}

/// Interprets the vault's answer to reading the secret as a presence check.
pub fn has_outcome(answer: Result<String, VaultFailure>) -> (r: Result<bool, ApiKeyError>)
    ensures
        flag_view(r) == has_spec(read_answer(answer)),
{
    match answer {
        Ok(_) => Ok(true),
        Err(VaultFailure::NoEntry) => Ok(false),
        Err(VaultFailure::Other(detail)) => Err(
            ApiKeyError::new(
                ApiKeyErrorKind::Vault,
                prefixed("Failed to check API key: ", detail.as_str()),
            ),
        ),
    }
}

/// Interprets the vault's answer to removing the secret.
pub fn delete_outcome(answer: Result<(), VaultFailure>) -> (r: Result<(), ApiKeyError>)
    ensures
        unit_view(r) == delete_spec(ack_answer(answer)),
{
    match answer {
        Ok(()) => Ok(()),
        Err(VaultFailure::NoEntry) => Ok(()),
        Err(VaultFailure::Other(detail)) => Err(
            ApiKeyError::new(
                ApiKeyErrorKind::Vault,
                prefixed("Failed to delete API key: ", detail.as_str()),
            ),
        ),
    }
}

fn read_report(r: keyring::Result<String>) -> (a: Result<String, VaultFailure>)
    ensures
        r is Ok ==> a is Ok && a->Ok_0@ == r->Ok_0@,
        r is Err ==> a is Err,
{
    match r {
        Ok(s) => Ok(s),
        Err(e) => Err(vault_failure_of(e)),
    }
}

fn ack_report(r: keyring::Result<()>) -> (a: Result<(), VaultFailure>)
    ensures
        r is Ok <==> a is Ok,
{
    match r {
        Ok(()) => Ok(()),
        Err(e) => Err(vault_failure_of(e)),
    }
}

/// Identity of one credential slot in the OS vault: a service and an account.
pub struct VaultSlot {
    pub service: String,
    pub account: String,
}

impl VaultSlot {
    /// The slot of this application, under the fixed service and account identifiers.
    pub fn application() -> (r: VaultSlot)
        ensures
            r.service@ == SERVICE_NAME@,
            r.account@ == API_KEY_ACCOUNT@,
    {
        VaultSlot {
            service: String::from_str(SERVICE_NAME),
            account: String::from_str(API_KEY_ACCOUNT),
        }
    }

    fn open(&self) -> (r: Result<keyring::Entry, ApiKeyError>)
        ensures
            r is Err ==> r->Err_0.kind == ApiKeyErrorKind::Vault,
    {
        match keyring::Entry::new(self.service.as_str(), self.account.as_str()) {
            Ok(entry) => Ok(entry),
            Err(e) => Err(entry_error(&vault_failure_of(e))),
        }
    }

    /// Stores `secret` in the slot, replacing any secret already there.
    pub fn save(&self, secret: &str) -> (r: Result<(), ApiKeyError>)
        ensures
            r is Err ==> r->Err_0.kind == ApiKeyErrorKind::Vault,
    {
        let entry = match self.open() {
            Ok(entry) => entry,
            Err(e) => return Err(e),
        };
        save_outcome(ack_report(entry.set_password(secret)))
    }

    /// Reads the secret from the slot.
    pub fn get(&self) -> (r: Result<String, ApiKeyError>)
        ensures
            r is Err ==> r->Err_0.kind == ApiKeyErrorKind::NotFound || r->Err_0.kind
                == ApiKeyErrorKind::Vault,
    {
        let entry = match self.open() {
            Ok(entry) => entry,
            Err(e) => return Err(e),
        };
        get_outcome(read_report(entry.get_password()))
    }

    /// Tells whether the slot holds a secret.
    pub fn has(&self) -> (r: Result<bool, ApiKeyError>)
        ensures
            r is Err ==> r->Err_0.kind == ApiKeyErrorKind::Vault,
    {
        let entry = match self.open() {
            Ok(entry) => entry,
            Err(e) => return Err(e),
        };
        has_outcome(read_report(entry.get_password()))
    }

    /// Removes the secret from the slot; a slot that is already empty is no error.
    pub fn delete(&self) -> (r: Result<(), ApiKeyError>)
        ensures
            r is Err ==> r->Err_0.kind == ApiKeyErrorKind::Vault,
    {
        let entry = match self.open() {
            Ok(entry) => entry,
            Err(e) => return Err(e),
        };
        delete_outcome(ack_report(entry.delete_credential()))
    }
}

/// Stores `api_key` in the application's slot, replacing any secret already there.
pub fn save_api_key(api_key: String) -> (r: Result<(), ApiKeyError>)
    ensures
        r is Err ==> r->Err_0.kind == ApiKeyErrorKind::Vault,
{
    VaultSlot::application().save(api_key.as_str())
}

/// Reads the secret from the application's slot.
pub fn get_api_key() -> (r: Result<String, ApiKeyError>)
    ensures
        r is Err ==> r->Err_0.kind == ApiKeyErrorKind::NotFound || r->Err_0.kind
            == ApiKeyErrorKind::Vault,
{
    VaultSlot::application().get()
}

/// Tells whether the application's slot holds a secret.
pub fn has_api_key() -> (r: Result<bool, ApiKeyError>)
    ensures
        r is Err ==> r->Err_0.kind == ApiKeyErrorKind::Vault,
{
    VaultSlot::application().has()
}

/// Removes the secret from the application's slot; an empty slot is no error.
pub fn delete_api_key() -> (r: Result<(), ApiKeyError>)
    ensures
        r is Err ==> r->Err_0.kind == ApiKeyErrorKind::Vault,
{
    VaultSlot::application().delete()
}

/// The secret a working vault holds in the slot after `save` of `secret`.
pub open spec fn slot_after_save(slot: Option<Seq<char>>, secret: Seq<char>) -> Option<Seq<char>> {
    Some(secret)
}

/// The content of the slot after `delete`.
pub open spec fn slot_after_delete(slot: Option<Seq<char>>) -> Option<Seq<char>> {
    None
}

/// What a working vault answers to a read of the slot.
pub open spec fn stored_answer(slot: Option<Seq<char>>) -> Answer<Seq<char>> {
    match slot {
        Some(s) => Answer::Value(s),
        None => Answer::NoEntry,
    }
}

/// What a working vault answers to a removal from the slot.
pub open spec fn removal_answer(slot: Option<Seq<char>>) -> Answer<()> {
    match slot {
        Some(_) => Answer::Value(()),
        None => Answer::NoEntry,
    }
}

/// Deleting twice in a row never fails on a working vault, a deleted slot reads as absent,
/// and a saved slot reads as present.
pub proof fn law_delete_is_idempotent(slot: Option<Seq<char>>, x: Seq<char>)
    ensures
        delete_spec(removal_answer(slot)) == Ok::<(), ApiKeyErrorKind>(()),
        delete_spec(removal_answer(slot_after_delete(slot))) == Ok::<(), ApiKeyErrorKind>(()),
        has_spec(stored_answer(slot_after_delete(slot))) == Ok::<bool, ApiKeyErrorKind>(false),
        has_spec(stored_answer(slot_after_save(slot, x))) == Ok::<bool, ApiKeyErrorKind>(true),
{
}

/// A second save replaces the first: reading afterwards gives the second secret.
pub proof fn law_save_overwrites(slot: Option<Seq<char>>, x: Seq<char>, y: Seq<char>)
    ensures
        get_spec(stored_answer(slot_after_save(slot_after_save(slot, x), y)))
            == Ok::<Seq<char>, ApiKeyErrorKind>(y),
{
}

/// Reading a slot that was never saved, or was deleted, fails with `NotFound`, which is
/// distinct from the failure reported when the vault itself fails.
pub proof fn law_missing_secret_is_not_found(slot: Option<Seq<char>>)
    ensures
        get_spec(stored_answer(None)) == Err::<Seq<char>, ApiKeyErrorKind>(
            ApiKeyErrorKind::NotFound,
        ),
        get_spec(stored_answer(slot_after_delete(slot))) == Err::<Seq<char>, ApiKeyErrorKind>(
            ApiKeyErrorKind::NotFound,
        ),
        get_spec(Answer::Failed) != get_spec(stored_answer(None)),
{
}

} // verus!
