use vstd::prelude::*;
use crate::account::MinecraftAccount;

verus! {

/// Request to bind a Minecraft account to an owner.
#[derive(Debug, Clone)]
pub struct AddRequest {
    pub user_id: Option<String>,
    pub deprecated_discord_id: Option<String>,
    pub minecraft_username: String,
    pub minecraft_uuid: Option<String>,
    pub first_name: String,
}

/// Request to remove a binding, named by identifier or by legacy username.
#[derive(Debug, Clone)]
pub struct RemoveRequest {
    /// The caller's owner key, matched against both stored owner keys.
    pub user_id: String,
    pub minecraft_uuid: Option<String>,
    pub deprecated_minecraft_username: Option<String>,
}

/// Request to fetch one binding by identifier.
#[derive(Debug, Clone)]
pub struct GetRequest {
    pub minecraft_uuid: String,
}

/// Request to list the bindings of an owner key.
#[derive(Debug, Clone)]
pub struct ListRequest {
    pub user_id: String,
}

/// Reply to an add or remove request.
#[derive(Debug, Clone)]
pub struct ChangeResponse {
    pub success: bool,
    pub error_message: Option<String>,
    pub account: Option<MinecraftAccount>,
}

/// Reply to a get request.
#[derive(Debug, Clone)]
pub struct GetResponse {
    pub account_found: bool,
    pub account: Option<MinecraftAccount>,
}

/// Reply to a list request.
#[derive(Debug, Clone)]
pub struct ListResponse {
    pub user_id: String,
    pub accounts: Vec<MinecraftAccount>,
}

/// Kind of change announced on the change topic.
#[derive(Debug, Clone, Copy, PartialEq, Eq, Structural)]
pub enum ChangeType {
    Added,
    Removed,
}

/// Change notification published after a successful add or remove.
#[derive(Debug, Clone)]
pub struct AccountChanged {
    pub user_id: Option<String>,
    pub deprecated_discord_id: Option<String>,
    pub change: ChangeType,
    pub account: MinecraftAccount,
}

/// What the external name lookup answered.
#[derive(Debug, Clone)]
pub enum LookupOutcome {
    Found(String),
    NotFound,
    RateLimited,
    Failed,
}

/// A store operation failed; the details stay with the program that ran it.
#[derive(Debug, Clone)]
pub struct StoreFailure;

/// Why the store did not create a binding.
#[derive(Debug, Clone, Copy, PartialEq, Eq, Structural)]
pub enum CreateFailure {
    /// The identifier is already bound (the store's uniqueness constraint).
    Conflict,
    /// Any other store failure.
    Store,
}

/// Why a mutation request was refused. Each reason has one caller-facing message.
#[derive(Debug, Clone, Copy, PartialEq, Eq, Structural)]
pub enum Failure {
    NotFound,
    LookupOverloaded,
    LookupFailed,
    AlreadyRegistered,
    CreateFailed,
    UnknownAccount,
    RemoveFailed,
    /// An add request with neither identifier nor username.
    MissingAccount,
    /// An add request with neither a user key nor a discord key.
    MissingOwner,
}

impl Failure {
    pub open spec fn message(self) -> Seq<char> {
        match self {
            Failure::NotFound => "Minecraft Account was not found"@,
            Failure::LookupOverloaded => "Minecraft Account Lookup is overload, please try again in a minute"@,
            Failure::LookupFailed => "Unknown error when looking up username"@,
            Failure::AlreadyRegistered => "Minecraft Account is already registered."@,
            Failure::CreateFailed => "Internal Error creating account."@,
            Failure::UnknownAccount => "Unknown minecraft account."@,
            Failure::RemoveFailed => "Internal Error removing account."@,
            Failure::MissingAccount => "A Minecraft username or UUID is required."@,
            Failure::MissingOwner => "An owner id is required."@,
        }
    }

    /// The caller-facing message of this reason.
    pub fn message_text(&self) -> (r: String)
        ensures
            r@ == self.message(),
    {
        match self {
            Failure::NotFound => "Minecraft Account was not found".to_owned(),
            Failure::LookupOverloaded => "Minecraft Account Lookup is overload, please try again in a minute".to_owned(),
            Failure::LookupFailed => "Unknown error when looking up username".to_owned(),
            Failure::AlreadyRegistered => "Minecraft Account is already registered.".to_owned(),
            Failure::CreateFailed => "Internal Error creating account.".to_owned(),
            Failure::UnknownAccount => "Unknown minecraft account.".to_owned(),
            Failure::RemoveFailed => "Internal Error removing account.".to_owned(),
            Failure::MissingAccount => "A Minecraft username or UUID is required.".to_owned(),
            Failure::MissingOwner => "An owner id is required.".to_owned(),
        }
    }
}

/// The failure reply for a refused mutation: not successful, no account, and
/// the reason's message.
pub fn failure_response(f: &Failure) -> (r: ChangeResponse)
    ensures
        !r.success,
        r.account is None,
        r.error_message matches Some(m) && m@ == f.message(),
{
    ChangeResponse { success: false, error_message: Some(f.message_text()), account: None }
}

/// The HTTP status the lookup service uses for a found name.
pub const STATUS_OK: u16 = 200;

/// The HTTP status the lookup service uses for an unknown name.
pub const STATUS_NOT_FOUND: u16 = 404;

/// The HTTP status the lookup service uses when it is rate limiting.
pub const STATUS_TOO_MANY_REQUESTS: u16 = 429;

/// Classifies the lookup service's answer from its status code and, for a
/// readable body, the identifier the body holds.
pub fn lookup_outcome(status: u16, id: Option<String>) -> (r: LookupOutcome)
    ensures
        status == STATUS_OK ==> r == match id {
            Some(i) => LookupOutcome::Found(i),
            None => LookupOutcome::Failed,
        },
        status == STATUS_NOT_FOUND ==> r is NotFound,
        status == STATUS_TOO_MANY_REQUESTS ==> r is RateLimited,
        status != STATUS_OK && status != STATUS_NOT_FOUND && status != STATUS_TOO_MANY_REQUESTS
            ==> r is Failed,
{
    if status == STATUS_OK {
        match id {
            Some(i) => LookupOutcome::Found(i),
            None => LookupOutcome::Failed,
        }
    } else if status == STATUS_NOT_FOUND {
        LookupOutcome::NotFound
    } else if status == STATUS_TOO_MANY_REQUESTS {
        LookupOutcome::RateLimited
    } else {
        LookupOutcome::Failed
    }
}

} // verus!
