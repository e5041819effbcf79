use minecraft_accounts::account::{account_from_row, AccountRow, MinecraftAccount};
use minecraft_accounts::add::{AddAction, AddEvent, AddState};
use minecraft_accounts::messages::{
    failure_response, lookup_outcome, AddRequest, ChangeType, CreateFailure, Failure, LookupOutcome,
    RemoveRequest, StoreFailure,
};
use minecraft_accounts::remove::{caller_owns, RemoveAction, RemoveEvent, RemoveState};

fn s(v: &str) -> String {
    v.to_string()
}

fn add_request(user: Option<&str>, discord: Option<&str>, name: &str, uuid: Option<&str>) -> AddRequest {
    AddRequest {
        user_id: user.map(s),
        deprecated_discord_id: discord.map(s),
        minecraft_username: s(name),
        minecraft_uuid: uuid.map(s),
        first_name: s("Alex"),
    }
}

fn remove_request(caller: &str, uuid: Option<&str>, name: Option<&str>) -> RemoveRequest {
    RemoveRequest {
        user_id: s(caller),
        minecraft_uuid: uuid.map(s),
        deprecated_minecraft_username: name.map(s),
    }
}

fn account(uuid: &str, name: &str, is_main: bool) -> MinecraftAccount {
    MinecraftAccount {
        minecraft_uuid: s(uuid),
        minecraft_username: s(name),
        is_main,
        deprecated_first_name: s("Alex"),
    }
}

fn failure_of_add(a: &AddAction) -> Failure {
    match a {
        AddAction::Fail(f) => *f,
        other => panic!("expected a failure, got {:?}", other),
    }
}

fn failure_of_remove(a: &RemoveAction) -> Failure {
    match a {
        RemoveAction::Fail(f) => *f,
        other => panic!("expected a failure, got {:?}", other),
    }
}

fn message_of(f: Failure) -> String {
    let r = failure_response(&f);
    assert!(!r.success);
    assert!(r.account.is_none());
    r.error_message.unwrap()
}

#[test]
fn add_unknown_name_is_refused() {
    let (st, act) = AddState::start(add_request(Some("userA"), None, "Steve", None));
    assert!(matches!(&act, AddAction::Lookup(n) if n == "Steve"));
    let (st, act) = st.step(AddEvent::Looked(LookupOutcome::NotFound));
    assert!(matches!(st, AddState::Done));
    let f = failure_of_add(&act);
    assert_eq!(f, Failure::NotFound);
    assert_eq!(message_of(f), "Minecraft Account was not found");
}

#[test]
fn add_registered_identifier_is_refused() {
    let (st, act) = AddState::start(add_request(Some("userA"), None, "Steve", Some("abc-123")));
    assert!(matches!(&act, AddAction::CheckExists(u) if u == "abc-123"));
    let (st, act) = st.step(AddEvent::Exists(Ok(true)));
    assert!(matches!(st, AddState::Done));
    let f = failure_of_add(&act);
    assert_eq!(f, Failure::AlreadyRegistered);
    assert_eq!(message_of(f), "Minecraft Account is already registered.");
}

#[test]
fn add_lookup_overloaded_and_failed() {
    let (st, _) = AddState::start(add_request(Some("u"), None, "Steve", None));
    let (_, act) = st.step(AddEvent::Looked(LookupOutcome::RateLimited));
    assert_eq!(
        message_of(failure_of_add(&act)),
        "Minecraft Account Lookup is overload, please try again in a minute"
    );
    let (st, _) = AddState::start(add_request(Some("u"), None, "Steve", None));
    let (_, act) = st.step(AddEvent::Looked(LookupOutcome::Failed));
    assert_eq!(message_of(failure_of_add(&act)), "Unknown error when looking up username");
}

#[test]
fn add_first_binding_runs_whole_protocol_and_is_main() {
    let (st, _) = AddState::start(add_request(Some("userA"), None, "Steve", None));
    let (st, act) = st.step(AddEvent::Looked(LookupOutcome::Found(s("uuid-1"))));
    assert!(matches!(&act, AddAction::CheckExists(u) if u == "uuid-1"));
    let (st, act) = st.step(AddEvent::Exists(Ok(false)));
    match &act {
        AddAction::CountOwned(user, discord) => {
            assert_eq!(user.as_deref(), Some("userA"));
            assert_eq!(discord.as_deref(), None);
        },
        other => panic!("unexpected {:?}", other),
    }
    let (st, act) = st.step(AddEvent::Owned(Ok(false)));
    assert!(matches!(&act, AddAction::Whitelist(u) if u == "uuid-1"));
    let (st, act) = st.step(AddEvent::Whitelisted);
    let created = match act {
        AddAction::Create(user, discord, acc) => {
            assert_eq!(user.as_deref(), Some("userA"));
            assert!(discord.is_none());
            assert_eq!(acc.minecraft_uuid, "uuid-1");
            assert_eq!(acc.minecraft_username, "Steve");
            assert_eq!(acc.deprecated_first_name, "Alex");
            assert!(acc.is_main);
            acc
        },
        other => panic!("unexpected {:?}", other),
    };
    let (st, act) = st.step(AddEvent::Created(Ok(created)));
    assert!(matches!(st, AddState::Done));
    match act {
        AddAction::Succeed(resp, change) => {
            assert!(resp.success);
            assert!(resp.error_message.is_none());
            let stored = resp.account.unwrap();
            assert_eq!(stored.minecraft_uuid, "uuid-1");
            assert_eq!(stored.minecraft_username, "Steve");
            assert_eq!(change.change, ChangeType::Added);
            assert_eq!(change.user_id.as_deref(), Some("userA"));
            assert!(change.deprecated_discord_id.is_none());
            assert_eq!(change.account.minecraft_uuid, "uuid-1");
            assert!(change.account.is_main);
        },
        other => panic!("unexpected {:?}", other),
    }
}

#[test]
fn add_second_binding_is_not_main() {
    let (st, _) = AddState::start(add_request(None, Some("disc-1"), "Alex", Some("uuid-2")));
    let (st, _) = st.step(AddEvent::Exists(Ok(false)));
    let (st, _) = st.step(AddEvent::Owned(Ok(true)));
    let (_, act) = st.step(AddEvent::Whitelisted);
    match act {
        AddAction::Create(user, discord, acc) => {
            assert!(user.is_none());
            assert_eq!(discord.as_deref(), Some("disc-1"));
            assert!(!acc.is_main);
        },
        other => panic!("unexpected {:?}", other),
    }
}

#[test]
fn add_store_failures_give_internal_error() {
    let (st, _) = AddState::start(add_request(Some("u"), None, "Steve", Some("x")));
    let (_, act) = st.step(AddEvent::Exists(Err(StoreFailure)));
    assert_eq!(failure_of_add(&act), Failure::CreateFailed);

    let (st, _) = AddState::start(add_request(Some("u"), None, "Steve", Some("x")));
    let (st, _) = st.step(AddEvent::Exists(Ok(false)));
    let (_, act) = st.step(AddEvent::Owned(Err(StoreFailure)));
    assert_eq!(failure_of_add(&act), Failure::CreateFailed);

    let (st, _) = AddState::start(add_request(Some("u"), None, "Steve", Some("x")));
    let (st, _) = st.step(AddEvent::Exists(Ok(false)));
    let (st, _) = st.step(AddEvent::Owned(Ok(false)));
    let (st, _) = st.step(AddEvent::Whitelisted);
    let (_, act) = st.step(AddEvent::Created(Err(CreateFailure::Store)));
    let f = failure_of_add(&act);
    assert_eq!(f, Failure::CreateFailed);
    assert_eq!(message_of(f), "Internal Error creating account.");
}

#[test]
fn add_state_accepts_only_its_event() {
    let (st, _) = AddState::start(add_request(Some("u"), None, "Steve", None));
    assert!(st.accepts(&AddEvent::Looked(LookupOutcome::NotFound)));
    assert!(!st.accepts(&AddEvent::Whitelisted));
    let (done, _) = st.step(AddEvent::Looked(LookupOutcome::NotFound));
    assert!(!done.accepts(&AddEvent::Whitelisted));
}

#[test]
fn remove_by_non_owner_is_refused() {
    let (st, act) = RemoveState::start(remove_request("userA", Some("abc-123"), None));
    assert!(matches!(&act, RemoveAction::FindOwner(u) if u == "abc-123"));
    let (st, act) = st.step(RemoveEvent::OwnerFound(Ok((Some(s("userB")), None))));
    assert!(matches!(st, RemoveState::Done));
    let f = failure_of_remove(&act);
    assert_eq!(f, Failure::UnknownAccount);
    assert_eq!(message_of(f), "Unknown minecraft account.");
}

#[test]
fn remove_unknown_identifier_looks_like_foreign_one() {
    let (st, _) = RemoveState::start(remove_request("userA", Some("nope"), None));
    let (_, act) = st.step(RemoveEvent::OwnerFound(Ok((None, None))));
    assert_eq!(failure_of_remove(&act), Failure::UnknownAccount);
}

#[test]
fn remove_without_target_is_refused() {
    let (st, act) = RemoveState::start(remove_request("userA", None, None));
    assert!(matches!(st, RemoveState::Done));
    assert_eq!(failure_of_remove(&act), Failure::UnknownAccount);

    let (st, act) = RemoveState::start(remove_request("userA", None, Some("Steve")));
    assert!(matches!(&act, RemoveAction::FindName(n) if n == "Steve"));
    let (_, act) = st.step(RemoveEvent::NameFound(Ok(None)));
    assert_eq!(failure_of_remove(&act), Failure::UnknownAccount);
}

#[test]
fn remove_by_legacy_name_runs_whole_protocol() {
    let (st, _) = RemoveState::start(remove_request("userA", None, Some("Steve")));
    let (st, act) = st.step(RemoveEvent::NameFound(Ok(Some(s("abc")))));
    assert!(matches!(&act, RemoveAction::FindOwner(u) if u == "abc"));
    let (st, act) = st.step(RemoveEvent::OwnerFound(Ok((None, Some(s("userA"))))));
    assert!(matches!(&act, RemoveAction::Fetch(u) if u == "abc"));
    let (st, act) = st.step(RemoveEvent::Fetched(Ok(Some(account("abc", "Steve", true)))));
    assert!(matches!(&act, RemoveAction::Unwhitelist(u) if u == "abc"));
    let (st, act) = st.step(RemoveEvent::Unwhitelisted);
    assert!(matches!(&act, RemoveAction::Delete(u) if u == "abc"));
    let (st, act) = st.step(RemoveEvent::Deleted(Ok(true)));
    assert!(matches!(st, RemoveState::Done));
    match act {
        RemoveAction::Succeed(resp, change) => {
            assert!(resp.success);
            assert!(resp.error_message.is_none());
            assert!(resp.account.is_none());
            assert_eq!(change.change, ChangeType::Removed);
            assert!(change.user_id.is_none());
            assert_eq!(change.deprecated_discord_id.as_deref(), Some("userA"));
            assert_eq!(change.account.minecraft_uuid, "abc");
            assert_eq!(change.account.minecraft_username, "Steve");
            assert!(change.account.is_main);
        },
        other => panic!("unexpected {:?}", other),
    }
}

#[test]
fn remove_failures() {
    let (st, _) = RemoveState::start(remove_request("userA", Some("abc"), None));
    let (st, _) = st.step(RemoveEvent::OwnerFound(Ok((Some(s("userA")), None))));
    let (_, act) = st.step(RemoveEvent::Fetched(Ok(None)));
    assert_eq!(failure_of_remove(&act), Failure::UnknownAccount);

    let (st, _) = RemoveState::start(remove_request("userA", Some("abc"), None));
    let (_, act) = st.step(RemoveEvent::OwnerFound(Err(StoreFailure)));
    assert_eq!(failure_of_remove(&act), Failure::RemoveFailed);

    let (st, _) = RemoveState::start(remove_request("userA", None, Some("n")));
    let (_, act) = st.step(RemoveEvent::NameFound(Err(StoreFailure)));
    assert_eq!(failure_of_remove(&act), Failure::RemoveFailed);

    let (st, _) = RemoveState::start(remove_request("userA", Some("abc"), None));
    let (st, _) = st.step(RemoveEvent::OwnerFound(Ok((Some(s("userA")), None))));
    let (st, _) = st.step(RemoveEvent::Fetched(Ok(Some(account("abc", "Steve", false)))));
    let (st, _) = st.step(RemoveEvent::Unwhitelisted);
    let (_, act) = st.step(RemoveEvent::Deleted(Err(StoreFailure)));
    let f = failure_of_remove(&act);
    assert_eq!(f, Failure::RemoveFailed);
    assert_eq!(message_of(f), "Internal Error removing account.");
}

#[test]
fn caller_owns_matches_either_key() {
    assert!(caller_owns(&Some(s("a")), &None, &s("a")));
    assert!(caller_owns(&None, &Some(s("a")), &s("a")));
    assert!(caller_owns(&Some(s("b")), &Some(s("a")), &s("a")));
    assert!(!caller_owns(&Some(s("b")), &Some(s("c")), &s("a")));
    assert!(!caller_owns(&None, &None, &s("a")));
}

#[test]
fn lookup_outcome_by_status() {
    assert!(matches!(lookup_outcome(200, Some(s("id-1"))), LookupOutcome::Found(i) if i == "id-1"));
    assert!(matches!(lookup_outcome(200, None), LookupOutcome::Failed));
    assert!(matches!(lookup_outcome(404, None), LookupOutcome::NotFound));
    assert!(matches!(lookup_outcome(429, Some(s("x"))), LookupOutcome::RateLimited));
    assert!(matches!(lookup_outcome(500, Some(s("x"))), LookupOutcome::Failed));
    assert!(matches!(lookup_outcome(204, None), LookupOutcome::Failed));
}

#[test]
fn account_from_row_defaults_first_name() {
    let row = AccountRow {
        id: 7,
        discord_id: None,
        user_id: Some(s("u")),
        minecraft_uuid: s("abc"),
        minecraft_username: s("Steve"),
        is_main: true,
        first_name: None,
    };
    let a = account_from_row(row.clone());
    assert_eq!(a.minecraft_uuid, "abc");
    assert_eq!(a.minecraft_username, "Steve");
    assert!(a.is_main);
    assert_eq!(a.deprecated_first_name, "Deprecated");
    let named = AccountRow { first_name: Some(s("Bob")), ..row };
    assert_eq!(account_from_row(named).deprecated_first_name, "Bob");
}

#[test]
fn failure_messages() {
    assert_eq!(message_of(Failure::NotFound), "Minecraft Account was not found");
    assert_eq!(message_of(Failure::AlreadyRegistered), "Minecraft Account is already registered.");
    assert_eq!(message_of(Failure::UnknownAccount), "Unknown minecraft account.");
    assert_eq!(message_of(Failure::CreateFailed), "Internal Error creating account.");
    assert_eq!(message_of(Failure::RemoveFailed), "Internal Error removing account.");
}

#[test]
fn add_without_owner_is_refused() {
    let (st, act) = AddState::start(add_request(None, None, "Steve", Some("abc")));
    assert!(matches!(st, AddState::Done));
    let f = failure_of_add(&act);
    assert_eq!(f, Failure::MissingOwner);
    assert_eq!(message_of(f), "An owner id is required.");
}

#[test]
fn add_without_identifier_or_name_is_refused() {
    let (st, act) = AddState::start(add_request(Some("userA"), None, "", None));
    assert!(matches!(st, AddState::Done));
    let f = failure_of_add(&act);
    assert_eq!(f, Failure::MissingAccount);
    assert_eq!(message_of(f), "A Minecraft username or UUID is required.");
    let (_, act) = AddState::start(add_request(Some("userA"), None, "", Some("abc")));
    assert!(matches!(&act, AddAction::CheckExists(u) if u == "abc"));
}

#[test]
fn racing_add_refused_at_create_is_already_registered() {
    let (st, _) = AddState::start(add_request(Some("userA"), None, "Steve", Some("abc-123")));
    let (st, _) = st.step(AddEvent::Exists(Ok(false)));
    let (st, _) = st.step(AddEvent::Owned(Ok(false)));
    let (st, _) = st.step(AddEvent::Whitelisted);
    let (st, act) = st.step(AddEvent::Created(Err(CreateFailure::Conflict)));
    assert!(matches!(st, AddState::Done));
    let f = failure_of_add(&act);
    assert_eq!(f, Failure::AlreadyRegistered);
    assert_eq!(message_of(f), "Minecraft Account is already registered.");
}

#[test]
fn remove_that_deleted_nothing_publishes_nothing() {
    let (st, _) = RemoveState::start(remove_request("userA", Some("abc"), None));
    let (st, _) = st.step(RemoveEvent::OwnerFound(Ok((Some(s("userA")), None))));
    let (st, _) = st.step(RemoveEvent::Fetched(Ok(Some(account("abc", "Steve", true)))));
    let (st, _) = st.step(RemoveEvent::Unwhitelisted);
    let (st, act) = st.step(RemoveEvent::Deleted(Ok(false)));
    assert!(matches!(st, RemoveState::Done));
    assert_eq!(failure_of_remove(&act), Failure::UnknownAccount);
}
