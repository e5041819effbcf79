use vstd::prelude::*;
use crate::account::MinecraftAccount;
use crate::messages::{
    AccountChanged, ChangeResponse, ChangeType, Failure, RemoveRequest, StoreFailure,
};
use crate::table::{
    delete_uuid, find_binding, holds_uuid, key_is, lemma_find_none, owner_of,
    table_wf, uuid_of_name, Binding,
};

verus! {

/// Where a remove request stands: what the handler waits for next.
#[derive(Debug)]
pub enum RemoveState {
    /// Waiting for the identifier stored under the legacy username.
    AwaitName(RemoveRequest),
    /// Waiting for the owner keys stored with the identifier.
    AwaitOwner(RemoveRequest, String),
    /// Waiting for the binding itself; the caller owns it.
    AwaitFetch(String, Option<String>, Option<String>),
    /// Waiting for the whitelist service to answer.
    AwaitWhitelist(String, Option<String>, Option<String>, MinecraftAccount),
    /// Waiting for the store to delete the binding.
    AwaitDelete(Option<String>, Option<String>, MinecraftAccount),
    Done,
}

/// What the program hands back after performing a remove action.
#[derive(Debug)]
pub enum RemoveEvent {
    NameFound(Result<Option<String>, StoreFailure>),
    /// The stored owner keys, user first; both absent for an unknown identifier.
    OwnerFound(Result<(Option<String>, Option<String>), StoreFailure>),
    Fetched(Result<Option<MinecraftAccount>, StoreFailure>),
    /// The whitelist service answered (any answer counts).
    Unwhitelisted,
    /// Whether exactly one row went.
    Deleted(Result<bool, StoreFailure>),
}

/// What the remove handler asks the program to do next.
#[derive(Debug)]
pub enum RemoveAction {
    /// Ask the store for the identifier stored under a legacy username.
    FindName(String),
    /// Ask the store for the owner keys of an identifier.
    FindOwner(String),
    /// Ask the store for the binding of an identifier.
    Fetch(String),
    /// Ask the whitelist service to drop the identifier.
    Unwhitelist(String),
    /// Ask the store to delete the binding of an identifier.
    Delete(String),
    /// Reply with this failure; publish nothing.
    Fail(Failure),
    /// Reply with the response, then publish the change.
    Succeed(ChangeResponse, AccountChanged),
}

impl RemoveAction {
    pub open spec fn is_final(self) -> bool {
        self is Fail || self is Succeed
    }
}

/// Whether the caller key `caller` is one of the stored owner keys.
pub open spec fn owns(user: Option<String>, discord: Option<String>, caller: Seq<char>) -> bool {
    key_is(user, caller) || key_is(discord, caller)
}

/// First step: go by the identifier, else by the legacy username, else refuse.
pub open spec fn remove_begin(req: RemoveRequest) -> (RemoveState, RemoveAction) {
    match req.minecraft_uuid {
        Some(u) => (RemoveState::AwaitOwner(req, u), RemoveAction::FindOwner(u)),
        None => match req.deprecated_minecraft_username {
            Some(n) => (RemoveState::AwaitName(req), RemoveAction::FindName(n)),
            None => (RemoveState::Done, RemoveAction::Fail(Failure::UnknownAccount)),
        },
    }
}

/// Whether `e` is the kind of event state `s` waits for.
pub open spec fn remove_accepts(s: RemoveState, e: RemoveEvent) -> bool {
    match s {
        RemoveState::AwaitName(_) => e is NameFound,
        RemoveState::AwaitOwner(_, _) => e is OwnerFound,
        RemoveState::AwaitFetch(_, _, _) => e is Fetched,
        RemoveState::AwaitWhitelist(_, _, _, _) => e is Unwhitelisted,
        RemoveState::AwaitDelete(_, _, _) => e is Deleted,
        RemoveState::Done => false,
    }
}

/// The remove handler's transitions: an unknown name or identifier, and an
/// identifier the caller does not own, end alike in `UnknownAccount`; a store
/// failure ends in `RemoveFailed`; otherwise the binding is fetched, the
/// whitelist is asked, the store deletes, and, when a row went (a racing
/// remove may have taken it first, which ends in `UnknownAccount`), the
/// reply is a success followed
/// by a `Removed` change that carries the binding as it was before deletion.
pub open spec fn remove_next(s: RemoveState, e: RemoveEvent) -> (RemoveState, RemoveAction) {
    match s {
        RemoveState::AwaitName(req) => match e {
            RemoveEvent::NameFound(Ok(Some(u))) => (
                RemoveState::AwaitOwner(req, u),
                RemoveAction::FindOwner(u),
            ),
            RemoveEvent::NameFound(Ok(None)) => (
                RemoveState::Done,
                RemoveAction::Fail(Failure::UnknownAccount),
            ),
            _ => (RemoveState::Done, RemoveAction::Fail(Failure::RemoveFailed)),
        },
        RemoveState::AwaitOwner(req, u) => match e {
            RemoveEvent::OwnerFound(Ok((user, discord))) => if owns(user, discord, req.user_id@) {
                (RemoveState::AwaitFetch(u, user, discord), RemoveAction::Fetch(u))
            } else {
                (RemoveState::Done, RemoveAction::Fail(Failure::UnknownAccount))
            },
            _ => (RemoveState::Done, RemoveAction::Fail(Failure::RemoveFailed)),
        },
        RemoveState::AwaitFetch(u, user, discord) => match e {
            RemoveEvent::Fetched(Ok(Some(acc))) => (
                RemoveState::AwaitWhitelist(u, user, discord, acc),
                RemoveAction::Unwhitelist(u),
            ),
            RemoveEvent::Fetched(Ok(None)) => (
                RemoveState::Done,
                RemoveAction::Fail(Failure::UnknownAccount),
            ),
            _ => (RemoveState::Done, RemoveAction::Fail(Failure::RemoveFailed)),
        },
        RemoveState::AwaitWhitelist(u, user, discord, acc) => (
            RemoveState::AwaitDelete(user, discord, acc),
            RemoveAction::Delete(u),
        ),
        RemoveState::AwaitDelete(user, discord, acc) => match e {
            RemoveEvent::Deleted(Ok(false)) => (
                RemoveState::Done,
                RemoveAction::Fail(Failure::UnknownAccount),
            ),
            RemoveEvent::Deleted(Ok(true)) => (
                RemoveState::Done,
                RemoveAction::Succeed(
                    ChangeResponse { success: true, error_message: None, account: None },
                    AccountChanged {
                        user_id: user,
                        deprecated_discord_id: discord,
                        change: ChangeType::Removed,
                        account: acc,
                    },
                ),
            ),
            _ => (RemoveState::Done, RemoveAction::Fail(Failure::RemoveFailed)),
        },
        RemoveState::Done => (RemoveState::Done, RemoveAction::Fail(Failure::RemoveFailed)),
    }
}

/// Whether the caller key is one of the stored owner keys.
pub fn caller_owns(user: &Option<String>, discord: &Option<String>, caller: &String) -> (r: bool)
    ensures
        r == owns(*user, *discord, caller@),
{
    let by_user = match user {
        Some(k) => *k == *caller,
        None => false,
    };
    let by_discord = match discord {
        Some(k) => *k == *caller,
        None => false,
    };
    by_user || by_discord
}

impl RemoveState {
    /// Starts handling a remove request.
    pub fn start(req: RemoveRequest) -> (r: (RemoveState, RemoveAction))
        ensures
            r == remove_begin(req),
    {
        match &req.minecraft_uuid {
            Some(u) => {
                let u1 = u.clone();
                let u2 = u.clone();
                (RemoveState::AwaitOwner(req, u1), RemoveAction::FindOwner(u2))
            },
            None => match &req.deprecated_minecraft_username {
                Some(n) => {
                    let n1 = n.clone();
                    (RemoveState::AwaitName(req), RemoveAction::FindName(n1))
                },
                None => (RemoveState::Done, RemoveAction::Fail(Failure::UnknownAccount)),
            },
        }
    }

    /// Whether this state waits for an event of the kind of `e`.
    pub fn accepts(&self, e: &RemoveEvent) -> (r: bool)
        ensures
            r == remove_accepts(*self, *e),
    {
        match self {
            RemoveState::AwaitName(_) => matches!(e, RemoveEvent::NameFound(_)),
            RemoveState::AwaitOwner(_, _) => matches!(e, RemoveEvent::OwnerFound(_)),
            RemoveState::AwaitFetch(_, _, _) => matches!(e, RemoveEvent::Fetched(_)),
            RemoveState::AwaitWhitelist(_, _, _, _) => matches!(e, RemoveEvent::Unwhitelisted),
            RemoveState::AwaitDelete(_, _, _) => matches!(e, RemoveEvent::Deleted(_)),
            RemoveState::Done => false,
        }
    }

    /// Takes the outcome of the last action and decides the next one.
    pub fn step(self, e: RemoveEvent) -> (r: (RemoveState, RemoveAction))
        requires
            remove_accepts(self, e),
        ensures
            r == remove_next(self, e),
    {
        match self {
            RemoveState::AwaitName(req) => match e {
                RemoveEvent::NameFound(Ok(Some(u))) => {
                    let u2 = u.clone();
                    (RemoveState::AwaitOwner(req, u), RemoveAction::FindOwner(u2))
                },
                RemoveEvent::NameFound(Ok(None)) => (
                    RemoveState::Done,
                    RemoveAction::Fail(Failure::UnknownAccount),
                ),
                _ => (RemoveState::Done, RemoveAction::Fail(Failure::RemoveFailed)),
            },
            RemoveState::AwaitOwner(req, u) => match e {
                RemoveEvent::OwnerFound(Ok((user, discord))) => {
                    if caller_owns(&user, &discord, &req.user_id) {
                        let u2 = u.clone();
                        (RemoveState::AwaitFetch(u, user, discord), RemoveAction::Fetch(u2))
                    } else {
                        (RemoveState::Done, RemoveAction::Fail(Failure::UnknownAccount))
                    }
                },
                _ => (RemoveState::Done, RemoveAction::Fail(Failure::RemoveFailed)),
            },
            RemoveState::AwaitFetch(u, user, discord) => match e {
                RemoveEvent::Fetched(Ok(Some(acc))) => {
                    let u2 = u.clone();
                    (RemoveState::AwaitWhitelist(u, user, discord, acc), RemoveAction::Unwhitelist(u2))
                },
                RemoveEvent::Fetched(Ok(None)) => (
                    RemoveState::Done,
                    RemoveAction::Fail(Failure::UnknownAccount),
                ),
                _ => (RemoveState::Done, RemoveAction::Fail(Failure::RemoveFailed)),
            },
            RemoveState::AwaitWhitelist(u, user, discord, acc) => (
                RemoveState::AwaitDelete(user, discord, acc),
                RemoveAction::Delete(u),
            ),
            RemoveState::AwaitDelete(user, discord, acc) => match e {
                RemoveEvent::Deleted(Ok(false)) => (
                    RemoveState::Done,
                    RemoveAction::Fail(Failure::UnknownAccount),
                ),
                RemoveEvent::Deleted(Ok(true)) => {
                    let reply = ChangeResponse { success: true, error_message: None, account: None };
                    let change = AccountChanged {
                        user_id: user,
                        deprecated_discord_id: discord,
                        change: ChangeType::Removed,
                        account: acc,
                    };
                    (RemoveState::Done, RemoveAction::Succeed(reply, change))
                },
                _ => (RemoveState::Done, RemoveAction::Fail(Failure::RemoveFailed)),
            },
            RemoveState::Done => (RemoveState::Done, RemoveAction::Fail(Failure::RemoveFailed)),
        }
    }
}

/// How a table that behaves as the store model answers a remove action, any
/// whitelist answer counted.
pub open spec fn remove_answer(t: Seq<Binding>, a: RemoveAction) -> (Seq<Binding>, RemoveEvent) {
    match a {
        RemoveAction::FindName(n) => (t, RemoveEvent::NameFound(Ok(uuid_of_name(t, n@)))),
        RemoveAction::FindOwner(u) => (t, RemoveEvent::OwnerFound(Ok(owner_of(t, u@)))),
        RemoveAction::Fetch(u) => (
            t,
            RemoveEvent::Fetched(
                Ok(
                    match find_binding(t, u@) {
                        Some(b) => Some(b.account),
                        None => None,
                    },
                ),
            ),
        ),
        RemoveAction::Delete(u) => (delete_uuid(t, u@), RemoveEvent::Deleted(Ok(holds_uuid(t, u@)))),
        _ => (t, RemoveEvent::Unwhitelisted),
    }
}

/// Runs the remove handler against the store model for at most `fuel` steps.
pub open spec fn run_remove(t: Seq<Binding>, s: RemoveState, a: RemoveAction, fuel: nat) -> (
    Seq<Binding>,
    RemoveAction,
)
    decreases fuel,
{
    if fuel == 0 || a.is_final() {
        (t, a)
    } else {
        let (t1, e) = remove_answer(t, a);
        let (s1, a1) = remove_next(s, e);
        run_remove(t1, s1, a1, (fuel - 1) as nat)
    }
}

/// The table after a remove request and the handler's final action.
pub open spec fn remove_outcome(t: Seq<Binding>, req: RemoveRequest) -> (Seq<Binding>, RemoveAction) {
    run_remove(t, remove_begin(req).0, remove_begin(req).1, 6)
}

/// The identifier a remove request aims at: its own, else the one stored
/// under its legacy username.
pub open spec fn remove_target(t: Seq<Binding>, req: RemoveRequest) -> Option<String> {
    match req.minecraft_uuid {
        Some(u) => Some(u),
        None => match req.deprecated_minecraft_username {
            Some(n) => uuid_of_name(t, n@),
            None => None,
        },
    }
}

/// After a delete nothing is stored under the identifier.
pub proof fn lemma_delete_clears(t: Seq<Binding>, u: Seq<char>)
    ensures
        !holds_uuid(delete_uuid(t, u), u),
    decreases t.len(),
{
    if t.len() > 0 {
        lemma_delete_clears(t.drop_last(), u);
        lemma_find_none(delete_uuid(t.drop_last(), u), u);
        lemma_find_none(delete_uuid(t, u), u);
        if t.last().account.minecraft_uuid@ != u {
            let d = delete_uuid(t.drop_last(), u);
            assert forall|i: int| 0 <= i < d.push(t.last()).len() implies d.push(
                t.last(),
            )[i].account.minecraft_uuid@ != u by {
                if i < d.len() {
                    assert(d.push(t.last())[i] == d[i]);
                }
            }
        }
    }
}

/// A remove request always ends in a reply. A caller that owns neither by
/// user key nor by discord key the binding it names, or that names none, gets
/// `UnknownAccount` and the table is unchanged. A successful remove deletes
/// the binding and publishes one `Removed` change with the binding and owner
/// keys as they were before deletion. After any failure the table is
/// unchanged and nothing is published.
pub proof fn law_remove_checks_owner(t: Seq<Binding>, req: RemoveRequest)
    requires
        table_wf(t),
    ensures
        ({
            let (t1, a) = remove_outcome(t, req);
            &&& a.is_final()
            &&& a is Fail ==> t1 == t
            &&& match remove_target(t, req) {
                None => a == RemoveAction::Fail(Failure::UnknownAccount),
                Some(u) => {
                    &&& !owns(owner_of(t, u@).0, owner_of(t, u@).1, req.user_id@) ==> (t1, a) == (
                        t,
                        RemoveAction::Fail(Failure::UnknownAccount),
                    )
                    &&& a matches RemoveAction::Succeed(resp, change) ==> {
                        &&& find_binding(t, u@) == Some(
                            Binding {
                                user_id: change.user_id,
                                discord_id: change.deprecated_discord_id,
                                account: change.account,
                            },
                        )
                        &&& owns(change.user_id, change.deprecated_discord_id, req.user_id@)
                        &&& change.change == ChangeType::Removed
                        &&& t1 == delete_uuid(t, u@)
                        &&& !holds_uuid(t1, u@)
                        &&& resp.success && resp.error_message is None && resp.account is None
                    }
                },
            }
        }),
{
    reveal_with_fuel(run_remove, 7);
    if let Some(u) = remove_target(t, req) {
        lemma_delete_clears(t, u@);
    }
}


/// A delete touches no other identifier's binding.
pub proof fn lemma_delete_keeps_others(t: Seq<Binding>, u: Seq<char>, v: Seq<char>)
    requires
        u != v,
    ensures
        find_binding(delete_uuid(t, u), v) == find_binding(t, v),
    decreases t.len(),
{
    if t.len() > 0 {
        lemma_delete_keeps_others(t.drop_last(), u, v);
        if t.last().account.minecraft_uuid@ != u {
            let d = delete_uuid(t.drop_last(), u);
            assert(d.push(t.last()).drop_last() =~= d);
        }
    }
}

/// Removing a binding elects no new main binding: a successful remove leaves
/// every binding under another identifier, main flag included, as it was.
pub proof fn law_remove_keeps_other_bindings(t: Seq<Binding>, req: RemoveRequest, other: Seq<char>)
    requires
        table_wf(t),
        remove_target(t, req) matches Some(u) && u@ != other,
    ensures
        find_binding(remove_outcome(t, req).0, other) == find_binding(t, other),
{
    law_remove_checks_owner(t, req);
    let u = remove_target(t, req)->0;
    lemma_delete_keeps_others(t, u@, other);
}

/// Deleting an identifier that is not stored changes nothing.
pub proof fn lemma_delete_absent(t: Seq<Binding>, u: Seq<char>)
    requires
        !holds_uuid(t, u),
    ensures
        delete_uuid(t, u) == t,
    decreases t.len(),
{
    if t.len() > 0 {
        lemma_delete_absent(t.drop_last(), u);
        assert(t.drop_last().push(t.last()) =~= t);
    }
}

/// Two removes of one stored binding that both got as far as deleting race
/// to the store: the first delete removes the row and succeeds, the second
/// removes nothing and ends in `UnknownAccount`, so one `Removed` change is
/// published.
pub proof fn law_racing_removes(
    t: Seq<Binding>,
    u: String,
    first: (Option<String>, Option<String>, MinecraftAccount),
    second: (Option<String>, Option<String>, MinecraftAccount),
)
    requires
        holds_uuid(t, u@),
    ensures
        ({
            let (t1, e1) = remove_answer(t, RemoveAction::Delete(u));
            let (t2, e2) = remove_answer(t1, RemoveAction::Delete(u));
            &&& remove_next(RemoveState::AwaitDelete(first.0, first.1, first.2), e1).1 is Succeed
            &&& remove_next(RemoveState::AwaitDelete(second.0, second.1, second.2), e2) == (
                RemoveState::Done,
                RemoveAction::Fail(Failure::UnknownAccount),
            )
            &&& t2 == t1
        }),
{
    lemma_delete_clears(t, u@);
    lemma_delete_absent(delete_uuid(t, u@), u@);
}
} // verus!
