use vstd::prelude::*;
use crate::account::{copy_opt, MinecraftAccount};
use crate::messages::{
    AccountChanged, AddRequest, ChangeResponse, ChangeType, CreateFailure, Failure, LookupOutcome,
    StoreFailure,
};
use crate::table::{
    accounts_of_discord, accounts_of_user, create_binding, find_binding, holds_uuid, lemma_create,
    owner_accounts, table_wf, Binding,
};

verus! {

/// Where an add request stands: what the handler waits for next.
#[derive(Debug)]
pub enum AddState {
    /// Waiting for the name lookup.
    AwaitLookup(AddRequest),
    /// Waiting to learn whether the identifier is already bound.
    AwaitExists(AddRequest, String),
    /// Waiting to learn whether the owner already has a binding.
    AwaitOwned(AddRequest, String),
    /// Waiting for the whitelist service to answer.
    AwaitWhitelist(AddRequest, MinecraftAccount),
    /// Waiting for the store to create the binding.
    AwaitCreate(AddRequest),
    Done,
}

/// What the program hands back after performing an add action.
#[derive(Debug)]
pub enum AddEvent {
    Looked(LookupOutcome),
    Exists(Result<bool, StoreFailure>),
    /// Whether the owner already has at least one binding.
    Owned(Result<bool, StoreFailure>),
    /// The whitelist service answered (any answer counts).
    Whitelisted,
    Created(Result<MinecraftAccount, CreateFailure>),
}

/// What the add handler asks the program to do next.
#[derive(Debug)]
pub enum AddAction {
    /// Resolve a username to an identifier with the lookup service.
    Lookup(String),
    /// Ask the store whether the identifier is bound.
    CheckExists(String),
    /// Ask the store whether these owner keys have any binding.
    CountOwned(Option<String>, Option<String>),
    /// Ask the whitelist service to admit the identifier.
    Whitelist(String),
    /// Ask the store to create the binding for these owner keys.
    Create(Option<String>, Option<String>, MinecraftAccount),
    /// Reply with this failure; publish nothing.
    Fail(Failure),
    /// Reply with the response, then publish the change.
    Succeed(ChangeResponse, AccountChanged),
}

impl AddAction {
    pub open spec fn is_final(self) -> bool {
        self is Fail || self is Succeed
    }
}

/// The binding an add request creates under identifier `uuid`.
pub open spec fn new_account(req: AddRequest, uuid: String, is_main: bool) -> MinecraftAccount {
    MinecraftAccount {
        minecraft_uuid: uuid,
        minecraft_username: req.minecraft_username,
        is_main,
        deprecated_first_name: req.first_name,
    }
}

/// First step: refuse a request with no owner key, or with neither
/// identifier nor username; otherwise look the name up unless the request
/// carries the identifier.
pub open spec fn add_begin(req: AddRequest) -> (AddState, AddAction) {
    if req.user_id is None && req.deprecated_discord_id is None {
        (AddState::Done, AddAction::Fail(Failure::MissingOwner))
    } else {
        match req.minecraft_uuid {
            Some(u) => (AddState::AwaitExists(req, u), AddAction::CheckExists(u)),
            None => if req.minecraft_username@.len() == 0 {
                (AddState::Done, AddAction::Fail(Failure::MissingAccount))
            } else {
                (AddState::AwaitLookup(req), AddAction::Lookup(req.minecraft_username))
            },
        }
    }
}

/// Whether `e` is the kind of event state `s` waits for.
pub open spec fn add_accepts(s: AddState, e: AddEvent) -> bool {
    match s {
        AddState::AwaitLookup(_) => e is Looked,
        AddState::AwaitExists(_, _) => e is Exists,
        AddState::AwaitOwned(_, _) => e is Owned,
        AddState::AwaitWhitelist(_, _) => e is Whitelisted,
        AddState::AwaitCreate(_) => e is Created,
        AddState::Done => false,
    }
}

/// The add handler's transitions: a failed lookup or store read, or an
/// identifier already bound, ends in a failure; otherwise the owner's first
/// binding is main, the whitelist is asked before the store creates, and a
/// create that succeeds ends in a reply with the stored account and an
/// `Added` change for the request's owner keys.
pub open spec fn add_next(s: AddState, e: AddEvent) -> (AddState, AddAction) {
    match s {
        AddState::AwaitLookup(req) => match e {
            AddEvent::Looked(LookupOutcome::Found(u)) => (
                AddState::AwaitExists(req, u),
                AddAction::CheckExists(u),
            ),
            AddEvent::Looked(LookupOutcome::NotFound) => (AddState::Done, AddAction::Fail(Failure::NotFound)),
            AddEvent::Looked(LookupOutcome::RateLimited) => (
                AddState::Done,
                AddAction::Fail(Failure::LookupOverloaded),
            ),
            _ => (AddState::Done, AddAction::Fail(Failure::LookupFailed)),
        },
        AddState::AwaitExists(req, u) => match e {
            AddEvent::Exists(Ok(false)) => (
                AddState::AwaitOwned(req, u),
                AddAction::CountOwned(req.user_id, req.deprecated_discord_id),
            ),
            AddEvent::Exists(Ok(true)) => (AddState::Done, AddAction::Fail(Failure::AlreadyRegistered)),
            _ => (AddState::Done, AddAction::Fail(Failure::CreateFailed)),
        },
        AddState::AwaitOwned(req, u) => match e {
            AddEvent::Owned(Ok(owned)) => {
                let acc = new_account(req, u, !owned);
                (AddState::AwaitWhitelist(req, acc), AddAction::Whitelist(u))
            },
            _ => (AddState::Done, AddAction::Fail(Failure::CreateFailed)),
        },
        AddState::AwaitWhitelist(req, acc) => (
            AddState::AwaitCreate(req),
            AddAction::Create(req.user_id, req.deprecated_discord_id, acc),
        ),
        AddState::AwaitCreate(req) => match e {
            AddEvent::Created(Ok(acc)) => (
                AddState::Done,
                AddAction::Succeed(
                    ChangeResponse { success: true, error_message: None, account: Some(acc) },
                    AccountChanged {
                        user_id: req.user_id,
                        deprecated_discord_id: req.deprecated_discord_id,
                        change: ChangeType::Added,
                        account: acc,
                    },
                ),
            ),
            AddEvent::Created(Err(CreateFailure::Conflict)) => (
                AddState::Done,
                AddAction::Fail(Failure::AlreadyRegistered),
            ),
            _ => (AddState::Done, AddAction::Fail(Failure::CreateFailed)),
        },
        AddState::Done => (AddState::Done, AddAction::Fail(Failure::CreateFailed)),
    }
}

impl AddState {
    /// Starts handling an add request.
    pub fn start(req: AddRequest) -> (r: (AddState, AddAction))
        ensures
            r == add_begin(req),
    {
        if req.user_id.is_none() && req.deprecated_discord_id.is_none() {
            return (AddState::Done, AddAction::Fail(Failure::MissingOwner));
        }
        match &req.minecraft_uuid {
            Some(u) => {
                let u1 = u.clone();
                let u2 = u.clone();
                (AddState::AwaitExists(req, u1), AddAction::CheckExists(u2))
            },
            None => {
                if req.minecraft_username.as_str().is_empty() {
                    (AddState::Done, AddAction::Fail(Failure::MissingAccount))
                } else {
                    let name = req.minecraft_username.clone();
                    (AddState::AwaitLookup(req), AddAction::Lookup(name))
                }
            },
        }
    }

    /// Whether this state waits for an event of the kind of `e`.
    pub fn accepts(&self, e: &AddEvent) -> (r: bool)
        ensures
            r == add_accepts(*self, *e),
    {
        match self {
            AddState::AwaitLookup(_) => matches!(e, AddEvent::Looked(_)),
            AddState::AwaitExists(_, _) => matches!(e, AddEvent::Exists(_)),
            AddState::AwaitOwned(_, _) => matches!(e, AddEvent::Owned(_)),
            AddState::AwaitWhitelist(_, _) => matches!(e, AddEvent::Whitelisted),
            AddState::AwaitCreate(_) => matches!(e, AddEvent::Created(_)),
            AddState::Done => false,
        }
    }

    /// Takes the outcome of the last action and decides the next one.
    pub fn step(self, e: AddEvent) -> (r: (AddState, AddAction))
        requires
            add_accepts(self, e),
        ensures
            r == add_next(self, e),
    {
        match self {
            AddState::AwaitLookup(req) => match e {
                AddEvent::Looked(LookupOutcome::Found(u)) => {
                    let u2 = u.clone();
                    (AddState::AwaitExists(req, u), AddAction::CheckExists(u2))
                },
                AddEvent::Looked(LookupOutcome::NotFound) => (AddState::Done, AddAction::Fail(Failure::NotFound)),
                AddEvent::Looked(LookupOutcome::RateLimited) => (
                    AddState::Done,
                    AddAction::Fail(Failure::LookupOverloaded),
                ),
                _ => (AddState::Done, AddAction::Fail(Failure::LookupFailed)),
            },
            AddState::AwaitExists(req, u) => match e {
                AddEvent::Exists(Ok(false)) => {
                    let user = copy_opt(&req.user_id);
                    let discord = copy_opt(&req.deprecated_discord_id);
                    (AddState::AwaitOwned(req, u), AddAction::CountOwned(user, discord))
                },
                AddEvent::Exists(Ok(true)) => (AddState::Done, AddAction::Fail(Failure::AlreadyRegistered)),
                _ => (AddState::Done, AddAction::Fail(Failure::CreateFailed)),
            },
            AddState::AwaitOwned(req, u) => match e {
                AddEvent::Owned(Ok(owned)) => {
                    let acc = MinecraftAccount {
                        minecraft_uuid: u.clone(),
                        minecraft_username: req.minecraft_username.clone(),
                        is_main: !owned,
                        deprecated_first_name: req.first_name.clone(),
                    };
                    (AddState::AwaitWhitelist(req, acc), AddAction::Whitelist(u))
                },
                _ => (AddState::Done, AddAction::Fail(Failure::CreateFailed)),
            },
            AddState::AwaitWhitelist(req, acc) => {
                let user = copy_opt(&req.user_id);
                let discord = copy_opt(&req.deprecated_discord_id);
                (AddState::AwaitCreate(req), AddAction::Create(user, discord, acc))
            },
            AddState::AwaitCreate(req) => match e {
                AddEvent::Created(Ok(acc)) => {
                    let reply = ChangeResponse { success: true, error_message: None, account: Some(acc.copy()) };
                    let change = AccountChanged {
                        user_id: req.user_id,
                        deprecated_discord_id: req.deprecated_discord_id,
                        change: ChangeType::Added,
                        account: acc,
                    };
                    (AddState::Done, AddAction::Succeed(reply, change))
                },
                AddEvent::Created(Err(CreateFailure::Conflict)) => (
                    AddState::Done,
                    AddAction::Fail(Failure::AlreadyRegistered),
                ),
                _ => (AddState::Done, AddAction::Fail(Failure::CreateFailed)),
            },
            AddState::Done => (AddState::Done, AddAction::Fail(Failure::CreateFailed)),
        }
    }
}

/// How a table that behaves as the store model answers an add action, with
/// `lookup` as the lookup service's answer and any whitelist answer counted.
pub open spec fn add_answer(t: Seq<Binding>, a: AddAction, lookup: LookupOutcome) -> (
    Seq<Binding>,
    AddEvent,
) {
    match a {
        AddAction::Lookup(_) => (t, AddEvent::Looked(lookup)),
        AddAction::CheckExists(u) => (t, AddEvent::Exists(Ok(holds_uuid(t, u@)))),
        AddAction::CountOwned(user, discord) => (
            t,
            AddEvent::Owned(Ok(owner_accounts(t, user, discord).len() > 0)),
        ),
        AddAction::Create(user, discord, acc) => match create_binding(
            t,
            Binding { user_id: user, discord_id: discord, account: acc },
        ) {
            Some(t1) => (t1, AddEvent::Created(Ok(acc))),
            None => (t, AddEvent::Created(Err(CreateFailure::Conflict))),
        },
        _ => (t, AddEvent::Whitelisted),
    }
}

/// Runs the add handler against the store model for at most `fuel` steps.
pub open spec fn run_add(
    t: Seq<Binding>,
    s: AddState,
    a: AddAction,
    lookup: LookupOutcome,
    fuel: nat,
) -> (Seq<Binding>, AddAction)
    decreases fuel,
{
    if fuel == 0 || a.is_final() {
        (t, a)
    } else {
        let (t1, e) = add_answer(t, a, lookup);
        let (s1, a1) = add_next(s, e);
        run_add(t1, s1, a1, lookup, (fuel - 1) as nat)
    }
}

/// The table after an add request and the handler's final action.
pub open spec fn add_outcome(t: Seq<Binding>, req: AddRequest, lookup: LookupOutcome) -> (
    Seq<Binding>,
    AddAction,
) {
    run_add(t, add_begin(req).0, add_begin(req).1, lookup, 5)
}

/// The identifier an add request binds once it reaches the store: its own, or
/// the one the lookup found.
pub open spec fn requested_uuid(req: AddRequest, lookup: LookupOutcome) -> Option<String> {
    match req.minecraft_uuid {
        Some(u) => Some(u),
        None => match lookup {
            LookupOutcome::Found(u) => Some(u),
            _ => None,
        },
    }
}

/// An add request always ends in a reply. After a successful add the table
/// still has unique identifiers, the account is stored under its identifier
/// for the request's owner keys, with the requested username and identifier,
/// and one `Added` change carries the stored account. After a failure the
/// table is unchanged and nothing is published.
pub proof fn law_add_stores_binding(t: Seq<Binding>, req: AddRequest, lookup: LookupOutcome)
    requires
        table_wf(t),
    ensures
        ({
            let (t1, a) = add_outcome(t, req, lookup);
            &&& a.is_final()
            &&& a is Fail ==> t1 == t
            &&& a matches AddAction::Succeed(resp, change) ==> {
                &&& table_wf(t1)
                &&& holds_uuid(t1, change.account.minecraft_uuid@)
                &&& find_binding(t1, change.account.minecraft_uuid@) == Some(
                    Binding {
                        user_id: req.user_id,
                        discord_id: req.deprecated_discord_id,
                        account: change.account,
                    },
                )
                &&& requested_uuid(req, lookup) == Some(change.account.minecraft_uuid)
                &&& change.account.minecraft_username == req.minecraft_username
                &&& change.change == ChangeType::Added
                &&& change.user_id == req.user_id
                &&& change.deprecated_discord_id == req.deprecated_discord_id
                &&& resp.success && resp.error_message is None
                &&& resp.account == Some(change.account)
            }
        }),
{
    reveal_with_fuel(run_add, 6);
    let u = requested_uuid(req, lookup);
    if let Some(u) = u {
        let acc0 = new_account(req, u, false);
        let acc1 = new_account(req, u, true);
        lemma_create(t, Binding { user_id: req.user_id, discord_id: req.deprecated_discord_id, account: acc0 });
        lemma_create(t, Binding { user_id: req.user_id, discord_id: req.deprecated_discord_id, account: acc1 });
    }
}

/// Whether an add request names an owner and an account to look for.
pub open spec fn add_is_valid(req: AddRequest) -> bool {
    &&& req.user_id is Some || req.deprecated_discord_id is Some
    &&& req.minecraft_uuid is Some || req.minecraft_username@.len() > 0
}

/// Refusals of an add: a request without owner key, one with neither
/// identifier nor username, a name the lookup does not know, and an
/// identifier that is already bound end in their failures and leave the
/// table as it was.
pub proof fn law_add_refusals(t: Seq<Binding>, req: AddRequest, lookup: LookupOutcome)
    requires
        table_wf(t),
    ensures
        req.user_id is None && req.deprecated_discord_id is None ==> add_outcome(t, req, lookup)
            == (t, AddAction::Fail(Failure::MissingOwner)),
        (req.user_id is Some || req.deprecated_discord_id is Some) && req.minecraft_uuid is None
            && req.minecraft_username@.len() == 0 ==> add_outcome(t, req, lookup) == (
            t,
            AddAction::Fail(Failure::MissingAccount),
        ),
        add_is_valid(req) && req.minecraft_uuid is None && lookup is NotFound ==> add_outcome(
            t,
            req,
            lookup,
        ) == (t, AddAction::Fail(Failure::NotFound)),
        add_is_valid(req) && (requested_uuid(req, lookup) matches Some(u) && holds_uuid(t, u@))
            ==> add_outcome(t, req, lookup) == (t, AddAction::Fail(Failure::AlreadyRegistered)),
{
    reveal_with_fuel(run_add, 6);
}

/// The first binding an owner gets is its main one, and a binding added
/// while the owner has one is not.
pub proof fn law_first_binding_is_main(t: Seq<Binding>, req: AddRequest, lookup: LookupOutcome)
    requires
        table_wf(t),
    ensures
        add_outcome(t, req, lookup).1 matches AddAction::Succeed(_, change) ==> change.account.is_main
            == (owner_accounts(t, req.user_id, req.deprecated_discord_id).len() == 0),
{
    reveal_with_fuel(run_add, 6);
    let u = requested_uuid(req, lookup);
    if let Some(u) = u {
        let acc0 = new_account(req, u, false);
        let acc1 = new_account(req, u, true);
        lemma_create(t, Binding { user_id: req.user_id, discord_id: req.deprecated_discord_id, account: acc0 });
        lemma_create(t, Binding { user_id: req.user_id, discord_id: req.deprecated_discord_id, account: acc1 });
    }
}

/// For an owner with no binding, a first successful add
/// creates a main binding, and a second successful add with the same owner
/// keys creates one that is not main.
pub proof fn law_second_binding_not_main(
    t: Seq<Binding>,
    first: AddRequest,
    first_lookup: LookupOutcome,
    second: AddRequest,
    second_lookup: LookupOutcome,
)
    requires
        table_wf(t),
        owner_accounts(t, first.user_id, first.deprecated_discord_id).len() == 0,
        second.user_id == first.user_id,
        second.deprecated_discord_id == first.deprecated_discord_id,
    ensures
        ({
            let (t1, a1) = add_outcome(t, first, first_lookup);
            let (t2, a2) = add_outcome(t1, second, second_lookup);
            &&& a1 matches AddAction::Succeed(_, c1) ==> c1.account.is_main
            &&& a1 is Succeed && a2 is Succeed ==> a2->Succeed_1.account.is_main == false
        }),
{
    law_add_stores_binding(t, first, first_lookup);
    law_first_binding_is_main(t, first, first_lookup);
    let (t1, a1) = add_outcome(t, first, first_lookup);
    if let AddAction::Succeed(_, c1) = a1 {
        law_first_binding_is_main(t1, second, second_lookup);
        let b = Binding { user_id: first.user_id, discord_id: first.deprecated_discord_id, account: c1.account };
        assert(t1 == t.push(b)) by {
            reveal_with_fuel(run_add, 6);
        }
        assert(t1.drop_last() =~= t);
        if let Some(k) = first.user_id {
            assert(accounts_of_user(t1, k@).len() > 0);
        } else {
            let k = first.deprecated_discord_id->0;
            assert(accounts_of_discord(t1, k@).len() > 0);
        }
    }
}


/// Two adds of one identifier, one after the other: when the first succeeds
/// the second is refused as already registered and the table keeps one row
/// for it.
pub proof fn law_one_binding_per_identifier(
    t: Seq<Binding>,
    first: AddRequest,
    first_lookup: LookupOutcome,
    second: AddRequest,
    second_lookup: LookupOutcome,
)
    requires
        table_wf(t),
        add_is_valid(second),
        requested_uuid(first, first_lookup) matches Some(u1) && requested_uuid(
            second,
            second_lookup,
        ) matches Some(u2) && u1@ == u2@,
    ensures
        ({
            let (t1, a1) = add_outcome(t, first, first_lookup);
            a1 is Succeed ==> add_outcome(t1, second, second_lookup) == (
                t1,
                AddAction::Fail(Failure::AlreadyRegistered),
            )
        }),
{
    law_add_stores_binding(t, first, first_lookup);
    let (t1, a1) = add_outcome(t, first, first_lookup);
    if a1 is Succeed {
        law_add_refusals(t1, second, second_lookup);
    }
}

/// Two adds of one identifier that both passed the existence check race to
/// the store: the create that comes first succeeds, the other is refused as
/// a conflict and ends as already registered, and the table holds one row
/// with that identifier.
pub proof fn law_racing_adds(
    t: Seq<Binding>,
    first: AddRequest,
    first_account: MinecraftAccount,
    second: AddRequest,
    second_account: MinecraftAccount,
    lookup: LookupOutcome,
)
    requires
        table_wf(t),
        !holds_uuid(t, first_account.minecraft_uuid@),
        first_account.minecraft_uuid@ == second_account.minecraft_uuid@,
    ensures
        ({
            let (t1, e1) = add_answer(
                t,
                AddAction::Create(first.user_id, first.deprecated_discord_id, first_account),
                lookup,
            );
            let (t2, e2) = add_answer(
                t1,
                AddAction::Create(second.user_id, second.deprecated_discord_id, second_account),
                lookup,
            );
            &&& add_next(AddState::AwaitCreate(first), e1).1 is Succeed
            &&& add_next(AddState::AwaitCreate(second), e2) == (
                AddState::Done,
                AddAction::Fail(Failure::AlreadyRegistered),
            )
            &&& t2 == t1
            &&& table_wf(t1)
            &&& holds_uuid(t1, first_account.minecraft_uuid@)
        }),
{
    let b = Binding {
        user_id: first.user_id,
        discord_id: first.deprecated_discord_id,
        account: first_account,
    };
    lemma_create(t, b);
}
} // verus!
