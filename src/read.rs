use vstd::prelude::*;
use crate::account::MinecraftAccount;
use crate::add::add_outcome;
use crate::add::law_add_stores_binding;
use crate::messages::{
    AddRequest, GetRequest, GetResponse, ListRequest, ListResponse, LookupOutcome, RemoveRequest,
};
use crate::remove::{law_remove_checks_owner, remove_outcome};
use crate::table::{find_binding, owner_accounts, table_wf, Binding};

verus! {

/// The reply to a get request, given what the store found under its identifier.
pub fn get_response(found: Option<MinecraftAccount>) -> (r: GetResponse)
    ensures
        r.account_found == found is Some,
        r.account == found,
{
    match found {
        Some(acc) => GetResponse { account_found: true, account: Some(acc) },
        None => GetResponse { account_found: false, account: None },
    }
}

/// The owner keys a list request asks the store for: its key, both as user
/// key and as discord key.
pub fn list_owner_keys(req: &ListRequest) -> (r: (Option<String>, Option<String>))
    ensures
        r == (Some(req.user_id), Some(req.user_id)),
{
    (Some(req.user_id.clone()), Some(req.user_id.clone()))
}

/// The reply to a list request, given the accounts the store listed.
pub fn list_response(req: &ListRequest, accounts: Vec<MinecraftAccount>) -> (r: ListResponse)
    ensures
        r.user_id == req.user_id,
        r.accounts@ == accounts@,
{
    ListResponse { user_id: req.user_id.clone(), accounts }
}

/// The account a get request finds in the store model.
pub open spec fn get_found(t: Seq<Binding>, req: GetRequest) -> Option<MinecraftAccount> {
    match find_binding(t, req.minecraft_uuid@) {
        Some(b) => Some(b.account),
        None => None,
    }
}

/// The accounts a list request finds in the store model.
pub open spec fn list_found(t: Seq<Binding>, req: ListRequest) -> Seq<MinecraftAccount> {
    owner_accounts(t, Some(req.user_id), Some(req.user_id))
}

/// Reads answer from the table alone and change nothing (the read replies
/// are built from what the store returned, and take no store). With no
/// mutation in between, a get or a list repeated after an add or a remove
/// that failed gives the same answer as before it.
pub proof fn law_reads_repeat(
    t: Seq<Binding>,
    add: AddRequest,
    lookup: LookupOutcome,
    remove: RemoveRequest,
    g: GetRequest,
    l: ListRequest,
)
    requires
        table_wf(t),
    ensures
        add_outcome(t, add, lookup).1 is Fail ==> get_found(add_outcome(t, add, lookup).0, g)
            == get_found(t, g) && list_found(add_outcome(t, add, lookup).0, l) == list_found(t, l),
        remove_outcome(t, remove).1 is Fail ==> get_found(remove_outcome(t, remove).0, g)
            == get_found(t, g) && list_found(remove_outcome(t, remove).0, l) == list_found(t, l),
{
    law_add_stores_binding(t, add, lookup);
    law_remove_checks_owner(t, remove);
}

} // verus!
