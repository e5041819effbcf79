use vstd::prelude::*;
use crate::account::MinecraftAccount;

verus! {

/// One stored binding: the owner keys and the account they own.
#[derive(Debug, Clone)]
pub struct Binding {
    pub user_id: Option<String>,
    pub discord_id: Option<String>,
    pub account: MinecraftAccount,
}

/// Whether an optional owner key is present and equal to `k`.
pub open spec fn key_is(key: Option<String>, k: Seq<char>) -> bool {
    key matches Some(x) && x@ == k
}

/// The binding stored under identifier `u`, searching from the newest row.
pub open spec fn find_binding(t: Seq<Binding>, u: Seq<char>) -> Option<Binding>
    decreases t.len(),
{
    if t.len() == 0 {
        None
    } else if t.last().account.minecraft_uuid@ == u {
        Some(t.last())
    } else {
        find_binding(t.drop_last(), u)
    }
}

/// Whether some binding is stored under identifier `u`.
pub open spec fn holds_uuid(t: Seq<Binding>, u: Seq<char>) -> bool {
    find_binding(t, u) is Some
}

/// Identifiers are unique across the table.
pub open spec fn table_wf(t: Seq<Binding>) -> bool {
    forall|i: int, j: int|
        0 <= i < j < t.len() ==> t[i].account.minecraft_uuid@ != t[j].account.minecraft_uuid@
}

/// The store's create: refused when the identifier is already stored,
/// otherwise the binding is appended.
pub open spec fn create_binding(t: Seq<Binding>, b: Binding) -> Option<Seq<Binding>> {
    if holds_uuid(t, b.account.minecraft_uuid@) {
        None
    } else {
        Some(t.push(b))
    }
}

/// The store's delete: every row stored under identifier `u` goes.
pub open spec fn delete_uuid(t: Seq<Binding>, u: Seq<char>) -> Seq<Binding>
    decreases t.len(),
{
    if t.len() == 0 {
        t
    } else if t.last().account.minecraft_uuid@ == u {
        delete_uuid(t.drop_last(), u)
    } else {
        delete_uuid(t.drop_last(), u).push(t.last())
    }
}

/// The owner keys stored with identifier `u`: (user, discord), both absent
/// when nothing is stored under it.
pub open spec fn owner_of(t: Seq<Binding>, u: Seq<char>) -> (Option<String>, Option<String>) {
    match find_binding(t, u) {
        Some(b) => (b.user_id, b.discord_id),
        None => (None, None),
    }
}

/// The owner keys read for an identifier, user key first: the stored pair,
/// or both absent when no row was read.
pub fn owner_keys(found: Option<(Option<String>, Option<String>)>) -> (r: (Option<String>, Option<String>))
    ensures
        found matches Some(k) ==> r == k,
        found is None ==> r == (None::<String>, None::<String>),
{
    match found {
        Some(k) => k,
        None => (None, None),
    }
}

/// The identifier of the first row, in table order, with username `name`.
pub open spec fn uuid_of_name(t: Seq<Binding>, name: Seq<char>) -> Option<String>
    decreases t.len(),
{
    if t.len() == 0 {
        None
    } else if t[0].account.minecraft_username@ == name {
        Some(t[0].account.minecraft_uuid)
    } else {
        uuid_of_name(t.drop_first(), name)
    }
}

/// Accounts, in table order, whose user key is `k`.
pub open spec fn accounts_of_user(t: Seq<Binding>, k: Seq<char>) -> Seq<MinecraftAccount>
    decreases t.len(),
{
    if t.len() == 0 {
        Seq::empty()
    } else if key_is(t.last().user_id, k) {
        accounts_of_user(t.drop_last(), k).push(t.last().account)
    } else {
        accounts_of_user(t.drop_last(), k)
    }
}

/// Accounts, in table order, whose discord key is `k`.
pub open spec fn accounts_of_discord(t: Seq<Binding>, k: Seq<char>) -> Seq<MinecraftAccount>
    decreases t.len(),
{
    if t.len() == 0 {
        Seq::empty()
    } else if key_is(t.last().discord_id, k) {
        accounts_of_discord(t.drop_last(), k).push(t.last().account)
    } else {
        accounts_of_discord(t.drop_last(), k)
    }
}

/// Whether some account of `s` has identifier `u`.
pub open spec fn has_account_uuid(s: Seq<MinecraftAccount>, u: Seq<char>) -> bool {
    exists|j: int| 0 <= j < s.len() && s[j].minecraft_uuid@ == u
}

/// The accounts of `s`, in order, whose identifier no account of `seen` has.
pub open spec fn unseen_accounts(s: Seq<MinecraftAccount>, seen: Seq<MinecraftAccount>) -> Seq<
    MinecraftAccount,
>
    decreases s.len(),
{
    if s.len() == 0 {
        s
    } else if has_account_uuid(seen, s.last().minecraft_uuid@) {
        unseen_accounts(s.drop_last(), seen)
    } else {
        unseen_accounts(s.drop_last(), seen).push(s.last())
    }
}

/// An owner's accounts: those under the user key, then those under the
/// discord key that the first part does not already hold, each part only
/// when its key is given.
pub open spec fn owner_accounts(
    t: Seq<Binding>,
    user: Option<String>,
    discord: Option<String>,
) -> Seq<MinecraftAccount> {
    let by_user = match user {
        Some(k) => accounts_of_user(t, k@),
        None => Seq::empty(),
    };
    let by_discord = match discord {
        Some(k) => accounts_of_discord(t, k@),
        None => Seq::empty(),
    };
    by_user + unseen_accounts(by_discord, by_user)
}

/// Whether some account of `s` has the identifier `u`.
pub fn holds_account_uuid(s: &Vec<MinecraftAccount>, u: &String) -> (r: bool)
    ensures
        r == has_account_uuid(s@, u@),
{
    let mut j: usize = 0;
    while j < s.len()
        invariant
            0 <= j <= s@.len(),
            forall|k: int| 0 <= k < j ==> s@[k].minecraft_uuid@ != u@,
        decreases s@.len() - j,
    {
        if s[j].minecraft_uuid == *u {
            return true;
        }
        j = j + 1;
    }
    false
}

/// Joins an owner's user-keyed and discord-keyed accounts: the user-keyed
/// ones, then the discord-keyed ones whose identifier the user-keyed ones do
/// not hold; an absent part adds nothing.
pub fn combine_owner_accounts(
    by_user: Option<Vec<MinecraftAccount>>,
    by_discord: Option<Vec<MinecraftAccount>>,
) -> (r: Vec<MinecraftAccount>)
    ensures
        ({
            let users = match by_user {
                Some(v) => v@,
                None => Seq::empty(),
            };
            let discords = match by_discord {
                Some(v) => v@,
                None => Seq::empty(),
            };
            r@ == users + unseen_accounts(discords, users)
        }),
{
    let users = match by_user {
        Some(v) => v,
        None => Vec::new(),
    };
    let discords = match by_discord {
        Some(v) => v,
        None => Vec::new(),
    };
    let mut extra: Vec<MinecraftAccount> = Vec::new();
    let mut i: usize = 0;
    while i < discords.len()
        invariant
            0 <= i <= discords@.len(),
            extra@ == unseen_accounts(discords@.subrange(0, i as int), users@),
        decreases discords@.len() - i,
    {
        assert(discords@.subrange(0, i + 1).drop_last() =~= discords@.subrange(0, i as int));
        if !holds_account_uuid(&users, &discords[i].minecraft_uuid) {
            extra.push(discords[i].copy());
        }
        i = i + 1;
    }
    assert(discords@.subrange(0, discords@.len() as int) =~= discords@);
    let mut r = users;
    r.append(&mut extra);
    r
}

/// No row of the table is stored under `u` exactly when the search finds none.
pub proof fn lemma_find_none(t: Seq<Binding>, u: Seq<char>)
    ensures
        find_binding(t, u) is None <==> forall|i: int|
            0 <= i < t.len() ==> t[i].account.minecraft_uuid@ != u,
    decreases t.len(),
{
    if t.len() > 0 {
        lemma_find_none(t.drop_last(), u);
        if find_binding(t, u) is None {
            assert forall|i: int| 0 <= i < t.len() implies t[i].account.minecraft_uuid@ != u by {
                if i < t.len() - 1 {
                    assert(t.drop_last()[i] == t[i]);
                }
            }
        }
    }
}

/// A create keeps identifiers unique, and what it stores is found under its
/// identifier.
pub proof fn lemma_create(t: Seq<Binding>, b: Binding)
    requires
        table_wf(t),
    ensures
        create_binding(t, b) matches Some(t1) ==> table_wf(t1) && find_binding(t1, b.account.minecraft_uuid@) == Some(b),
{
    lemma_find_none(t, b.account.minecraft_uuid@);
    if let Some(t1) = create_binding(t, b) {
        assert(t1.drop_last() =~= t);
        assert forall|i: int, j: int| 0 <= i < j < t1.len() implies
            t1[i].account.minecraft_uuid@ != t1[j].account.minecraft_uuid@ by {
            if j < t.len() {
                assert(t1[i] == t[i] && t1[j] == t[j]);
            } else {
                assert(t1[i] == t[i]);
            }
        }
    }
}

/// Identifiers stay unique: of two creates with one identifier, whichever
/// comes first succeeds on a table that does not hold it, and the other is
/// refused, so the table never holds two rows with that identifier.
pub proof fn law_identifier_unique(t: Seq<Binding>, a: Binding, b: Binding)
    requires
        table_wf(t),
        !holds_uuid(t, a.account.minecraft_uuid@),
        a.account.minecraft_uuid@ == b.account.minecraft_uuid@,
    ensures
        create_binding(t, a) matches Some(t1) && table_wf(t1) && create_binding(t1, b) is None,
{
    lemma_create(t, a);
}


/// No two accounts of `s` share an identifier.
pub open spec fn distinct_uuids(s: Seq<MinecraftAccount>) -> bool {
    forall|i: int, j: int| 0 <= i < j < s.len() ==> s[i].minecraft_uuid@ != s[j].minecraft_uuid@
}

/// Dropping the newest row keeps identifiers unique, and the newest row's
/// identifier is not among the others.
proof fn lemma_wf_drop_last(t: Seq<Binding>)
    requires
        table_wf(t),
        t.len() > 0,
    ensures
        table_wf(t.drop_last()),
        !holds_uuid(t.drop_last(), t.last().account.minecraft_uuid@),
{
    let d = t.drop_last();
    assert forall|i: int, j: int| 0 <= i < j < d.len() implies d[i].account.minecraft_uuid@
        != d[j].account.minecraft_uuid@ by {
        assert(d[i] == t[i] && d[j] == t[j]);
    }
    lemma_find_none(d, t.last().account.minecraft_uuid@);
    assert forall|i: int| 0 <= i < d.len() implies d[i].account.minecraft_uuid@
        != t.last().account.minecraft_uuid@ by {
        assert(d[i] == t[i]);
    }
}

/// An owner's user-keyed accounts are stored rows with distinct identifiers.
proof fn lemma_user_part(t: Seq<Binding>, k: Seq<char>)
    requires
        table_wf(t),
    ensures
        distinct_uuids(accounts_of_user(t, k)),
        forall|i: int|
            0 <= i < accounts_of_user(t, k).len() ==> holds_uuid(
                t,
                #[trigger] accounts_of_user(t, k)[i].minecraft_uuid@,
            ),
    decreases t.len(),
{
    if t.len() > 0 {
        let d = t.drop_last();
        lemma_wf_drop_last(t);
        lemma_user_part(d, k);
        let part = accounts_of_user(d, k);
        let last = t.last().account;
        assert forall|i: int| 0 <= i < part.len() implies holds_uuid(t, part[i].minecraft_uuid@) by {
            assert(holds_uuid(d, part[i].minecraft_uuid@));
        }
        if key_is(t.last().user_id, k) {
            let all = part.push(last);
            assert forall|i: int| 0 <= i < all.len() implies holds_uuid(t, all[i].minecraft_uuid@) by {
                if i < part.len() {
                    assert(all[i] == part[i]);
                }
            }
            assert forall|i: int, j: int| 0 <= i < j < all.len() implies all[i].minecraft_uuid@
                != all[j].minecraft_uuid@ by {
                assert(all[i] == part[i]);
                if j < part.len() {
                    assert(all[j] == part[j]);
                } else {
                    assert(holds_uuid(d, part[i].minecraft_uuid@));
                }
            }
        }
    }
}

/// An owner's discord-keyed accounts are stored rows with distinct identifiers.
proof fn lemma_discord_part(t: Seq<Binding>, k: Seq<char>)
    requires
        table_wf(t),
    ensures
        distinct_uuids(accounts_of_discord(t, k)),
        forall|i: int|
            0 <= i < accounts_of_discord(t, k).len() ==> holds_uuid(
                t,
                #[trigger] accounts_of_discord(t, k)[i].minecraft_uuid@,
            ),
    decreases t.len(),
{
    if t.len() > 0 {
        let d = t.drop_last();
        lemma_wf_drop_last(t);
        lemma_discord_part(d, k);
        let part = accounts_of_discord(d, k);
        let last = t.last().account;
        assert forall|i: int| 0 <= i < part.len() implies holds_uuid(t, part[i].minecraft_uuid@) by {
            assert(holds_uuid(d, part[i].minecraft_uuid@));
        }
        if key_is(t.last().discord_id, k) {
            let all = part.push(last);
            assert forall|i: int| 0 <= i < all.len() implies holds_uuid(t, all[i].minecraft_uuid@) by {
                if i < part.len() {
                    assert(all[i] == part[i]);
                }
            }
            assert forall|i: int, j: int| 0 <= i < j < all.len() implies all[i].minecraft_uuid@
                != all[j].minecraft_uuid@ by {
                assert(all[i] == part[i]);
                if j < part.len() {
                    assert(all[j] == part[j]);
                } else {
                    assert(holds_uuid(d, part[i].minecraft_uuid@));
                }
            }
        }
    }
}

/// What `unseen_accounts` keeps has distinct identifiers when `s` has, each
/// taken from `s` and none held by `seen`.
proof fn lemma_unseen(s: Seq<MinecraftAccount>, seen: Seq<MinecraftAccount>)
    requires
        distinct_uuids(s),
    ensures
        distinct_uuids(unseen_accounts(s, seen)),
        forall|i: int|
            0 <= i < unseen_accounts(s, seen).len() ==> {
                &&& has_account_uuid(s, #[trigger] unseen_accounts(s, seen)[i].minecraft_uuid@)
                &&& !has_account_uuid(seen, unseen_accounts(s, seen)[i].minecraft_uuid@)
            },
    decreases s.len(),
{
    if s.len() > 0 {
        let d = s.drop_last();
        assert forall|i: int, j: int| 0 <= i < j < d.len() implies d[i].minecraft_uuid@
            != d[j].minecraft_uuid@ by {
            assert(d[i] == s[i] && d[j] == s[j]);
        }
        lemma_unseen(d, seen);
        let part = unseen_accounts(d, seen);
        assert forall|i: int| 0 <= i < part.len() implies has_account_uuid(s, part[i].minecraft_uuid@) by {
            let w = choose|w: int| 0 <= w < d.len() && d[w].minecraft_uuid@ == part[i].minecraft_uuid@;
            assert(d[w] == s[w]);
        }
        if !has_account_uuid(seen, s.last().minecraft_uuid@) {
            let all = part.push(s.last());
            assert forall|i: int| 0 <= i < all.len() implies has_account_uuid(s, all[i].minecraft_uuid@)
                && !has_account_uuid(seen, all[i].minecraft_uuid@) by {
                if i < part.len() {
                    assert(all[i] == part[i]);
                } else {
                    assert(s[s.len() - 1] == s.last());
                }
            }
            assert forall|i: int, j: int| 0 <= i < j < all.len() implies all[i].minecraft_uuid@
                != all[j].minecraft_uuid@ by {
                assert(all[i] == part[i]);
                if j < part.len() {
                    assert(all[j] == part[j]);
                } else {
                    assert(has_account_uuid(d, part[i].minecraft_uuid@));
                    let w = choose|w: int| 0 <= w < d.len() && d[w].minecraft_uuid@ == part[i].minecraft_uuid@;
                    assert(d[w] == s[w]);
                }
            }
        }
    }
}

/// An owner's list holds each binding at most once: no identifier appears
/// twice, even for a binding whose user key and discord key are both the
/// listed keys, and every listed account is stored.
pub proof fn law_owner_list_distinct(t: Seq<Binding>, user: Option<String>, discord: Option<String>)
    requires
        table_wf(t),
    ensures
        distinct_uuids(owner_accounts(t, user, discord)),
        forall|i: int|
            0 <= i < owner_accounts(t, user, discord).len() ==> holds_uuid(
                t,
                #[trigger] owner_accounts(t, user, discord)[i].minecraft_uuid@,
            ),
{
    let by_user = match user {
        Some(k) => accounts_of_user(t, k@),
        None => Seq::empty(),
    };
    let by_discord = match discord {
        Some(k) => accounts_of_discord(t, k@),
        None => Seq::empty(),
    };
    if let Some(k) = user {
        lemma_user_part(t, k@);
    }
    if let Some(k) = discord {
        lemma_discord_part(t, k@);
    }
    lemma_unseen(by_discord, by_user);
    let rest = unseen_accounts(by_discord, by_user);
    let all = by_user + rest;
    assert(all == owner_accounts(t, user, discord));
    assert forall|i: int| 0 <= i < all.len() implies holds_uuid(t, all[i].minecraft_uuid@) by {
        if i < by_user.len() {
            assert(all[i] == by_user[i]);
        } else {
            assert(all[i] == rest[i - by_user.len()]);
            let w = choose|w: int| 0 <= w < by_discord.len() && by_discord[w].minecraft_uuid@
                == rest[i - by_user.len()].minecraft_uuid@;
            assert(holds_uuid(t, by_discord[w].minecraft_uuid@));
        }
    }
    assert forall|i: int, j: int| 0 <= i < j < all.len() implies all[i].minecraft_uuid@
        != all[j].minecraft_uuid@ by {
        if j < by_user.len() {
            assert(all[i] == by_user[i] && all[j] == by_user[j]);
        } else if i < by_user.len() {
            assert(all[i] == by_user[i] && all[j] == rest[j - by_user.len()]);
            assert(!has_account_uuid(by_user, rest[j - by_user.len()].minecraft_uuid@));
        } else {
            assert(all[i] == rest[i - by_user.len()] && all[j] == rest[j - by_user.len()]);
        }
    }
}
} // verus!
