use crate::types::{ContractRef, ContractStatus, UserAccount, UserContract};
use vstd::prelude::*;

verus! {

/// The entry with its status replaced; every other field kept.
pub open spec fn with_status(e: UserContract, st: ContractStatus) -> UserContract {
    UserContract { status: st, ..e }
}

/// The registry after an exercise or settlement touched it: the first entry
/// that refers to `key` carries the new status, everything else is kept.
/// A registry without such an entry is returned unchanged (the engine treats
/// a missing entry as a silent no-op).
pub open spec fn mark_first(s: Seq<UserContract>, key: ContractRef, st: ContractStatus) -> Seq<
    UserContract,
>
    decreases s.len(),
{
    if s.len() == 0 {
        s
    } else if s[0].contract_address == key {
        seq![with_status(s[0], st)] + s.skip(1)
    } else {
        seq![s[0]] + mark_first(s.skip(1), key, st)
    }
}

/// A registry without a matching entry is left exactly as it was.
pub proof fn lemma_mark_first_no_match(s: Seq<UserContract>, key: ContractRef, st: ContractStatus)
    requires
        forall|j: int| 0 <= j < s.len() ==> s[j].contract_address != key,
    ensures
        mark_first(s, key, st) == s,
    decreases s.len(),
{
    if s.len() == 0 {
        assert(mark_first(s, key, st) =~= s);
    } else {
        lemma_mark_first_no_match(s.skip(1), key, st);
        assert(mark_first(s, key, st) =~= s);
    }
}

/// With the first match sitting at index `i`, marking is a point update there.
pub proof fn lemma_mark_first_at(
    s: Seq<UserContract>,
    key: ContractRef,
    st: ContractStatus,
    i: int,
)
    requires
        0 <= i < s.len(),
        s[i].contract_address == key,
        forall|j: int| 0 <= j < i ==> s[j].contract_address != key,
    ensures
        mark_first(s, key, st) == s.update(i, with_status(s[i], st)),
    decreases s.len(),
{
    if i == 0 {
        assert(mark_first(s, key, st) =~= s.update(0, with_status(s[0], st)));
    } else {
        lemma_mark_first_at(s.skip(1), key, st, i - 1);
        assert(mark_first(s, key, st) =~= s.update(i, with_status(s[i], st)));
    }
}

/// Walks the registry and moves the first entry that refers to `key` to the
/// new status; a registry without such an entry is left untouched.
pub fn set_contract_status(account: &mut UserAccount, key: ContractRef, st: ContractStatus)
    ensures
        final(account).owner == old(account).owner,
        final(account).contract_count == old(account).contract_count,
        final(account).contracts@ == mark_first(old(account).contracts@, key, st),
        final(account).contracts@.len() == old(account).contracts@.len(),
{
    let n = account.contracts.len();
    let mut i: usize = 0;
    while i < n
        invariant
            n == old(account).contracts@.len(),
            0 <= i <= n,
            account.owner == old(account).owner,
            account.contract_count == old(account).contract_count,
            account.contracts@ == old(account).contracts@,
            forall|j: int| 0 <= j < i ==> old(account).contracts@[j].contract_address != key,
        decreases n - i,
    {
        if account.contracts[i].contract_address == key {
            let mut entry = account.contracts[i];
            entry.status = st;
            account.contracts[i] = entry;
            proof {
                lemma_mark_first_at(old(account).contracts@, key, st, i as int);
            }
            return ;
        }
        i = i + 1;
    }
    proof {
        lemma_mark_first_no_match(old(account).contracts@, key, st);
    }
}

} // verus!
