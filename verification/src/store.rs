//! Get-or-default accessors at the storage boundary.
//!
//! Each mapping of the ledger (balances, allowances, blacklist flags) is kept
//! as a vector of key/value entries with pairwise-distinct keys. Reading a
//! key that has no entry yields the documented default (zero, or `false`),
//! so the mappings behave as total functions with finite support.

use vstd::prelude::*;
use crate::account::AccountId;

verus! {

// ------------------------------------------------------------------
// Balances: AccountId -> u128, absent entries read as zero.
// ------------------------------------------------------------------

/// The amount recorded for `key` (the first matching entry); zero when absent.
pub open spec fn balance_in(s: Seq<(AccountId, u128)>, key: AccountId) -> u128
    decreases s.len(),
{
    if s.len() == 0 {
        0
    } else if s[0].0 == key {
        s[0].1
    } else {
        balance_in(s.subrange(1, s.len() as int), key)
    }
}

/// The sum of all recorded amounts.
pub open spec fn sum_amounts(s: Seq<(AccountId, u128)>) -> int
    decreases s.len(),
{
    if s.len() == 0 {
        0
    } else {
        s[0].1 + sum_amounts(s.subrange(1, s.len() as int))
    }
}

/// Each account has at most one balance entry.
pub open spec fn unique_balance_keys(s: Seq<(AccountId, u128)>) -> bool {
    forall|i: int, j: int| #![auto] 0 <= i < j < s.len() ==> s[i].0 != s[j].0
}

/// The sum of all amounts is non-negative, and no single recorded amount
/// exceeds it.
pub proof fn lemma_balance_le_sum(s: Seq<(AccountId, u128)>, key: AccountId)
    ensures
        0 <= sum_amounts(s),
        balance_in(s, key) <= sum_amounts(s),
    decreases s.len(),
{
    if s.len() > 0 {
        lemma_balance_le_sum(s.subrange(1, s.len() as int), key);
    }
}

/// Overwriting the first entry for `key` changes exactly that key's reading,
/// and moves the sum by the difference.
proof fn lemma_balance_write_at(s: Seq<(AccountId, u128)>, i: int, key: AccountId, value: u128)
    requires
        0 <= i < s.len(),
        s[i].0 == key,
        forall|j: int| #![auto] 0 <= j < i ==> s[j].0 != key,
    ensures
        balance_in(s, key) == s[i].1,
        balance_in(s.update(i, (key, value)), key) == value,
        forall|x: AccountId| x != key ==> balance_in(s.update(i, (key, value)), x) == balance_in(
            s,
            x,
        ),
        sum_amounts(s.update(i, (key, value))) == sum_amounts(s) - s[i].1 + value,
    decreases i,
{
    let t = s.update(i, (key, value));
    if i == 0 {
        assert(t.subrange(1, t.len() as int) =~= s.subrange(1, s.len() as int));
    } else {
        let srest = s.subrange(1, s.len() as int);
        assert(t.subrange(1, t.len() as int) =~= srest.update(i - 1, (key, value)));
        lemma_balance_write_at(srest, i - 1, key, value);
        assert(srest[i - 1] == s[i]);
        assert forall|x: AccountId| x != key implies balance_in(t, x) == balance_in(s, x) by {
            assert(t[0] == s[0]);
            assert(balance_in(srest.update(i - 1, (key, value)), x) == balance_in(srest, x));
        }
    }
}

/// Appending an entry for an absent `key` gives that key its value, leaves
/// every other reading unchanged, and adds the value to the sum.
proof fn lemma_balance_append(s: Seq<(AccountId, u128)>, key: AccountId, value: u128)
    requires
        forall|j: int| #![auto] 0 <= j < s.len() ==> s[j].0 != key,
    ensures
        balance_in(s, key) == 0,
        balance_in(s.push((key, value)), key) == value,
        forall|x: AccountId| x != key ==> balance_in(s.push((key, value)), x) == balance_in(s, x),
        sum_amounts(s.push((key, value))) == sum_amounts(s) + value,
    decreases s.len(),
{
    let t = s.push((key, value));
    if s.len() == 0 {
        assert(t.subrange(1, t.len() as int) =~= Seq::<(AccountId, u128)>::empty());
        assert(sum_amounts(t.subrange(1, t.len() as int)) == 0);
        assert forall|x: AccountId| x != key implies balance_in(t, x) == balance_in(s, x) by {
            assert(balance_in(t.subrange(1, t.len() as int), x) == 0);
        }
    } else {
        let srest = s.subrange(1, s.len() as int);
        assert(t.subrange(1, t.len() as int) =~= srest.push((key, value)));
        lemma_balance_append(srest, key, value);
        assert(sum_amounts(t) == t[0].1 + sum_amounts(srest.push((key, value))));
        assert forall|x: AccountId| x != key implies balance_in(t, x) == balance_in(s, x) by {
            assert(t[0] == s[0]);
            assert(balance_in(srest.push((key, value)), x) == balance_in(srest, x));
        }
    }
}

/// Index of the first balance entry for `key`, if any.
fn find_balance_key(entries: &Vec<(AccountId, u128)>, key: AccountId) -> (r: Option<usize>)
    ensures
        r.is_some() ==> r.unwrap() < entries@.len() && entries@[r.unwrap() as int].0 == key,
        r.is_some() ==> forall|j: int| #![auto] 0 <= j < r.unwrap() ==> entries@[j].0 != key,
        r.is_none() ==> forall|j: int| #![auto] 0 <= j < entries@.len() ==> entries@[j].0 != key,
{
    let n = entries.len();
    let mut i: usize = 0;
    while i < n
        invariant
            n == entries@.len(),
            i <= n,
            forall|j: int| #![auto] 0 <= j < i ==> entries@[j].0 != key,
        decreases n - i,
    {
        if entries[i].0 == key {
            return Some(i);
        }
        i = i + 1;
    }
    None
}

/// The reading of `key` equals the value at its first entry; zero when the
/// key has no entry.
proof fn lemma_balance_in_found(s: Seq<(AccountId, u128)>, i: int, key: AccountId)
    requires
        0 <= i < s.len(),
        s[i].0 == key,
        forall|j: int| #![auto] 0 <= j < i ==> s[j].0 != key,
    ensures
        balance_in(s, key) == s[i].1,
    decreases i,
{
    if i > 0 {
        let srest = s.subrange(1, s.len() as int);
        lemma_balance_in_found(srest, i - 1, key);
        assert(srest[i - 1] == s[i]);
    }
}

/// A key with no entry reads as zero.
proof fn lemma_balance_in_absent(s: Seq<(AccountId, u128)>, key: AccountId)
    requires
        forall|j: int| #![auto] 0 <= j < s.len() ==> s[j].0 != key,
    ensures
        balance_in(s, key) == 0,
    decreases s.len(),
{
    if s.len() > 0 {
        lemma_balance_in_absent(s.subrange(1, s.len() as int), key);
    }
}

/// Read the balance recorded for `key`; an absent account reads as zero.
pub fn read_balance(entries: &Vec<(AccountId, u128)>, key: AccountId) -> (amount: u128)
    ensures
        amount == balance_in(entries@, key),
{
    let loc = find_balance_key(entries, key);
    match loc {
        Some(i) => {
            proof {
                lemma_balance_in_found(entries@, i as int, key);
            }
            entries[i].1
        },
        None => {
            proof {
                lemma_balance_in_absent(entries@, key);
            }
            0
        },
    }
}

/// Record `value` for `key`, overwriting any previous entry and appending a
/// fresh one when the key is absent.
pub fn write_balance(entries: &mut Vec<(AccountId, u128)>, key: AccountId, value: u128)
    requires
        unique_balance_keys(old(entries)@),
    ensures
        unique_balance_keys(final(entries)@),
        balance_in(final(entries)@, key) == value,
        forall|x: AccountId| x != key ==> balance_in(final(entries)@, x) == balance_in(
            old(entries)@,
            x,
        ),
        sum_amounts(final(entries)@) == sum_amounts(old(entries)@) - balance_in(old(entries)@, key)
            + value,
{
    let loc = find_balance_key(entries, key);
    match loc {
        Some(i) => {
            entries[i] = (key, value);
            proof {
                lemma_balance_write_at(old(entries)@, i as int, key, value);
                assert forall|p: int, q: int| 0 <= p < q < entries@.len() implies (
                #[trigger] entries@[p]).0 != (#[trigger] entries@[q]).0 by {
                    assert(entries@[p].0 == old(entries)@[p].0);
                    assert(entries@[q].0 == old(entries)@[q].0);
                }
            }
        },
        None => {
            entries.push((key, value));
            proof {
                lemma_balance_append(old(entries)@, key, value);
                assert forall|p: int, q: int| 0 <= p < q < entries@.len() implies (
                #[trigger] entries@[p]).0 != (#[trigger] entries@[q]).0 by {
                    assert(entries@[q].0 == key ==> q == entries@.len() - 1);
                }
            }
        },
    }
}

// ------------------------------------------------------------------
// Allowances: (owner, spender) -> u128, absent entries read as zero.
// ------------------------------------------------------------------

/// The amount the spender of `key` may move out of the owner's balance;
/// zero when absent.
pub open spec fn allowance_in(
    s: Seq<((AccountId, AccountId), u128)>,
    key: (AccountId, AccountId),
) -> u128
    decreases s.len(),
{
    if s.len() == 0 {
        0
    } else if s[0].0 == key {
        s[0].1
    } else {
        allowance_in(s.subrange(1, s.len() as int), key)
    }
}

/// Each (owner, spender) pair has at most one allowance entry.
pub open spec fn unique_allowance_keys(s: Seq<((AccountId, AccountId), u128)>) -> bool {
    forall|i: int, j: int| #![auto] 0 <= i < j < s.len() ==> s[i].0 != s[j].0
}

/// Overwriting the first entry for `key` changes exactly that key's reading.
proof fn lemma_allowance_write_at(
    s: Seq<((AccountId, AccountId), u128)>,
    i: int,
    key: (AccountId, AccountId),
    value: u128,
)
    requires
        0 <= i < s.len(),
        s[i].0 == key,
        forall|j: int| #![auto] 0 <= j < i ==> s[j].0 != key,
    ensures
        allowance_in(s.update(i, (key, value)), key) == value,
        forall|x: (AccountId, AccountId)| x != key ==> allowance_in(s.update(i, (key, value)), x)
            == allowance_in(s, x),
    decreases i,
{
    let t = s.update(i, (key, value));
    if i == 0 {
        assert(t.subrange(1, t.len() as int) =~= s.subrange(1, s.len() as int));
    } else {
        let srest = s.subrange(1, s.len() as int);
        assert(t.subrange(1, t.len() as int) =~= srest.update(i - 1, (key, value)));
        lemma_allowance_write_at(srest, i - 1, key, value);
        assert(srest[i - 1] == s[i]);
        assert forall|x: (AccountId, AccountId)| x != key implies allowance_in(t, x)
            == allowance_in(s, x) by {
            assert(t[0] == s[0]);
            assert(allowance_in(srest.update(i - 1, (key, value)), x) == allowance_in(srest, x));
        }
    }
}

/// Appending an entry for an absent `key` gives that key its value and
/// leaves every other reading unchanged.
proof fn lemma_allowance_append(
    s: Seq<((AccountId, AccountId), u128)>,
    key: (AccountId, AccountId),
    value: u128,
)
    requires
        forall|j: int| #![auto] 0 <= j < s.len() ==> s[j].0 != key,
    ensures
        allowance_in(s, key) == 0,
        allowance_in(s.push((key, value)), key) == value,
        forall|x: (AccountId, AccountId)| x != key ==> allowance_in(s.push((key, value)), x)
            == allowance_in(s, x),
    decreases s.len(),
{
    let t = s.push((key, value));
    if s.len() == 0 {
        assert(t.subrange(1, t.len() as int) =~= Seq::<((AccountId, AccountId), u128)>::empty());
        assert forall|x: (AccountId, AccountId)| x != key implies allowance_in(t, x)
            == allowance_in(s, x) by {
            assert(allowance_in(t.subrange(1, t.len() as int), x) == 0);
        }
    } else {
        let srest = s.subrange(1, s.len() as int);
        assert(t.subrange(1, t.len() as int) =~= srest.push((key, value)));
        lemma_allowance_append(srest, key, value);
        assert forall|x: (AccountId, AccountId)| x != key implies allowance_in(t, x)
            == allowance_in(s, x) by {
            assert(t[0] == s[0]);
            assert(allowance_in(srest.push((key, value)), x) == allowance_in(srest, x));
        }
    }
}

/// Index of the first allowance entry for `key`, if any.
fn find_allowance_key(entries: &Vec<((AccountId, AccountId), u128)>, key: (AccountId, AccountId))
    -> (r: Option<usize>)
    ensures
        r.is_some() ==> r.unwrap() < entries@.len() && entries@[r.unwrap() as int].0 == key,
        r.is_some() ==> forall|j: int| #![auto] 0 <= j < r.unwrap() ==> entries@[j].0 != key,
        r.is_none() ==> forall|j: int| #![auto] 0 <= j < entries@.len() ==> entries@[j].0 != key,
{
    let n = entries.len();
    let mut i: usize = 0;
    while i < n
        invariant
            n == entries@.len(),
            i <= n,
            forall|j: int| #![auto] 0 <= j < i ==> entries@[j].0 != key,
        decreases n - i,
    {
        if entries[i].0.0 == key.0 && entries[i].0.1 == key.1 {
            return Some(i);
        }
        i = i + 1;
    }
    None
}

/// The reading of `key` equals the value at its first entry.
proof fn lemma_allowance_in_found(
    s: Seq<((AccountId, AccountId), u128)>,
    i: int,
    key: (AccountId, AccountId),
)
    requires
        0 <= i < s.len(),
        s[i].0 == key,
        forall|j: int| #![auto] 0 <= j < i ==> s[j].0 != key,
    ensures
        allowance_in(s, key) == s[i].1,
    decreases i,
{
    if i > 0 {
        let srest = s.subrange(1, s.len() as int);
        lemma_allowance_in_found(srest, i - 1, key);
        assert(srest[i - 1] == s[i]);
    }
}

/// A key with no entry reads as zero.
proof fn lemma_allowance_in_absent(
    s: Seq<((AccountId, AccountId), u128)>,
    key: (AccountId, AccountId),
)
    requires
        forall|j: int| #![auto] 0 <= j < s.len() ==> s[j].0 != key,
    ensures
        allowance_in(s, key) == 0,
    decreases s.len(),
{
    if s.len() > 0 {
        lemma_allowance_in_absent(s.subrange(1, s.len() as int), key);
    }
}

/// Read the allowance recorded for `key`; an absent pair reads as zero.
pub fn read_allowance(entries: &Vec<((AccountId, AccountId), u128)>, key: (AccountId, AccountId))
    -> (amount: u128)
    ensures
        amount == allowance_in(entries@, key),
{
    let loc = find_allowance_key(entries, key);
    match loc {
        Some(i) => {
            proof {
                lemma_allowance_in_found(entries@, i as int, key);
            }
            entries[i].1
        },
        None => {
            proof {
                lemma_allowance_in_absent(entries@, key);
            }
            0
        },
    }
}

/// Record `value` for `key`, overwriting any previous entry and appending a
/// fresh one when the pair is absent.
pub fn write_allowance(
    entries: &mut Vec<((AccountId, AccountId), u128)>,
    key: (AccountId, AccountId),
    value: u128,
)
    requires
        unique_allowance_keys(old(entries)@),
    ensures
        unique_allowance_keys(final(entries)@),
        allowance_in(final(entries)@, key) == value,
        forall|x: (AccountId, AccountId)| x != key ==> allowance_in(final(entries)@, x)
            == allowance_in(old(entries)@, x),
{
    let loc = find_allowance_key(entries, key);
    match loc {
        Some(i) => {
            entries[i] = (key, value);
            proof {
                lemma_allowance_write_at(old(entries)@, i as int, key, value);
                assert forall|p: int, q: int| 0 <= p < q < entries@.len() implies (
                #[trigger] entries@[p]).0 != (#[trigger] entries@[q]).0 by {
                    assert(entries@[p].0 == old(entries)@[p].0);
                    assert(entries@[q].0 == old(entries)@[q].0);
                }
            }
        },
        None => {
            entries.push((key, value));
            proof {
                lemma_allowance_append(old(entries)@, key, value);
                assert forall|p: int, q: int| 0 <= p < q < entries@.len() implies (
                #[trigger] entries@[p]).0 != (#[trigger] entries@[q]).0 by {
                    assert(entries@[q].0 == key ==> q == entries@.len() - 1);
                }
            }
        },
    }
}

// ------------------------------------------------------------------
// Blacklist flags: AccountId -> bool, absent entries read as false.
// ------------------------------------------------------------------

/// The flag recorded for `key`; `false` when absent.
pub open spec fn flag_in(s: Seq<(AccountId, bool)>, key: AccountId) -> bool
    decreases s.len(),
{
    if s.len() == 0 {
        false
    } else if s[0].0 == key {
        s[0].1
    } else {
        flag_in(s.subrange(1, s.len() as int), key)
    }
}

/// Each account has at most one flag entry.
pub open spec fn unique_flag_keys(s: Seq<(AccountId, bool)>) -> bool {
    forall|i: int, j: int| #![auto] 0 <= i < j < s.len() ==> s[i].0 != s[j].0
}

/// Overwriting the first entry for `key` changes exactly that key's reading.
proof fn lemma_flag_write_at(s: Seq<(AccountId, bool)>, i: int, key: AccountId, value: bool)
    requires
        0 <= i < s.len(),
        s[i].0 == key,
        forall|j: int| #![auto] 0 <= j < i ==> s[j].0 != key,
    ensures
        flag_in(s.update(i, (key, value)), key) == value,
        forall|x: AccountId| x != key ==> flag_in(s.update(i, (key, value)), x) == flag_in(s, x),
    decreases i,
{
    let t = s.update(i, (key, value));
    if i == 0 {
        assert(t.subrange(1, t.len() as int) =~= s.subrange(1, s.len() as int));
    } else {
        let srest = s.subrange(1, s.len() as int);
        assert(t.subrange(1, t.len() as int) =~= srest.update(i - 1, (key, value)));
        lemma_flag_write_at(srest, i - 1, key, value);
        assert(srest[i - 1] == s[i]);
        assert forall|x: AccountId| x != key implies flag_in(t, x) == flag_in(s, x) by {
            assert(t[0] == s[0]);
            assert(flag_in(srest.update(i - 1, (key, value)), x) == flag_in(srest, x));
        }
    }
}

/// Appending an entry for an absent `key` gives that key its flag and leaves
/// every other reading unchanged.
proof fn lemma_flag_append(s: Seq<(AccountId, bool)>, key: AccountId, value: bool)
    requires
        forall|j: int| #![auto] 0 <= j < s.len() ==> s[j].0 != key,
    ensures
        !flag_in(s, key),
        flag_in(s.push((key, value)), key) == value,
        forall|x: AccountId| x != key ==> flag_in(s.push((key, value)), x) == flag_in(s, x),
    decreases s.len(),
{
    let t = s.push((key, value));
    if s.len() == 0 {
        assert(t.subrange(1, t.len() as int) =~= Seq::<(AccountId, bool)>::empty());
        assert forall|x: AccountId| x != key implies flag_in(t, x) == flag_in(s, x) by {
            assert(!flag_in(t.subrange(1, t.len() as int), x));
        }
    } else {
        let srest = s.subrange(1, s.len() as int);
        assert(t.subrange(1, t.len() as int) =~= srest.push((key, value)));
        lemma_flag_append(srest, key, value);
        assert forall|x: AccountId| x != key implies flag_in(t, x) == flag_in(s, x) by {
            assert(t[0] == s[0]);
            assert(flag_in(srest.push((key, value)), x) == flag_in(srest, x));
        }
    }
}

/// Index of the first flag entry for `key`, if any.
fn find_flag_key(entries: &Vec<(AccountId, bool)>, key: AccountId) -> (r: Option<usize>)
    ensures
        r.is_some() ==> r.unwrap() < entries@.len() && entries@[r.unwrap() as int].0 == key,
        r.is_some() ==> forall|j: int| #![auto] 0 <= j < r.unwrap() ==> entries@[j].0 != key,
        r.is_none() ==> forall|j: int| #![auto] 0 <= j < entries@.len() ==> entries@[j].0 != key,
{
    let n = entries.len();
    let mut i: usize = 0;
    while i < n
        invariant
            n == entries@.len(),
            i <= n,
            forall|j: int| #![auto] 0 <= j < i ==> entries@[j].0 != key,
        decreases n - i,
    {
        if entries[i].0 == key {
            return Some(i);
        }
        i = i + 1;
    }
    None
}

/// The reading of `key` equals the flag at its first entry.
proof fn lemma_flag_in_found(s: Seq<(AccountId, bool)>, i: int, key: AccountId)
    requires
        0 <= i < s.len(),
        s[i].0 == key,
        forall|j: int| #![auto] 0 <= j < i ==> s[j].0 != key,
    ensures
        flag_in(s, key) == s[i].1,
    decreases i,
{
    if i > 0 {
        let srest = s.subrange(1, s.len() as int);
        lemma_flag_in_found(srest, i - 1, key);
        assert(srest[i - 1] == s[i]);
    }
}

/// A key with no entry reads as `false`.
proof fn lemma_flag_in_absent(s: Seq<(AccountId, bool)>, key: AccountId)
    requires
        forall|j: int| #![auto] 0 <= j < s.len() ==> s[j].0 != key,
    ensures
        !flag_in(s, key),
    decreases s.len(),
{
    if s.len() > 0 {
        lemma_flag_in_absent(s.subrange(1, s.len() as int), key);
    }
}

/// Read the flag recorded for `key`; an absent account reads as `false`.
pub fn read_flag(entries: &Vec<(AccountId, bool)>, key: AccountId) -> (value: bool)
    ensures
        value == flag_in(entries@, key),
{
    let loc = find_flag_key(entries, key);
    match loc {
        Some(i) => {
            proof {
                lemma_flag_in_found(entries@, i as int, key);
            }
            entries[i].1
        },
        None => {
            proof {
                lemma_flag_in_absent(entries@, key);
            }
            false
        },
    }
}

/// Record `value` for `key`, overwriting any previous entry and appending a
/// fresh one when the key is absent.
pub fn write_flag(entries: &mut Vec<(AccountId, bool)>, key: AccountId, value: bool)
    requires
        unique_flag_keys(old(entries)@),
    ensures
        unique_flag_keys(final(entries)@),
        flag_in(final(entries)@, key) == value,
        forall|x: AccountId| x != key ==> flag_in(final(entries)@, x) == flag_in(old(entries)@, x),
{
    let loc = find_flag_key(entries, key);
    match loc {
        Some(i) => {
            entries[i] = (key, value);
            proof {
                lemma_flag_write_at(old(entries)@, i as int, key, value);
                assert forall|p: int, q: int| 0 <= p < q < entries@.len() implies (
                #[trigger] entries@[p]).0 != (#[trigger] entries@[q]).0 by {
                    assert(entries@[p].0 == old(entries)@[p].0);
                    assert(entries@[q].0 == old(entries)@[q].0);
                }
            }
        },
        None => {
            entries.push((key, value));
            proof {
                lemma_flag_append(old(entries)@, key, value);
                assert forall|p: int, q: int| 0 <= p < q < entries@.len() implies (
                #[trigger] entries@[p]).0 != (#[trigger] entries@[q]).0 by {
                    assert(entries@[q].0 == key ==> q == entries@.len() - 1);
                }
            }
        },
    }
}

} // verus!
