//! Identifiers that tell devices apart.

use crate::text::decimal;
use crate::text::push_decimal;
use vstd::arithmetic::div_mod::lemma_fundamental_div_mod;
use vstd::arithmetic::div_mod::lemma_fundamental_div_mod_converse;
use vstd::prelude::*;
use vstd::string::StringExecFns;

verus! {

/// Hands out device identifiers.
#[derive(Debug)]
pub struct DeviceIds {
    next: usize,
}

/// Unique identifier for cuda devices.
#[derive(Clone, Copy, Debug, PartialEq, Eq, Hash, Structural)]
pub struct DeviceId(usize);

/// The number after `n` on a counter that starts over once it is full.
pub open spec fn count_on(n: int) -> int {
    if n == usize::MAX {
        0
    } else {
        n + 1
    }
}

/// What a counter at `n` reads after counting `times` times.
pub open spec fn count_times(n: int, times: nat) -> int
    decreases times,
{
    if times == 0 {
        n
    } else {
        count_on(count_times(n, (times - 1) as nat))
    }
}

impl DeviceIds {
    /// The number that the next identifier gets.
    pub closed spec fn next_value(&self) -> usize {
        self.next
    }

    /// A fresh source; its first identifier is one.
    pub fn new() -> (r: DeviceIds)
        ensures
            r.next_value() == 1,
    {
        DeviceIds { next: 1 }
    }
}

impl DeviceId {
    /// The number behind the identifier.
    pub closed spec fn value(&self) -> usize {
        self.0
    }

    /// Takes the next identifier.
    pub fn new(ids: &mut DeviceIds) -> (r: DeviceId)
        ensures
            r.value() == old(ids).next_value(),
            final(ids).next_value() == count_on(old(ids).next_value() as int),
    {
        let id: usize = ids.next;
        ids.next = id.wrapping_add(1);
        DeviceId(id)
    }

    /// Tells whether two identifiers are the same.
    pub fn same(&self, other: &DeviceId) -> (r: bool)
        ensures
            r == (self.value() == other.value()),
            r == (*self == *other),
    {
        self.0 == other.0
    }

    /// The identifier as it is shown.
    pub fn debug(&self) -> (r: String)
        ensures
            r@ == "DeviceId("@ + decimal(self.value() as nat) + ")"@,
    {
        let mut out: String = String::new();
        out.append("DeviceId(");
        push_decimal(&mut out, self.0);
        out.append(")");
        assert(out@ =~= "DeviceId("@ + decimal(self.value() as nat) + ")"@);
        out
    }
}

/// Two identifiers are equal only if their numbers are.
pub proof fn law_id_is_its_number(a: DeviceId, b: DeviceId)
    ensures
        a == b <==> a.value() == b.value(),
{
}

proof fn lemma_count(n: int, times: nat)
    requires
        0 <= n <= usize::MAX,
    ensures
        count_times(n, times) == (n + times) % (usize::MAX + 1),
    decreases times,
{
    let m = usize::MAX + 1;
    if times > 0 {
        lemma_count(n, (times - 1) as nat);
        let before = n + times - 1;
        lemma_fundamental_div_mod(before, m);
        let q = before / m;
        let r = before % m;
        if r == usize::MAX {
            assert(n + times == m * (q + 1) + 0) by (nonlinear_arith)
                requires
                    n + times - 1 == m * q + r,
                    r == m - 1,
            ;
            lemma_fundamental_div_mod_converse(n + times, m, q + 1, 0);
        } else {
            lemma_fundamental_div_mod_converse(n + times, m, q, r + 1);
        }
    } else {
        lemma_fundamental_div_mod_converse(n, m, 0, n);
    }
}

/// Identifiers repeat only after every number has been handed out: of two identifiers taken
/// `first` and `second` places after the source stood at `n`, fewer than all numbers apart, the
/// numbers differ.
pub proof fn law_ids_distinct(n: int, first: nat, second: nat)
    requires
        0 <= n <= usize::MAX,
        first < second,
        second - first <= usize::MAX,
    ensures
        count_times(n, first) != count_times(n, second),
{
    lemma_count(n, first);
    lemma_count(n, second);
    let m = usize::MAX + 1;
    lemma_fundamental_div_mod(n + first, m);
    lemma_fundamental_div_mod(n + second, m);
    let d = (n + second) / m - (n + first) / m;
    if count_times(n, first) == count_times(n, second) {
        assert(second - first == m * d) by (nonlinear_arith)
            requires
                n + first == m * ((n + first) / m) + (n + first) % m,
                n + second == m * ((n + second) / m) + (n + second) % m,
                (n + first) % m == (n + second) % m,
                d == (n + second) / m - (n + first) / m,
        ;
        assert(false) by (nonlinear_arith)
            requires
                second - first == m * d,
                0 < second - first < m,
        ;
    }
}

} // verus!
