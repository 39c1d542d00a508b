//! The order of ASCII strings: the dictionary order of their bytes.

use std::cmp::Ordering;
use vstd::prelude::*;
use vstd::std_specs::cmp::PartialOrdSpecImpl;
use crate::ascii_string::AsciiString;

verus! {

/// Whether `k` bytes are common to the front of `a` and of `b`, and `a` is
/// the smaller right after them: it ends there and `b` goes on, or it goes
/// on with a smaller byte than `b` does.
pub open spec fn parts_at(a: Seq<u8>, b: Seq<u8>, k: int) -> bool {
    &&& 0 <= k <= a.len()
    &&& k <= b.len()
    &&& a.take(k) == b.take(k)
    &&& k < b.len()
    &&& k < a.len() ==> a[k] < b[k]
}

/// Whether `a` comes before `b` in dictionary order.
pub open spec fn comes_before(a: Seq<u8>, b: Seq<u8>) -> bool {
    exists|k: int| parts_at(a, b, k)
}

/// The sign of the comparison of `a` with `b` in dictionary order: negative
/// where `a` comes first, zero where the two are the same, positive where `b`
/// comes first.
pub open spec fn lex_sign(a: Seq<u8>, b: Seq<u8>) -> int {
    if a == b {
        0
    } else if comes_before(a, b) {
        -1
    } else {
        1
    }
}

/// Of two different sequences that agree on their first `i` bytes, with `b`
/// the smaller right after them, `a` does not come before `b`.
proof fn lemma_not_before(a: Seq<u8>, b: Seq<u8>, i: int)
    requires
        0 <= i <= b.len(),
        i < a.len(),
        a.take(i) == b.take(i),
        i < b.len() ==> b[i] < a[i],
    ensures
        !comes_before(a, b),
{
    if comes_before(a, b) {
        let k = choose|k: int| parts_at(a, b, k);
        assert(parts_at(a, b, k));
        if k < i {
            assert(a.take(i)[k] == a[k]);
            assert(b.take(i)[k] == b[k]);
        } else if k > i {
            assert(a.take(k)[i] == a[i]);
            assert(b.take(k)[i] == b[i]);
        }
    }
}

/// Compares the bytes of two strings in dictionary order.
fn byte_order(a: &AsciiString, b: &AsciiString) -> (sign: i8)
    ensures
        sign == lex_sign(a@, b@),
{
    let n = a.len();
    let m = b.len();
    let mut i: usize = 0;
    while i < n && i < m
        invariant
            n == a@.len(),
            m == b@.len(),
            i <= n,
            i <= m,
            a@.take(i as int) == b@.take(i as int),
        decreases n - i,
    {
        let x = a[i];
        let y = b[i];
        if x < y {
            assert(parts_at(a@, b@, i as int));
            assert(a@[i as int] != b@[i as int]);
            return -1;
        }
        if x > y {
            proof {
                lemma_not_before(a@, b@, i as int);
            }
            assert(a@[i as int] != b@[i as int]);
            return 1;
        }
        assert(a@.take(i + 1) == a@.take(i as int).push(a@[i as int]));
        assert(b@.take(i + 1) == b@.take(i as int).push(b@[i as int]));
        i += 1;
    }
    if n < m {
        assert(a@.take(n as int) == a@);
        assert(parts_at(a@, b@, n as int));
        assert(a@.len() != b@.len());
        -1
    } else if n > m {
        proof {
            lemma_not_before(a@, b@, m as int);
        }
        assert(a@.len() != b@.len());
        1
    } else {
        assert(a@.take(n as int) == a@);
        assert(b@.take(n as int) == b@);
        0
    }
}

impl PartialOrd for AsciiString {
    fn partial_cmp(&self, other: &Self) -> (r: Option<Ordering>) {
        let sign = byte_order(self, other);
        if sign < 0 {
            Some(Ordering::Less)
        } else if sign == 0 {
            Some(Ordering::Equal)
        } else {
            Some(Ordering::Greater)
        }
    }
}

impl PartialOrdSpecImpl for AsciiString {
    open spec fn obeys_partial_cmp_spec() -> bool {
        true
    }

    /// Strings are ordered as their bytes are in dictionary order; any two
    /// can be compared.
    open spec fn partial_cmp_spec(&self, other: &Self) -> Option<Ordering> {
        if lex_sign(self@, other@) < 0 {
            Some(Ordering::Less)
        } else if lex_sign(self@, other@) == 0 {
            Some(Ordering::Equal)
        } else {
            Some(Ordering::Greater)
        }
    }
}

/// The order is strict and total on different strings: of two different
/// sequences exactly one comes before the other.
pub proof fn lemma_order_total(a: Seq<u8>, b: Seq<u8>)
    ensures
        a != b ==> (comes_before(a, b) <==> !comes_before(b, a)),
        !comes_before(a, a),
        lex_sign(a, b) == -lex_sign(b, a),
{
    if comes_before(a, a) {
        let k = choose|k: int| parts_at(a, a, k);
    }
    if a != b {
        assert(a.take(0) =~= b.take(0));
        let i = first_difference(a, b, 0);
        if i < a.len() && i < b.len() {
            if a[i] < b[i] {
                assert(parts_at(a, b, i));
                lemma_not_before(b, a, i);
            } else {
                assert(parts_at(b, a, i));
                lemma_not_before(a, b, i);
            }
        } else if i == a.len() {
            assert(parts_at(a, b, i));
            lemma_not_before(b, a, i);
        } else {
            assert(parts_at(b, a, i));
            lemma_not_before(a, b, i);
        }
    }
}

/// Finds the place where two different sequences part: up to it they agree,
/// and there one of them ends or they hold different bytes.
proof fn first_difference(a: Seq<u8>, b: Seq<u8>, from: int) -> (i: int)
    requires
        a != b,
        0 <= from <= a.len(),
        from <= b.len(),
        a.take(from) == b.take(from),
    ensures
        from <= i <= a.len(),
        i <= b.len(),
        a.take(i) == b.take(i),
        i < a.len() && i < b.len() ==> a[i] != b[i],
        !(i == a.len() && i == b.len()),
    decreases a.len() - from,
{
    if from < a.len() && from < b.len() && a[from] == b[from] {
        assert(a.take(from + 1) == a.take(from).push(a[from]));
        assert(b.take(from + 1) == b.take(from).push(b[from]));
        first_difference(a, b, from + 1)
    } else {
        if from == a.len() && from == b.len() {
            assert(a.take(from) == a);
            assert(b.take(from) == b);
        }
        from
    }
}

} // verus!
