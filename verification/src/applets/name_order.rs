//! The order of applet names.
//!
//! Names are ordered as Rust orders strings: lexicographically by the bytes
//! of their UTF-8 encoding. The registry is sorted by this order and the
//! resolver searches by it, so both use the one comparison defined here.

use vstd::prelude::*;
use vstd::utf8::*;

verus! {

/// The key a name is ordered by: the bytes of its UTF-8 encoding.
pub open spec fn name_key(name: Seq<char>) -> Seq<u8> {
    encode_utf8(name)
}

/// `a` and `b` agree on their first `k` bytes, and at position `k` either `a`
/// ends while `b` goes on, or `a` holds the smaller byte.
pub open spec fn precedes_at(a: Seq<u8>, b: Seq<u8>, k: int) -> bool {
    &&& 0 <= k <= a.len()
    &&& k <= b.len()
    &&& forall|i: int| 0 <= i < k ==> a[i] == b[i]
    &&& k < b.len()
    &&& k < a.len() ==> a[k] < b[k]
}

/// Strict lexicographic order on byte strings.
pub open spec fn bytes_lt(a: Seq<u8>, b: Seq<u8>) -> bool {
    exists|k: int| precedes_at(a, b, k)
}

/// Strict order on names: `a` sorts before `b`.
pub open spec fn name_lt(a: Seq<char>, b: Seq<char>) -> bool {
    bytes_lt(name_key(a), name_key(b))
}

/// The outcome of comparing two names.
#[derive(Copy, Clone, Debug, PartialEq, Eq, Structural)]
pub enum NameOrder {
    /// The first name sorts before the second.
    Before,
    /// Both names are the same string.
    Same,
    /// The first name sorts after the second.
    After,
}

/// No byte string precedes itself.
pub proof fn lemma_bytes_lt_irreflexive(a: Seq<u8>)
    ensures
        !bytes_lt(a, a),
{
}

/// The order on byte strings is transitive.
pub proof fn lemma_bytes_lt_transitive(a: Seq<u8>, b: Seq<u8>, c: Seq<u8>)
    requires
        bytes_lt(a, b),
        bytes_lt(b, c),
    ensures
        bytes_lt(a, c),
{
    let k1 = choose|k: int| precedes_at(a, b, k);
    let k2 = choose|k: int| precedes_at(b, c, k);
    let k = if k1 <= k2 { k1 } else { k2 };
    assert(precedes_at(a, c, k));
}

/// The order on names is transitive.
pub proof fn lemma_name_lt_transitive(a: Seq<char>, b: Seq<char>, c: Seq<char>)
    requires
        name_lt(a, b),
        name_lt(b, c),
    ensures
        name_lt(a, c),
{
    lemma_bytes_lt_transitive(name_key(a), name_key(b), name_key(c));
}

/// Of two byte strings at most one precedes the other.
pub proof fn lemma_bytes_lt_asymmetric(a: Seq<u8>, b: Seq<u8>)
    requires
        bytes_lt(a, b),
    ensures
        !bytes_lt(b, a),
{
    if bytes_lt(b, a) {
        lemma_bytes_lt_transitive(a, b, a);
        lemma_bytes_lt_irreflexive(a);
    }
}

/// Two names with the same key are the same name.
pub proof fn lemma_name_key_injective(a: Seq<char>, b: Seq<char>)
    requires
        name_key(a) == name_key(b),
    ensures
        a == b,
{
    encode_utf8_decode_utf8(a);
    encode_utf8_decode_utf8(b);
}

/// Exactly one of three holds of two names: the first sorts before the
/// second, they are equal, or the first sorts after the second.
pub proof fn lemma_name_order_trichotomy(a: Seq<char>, b: Seq<char>)
    ensures
        name_lt(a, b) || a == b || name_lt(b, a),
        !(name_lt(a, b) && a == b),
        !(name_lt(b, a) && a == b),
        !(name_lt(a, b) && name_lt(b, a)),
{
    let x = name_key(a);
    let y = name_key(b);
    lemma_bytes_lt_irreflexive(x);
    if bytes_lt(x, y) {
        lemma_bytes_lt_asymmetric(x, y);
    }
    if !bytes_lt(x, y) && !bytes_lt(y, x) {
        lemma_first_difference(x, y, 0);
        lemma_name_key_injective(a, b);
    }
}

/// Two byte strings that agree on their first `k` bytes are equal, or one
/// precedes the other.
proof fn lemma_first_difference(a: Seq<u8>, b: Seq<u8>, k: int)
    requires
        0 <= k <= a.len(),
        k <= b.len(),
        forall|i: int| 0 <= i < k ==> a[i] == b[i],
    ensures
        bytes_lt(a, b) || bytes_lt(b, a) || a == b,
    decreases a.len() - k,
{
    if k == a.len() {
        if k == b.len() {
            assert(a =~= b);
        } else {
            assert(precedes_at(a, b, k));
        }
    } else if k == b.len() {
        assert(precedes_at(b, a, k));
    } else if a[k] < b[k] {
        assert(precedes_at(a, b, k));
    } else if b[k] < a[k] {
        assert(precedes_at(b, a, k));
    } else {
        lemma_first_difference(a, b, k + 1);
    }
}

/// The key of two texts joined is their keys joined.
proof fn lemma_name_key_joined(a: Seq<char>, b: Seq<char>)
    ensures
        name_key(a + b) == name_key(a) + name_key(b),
    decreases a.len(),
{
    if a.len() == 0 {
        assert(a + b =~= b);
        assert(name_key(a) + name_key(b) =~= name_key(b));
    } else {
        let rest = a.drop_first();
        assert((a + b).drop_first() =~= rest + b);
        lemma_name_key_joined(rest, b);
        assert(name_key(a + b) =~= name_key(a) + name_key(b));
    }
}

/// A name sorts strictly before each name that it only begins: `[` before
/// `[[`. The two are different names, and a registry may hold both.
pub proof fn lemma_prefix_sorts_first(name: Seq<char>, more: Seq<char>)
    requires
        more.len() > 0,
    ensures
        name_lt(name, name + more),
        name != name + more,
{
    lemma_name_key_joined(name, more);
    assert(name_key(more).len() > 0) by {
        assert(encode_scalar(more[0] as u32).len() > 0);
    }
    assert(precedes_at(name_key(name), name_key(name + more), name_key(name).len() as int));
    lemma_name_order_trichotomy(name, name + more);
}

/// For names of ASCII characters the order is that of the characters: `a`
/// sorts before `b` where both agree on their first `k` characters and then
/// `a` ends while `b` goes on, or `a` holds the smaller character.
pub proof fn lemma_ascii_name_lt(a: Seq<char>, b: Seq<char>, k: int)
    requires
        is_ascii_chars(a),
        is_ascii_chars(b),
        0 <= k <= a.len(),
        k < b.len(),
        forall|i: int| 0 <= i < k ==> a[i] == b[i],
        k < a.len() ==> (a[k] as u32) < (b[k] as u32),
    ensures
        name_lt(a, b),
{
    is_ascii_chars_encode_utf8(a);
    is_ascii_chars_encode_utf8(b);
    assert(precedes_at(name_key(a), name_key(b), k));
}

/// Compares two names by the bytes of their UTF-8 encoding, without
/// allocating.
pub fn compare_names(a: &str, b: &str) -> (r: NameOrder)
    ensures
        r == NameOrder::Before <==> name_lt(a@, b@),
        r == NameOrder::Same <==> a@ == b@,
        r == NameOrder::After <==> name_lt(b@, a@),
{
    let x = a.as_bytes();
    let y = b.as_bytes();
    proof {
        lemma_name_order_trichotomy(a@, b@);
    }
    let mut i: usize = 0;
    while i < x.len() && i < y.len()
        invariant
            i <= x.len(),
            i <= y.len(),
            x@ == name_key(a@),
            y@ == name_key(b@),
            forall|j: int| 0 <= j < i ==> x@[j] == y@[j],
        decreases x.len() - i,
    {
        if x[i] < y[i] {
            assert(precedes_at(x@, y@, i as int));
            return NameOrder::Before;
        }
        if y[i] < x[i] {
            assert(precedes_at(y@, x@, i as int));
            return NameOrder::After;
        }
        i += 1;
    }
    if x.len() < y.len() {
        assert(precedes_at(x@, y@, i as int));
        NameOrder::Before
    } else if y.len() < x.len() {
        assert(precedes_at(y@, x@, i as int));
        NameOrder::After
    } else {
        assert(x@ =~= y@);
        proof {
            lemma_name_key_injective(a@, b@);
        }
        NameOrder::Same
    }
}

} // verus!
