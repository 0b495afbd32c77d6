//! Byte-level text comparison used for identifiers and names.
//!
//! `str` orders its values by comparing their UTF-8 bytes lexicographically;
//! the functions here compute that order and equality with proofs.

use vstd::prelude::*;
use vstd::string::StringExecFns;
use vstd::string::StringSliceAdditionalSpecFns;

verus! {

broadcast use vstd::utf8::encode_utf8_decode_utf8;

/// `a` and `b` agree on their first `k` bytes.
pub open spec fn agree_upto(a: Seq<u8>, b: Seq<u8>, k: int) -> bool {
    forall|i: int| 0 <= i < k ==> a[i] == b[i]
}

/// `k` is the position where `a` and `b` first differ, and there `a` is the
/// smaller one (or `a` has ended while `b` goes on).
pub open spec fn less_at(a: Seq<u8>, b: Seq<u8>, k: int) -> bool {
    &&& 0 <= k <= a.len()
    &&& k <= b.len()
    &&& agree_upto(a, b, k)
    &&& ((k == a.len() && k < b.len()) || (k < a.len() && k < b.len() && a[k] < b[k]))
}

/// Strict lexicographic order on byte strings, the order of `str` and `[u8]`.
pub open spec fn bytes_lt(a: Seq<u8>, b: Seq<u8>) -> bool {
    exists|k: int| #[trigger] less_at(a, b, k)
}

/// `bytes_lt` is irreflexive and asymmetric.
pub proof fn lemma_bytes_lt_asymmetric(a: Seq<u8>, b: Seq<u8>)
    ensures
        bytes_lt(a, b) ==> !bytes_lt(b, a),
        !bytes_lt(a, a),
{
    if bytes_lt(a, b) && bytes_lt(b, a) {
        let k = choose|k: int| #[trigger] less_at(a, b, k);
        let m = choose|m: int| #[trigger] less_at(b, a, m);
        if k < m {
            assert(a[k] == b[k]);
        } else if m < k {
            assert(a[m] == b[m]);
        }
    }
    if bytes_lt(a, a) {
        let k = choose|k: int| #[trigger] less_at(a, a, k);
    }
}

/// `bytes_lt` is transitive.
pub proof fn lemma_bytes_lt_transitive(a: Seq<u8>, b: Seq<u8>, c: Seq<u8>)
    requires
        bytes_lt(a, b),
        bytes_lt(b, c),
    ensures
        bytes_lt(a, c),
{
    let k = choose|k: int| #[trigger] less_at(a, b, k);
    let m = choose|m: int| #[trigger] less_at(b, c, m);
    if k <= m {
        if k == m {
            assert(less_at(a, c, k));
        } else {
            assert(less_at(a, c, k));
        }
    } else {
        assert(less_at(a, c, m));
    }
}

/// Two different byte strings are ordered one way or the other.
pub proof fn lemma_bytes_lt_total(a: Seq<u8>, b: Seq<u8>)
    ensures
        a == b || bytes_lt(a, b) || bytes_lt(b, a),
    decreases a.len(),
{
    if a.len() == 0 || b.len() == 0 {
        if a.len() < b.len() {
            assert(less_at(a, b, 0));
        } else if b.len() < a.len() {
            assert(less_at(b, a, 0));
        } else {
            assert(a =~= b);
        }
    } else if a[0] != b[0] {
        if a[0] < b[0] {
            assert(less_at(a, b, 0));
        } else {
            assert(less_at(b, a, 0));
        }
    } else {
        let ta = a.drop_first();
        let tb = b.drop_first();
        lemma_bytes_lt_total(ta, tb);
        if ta == tb {
            assert(a =~= b) by {
                assert(a.len() == b.len());
                assert forall|i: int| 0 <= i < a.len() implies a[i] == b[i] by {
                    if i > 0 {
                        assert(a[i] == ta[i - 1]);
                    }
                }
            }
        } else if bytes_lt(ta, tb) {
            let k = choose|k: int| #[trigger] less_at(ta, tb, k);
            assert forall|i: int| 0 <= i < k + 1 implies a[i] == b[i] by {
                if i > 0 {
                    assert(a[i] == ta[i - 1] && b[i] == tb[i - 1]);
                }
            }
            assert(less_at(a, b, k + 1));
        } else {
            let k = choose|k: int| #[trigger] less_at(tb, ta, k);
            assert forall|i: int| 0 <= i < k + 1 implies b[i] == a[i] by {
                if i > 0 {
                    assert(a[i] == ta[i - 1] && b[i] == tb[i - 1]);
                }
            }
            assert(less_at(b, a, k + 1));
        }
    }
}

/// The three ways two byte strings can compare.
#[derive(Clone, Copy, PartialEq, Eq, Structural)]
pub enum TextOrder {
    /// The first string sorts before the second.
    Less,
    /// The strings are equal.
    Equal,
    /// The first string sorts after the second.
    Greater,
}

/// Compares two byte strings lexicographically.
pub fn compare_bytes(a: &[u8], b: &[u8]) -> (r: TextOrder)
    ensures
        (r == TextOrder::Less) == bytes_lt(a@, b@),
        (r == TextOrder::Equal) == (a@ == b@),
        (r == TextOrder::Greater) == bytes_lt(b@, a@),
{
    proof {
        lemma_bytes_lt_asymmetric(a@, b@);
        lemma_bytes_lt_asymmetric(b@, a@);
    }
    let mut index: usize = 0;
    while index < a.len() && index < b.len()
        invariant
            index <= a@.len(),
            index <= b@.len(),
            agree_upto(a@, b@, index as int),
        decreases a@.len() - index,
    {
        if a[index] < b[index] {
            assert(less_at(a@, b@, index as int));
            assert(a@[index as int] != b@[index as int]);
            return TextOrder::Less;
        }
        if a[index] > b[index] {
            assert(less_at(b@, a@, index as int));
            assert(a@[index as int] != b@[index as int]);
            return TextOrder::Greater;
        }
        index += 1;
    }
    if a.len() < b.len() {
        assert(less_at(a@, b@, index as int));
        assert(a@.len() != b@.len());
        TextOrder::Less
    } else if b.len() < a.len() {
        assert(less_at(b@, a@, index as int));
        assert(a@.len() != b@.len());
        TextOrder::Greater
    } else {
        assert(a@ =~= b@);
        TextOrder::Equal
    }
}

/// Two strings are equal exactly when their UTF-8 encodings are.
pub proof fn lemma_str_eq_bytes(a: &str, b: &str)
    ensures
        (a@ == b@) == (a.spec_bytes() == b.spec_bytes()),
{
    if a.spec_bytes() == b.spec_bytes() {
        assert(vstd::utf8::decode_utf8(vstd::utf8::encode_utf8(a@)) == a@);
        assert(vstd::utf8::decode_utf8(vstd::utf8::encode_utf8(b@)) == b@);
    }
}

/// Whether two strings are equal.
pub fn str_eq(a: &str, b: &str) -> (r: bool)
    ensures
        r == (a@ == b@),
{
    proof {
        lemma_str_eq_bytes(a, b);
    }
    compare_bytes(a.as_bytes(), b.as_bytes()) == TextOrder::Equal
}

/// The strict order of `str`: `a` sorts before `b`.
pub open spec fn str_lt(a: &str, b: &str) -> bool {
    bytes_lt(a.spec_bytes(), b.spec_bytes())
}

/// Compares two strings in the order of `str`.
pub fn compare_str(a: &str, b: &str) -> (r: TextOrder)
    ensures
        (r == TextOrder::Less) == str_lt(a, b),
        (r == TextOrder::Equal) == (a@ == b@),
        (r == TextOrder::Greater) == str_lt(b, a),
{
    proof {
        lemma_str_eq_bytes(a, b);
    }
    compare_bytes(a.as_bytes(), b.as_bytes())
}

/// Appends one character to a string (`String::push`).
///
/// Trusted: the standard library documents that `push` appends the character
/// at the end of the string.
#[verifier::external_body]
pub(crate) fn push_char(text: &mut String, c: char)
    ensures
        final(text)@ == old(text)@.push(c),
{
    text.push(c);
}

/// The decimal digit character for `d < 10`.
pub open spec fn digit_char(d: nat) -> char {
    if d == 0 { '0' }
    else if d == 1 { '1' }
    else if d == 2 { '2' }
    else if d == 3 { '3' }
    else if d == 4 { '4' }
    else if d == 5 { '5' }
    else if d == 6 { '6' }
    else if d == 7 { '7' }
    else if d == 8 { '8' }
    else { '9' }
}

/// The decimal rendering of `n`, without leading zeros (`0` renders as `"0"`).
pub open spec fn decimal(n: nat) -> Seq<char>
    decreases n,
{
    if n < 10 {
        seq![digit_char(n)]
    } else {
        decimal(n / 10).push(digit_char(n % 10))
    }
}

fn digit(d: usize) -> (c: char)
    requires
        d < 10,
    ensures
        c == digit_char(d as nat),
{
    if d == 0 { '0' }
    else if d == 1 { '1' }
    else if d == 2 { '2' }
    else if d == 3 { '3' }
    else if d == 4 { '4' }
    else if d == 5 { '5' }
    else if d == 6 { '6' }
    else if d == 7 { '7' }
    else if d == 8 { '8' }
    else { '9' }
}

/// Appends the decimal rendering of `n`, as `usize`'s `Display` writes it.
pub fn push_decimal(text: &mut String, n: usize)
    ensures
        final(text)@ == old(text)@ + decimal(n as nat),
    decreases n,
{
    if n >= 10 {
        push_decimal(text, n / 10);
    }
    push_char(text, digit(n % 10));
    proof {
        if n >= 10 {
            assert(decimal(n as nat) == decimal((n / 10) as nat).push(digit_char((n % 10) as nat)));
        } else {
            assert(decimal(n as nat) == seq![digit_char(n as nat)]);
        }
    }
}

/// The text `"{name} {{ {field}: {count} }}"`, or with `, ..` before the
/// closing brace when the description leaves fields out.
pub open spec fn count_text(name: Seq<char>, field: Seq<char>, count: nat, partial: bool) -> Seq<char> {
    name + " { "@ + field + ": "@ + decimal(count) + if partial { ", .. }"@ } else { " }"@ }
}

/// Describes a value by one count, in the shape of a derived `Debug`.
pub fn describe_count(name: &str, field: &str, count: usize, partial: bool) -> (r: String)
    ensures
        r@ == count_text(name@, field@, count as nat, partial),
{
    let mut text = String::from_str(name);
    text.append(" { ");
    text.append(field);
    text.append(": ");
    push_decimal(&mut text, count);
    if partial {
        text.append(", .. }");
    } else {
        text.append(" }");
    }
    text
}

} // verus!
