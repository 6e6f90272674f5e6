//! Texts: prefixes, equality and order.

use vstd::prelude::*;
use vstd::string::*;
use vstd::utf8::*;

verus! {

/// Whether `left` and `right` agree up to position `n`, and `left` comes first because of what
/// stands there: it ends, or it holds the smaller byte.
pub open spec fn precedes_at(left: Seq<u8>, right: Seq<u8>, n: int) -> bool {
    &&& 0 <= n <= left.len()
    &&& n < right.len()
    &&& forall|i: int| 0 <= i < n ==> left[i] == right[i]
    &&& n < left.len() ==> left[n] < right[n]
}

/// The order of two texts: lexicographic, by the bytes of their UTF-8 encoding.
pub open spec fn text_precedes(left: Seq<char>, right: Seq<char>) -> bool {
    exists|n: int| #[trigger] precedes_at(encode_utf8(left), encode_utf8(right), n)
}

/// Two texts with the same encoding are the same text.
proof fn lemma_encoding_injective(left: Seq<char>, right: Seq<char>)
    requires
        encode_utf8(left) == encode_utf8(right),
    ensures
        left == right,
{
    encode_utf8_decode_utf8(left);
    encode_utf8_decode_utf8(right);
}

/// Of two byte strings that differ, one precedes the other.
proof fn lemma_bytes_differ(left: Seq<u8>, right: Seq<u8>) -> (n: int)
    requires
        left != right,
    ensures
        precedes_at(left, right, n) || precedes_at(right, left, n),
    decreases left.len(),
{
    if left.len() == 0 || right.len() == 0 {
        assert(left.len() != right.len()) by {
            if left.len() == right.len() {
                assert(left =~= right);
            }
        }
        0
    } else if left[0] != right[0] {
        0
    } else {
        assert(left.drop_first() != right.drop_first()) by {
            if left.drop_first() == right.drop_first() {
                assert(left.len() == left.drop_first().len() + 1);
                assert(right.len() == right.drop_first().len() + 1);
                assert forall|i: int| 0 <= i < left.len() implies left[i] == right[i] by {
                    if i > 0 {
                        assert(left[i] == left.drop_first()[i - 1]);
                        assert(right[i] == right.drop_first()[i - 1]);
                    }
                }
                assert(left =~= right);
            }
        }
        let m = lemma_bytes_differ(left.drop_first(), right.drop_first());
        assert forall|i: int| 0 <= i < m + 1 implies left[i] == right[i] by {
            if i > 0 {
                assert(left[i] == left.drop_first()[i - 1]);
                assert(right[i] == right.drop_first()[i - 1]);
            }
        }
        m + 1
    }
}

/// Of two different texts exactly one precedes the other, and no text precedes itself.
pub proof fn lemma_text_order_is_total(left: Seq<char>, right: Seq<char>)
    ensures
        left != right ==> (text_precedes(left, right) <==> !text_precedes(right, left)),
        left == right ==> !text_precedes(left, right),
{
    let a = encode_utf8(left);
    let b = encode_utf8(right);
    if text_precedes(left, right) && text_precedes(right, left) {
        let n = choose|n: int| #[trigger] precedes_at(a, b, n);
        let m = choose|m: int| #[trigger] precedes_at(b, a, m);
        if n < m {
            assert(b[n] == a[n]);
        } else if m < n {
            assert(a[m] == b[m]);
        }
        assert(false);
    }
    if left != right {
        if a == b {
            lemma_encoding_injective(left, right);
        }
        let n = lemma_bytes_differ(a, b);
        assert(precedes_at(a, b, n) || precedes_at(b, a, n));
    }
}

/// Compares two texts for equality.
pub fn text_equals(left: &str, right: &str) -> (equal: bool)
    ensures
        equal == (left@ == right@),
{
    let a = left.as_bytes();
    let b = right.as_bytes();
    if a.len() != b.len() {
        return false;
    }
    let mut i: usize = 0;
    while i < a.len()
        invariant
            i <= a.len(),
            a.len() == b.len(),
            a@ == encode_utf8(left@),
            b@ == encode_utf8(right@),
            forall|j: int| 0 <= j < i ==> a@[j] == b@[j],
        decreases a.len() - i,
    {
        if a[i] != b[i] {
            return false;
        }
        i += 1;
    }
    proof {
        assert(a@ =~= b@);
        lemma_encoding_injective(left@, right@);
    }
    true
}

/// Compares two texts by order.
pub fn text_less(left: &str, right: &str) -> (less: bool)
    ensures
        less == text_precedes(left@, right@),
{
    let a = left.as_bytes();
    let b = right.as_bytes();
    let mut i: usize = 0;
    while i < a.len() && i < b.len()
        invariant
            i <= a.len(),
            i <= b.len(),
            a@ == encode_utf8(left@),
            b@ == encode_utf8(right@),
            forall|j: int| 0 <= j < i ==> a@[j] == b@[j],
        decreases a.len() - i,
    {
        if a[i] != b[i] {
            proof {
                lemma_text_order_is_total(left@, right@);
                assert(precedes_at(a@, b@, i as int) || precedes_at(b@, a@, i as int));
            }
            return a[i] < b[i];
        }
        i += 1;
    }
    proof {
        lemma_text_order_is_total(left@, right@);
        if i < b.len() {
            assert(precedes_at(a@, b@, i as int));
        } else if i < a.len() {
            assert(precedes_at(b@, a@, i as int));
        } else {
            assert(a@ =~= b@);
            lemma_encoding_injective(left@, right@);
        }
    }
    i < b.len()
}

/// Takes a prefix off a text, if the text begins with it.
pub fn strip_prefix<'a>(text: &'a str, prefix: &str) -> (rest: Option<&'a str>)
    ensures
        match rest {
            Some(rest) => text@ == prefix@ + rest@,
            None => !prefix@.is_prefix_of(text@),
        },
{
    let text_len: usize = text.unicode_len();
    let prefix_len: usize = prefix.unicode_len();
    if text_len < prefix_len {
        return None;
    }
    let mut i: usize = 0;
    while i < prefix_len
        invariant
            i <= prefix_len <= text_len,
            prefix_len == prefix@.len(),
            text_len == text@.len(),
            forall|j: int| 0 <= j < i ==> prefix@[j] == text@[j],
        decreases prefix_len - i,
    {
        if text.get_char(i) != prefix.get_char(i) {
            return None;
        }
        i += 1;
    }
    let rest = text.substring_char(prefix_len, text_len);
    assert(text@ =~= prefix@ + rest@);
    Some(rest)
}

} // verus!
