//! The order of texts.

use vstd::prelude::*;

verus! {

/// Whether `a` stands before `b`: texts are ordered character by character,
/// each character by its code point, and a text stands before every longer
/// text that begins with it.
pub open spec fn text_before(a: Seq<char>, b: Seq<char>) -> bool
    decreases a.len(),
{
    if b.len() == 0 {
        false
    } else if a.len() == 0 {
        true
    } else if a[0] != b[0] {
        (a[0] as u32) < (b[0] as u32)
    } else {
        text_before(a.skip(1), b.skip(1))
    }
}

/// Of two texts at most one stands before the other, and none before itself.
pub proof fn lemma_text_before_asymmetric(a: Seq<char>, b: Seq<char>)
    ensures
        !(text_before(a, b) && text_before(b, a)),
    decreases a.len(),
{
    if a.len() > 0 && b.len() > 0 && a[0] == b[0] {
        lemma_text_before_asymmetric(a.skip(1), b.skip(1));
    }
}

/// Whether the texts of a list stand in ascending order, each before all
/// that follow it.
pub open spec fn ascending(texts: Seq<Seq<char>>) -> bool {
    forall|i: int, j: int|
        0 <= i < j < texts.len() ==> text_before(#[trigger] texts[i], #[trigger] texts[j])
}

/// A set of texts has one ascending order: two ascending lists of the same
/// texts are the same list.
pub proof fn lemma_ascending_unique(a: Seq<Seq<char>>, b: Seq<Seq<char>>)
    requires
        ascending(a),
        ascending(b),
        a.to_set() =~= b.to_set(),
    ensures
        a =~= b,
    decreases a.len(),
{
    if a.len() == 0 {
        if b.len() > 0 {
            assert(b.to_set().contains(b[0]));
            assert(a.to_set().contains(b[0]));
        }
    } else {
        assert(a.to_set().contains(a[0]));
        assert(b.to_set().contains(a[0]));
        let j = choose|j: int| 0 <= j < b.len() && b[j] == a[0];
        assert(b.to_set().contains(b[0]));
        assert(a.to_set().contains(b[0]));
        let k = choose|k: int| 0 <= k < a.len() && a[k] == b[0];
        if j > 0 {
            assert(text_before(b[0], b[j]));
            if k > 0 {
                assert(text_before(a[0], a[k]));
            }
            lemma_text_before_asymmetric(a[0], b[0]);
            assert(false);
        }
        assert(a[0] == b[0]);
        let x = a.skip(1);
        let y = b.skip(1);
        assert forall|t: Seq<char>| x.to_set().contains(t) == y.to_set().contains(t) by {
            if x.to_set().contains(t) {
                let i = choose|i: int| 0 <= i < x.len() && x[i] == t;
                assert(a[i + 1] == t);
                assert(text_before(a[0], a[i + 1]));
                lemma_text_before_asymmetric(a[0], t);
                assert(a.to_set().contains(t));
                assert(b.to_set().contains(t));
                let n = choose|n: int| 0 <= n < b.len() && b[n] == t;
                assert(n > 0);
                assert(y[n - 1] == t);
            }
            if y.to_set().contains(t) {
                let i = choose|i: int| 0 <= i < y.len() && y[i] == t;
                assert(b[i + 1] == t);
                assert(text_before(b[0], b[i + 1]));
                lemma_text_before_asymmetric(b[0], t);
                assert(b.to_set().contains(t));
                assert(a.to_set().contains(t));
                let n = choose|n: int| 0 <= n < a.len() && a[n] == t;
                assert(n > 0);
                assert(x[n - 1] == t);
            }
        }
        assert(ascending(x)) by {
            assert forall|i: int, j: int| 0 <= i < j < x.len() implies text_before(
                #[trigger] x[i],
                #[trigger] x[j],
            ) by {
                assert(text_before(a[i + 1], a[j + 1]));
            }
        }
        assert(ascending(y)) by {
            assert forall|i: int, j: int| 0 <= i < j < y.len() implies text_before(
                #[trigger] y[i],
                #[trigger] y[j],
            ) by {
                assert(text_before(b[i + 1], b[j + 1]));
            }
        }
        lemma_ascending_unique(x, y);
        assert(a.len() == b.len());
        assert forall|i: int| 0 <= i < a.len() implies a[i] == b[i] by {
            if i > 0 {
                assert(x[i - 1] == y[i - 1]);
            }
        }
    }
}

/// `<` on `str`: std orders strings lexicographically by their bytes, which
/// for UTF-8 is the order of their characters by code point.
#[verifier::external_body]
pub(crate) fn text_is_before(a: &str, b: &str) -> (r: bool)
    ensures
        r == text_before(a@, b@),
{
    a < b
}

} // verus!
