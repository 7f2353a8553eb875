//! Text as sequences of characters: blank input, trailing characters,
//! shortening, joining.

use vstd::prelude::*;

verus! {

/// Whether `c` is white space: what `char::is_whitespace` answers for it.
pub uninterp spec fn white_space(c: char) -> bool;

/// `char::is_whitespace` answers by the Unicode property `White_Space`. The
/// answer is a function of the character alone and goes by the name
/// `white_space` in this crate.
pub assume_specification[ char::is_whitespace ](c: char) -> (r: bool)
    ensures
        r == white_space(c),
;

/// A text is blank when it holds nothing but white space, so that trimming it
/// leaves nothing.
pub open spec fn blank(s: Seq<char>) -> bool {
    forall|i: int| 0 <= i < s.len() ==> white_space(#[trigger] s[i])
}

/// `s` without the run of `c` at its end.
pub open spec fn without_trailing(s: Seq<char>, c: char) -> Seq<char>
    decreases s.len(),
{
    if s.len() > 0 && s.last() == c {
        without_trailing(s.drop_last(), c)
    } else {
        s
    }
}

/// The marker that stands for what was cut off.
pub open spec fn ellipsis() -> Seq<char> {
    seq!['.', '.', '.']
}

/// `s` as it is shown in a space of `limit` characters: unchanged when it
/// fits, else its first `keep` characters and the ellipsis.
pub open spec fn shortened(s: Seq<char>, limit: nat, keep: nat) -> Seq<char> {
    if s.len() > limit {
        s.take(keep as int) + ellipsis()
    } else {
        s
    }
}

/// The first place at which `wanted` stands in `items`, if it stands there at all.
pub open spec fn first_index(items: Seq<Seq<char>>, wanted: Seq<char>) -> Option<int>
    decreases items.len(),
{
    if items.len() == 0 {
        None
    } else {
        match first_index(items.drop_last(), wanted) {
            Some(i) => Some(i),
            None => if items.last() == wanted {
                Some(items.len() - 1)
            } else {
                None
            },
        }
    }
}

/// What `first_index` finds is a place of `wanted` with none before it; where
/// it finds nothing, `wanted` has no place.
pub proof fn lemma_first_index(items: Seq<Seq<char>>, wanted: Seq<char>)
    ensures
        match first_index(items, wanted) {
            Some(i) => 0 <= i < items.len() && items[i] == wanted && forall|j: int|
                0 <= j < i ==> #[trigger] items[j] != wanted,
            None => forall|j: int| 0 <= j < items.len() ==> #[trigger] items[j] != wanted,
        },
    decreases items.len(),
{
    if items.len() > 0 {
        let init = items.drop_last();
        lemma_first_index(init, wanted);
        match first_index(init, wanted) {
            Some(i) => {
                assert(init[i] == items[i]);
                assert forall|j: int| 0 <= j < i implies #[trigger] items[j] != wanted by {
                    assert(init[j] == items[j]);
                }
            },
            None => {
                assert forall|j: int| 0 <= j < init.len() implies #[trigger] items[j]
                    != wanted by {
                    assert(init[j] == items[j]);
                }
            },
        }
    }
}

/// A place of `wanted` with none before it is the place that `first_index` finds.
pub proof fn lemma_first_index_is(items: Seq<Seq<char>>, wanted: Seq<char>, i: int)
    requires
        0 <= i < items.len(),
        items[i] == wanted,
        forall|j: int| 0 <= j < i ==> #[trigger] items[j] != wanted,
    ensures
        first_index(items, wanted) == Some(i),
{
    lemma_first_index(items, wanted);
}

/// One step of a search from the left: where `wanted` is not among the first
/// `n - 1` items, it is first found at `n - 1` if it stands there, and is not
/// among the first `n` if it does not.
pub proof fn lemma_first_index_step(items: Seq<Seq<char>>, wanted: Seq<char>, n: int)
    requires
        0 < n <= items.len(),
        first_index(items.take(n - 1), wanted) is None,
    ensures
        items[n - 1] == wanted ==> first_index(items, wanted) == Some(n - 1),
        items[n - 1] != wanted ==> first_index(items.take(n), wanted) is None,
{
    assert(items.take(n).drop_last() == items.take(n - 1));
    assert(items.take(n).last() == items[n - 1]);
    lemma_first_index(items.take(n - 1), wanted);
    if items[n - 1] == wanted {
        assert forall|j: int| 0 <= j < n - 1 implies #[trigger] items[j] != wanted by {
            assert(items.take(n - 1)[j] == items[j]);
        }
        lemma_first_index_is(items, wanted, n - 1);
    }
}

/// Tells whether `s` is empty or holds only white space.
pub fn is_blank(s: &str) -> (r: bool)
    ensures
        r == blank(s@),
{
    let mut all: bool = true;
    for c in it: s.chars()
        invariant
            it.seq() == s@,
            all == blank(s@.take(it.index())),
    {
        proof {
            let seen = s@.take(it.index());
            let more = s@.take(it.index() + 1);
            assert(more[it.index()] == c);
            assert(forall|i: int| 0 <= i < seen.len() ==> seen[i] == more[i]);
        }
        all = all && c.is_whitespace();
    }
    assert(s@.take(s@.len() as int) == s@);
    all
}

/// The part of `s` before the run of `c` that ends it.
pub fn trim_end_matches(s: &str, c: char) -> (r: &str)
    ensures
        r@ == without_trailing(s@, c),
{
    let mut end: usize = s.unicode_len();
    assert(s@.take(end as int) == s@);
    while end > 0 && s.get_char(end - 1) == c
        invariant
            end <= s@.len(),
            without_trailing(s@, c) == without_trailing(s@.take(end as int), c),
        decreases end,
    {
        assert(s@.take(end as int).drop_last() == s@.take(end - 1));
        end = end - 1;
    }
    s.substring_char(0, end)
}

/// Shortens `s` to fit `limit` characters: a longer text keeps its first
/// `keep` characters and ends in `...`.
pub fn shorten(s: &str, limit: usize, keep: usize) -> (r: String)
    requires
        keep <= limit,
    ensures
        r@ == shortened(s@, limit as nat, keep as nat),
{
    if s.unicode_len() > limit {
        let mut r = String::from_str(s.substring_char(0, keep));
        r.append("...");
        proof {
            reveal_strlit("...");
            assert("..."@ == ellipsis());
        }
        r
    } else {
        String::from_str(s)
    }
}

/// Finds the first of `items` that reads `wanted`.
pub fn index_of(items: &Vec<String>, wanted: &str) -> (found: Option<usize>)
    ensures
        match found {
            Some(i) => first_index(items.deep_view(), wanted@) == Some(i as int) && i
                < items@.len(),
            None => first_index(items.deep_view(), wanted@) is None,
        },
{
    let wanted_text = String::from_str(wanted);
    let ghost texts = items.deep_view();
    let mut i: usize = 0;
    while i < items.len()
        invariant
            i <= items@.len(),
            wanted_text@ == wanted@,
            texts == items.deep_view(),
            first_index(texts.take(i as int), wanted@) is None,
        decreases items@.len() - i,
    {
        proof {
            lemma_first_index_step(texts, wanted@, i + 1);
        }
        if items[i] == wanted_text {
            return Some(i);
        }
        i = i + 1;
    }
    assert(texts.take(i as int) == texts);
    None
}

/// The two texts joined.
pub fn join(a: &str, b: &str) -> (r: String)
    ensures
        r@ == a@ + b@,
{
    let mut r = String::from_str(a);
    r.append(b);
    r
}

} // verus!
