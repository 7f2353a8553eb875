//! Choosing a kind of issue: the line shown for each kind, and finding the
//! kind again from the line that was picked.

use crate::jira_client::{IssueType, IssueTypeView};
use crate::text::{
    ellipsis, first_index, index_of, join, lemma_first_index_is, shorten, shortened,
};
use vstd::prelude::*;

verus! {

/// A description is shown in full up to this many characters.
pub const DESCRIPTION_LIMIT: usize = 60;

/// A longer description is cut to this many characters, and the ellipsis follows.
pub const DESCRIPTION_KEPT: usize = 57;

/// What stands between the name of a kind and its description.
pub open spec fn separator() -> Seq<char> {
    seq![' ', '-', ' ']
}

/// The line shown for a kind of issue: its name alone where it has no
/// description; else the name, a dash and the description, which is cut to
/// its first 57 characters and `...` where it has more than 60.
pub open spec fn display_string(issue_type: IssueTypeView) -> Seq<char> {
    match issue_type.description {
        Some(description) => issue_type.name + separator() + shortened(
            description,
            DESCRIPTION_LIMIT as nat,
            DESCRIPTION_KEPT as nat,
        ),
        None => issue_type.name,
    }
}

/// The lines shown for a list of kinds, in its order.
pub open spec fn display_strings(issue_types: Seq<IssueTypeView>) -> Seq<Seq<char>> {
    Seq::new(issue_types.len(), |i: int| display_string(issue_types[i]))
}

/// The place of the kind that the picked line stands for: the first kind
/// shown by that line.
pub open spec fn resolved(issue_types: Seq<IssueTypeView>, selected: Seq<char>) -> Option<int> {
    first_index(display_strings(issue_types), selected)
}

/// A short description is shown as it is, a long one as its first 57
/// characters and three dots, and a kind without one by its name alone.
pub proof fn lemma_display_string(issue_type: IssueTypeView)
    ensures
        issue_type.description is None ==> display_string(issue_type) == issue_type.name,
        issue_type.description matches Some(description) ==> display_string(issue_type) == (
        if description.len() <= 60 {
            issue_type.name + seq![' ', '-', ' '] + description
        } else {
            issue_type.name + seq![' ', '-', ' '] + description.take(57) + seq!['.', '.', '.']
        }),
{
    match issue_type.description {
        Some(description) => {
            if description.len() > 60 {
                assert(issue_type.name + separator() + (description.take(57) + ellipsis())
                    =~= issue_type.name + separator() + description.take(57) + ellipsis());
            }
        },
        None => {},
    }
}

/// Picking the line of a kind leads back to that kind, provided no kind
/// before it in the list is shown by the same line.
pub proof fn lemma_round_trip(issue_types: Seq<IssueTypeView>, i: int)
    requires
        0 <= i < issue_types.len(),
        forall|j: int|
            0 <= j < i ==> display_string(#[trigger] issue_types[j]) != display_string(
                issue_types[i],
            ),
    ensures
        resolved(issue_types, display_string(issue_types[i])) == Some(i),
{
    let lines = display_strings(issue_types);
    assert(lines[i] == display_string(issue_types[i]));
    assert forall|j: int| 0 <= j < i implies #[trigger] lines[j] != display_string(
        issue_types[i],
    ) by {
        assert(lines[j] == display_string(issue_types[j]));
    }
    lemma_first_index_is(lines, display_string(issue_types[i]), i);
}

/// Two kinds of one name are shown by different lines where their
/// descriptions differ and each is absent or has at most 60 characters.
pub proof fn lemma_same_name_lines_differ(a: IssueTypeView, b: IssueTypeView)
    requires
        a.name == b.name,
        a.description != b.description,
        a.description matches Some(text) ==> text.len() <= 60,
        b.description matches Some(text) ==> text.len() <= 60,
    ensures
        display_string(a) != display_string(b),
{
    let name = a.name;
    match (a.description, b.description) {
        (Some(x), Some(y)) => {
            let shown_a = name + separator() + x;
            let shown_b = name + separator() + y;
            if x.len() == y.len() {
                if shown_a == shown_b {
                    assert forall|k: int| 0 <= k < x.len() implies x[k] == y[k] by {
                        assert(shown_a[name.len() + 3 + k] == x[k]);
                        assert(shown_b[name.len() + 3 + k] == y[k]);
                    }
                    assert(x =~= y);
                }
            } else {
                assert(shown_a.len() != shown_b.len());
            }
        },
        (Some(x), None) => {
            assert((name + separator() + x).len() > name.len());
        },
        (None, Some(y)) => {
            assert((name + separator() + y).len() > name.len());
        },
        (None, None) => {},
    }
}

/// Writes the line shown for a kind of issue.
pub fn issue_type_line(issue_type: &IssueType) -> (line: String)
    ensures
        line@ == display_string(issue_type@),
{
    match &issue_type.description {
        Some(description) => {
            let mut line = join(issue_type.name.as_str(), " - ");
            proof {
                reveal_strlit(" - ");
                assert(" - "@ =~= separator());
            }
            let shown = shorten(description.as_str(), DESCRIPTION_LIMIT, DESCRIPTION_KEPT);
            line.append(shown.as_str());
            line
        },
        None => issue_type.name.clone(),
    }
}

/// Writes the lines shown for a list of kinds.
pub fn issue_type_lines(issue_types: &Vec<IssueType>) -> (lines: Vec<String>)
    ensures
        lines.deep_view() == display_strings(issue_types.deep_view()),
{
    let mut lines: Vec<String> = Vec::new();
    let mut i: usize = 0;
    while i < issue_types.len()
        invariant
            i <= issue_types@.len(),
            lines@.len() == i,
            forall|j: int|
                0 <= j < i ==> (#[trigger] lines@[j])@ == display_string(issue_types@[j]@),
        decreases issue_types@.len() - i,
    {
        lines.push(issue_type_line(&issue_types[i]));
        i = i + 1;
    }
    assert(lines.deep_view() =~= display_strings(issue_types.deep_view()));
    lines
}

/// Finds the kind that the picked line stands for.
pub fn resolve(issue_types: &Vec<IssueType>, selected: &str) -> (found: Option<usize>)
    ensures
        match found {
            Some(i) => resolved(issue_types.deep_view(), selected@) == Some(i as int) && i
                < issue_types@.len(),
            None => resolved(issue_types.deep_view(), selected@) is None,
        },
{
    let lines = issue_type_lines(issue_types);
    index_of(&lines, selected)
}

} // verus!
