//! Searching lines for a pattern with capture groups.

use vstd::prelude::*;
use regex::Regex;
use crate::error::ResultErrorView;

verus! {

/// What a match of a pattern captured: the text of each group, by the
/// group's number, with the whole match as group 0; `None` for a group that
/// took no part in the match.
pub type Groups = Vec<Option<String>>;

pub type GroupsView = Seq<Option<Seq<char>>>;

/// Whether the pattern engine accepts `pattern`.
pub uninterp spec fn pattern_accepted(pattern: Seq<char>) -> bool;

/// The groups that the leftmost match of `pattern` in `text` captures, or
/// `None` where the pattern matches nowhere in the text.
pub uninterp spec fn pattern_groups(pattern: Seq<char>, text: Seq<char>) -> Option<GroupsView>;

/// The groups of one match as sequences of characters.
pub open spec fn groups_view(groups: Seq<Option<String>>) -> GroupsView {
    Seq::new(
        groups.len(),
        |i: int|
            match groups[i] {
                Some(text) => Some(text@),
                None => None,
            },
    )
}

/// The outcome of one search as sequences of characters.
pub open spec fn match_view(found: Option<Groups>) -> Option<GroupsView> {
    match found {
        Some(groups) => Some(groups_view(groups@)),
        None => None,
    }
}

/// The outcomes of a run of searches as sequences of characters.
pub open spec fn matches_view(found: Seq<Option<Groups>>) -> Seq<Option<GroupsView>> {
    Seq::new(found.len(), |i: int| match_view(found[i]))
}

/// What a search with `pattern` gives where `outcome` is what follows from
/// the matches: nothing but `PatternRejected` where the engine refuses the
/// pattern.
pub open spec fn searched<T>(pattern: Seq<char>, outcome: Result<T, ResultErrorView>) -> Result<
    T,
    ResultErrorView,
> {
    if pattern_accepted(pattern) {
        outcome
    } else {
        Err(ResultErrorView::PatternRejected)
    }
}

/// What `pattern` captures in each of the lines.
pub open spec fn line_matches(pattern: Seq<char>, lines: Seq<Seq<char>>) -> Seq<
    Option<GroupsView>,
> {
    Seq::new(lines.len(), |i: int| pattern_groups(pattern, lines[i]))
}

#[verifier::external_type_specification]
#[verifier::external_body]
pub struct ExPatternError(regex::Error);

/// Compiles `pattern` with regex's `Regex::new` and searches each line with
/// `Regex::captures`; of a match, the text of every group is copied, in the
/// order of the group numbers. Whether the pattern compiles is a function of
/// the pattern alone; where it does, the outcome for a line is a function of
/// the pattern and the line alone.
#[verifier::external_body]
pub(crate) fn match_lines(pattern: &str, lines: &Vec<String>) -> (r: Result<
    Vec<Option<Groups>>,
    regex::Error,
>)
    ensures
        r is Ok <==> pattern_accepted(pattern@),
        r matches Ok(found) ==> found@.len() == lines@.len() && forall|i: int|
            0 <= i < lines@.len() ==> match_view(#[trigger] found@[i]) == pattern_groups(
                pattern@,
                lines@[i]@,
            ),
{
    let compiled = Regex::new(pattern)?;
    Ok(
        lines.iter().map(
            |line|
                compiled.captures(line).map(
                    |found| found.iter().map(|group| group.map(|m| m.as_str().to_string())).collect(),
                ),
        ).collect(),
    )
}

/// The text of the group with the number `index`, where the match has it.
pub open spec fn group(groups: GroupsView, index: int) -> Option<Seq<char>> {
    if 0 <= index < groups.len() {
        groups[index]
    } else {
        None
    }
}

/// The text of a string slice that may be absent.
pub open spec fn optional_text(text: Option<&str>) -> Option<Seq<char>> {
    match text {
        Some(text) => Some(text@),
        None => None,
    }
}

/// The text of the group with the number `index`, where the match has it.
pub fn group_text(groups: &Groups, index: usize) -> (text: Option<&str>)
    ensures
        optional_text(text) == group(groups_view(groups@), index as int),
{
    if index < groups.len() {
        match &groups[index] {
            Some(text) => Some(text.as_str()),
            None => None,
        }
    } else {
        None
    }
}

} // verus!
