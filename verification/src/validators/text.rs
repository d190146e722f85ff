//! The rules for the text fields of a task.

use crate::strings::is_blank;
use crate::validators::{
    blank_violation, length_between, length_violation, not_empty, violation_views, Violation,
    ViolationView,
};
use vstd::prelude::*;

verus! {

/// The fewest characters that a title may have.
pub const TITLE_MIN: usize = 4;

/// The most characters that a title may have.
pub const TITLE_MAX: usize = 100;

/// How messages name the title.
pub open spec fn title_label() -> Seq<char> {
    "Título"@
}

/// How messages name a free text.
pub open spec fn text_label() -> Seq<char> {
    "Texto"@
}

/// A title is acceptable when it has 4 to 100 characters, not all of them
/// whitespace.
pub open spec fn valid_title(s: Seq<char>) -> bool {
    TITLE_MIN <= s.len() <= TITLE_MAX && !is_blank(s)
}

/// What is wrong with `s` as a title: the length rule first, then the blank
/// rule, each on its own account.
pub open spec fn title_violations(s: Seq<char>) -> Seq<ViolationView> {
    let length = if TITLE_MIN <= s.len() <= TITLE_MAX {
        Seq::<ViolationView>::empty()
    } else {
        seq![length_violation(title_label(), TITLE_MIN, TITLE_MAX, s.len() as usize)]
    };
    let blank = if is_blank(s) {
        seq![blank_violation(title_label())]
    } else {
        Seq::<ViolationView>::empty()
    };
    length + blank
}

/// A title is acceptable exactly when nothing is wrong with it.
pub proof fn lemma_valid_title_has_no_violations(s: Seq<char>)
    ensures
        valid_title(s) <==> title_violations(s).len() == 0,
{
}

/// Checks a title against both of its rules and reports every one that fails.
pub fn validate_title(value: &str) -> (r: Result<(), Vec<Violation>>)
    ensures
        match r {
            Ok(()) => valid_title(value@),
            Err(v) => !valid_title(value@) && violation_views(v@) == title_violations(value@),
        },
{
    let mut found: Vec<Violation> = Vec::new();
    if let Err(v) = length_between(value, TITLE_MIN, TITLE_MAX, "Título") {
        found.push(v);
    }
    if let Err(v) = not_empty(value, "Título") {
        found.push(v);
    }
    assert(violation_views(found@) == title_violations(value@));
    if found.len() == 0 {
        Ok(())
    } else {
        Err(found)
    }
}

/// Checks that a free text is not blank.
pub fn validate_text_not_empty(value: &str) -> (r: Result<(), Violation>)
    ensures
        match r {
            Ok(()) => !is_blank(value@),
            Err(v) => is_blank(value@) && v@ == blank_violation(text_label()),
        },
{
    not_empty(value, "Texto")
}

} // verus!
