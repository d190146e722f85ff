//! Checks on text fields. A failed check is reported as a record, not raised:
//! the caller collects the records and words the rejection once.

pub mod text;

use crate::strings::{decimal, is_blank, lemma_trimmed_empty_iff_blank, push_decimal};
use vstd::prelude::*;

verus! {

/// The bounds that a length check was made with, and the length it found.
#[derive(Debug, Clone, Copy, PartialEq, Eq)]
pub struct LengthParams {
    pub min: usize,
    pub max: usize,
    pub actual: usize,
}

/// One failed check.
#[derive(Debug, PartialEq, Eq)]
pub struct Violation {
    /// The name of the field, as the message words it.
    pub field: String,
    /// Which rule failed; stable across releases.
    pub code: String,
    /// The sentence for a human reader.
    pub message: String,
    /// Set by the length rule only.
    pub params: Option<LengthParams>,
}

/// What a `Violation` holds, as plain values.
pub struct ViolationView {
    pub field: Seq<char>,
    pub code: Seq<char>,
    pub message: Seq<char>,
    pub params: Option<LengthParams>,
}

impl View for Violation {
    type V = ViolationView;

    open spec fn view(&self) -> ViolationView {
        ViolationView {
            field: self.field@,
            code: self.code@,
            message: self.message@,
            params: self.params,
        }
    }
}

/// The views of a list of violations, in order.
pub open spec fn violation_views(v: Seq<Violation>) -> Seq<ViolationView> {
    Seq::new(v.len(), |i: int| v[i]@)
}

/// The violations found on one field of a payload.
#[derive(Debug, PartialEq, Eq)]
pub struct FieldErrors {
    /// The field's key in the payload.
    pub field: String,
    pub errors: Vec<Violation>,
}

/// What a `FieldErrors` holds, as plain values.
pub struct FieldErrorsView {
    pub field: Seq<char>,
    pub errors: Seq<ViolationView>,
}

impl View for FieldErrors {
    type V = FieldErrorsView;

    open spec fn view(&self) -> FieldErrorsView {
        FieldErrorsView { field: self.field@, errors: violation_views(self.errors@) }
    }
}

/// Everything that is wrong with a payload, field by field.
#[derive(Debug, PartialEq, Eq)]
pub struct ValidationErrors {
    pub fields: Vec<FieldErrors>,
}

impl View for ValidationErrors {
    type V = Seq<FieldErrorsView>;

    open spec fn view(&self) -> Seq<FieldErrorsView> {
        Seq::new(self.fields@.len(), |i: int| self.fields@[i]@)
    }
}

/// The sentence of the length rule.
pub open spec fn length_message(field: Seq<char>, min: nat, max: nat) -> Seq<char> {
    field + " deve ter entre "@ + decimal(min) + " e "@ + decimal(max) + " caracteres"@
}

/// The record of a failed length rule.
pub open spec fn length_violation(
    field: Seq<char>,
    min: usize,
    max: usize,
    actual: usize,
) -> ViolationView {
    ViolationView {
        field,
        code: "length_between"@,
        message: length_message(field, min as nat, max as nat),
        params: Some(LengthParams { min, max, actual }),
    }
}

/// The sentence of the blank rule.
pub open spec fn blank_message(field: Seq<char>) -> Seq<char> {
    field + " não pode estar vazio"@
}

/// The record of a failed blank rule.
pub open spec fn blank_violation(field: Seq<char>) -> ViolationView {
    ViolationView { field, code: "not_empty"@, message: blank_message(field), params: None }
}

/// Accepts `value` when it has at least `min` and at most `max` characters.
/// Characters are counted, not bytes.
pub fn length_between(value: &str, min: usize, max: usize, field_name: &str) -> (r: Result<
    (),
    Violation,
>)
    ensures
        match r {
            Ok(()) => min <= value@.len() <= max,
            Err(v) => !(min <= value@.len() <= max) && v@ == length_violation(
                field_name@,
                min,
                max,
                value@.len() as usize,
            ),
        },
{
    let len = value.unicode_len();
    if len < min || len > max {
        let mut message = String::from_str(field_name);
        message.append(" deve ter entre ");
        push_decimal(&mut message, min as u64);
        message.append(" e ");
        push_decimal(&mut message, max as u64);
        message.append(" caracteres");
        return Err(
            Violation {
                field: String::from_str(field_name),
                code: String::from_str("length_between"),
                message,
                params: Some(LengthParams { min, max, actual: len }),
            },
        );
    }
    Ok(())
}

/// Accepts `value` unless it is empty or holds whitespace only.
pub fn not_empty(value: &str, field_name: &str) -> (r: Result<(), Violation>)
    ensures
        match r {
            Ok(()) => !is_blank(value@),
            Err(v) => is_blank(value@) && v@ == blank_violation(field_name@),
        },
{
    proof {
        lemma_trimmed_empty_iff_blank(value@);
    }
    if value.trim().is_empty() {
        let mut message = String::from_str(field_name);
        message.append(" não pode estar vazio");
        return Err(
            Violation {
                field: String::from_str(field_name),
                code: String::from_str("not_empty"),
                message,
                params: None,
            },
        );
    }
    Ok(())
}

} // verus!
