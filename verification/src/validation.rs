//! Data-validation rules: snake-case words from callers, the document
//! model's mixed-case words inside.

use vstd::prelude::*;
use vstd::string::*;
use crate::conditional::non_empty;
use crate::error::{agrees, text_of, CodecError, Failure};
use crate::style::clone_text;
use crate::text::{
    chars_of, lowercase, lowered, same_ignoring_case, spells_ignoring_case, string_of, trim,
    trimmed,
};
use crate::vocabulary::{
    is_validation_operator, is_validation_type, knows_validation_operator, knows_validation_type,
};

verus! {

/// The document model's word for a validation type as a caller writes it:
/// trimmed; `textLength` for `textlength` and `text_length` in any case;
/// lower case otherwise.
pub open spec fn normal_validation_type(input: Seq<char>) -> Seq<char> {
    let s = trimmed(input);
    if same_ignoring_case(s, "textlength"@) || same_ignoring_case(s, "text_length"@) {
        "textLength"@
    } else {
        lowered(s)
    }
}

/// The document model's word for an operator as a caller writes it:
/// trimmed; the mixed-case word for each of the six snake-case words, in any
/// case; unchanged otherwise.
pub open spec fn normal_operator(input: Seq<char>) -> Seq<char> {
    let s = trimmed(input);
    if same_ignoring_case(s, "greater_than"@) {
        "greaterThan"@
    } else if same_ignoring_case(s, "greater_than_or_equal"@) {
        "greaterThanOrEqual"@
    } else if same_ignoring_case(s, "less_than"@) {
        "lessThan"@
    } else if same_ignoring_case(s, "less_than_or_equal"@) {
        "lessThanOrEqual"@
    } else if same_ignoring_case(s, "not_between"@) {
        "notBetween"@
    } else if same_ignoring_case(s, "not_equal"@) {
        "notEqual"@
    } else {
        s
    }
}

/// Normalizes a validation type word.
pub fn normalize_validation_type(input: &str) -> (out: String)
    ensures
        out@ == normal_validation_type(input@),
{
    let raw = chars_of(input);
    let s = trim(&raw);
    if spells_ignoring_case(&s, "textlength") || spells_ignoring_case(&s, "text_length") {
        String::from_str("textLength")
    } else {
        let lc = lowercase(&s);
        string_of(&lc)
    }
}

/// Normalizes an operator word.
pub fn normalize_operator(input: &str) -> (out: String)
    ensures
        out@ == normal_operator(input@),
{
    let raw = chars_of(input);
    let s = trim(&raw);
    if spells_ignoring_case(&s, "greater_than") {
        String::from_str("greaterThan")
    } else if spells_ignoring_case(&s, "greater_than_or_equal") {
        String::from_str("greaterThanOrEqual")
    } else if spells_ignoring_case(&s, "less_than") {
        String::from_str("lessThan")
    } else if spells_ignoring_case(&s, "less_than_or_equal") {
        String::from_str("lessThanOrEqual")
    } else if spells_ignoring_case(&s, "not_between") {
        String::from_str("notBetween")
    } else if spells_ignoring_case(&s, "not_equal") {
        String::from_str("notEqual")
    } else {
        string_of(&s)
    }
}

/// A validation as a document holds it.
#[derive(Clone, Debug, PartialEq, Eq)]
pub struct RawValidation {
    pub sqref: String,
    pub validation_type: String,
    pub operator: String,
    pub allow_blank: bool,
    pub show_input: bool,
    pub show_error: bool,
    pub formula1: String,
    pub formula2: String,
    pub error_title: String,
    pub error: String,
    pub prompt_title: String,
    pub prompt: String,
}

/// The mathematical content of a [`RawValidation`].
pub struct RawValidationModel {
    pub sqref: Seq<char>,
    pub validation_type: Seq<char>,
    pub operator: Seq<char>,
    pub allow_blank: bool,
    pub show_input: bool,
    pub show_error: bool,
    pub formula1: Seq<char>,
    pub formula2: Seq<char>,
    pub error_title: Seq<char>,
    pub error: Seq<char>,
    pub prompt_title: Seq<char>,
    pub prompt: Seq<char>,
}

impl View for RawValidation {
    type V = RawValidationModel;

    open spec fn view(&self) -> RawValidationModel {
        RawValidationModel {
            sqref: self.sqref@,
            validation_type: self.validation_type@,
            operator: self.operator@,
            allow_blank: self.allow_blank,
            show_input: self.show_input,
            show_error: self.show_error,
            formula1: self.formula1@,
            formula2: self.formula2@,
            error_title: self.error_title@,
            error: self.error@,
            prompt_title: self.prompt_title@,
            prompt: self.prompt@,
        }
    }
}

/// A validation as callers see it. Texts are present only where the
/// document holds text.
#[derive(Clone, Debug, PartialEq, Eq)]
pub struct DataValidationRule {
    pub range: Option<String>,
    pub validation_type: String,
    pub operator: String,
    pub allow_blank: bool,
    pub show_input: bool,
    pub show_error: bool,
    pub formula1: Option<String>,
    pub formula2: Option<String>,
    pub error_title: Option<String>,
    pub error: Option<String>,
    pub prompt_title: Option<String>,
    pub prompt: Option<String>,
}

/// The mathematical content of a [`DataValidationRule`].
pub struct ValidationModel {
    pub range: Option<Seq<char>>,
    pub validation_type: Seq<char>,
    pub operator: Seq<char>,
    pub allow_blank: bool,
    pub show_input: bool,
    pub show_error: bool,
    pub formula1: Option<Seq<char>>,
    pub formula2: Option<Seq<char>>,
    pub error_title: Option<Seq<char>>,
    pub error: Option<Seq<char>>,
    pub prompt_title: Option<Seq<char>>,
    pub prompt: Option<Seq<char>>,
}

impl View for DataValidationRule {
    type V = ValidationModel;

    open spec fn view(&self) -> ValidationModel {
        ValidationModel {
            range: text_of(self.range),
            validation_type: self.validation_type@,
            operator: self.operator@,
            allow_blank: self.allow_blank,
            show_input: self.show_input,
            show_error: self.show_error,
            formula1: text_of(self.formula1),
            formula2: text_of(self.formula2),
            error_title: text_of(self.error_title),
            error: text_of(self.error),
            prompt_title: text_of(self.prompt_title),
            prompt: text_of(self.prompt),
        }
    }
}

/// The record of a stored validation: its words and flags as they are, its
/// texts only where they are not empty.
pub open spec fn validation_read(raw: RawValidationModel) -> ValidationModel {
    ValidationModel {
        range: non_empty(Some(raw.sqref)),
        validation_type: raw.validation_type,
        operator: raw.operator,
        allow_blank: raw.allow_blank,
        show_input: raw.show_input,
        show_error: raw.show_error,
        formula1: non_empty(Some(raw.formula1)),
        formula2: non_empty(Some(raw.formula2)),
        error_title: non_empty(Some(raw.error_title)),
        error: non_empty(Some(raw.error)),
        prompt_title: non_empty(Some(raw.prompt_title)),
        prompt: non_empty(Some(raw.prompt)),
    }
}

fn present(s: &String) -> (r: Option<String>)
    ensures
        text_of(r) == non_empty(Some(s@)),
{
    if chars_of(s.as_str()).len() == 0 {
        None
    } else {
        Some(s.clone())
    }
}

fn read_validation(raw: &RawValidation) -> (r: DataValidationRule)
    ensures
        r@ == validation_read(raw@),
{
    DataValidationRule {
        range: present(&raw.sqref),
        validation_type: raw.validation_type.clone(),
        operator: raw.operator.clone(),
        allow_blank: raw.allow_blank,
        show_input: raw.show_input,
        show_error: raw.show_error,
        formula1: present(&raw.formula1),
        formula2: present(&raw.formula2),
        error_title: present(&raw.error_title),
        error: present(&raw.error),
        prompt_title: present(&raw.prompt_title),
        prompt: present(&raw.prompt),
    }
}

/// Decodes the validations of a sheet, one record each, in order.
pub fn decode_data_validations(list: &Vec<RawValidation>) -> (out: Vec<DataValidationRule>)
    ensures
        out@.len() == list@.len(),
        forall|i: int| 0 <= i < list@.len() ==> out@[i]@ == validation_read(list@[i]@),
{
    let mut out: Vec<DataValidationRule> = Vec::new();
    let mut i: usize = 0;
    while i < list.len()
        invariant
            i <= list.len(),
            out@.len() == i,
            forall|k: int| 0 <= k < i ==> out@[k]@ == validation_read(list@[k]@),
        decreases list.len() - i,
    {
        out.push(read_validation(&list[i]));
        i = i + 1;
    }
    out
}

/// A validation record as callers supply it. Every field may be absent.
#[derive(Clone, Debug, PartialEq, Eq)]
pub struct ValidationPayload {
    pub range: Option<String>,
    pub validation_type: Option<String>,
    pub operator: Option<String>,
    pub formula1: Option<String>,
    pub formula2: Option<String>,
    pub allow_blank: Option<bool>,
    pub show_input: Option<bool>,
    pub show_error: Option<bool>,
    pub prompt_title: Option<String>,
    pub prompt: Option<String>,
    pub error_title: Option<String>,
    pub error: Option<String>,
}

/// The mathematical content of a [`ValidationPayload`].
pub struct ValidationPayloadModel {
    pub range: Option<Seq<char>>,
    pub validation_type: Option<Seq<char>>,
    pub operator: Option<Seq<char>>,
    pub formula1: Option<Seq<char>>,
    pub formula2: Option<Seq<char>>,
    pub allow_blank: Option<bool>,
    pub show_input: Option<bool>,
    pub show_error: Option<bool>,
    pub prompt_title: Option<Seq<char>>,
    pub prompt: Option<Seq<char>>,
    pub error_title: Option<Seq<char>>,
    pub error: Option<Seq<char>>,
}

impl View for ValidationPayload {
    type V = ValidationPayloadModel;

    open spec fn view(&self) -> ValidationPayloadModel {
        ValidationPayloadModel {
            range: text_of(self.range),
            validation_type: text_of(self.validation_type),
            operator: text_of(self.operator),
            formula1: text_of(self.formula1),
            formula2: text_of(self.formula2),
            allow_blank: self.allow_blank,
            show_input: self.show_input,
            show_error: self.show_error,
            prompt_title: text_of(self.prompt_title),
            prompt: text_of(self.prompt),
            error_title: text_of(self.error_title),
            error: text_of(self.error),
        }
    }
}

/// The validation to add to a sheet. The type and the operator are words
/// of the document model; optional parts are set only where present.
#[derive(Clone, Debug, PartialEq, Eq)]
pub struct ValidationEdit {
    pub sqref: String,
    pub validation_type: String,
    pub operator: Option<String>,
    pub formula1: Option<String>,
    pub formula2: Option<String>,
    pub allow_blank: Option<bool>,
    pub show_input: Option<bool>,
    pub show_error: Option<bool>,
    pub prompt_title: Option<String>,
    pub prompt: Option<String>,
    pub error_title: Option<String>,
    pub error: Option<String>,
}

/// The mathematical content of a [`ValidationEdit`].
pub struct ValidationEditModel {
    pub sqref: Seq<char>,
    pub validation_type: Seq<char>,
    pub operator: Option<Seq<char>>,
    pub formula1: Option<Seq<char>>,
    pub formula2: Option<Seq<char>>,
    pub allow_blank: Option<bool>,
    pub show_input: Option<bool>,
    pub show_error: Option<bool>,
    pub prompt_title: Option<Seq<char>>,
    pub prompt: Option<Seq<char>>,
    pub error_title: Option<Seq<char>>,
    pub error: Option<Seq<char>>,
}

impl View for ValidationEdit {
    type V = ValidationEditModel;

    open spec fn view(&self) -> ValidationEditModel {
        ValidationEditModel {
            sqref: self.sqref@,
            validation_type: self.validation_type@,
            operator: text_of(self.operator),
            formula1: text_of(self.formula1),
            formula2: text_of(self.formula2),
            allow_blank: self.allow_blank,
            show_input: self.show_input,
            show_error: self.show_error,
            prompt_title: text_of(self.prompt_title),
            prompt: text_of(self.prompt),
            error_title: text_of(self.error_title),
            error: text_of(self.error),
        }
    }
}

/// The validation that a record asks to add, or why it is rejected: a
/// missing range, a missing type, a type whose normal form is outside the
/// vocabulary, an operator whose normal form is outside the vocabulary, in
/// that order. A rejected word is quoted as the caller wrote it.
pub open spec fn validation_written(p: ValidationPayloadModel) -> Result<
    ValidationEditModel,
    Failure,
> {
    if p.range is None {
        Err(Failure::MissingRequiredField("range"@))
    } else if p.validation_type is None {
        Err(Failure::MissingRequiredField("validation_type"@))
    } else if !is_validation_type(normal_validation_type(p.validation_type.unwrap())) {
        Err(Failure::InvalidEnumValue(p.validation_type.unwrap()))
    } else if p.operator is Some && !is_validation_operator(normal_operator(p.operator.unwrap())) {
        Err(Failure::InvalidEnumValue(p.operator.unwrap()))
    } else {
        Ok(
            ValidationEditModel {
                sqref: p.range.unwrap(),
                validation_type: normal_validation_type(p.validation_type.unwrap()),
                operator: match p.operator {
                    Some(op) => Some(normal_operator(op)),
                    None => None,
                },
                formula1: p.formula1,
                formula2: p.formula2,
                allow_blank: p.allow_blank,
                show_input: p.show_input,
                show_error: p.show_error,
                prompt_title: p.prompt_title,
                prompt: p.prompt,
                error_title: p.error_title,
                error: p.error,
            },
        )
    }
}

/// Validates a validation record and computes the validation to add for
/// it.
pub fn encode_data_validation(p: &ValidationPayload) -> (r: Result<ValidationEdit, CodecError>)
    ensures
        agrees(r, validation_written(p@)),
{
    let range = match &p.range {
        Some(s) => s,
        None => {
            return Err(CodecError::MissingRequiredField(String::from_str("range")));
        },
    };
    let typ = match &p.validation_type {
        Some(s) => s,
        None => {
            return Err(CodecError::MissingRequiredField(String::from_str("validation_type")));
        },
    };
    let typ_norm = normalize_validation_type(typ.as_str());
    if !knows_validation_type(typ_norm.as_str()) {
        return Err(CodecError::InvalidEnumValue(typ.clone()));
    }
    let operator = match &p.operator {
        Some(op) => {
            let op_norm = normalize_operator(op.as_str());
            if !knows_validation_operator(op_norm.as_str()) {
                return Err(CodecError::InvalidEnumValue(op.clone()));
            }
            Some(op_norm)
        },
        None => None,
    };
    Ok(
        ValidationEdit {
            sqref: range.clone(),
            validation_type: typ_norm,
            operator,
            formula1: clone_text(&p.formula1),
            formula2: clone_text(&p.formula2),
            allow_blank: p.allow_blank,
            show_input: p.show_input,
            show_error: p.show_error,
            prompt_title: clone_text(&p.prompt_title),
            prompt: clone_text(&p.prompt),
            error_title: clone_text(&p.error_title),
            error: clone_text(&p.error),
        },
    )
}

} // verus!
