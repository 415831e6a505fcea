//! The tagged record in which callers exchange a cell value.

use vstd::prelude::*;
use vstd::string::*;
use crate::cell::{encode_cell_value, encoded, CellEdit, CellEditModel, CellModel, CellValue};
use crate::error::{agrees, text_of, CodecError, Failure};
use crate::number::Number64;
use crate::text::{chars_of, spells};

verus! {

/// The value field of a cell record. Its kind depends on the tag.
#[derive(Clone, Debug, PartialEq, Eq)]
pub enum PayloadValue {
    Text(String),
    Number(Number64),
    Flag(bool),
}

/// The mathematical content of a [`PayloadValue`].
pub enum PayloadValueModel {
    Text(Seq<char>),
    Number(u64),
    Flag(bool),
}

impl View for PayloadValue {
    type V = PayloadValueModel;

    open spec fn view(&self) -> PayloadValueModel {
        match self {
            PayloadValue::Text(s) => PayloadValueModel::Text(s@),
            PayloadValue::Number(n) => PayloadValueModel::Number(n.bits),
            PayloadValue::Flag(b) => PayloadValueModel::Flag(*b),
        }
    }
}

/// A cell record: the tag under `type`, and the fields `value` and
/// `formula`, each present or not.
#[derive(Clone, Debug, PartialEq, Eq)]
pub struct CellPayload {
    pub kind: Option<String>,
    pub value: Option<PayloadValue>,
    pub formula: Option<String>,
}

/// The mathematical content of a [`CellPayload`].
pub struct CellPayloadModel {
    pub kind: Option<Seq<char>>,
    pub value: Option<PayloadValueModel>,
    pub formula: Option<Seq<char>>,
}

impl View for CellPayload {
    type V = CellPayloadModel;

    open spec fn view(&self) -> CellPayloadModel {
        CellPayloadModel {
            kind: text_of(self.kind),
            value: match self.value {
                Some(v) => Some(v@),
                None => None,
            },
            formula: text_of(self.formula),
        }
    }
}

/// The record of a canonical value.
pub open spec fn payload_of(v: CellModel) -> CellPayloadModel {
    match v {
        CellModel::Blank => CellPayloadModel { kind: Some("blank"@), value: None, formula: None },
        CellModel::String(s) => CellPayloadModel {
            kind: Some("string"@),
            value: Some(PayloadValueModel::Text(s)),
            formula: None,
        },
        CellModel::Number(n) => CellPayloadModel {
            kind: Some("number"@),
            value: Some(PayloadValueModel::Number(n)),
            formula: None,
        },
        CellModel::Boolean(b) => CellPayloadModel {
            kind: Some("boolean"@),
            value: Some(PayloadValueModel::Flag(b)),
            formula: None,
        },
        CellModel::Date(s) => CellPayloadModel {
            kind: Some("date"@),
            value: Some(PayloadValueModel::Text(s)),
            formula: None,
        },
        CellModel::DateTime(s) => CellPayloadModel {
            kind: Some("datetime"@),
            value: Some(PayloadValueModel::Text(s)),
            formula: None,
        },
        CellModel::Formula(text, display) => CellPayloadModel {
            kind: Some("formula"@),
            value: Some(PayloadValueModel::Text(display)),
            formula: Some(text),
        },
        CellModel::Error(s) => CellPayloadModel {
            kind: Some("error"@),
            value: Some(PayloadValueModel::Text(s)),
            formula: None,
        },
    }
}

/// The text in the value field, where the field holds text; a field of
/// another kind is an unsupported value for the tag, and a missing field is
/// a missing `value`.
pub open spec fn required_text(p: CellPayloadModel) -> Result<Seq<char>, Failure> {
    match p.value {
        Some(PayloadValueModel::Text(s)) => Ok(s),
        Some(_) => Err(Failure::UnsupportedValueType(p.kind.unwrap())),
        None => Err(Failure::MissingRequiredField("value"@)),
    }
}

/// The canonical value that a record stands for, or why it stands for
/// none. The tag decides; a tag outside the eight known ones is
/// unsupported, and is quoted.
pub open spec fn value_of_payload(p: CellPayloadModel) -> Result<CellModel, Failure> {
    if p.kind is None {
        Err(Failure::MissingRequiredField("type"@))
    } else {
        let kind = p.kind.unwrap();
        if kind == "blank"@ {
            Ok(CellModel::Blank)
        } else if kind == "string"@ {
            match p.value {
                None => Err(Failure::MissingRequiredField("value"@)),
                Some(PayloadValueModel::Text(s)) => Ok(CellModel::String(s)),
                Some(_) => Err(Failure::UnsupportedValueType(kind)),
            }
        } else if kind == "number"@ {
            match p.value {
                None => Err(Failure::MissingRequiredField("value"@)),
                Some(PayloadValueModel::Number(n)) => Ok(CellModel::Number(n)),
                Some(_) => Err(Failure::UnsupportedValueType(kind)),
            }
        } else if kind == "boolean"@ {
            match p.value {
                None => Err(Failure::MissingRequiredField("value"@)),
                Some(PayloadValueModel::Flag(b)) => Ok(CellModel::Boolean(b)),
                Some(_) => Err(Failure::UnsupportedValueType(kind)),
            }
        } else if kind == "formula"@ {
            match p.formula {
                Some(f) => Ok(CellModel::Formula(f, f)),
                None => match p.value {
                    None => Err(Failure::MissingRequiredField("formula"@)),
                    Some(PayloadValueModel::Text(f)) => Ok(CellModel::Formula(f, f)),
                    Some(_) => Err(Failure::UnsupportedValueType(kind)),
                },
            }
        } else if kind == "error"@ {
            match required_text(p) {
                Ok(s) => Ok(CellModel::Error(s)),
                Err(e) => Err(e),
            }
        } else if kind == "date"@ {
            match required_text(p) {
                Ok(s) => Ok(CellModel::Date(s)),
                Err(e) => Err(e),
            }
        } else if kind == "datetime"@ {
            match required_text(p) {
                Ok(s) => Ok(CellModel::DateTime(s)),
                Err(e) => Err(e),
            }
        } else {
            Err(Failure::UnsupportedValueType(kind))
        }
    }
}

/// What to store for a record: the edit of the value it stands for.
pub open spec fn edit_of_payload(p: CellPayloadModel) -> Result<CellEditModel, Failure> {
    match value_of_payload(p) {
        Ok(v) => encoded(v),
        Err(e) => Err(e),
    }
}

/// Writes a canonical value as the record that callers receive.
pub fn cell_payload(v: &CellValue) -> (p: CellPayload)
    ensures
        p@ == payload_of(v@),
{
    match v {
        CellValue::Blank => CellPayload {
            kind: Some(String::from_str("blank")),
            value: None,
            formula: None,
        },
        CellValue::String(s) => CellPayload {
            kind: Some(String::from_str("string")),
            value: Some(PayloadValue::Text(s.clone())),
            formula: None,
        },
        CellValue::Number(n) => CellPayload {
            kind: Some(String::from_str("number")),
            value: Some(PayloadValue::Number(*n)),
            formula: None,
        },
        CellValue::Boolean(b) => CellPayload {
            kind: Some(String::from_str("boolean")),
            value: Some(PayloadValue::Flag(*b)),
            formula: None,
        },
        CellValue::Date(s) => CellPayload {
            kind: Some(String::from_str("date")),
            value: Some(PayloadValue::Text(s.clone())),
            formula: None,
        },
        CellValue::DateTime(s) => CellPayload {
            kind: Some(String::from_str("datetime")),
            value: Some(PayloadValue::Text(s.clone())),
            formula: None,
        },
        CellValue::Formula { text, display } => CellPayload {
            kind: Some(String::from_str("formula")),
            value: Some(PayloadValue::Text(display.clone())),
            formula: Some(text.clone()),
        },
        CellValue::Error(s) => CellPayload {
            kind: Some(String::from_str("error")),
            value: Some(PayloadValue::Text(s.clone())),
            formula: None,
        },
    }
}

fn text_value(p: &CellPayload) -> (r: Result<String, CodecError>)
    requires
        p.kind is Some,
    ensures
        agrees(r, required_text(p@)),
{
    match &p.value {
        Some(PayloadValue::Text(s)) => Ok(s.clone()),
        Some(_) => Err(CodecError::UnsupportedValueType(p.kind.clone().unwrap())),
        None => Err(CodecError::MissingRequiredField(String::from_str("value"))),
    }
}

/// Reads the canonical value out of a record.
pub fn parse_cell_payload(p: &CellPayload) -> (r: Result<CellValue, CodecError>)
    ensures
        agrees(r, value_of_payload(p@)),
{
    let kind = match &p.kind {
        Some(k) => k,
        None => {
            return Err(CodecError::MissingRequiredField(String::from_str("type")));
        },
    };
    let tag = chars_of(kind.as_str());
    if spells(&tag, "blank") {
        Ok(CellValue::Blank)
    } else if spells(&tag, "string") {
        match &p.value {
            None => Err(CodecError::MissingRequiredField(String::from_str("value"))),
            Some(PayloadValue::Text(s)) => Ok(CellValue::String(s.clone())),
            Some(_) => Err(CodecError::UnsupportedValueType(kind.clone())),
        }
    } else if spells(&tag, "number") {
        match &p.value {
            None => Err(CodecError::MissingRequiredField(String::from_str("value"))),
            Some(PayloadValue::Number(n)) => Ok(CellValue::Number(*n)),
            Some(_) => Err(CodecError::UnsupportedValueType(kind.clone())),
        }
    } else if spells(&tag, "boolean") {
        match &p.value {
            None => Err(CodecError::MissingRequiredField(String::from_str("value"))),
            Some(PayloadValue::Flag(b)) => Ok(CellValue::Boolean(*b)),
            Some(_) => Err(CodecError::UnsupportedValueType(kind.clone())),
        }
    } else if spells(&tag, "formula") {
        match &p.formula {
            Some(f) => Ok(CellValue::Formula { text: f.clone(), display: f.clone() }),
            None => match &p.value {
                None => Err(CodecError::MissingRequiredField(String::from_str("formula"))),
                Some(PayloadValue::Text(f)) => Ok(
                    CellValue::Formula { text: f.clone(), display: f.clone() },
                ),
                Some(_) => Err(CodecError::UnsupportedValueType(kind.clone())),
            },
        }
    } else if spells(&tag, "error") {
        match text_value(p) {
            Ok(s) => Ok(CellValue::Error(s)),
            Err(e) => Err(e),
        }
    } else if spells(&tag, "date") {
        match text_value(p) {
            Ok(s) => Ok(CellValue::Date(s)),
            Err(e) => Err(e),
        }
    } else if spells(&tag, "datetime") {
        match text_value(p) {
            Ok(s) => Ok(CellValue::DateTime(s)),
            Err(e) => Err(e),
        }
    } else {
        Err(CodecError::UnsupportedValueType(kind.clone()))
    }
}

/// Computes what to store for a cell record. The record is checked as a
/// whole first, so nothing is stored for a record that is rejected.
pub fn encode_cell_payload(p: &CellPayload) -> (r: Result<CellEdit, CodecError>)
    ensures
        agrees(r, edit_of_payload(p@)),
{
    match parse_cell_payload(p) {
        Ok(v) => encode_cell_value(&v),
        Err(e) => Err(e),
    }
}

/// Reading the record of a value gives the value again, whatever the value.
pub proof fn lemma_payload_round_trip(v: CellModel)
    ensures
        value_of_payload(payload_of(v)) == Ok::<CellModel, Failure>(
            match v {
                CellModel::Formula(text, _) => CellModel::Formula(text, text),
                _ => v,
            },
        ),
{
    reveal_strlit("blank");
    reveal_strlit("string");
    reveal_strlit("number");
    reveal_strlit("boolean");
    reveal_strlit("formula");
    reveal_strlit("error");
    reveal_strlit("date");
    reveal_strlit("datetime");
    assert("blank"@.len() == 5 && "string"@.len() == 6 && "number"@.len() == 6 && "boolean"@.len()
        == 7 && "formula"@.len() == 7 && "error"@.len() == 5 && "date"@.len() == 4
        && "datetime"@.len() == 8);
    assert("blank"@[0] == 'b' && "error"@[0] == 'e');
    assert("string"@[0] == 's' && "number"@[0] == 'n');
    assert("boolean"@[0] == 'b' && "formula"@[0] == 'f');
}

} // verus!
