//! The closed vocabularies of the document model, as it spells them.

use vstd::prelude::*;
use std::str::FromStr;
use umya_spreadsheet::structs::{
    ConditionalFormatValueObjectValues, ConditionalFormatValues, ConditionalFormattingOperatorValues, DataValidationOperatorValues,
    DataValidationValues, HorizontalAlignmentValues, VerticalAlignmentValues,
};

verus! {

/// The kinds of conditional-formatting rule.
pub open spec fn is_rule_type(s: Seq<char>) -> bool {
    ||| s == "aboveAverage"@
    ||| s == "beginsWith"@
    ||| s == "cellIs"@
    ||| s == "colorScale"@
    ||| s == "containsBlanks"@
    ||| s == "containsErrors"@
    ||| s == "containsText"@
    ||| s == "dataBar"@
    ||| s == "duplicateValues"@
    ||| s == "endsWith"@
    ||| s == "expression"@
    ||| s == "iconSet"@
    ||| s == "notContainsBlanks"@
    ||| s == "notContainsErrors"@
    ||| s == "notContainsText"@
    ||| s == "timePeriod"@
    ||| s == "top10"@
    ||| s == "uniqueValues"@
}

/// The operators of a conditional-formatting rule.
pub open spec fn is_rule_operator(s: Seq<char>) -> bool {
    ||| s == "beginsWith"@
    ||| s == "between"@
    ||| s == "containsText"@
    ||| s == "endsWith"@
    ||| s == "equal"@
    ||| s == "greaterThan"@
    ||| s == "greaterThanOrEqual"@
    ||| s == "lessThan"@
    ||| s == "lessThanOrEqual"@
    ||| s == "notBetween"@
    ||| s == "notContains"@
    ||| s == "notEqual"@
}

/// The kinds of threshold of a data bar or colour scale.
pub open spec fn is_threshold_kind(s: Seq<char>) -> bool {
    ||| s == "formula"@
    ||| s == "max"@
    ||| s == "min"@
    ||| s == "num"@
    ||| s == "percent"@
    ||| s == "percentile"@
}

/// The kinds of data validation.
pub open spec fn is_validation_type(s: Seq<char>) -> bool {
    ||| s == "custom"@
    ||| s == "date"@
    ||| s == "decimal"@
    ||| s == "list"@
    ||| s == "none"@
    ||| s == "textLength"@
    ||| s == "time"@
    ||| s == "whole"@
}

/// The operators of a data validation.
pub open spec fn is_validation_operator(s: Seq<char>) -> bool {
    ||| s == "between"@
    ||| s == "equal"@
    ||| s == "greaterThan"@
    ||| s == "greaterThanOrEqual"@
    ||| s == "lessThan"@
    ||| s == "lessThanOrEqual"@
    ||| s == "notBetween"@
    ||| s == "notEqual"@
}

/// The horizontal alignments.
pub open spec fn is_horizontal_alignment(s: Seq<char>) -> bool {
    ||| s == "center"@
    ||| s == "centerContinuous"@
    ||| s == "distributed"@
    ||| s == "fill"@
    ||| s == "general"@
    ||| s == "justify"@
    ||| s == "left"@
    ||| s == "right"@
}

/// The vertical alignments.
pub open spec fn is_vertical_alignment(s: Seq<char>) -> bool {
    ||| s == "bottom"@
    ||| s == "center"@
    ||| s == "distributed"@
    ||| s == "justify"@
    ||| s == "top"@
}

/// Calls `ConditionalFormatValues::from_str`. Trusted: it accepts exactly
/// the eighteen spellings of [`is_rule_type`].
#[verifier::external_body]
pub(crate) fn knows_rule_type(s: &str) -> (r: bool)
    ensures
        r == is_rule_type(s@),
{
    ConditionalFormatValues::from_str(s).is_ok()
}

/// Calls `ConditionalFormattingOperatorValues::from_str`. Trusted: it
/// accepts exactly the twelve spellings of [`is_rule_operator`].
#[verifier::external_body]
pub(crate) fn knows_rule_operator(s: &str) -> (r: bool)
    ensures
        r == is_rule_operator(s@),
{
    ConditionalFormattingOperatorValues::from_str(s).is_ok()
}

/// Calls `ConditionalFormatValueObjectValues::from_str`. Trusted: it
/// accepts exactly the six spellings of [`is_threshold_kind`].
#[verifier::external_body]
pub(crate) fn knows_threshold_kind(s: &str) -> (r: bool)
    ensures
        r == is_threshold_kind(s@),
{
    ConditionalFormatValueObjectValues::from_str(s).is_ok()
}

/// Calls `DataValidationValues::from_str`. Trusted: it accepts exactly the
/// eight spellings of [`is_validation_type`].
#[verifier::external_body]
pub(crate) fn knows_validation_type(s: &str) -> (r: bool)
    ensures
        r == is_validation_type(s@),
{
    DataValidationValues::from_str(s).is_ok()
}

/// Calls `DataValidationOperatorValues::from_str`. Trusted: it accepts
/// exactly the eight spellings of [`is_validation_operator`].
#[verifier::external_body]
pub(crate) fn knows_validation_operator(s: &str) -> (r: bool)
    ensures
        r == is_validation_operator(s@),
{
    DataValidationOperatorValues::from_str(s).is_ok()
}

/// Calls `HorizontalAlignmentValues::from_str`. Trusted: it accepts exactly
/// the eight spellings of [`is_horizontal_alignment`].
#[verifier::external_body]
pub(crate) fn knows_horizontal_alignment(s: &str) -> (r: bool)
    ensures
        r == is_horizontal_alignment(s@),
{
    HorizontalAlignmentValues::from_str(s).is_ok()
}

/// Calls `VerticalAlignmentValues::from_str`. Trusted: it accepts exactly
/// the five spellings of [`is_vertical_alignment`].
#[verifier::external_body]
pub(crate) fn knows_vertical_alignment(s: &str) -> (r: bool)
    ensures
        r == is_vertical_alignment(s@),
{
    VerticalAlignmentValues::from_str(s).is_ok()
}

} // verus!
