//! Conditional-formatting rules: one record per range and rule on the way
//! out; validation and the synthesis of required parts on the way in.

use vstd::prelude::*;
use vstd::string::*;
use crate::color::{argb_of_hex, argb_to_hex, hex_of_argb, hex_to_argb, lemma_hex_round_trip};
use crate::error::{agrees, text_of, CodecError, Failure};
use crate::style::clone_text;
use crate::text::{chars_of, spells, texts};
use crate::vocabulary::{
    is_rule_operator, is_rule_type, is_threshold_kind, knows_rule_operator, knows_rule_type,
    knows_threshold_kind,
};

verus! {

/// A threshold of a data bar or colour scale: its kind (`num`, `min`, `max`,
/// `percent`, `percentile`, `formula`) and its value, empty where the kind
/// needs none.
#[derive(Clone, Debug, PartialEq, Eq)]
pub struct Threshold {
    pub kind: String,
    pub value: String,
}

/// The mathematical content of a [`Threshold`].
pub struct ThresholdModel {
    pub kind: Seq<char>,
    pub value: Seq<char>,
}

impl View for Threshold {
    type V = ThresholdModel;

    open spec fn view(&self) -> ThresholdModel {
        ThresholdModel { kind: self.kind@, value: self.value@ }
    }
}

/// The thresholds and colour stops of a data bar or a colour scale. Colours
/// are display colours for callers and stored colours in a document.
#[derive(Clone, Debug, PartialEq, Eq)]
pub struct Gradient {
    pub thresholds: Vec<Threshold>,
    pub colors: Vec<String>,
}

/// The mathematical content of a [`Gradient`].
pub struct GradientModel {
    pub thresholds: Seq<ThresholdModel>,
    pub colors: Seq<Seq<char>>,
}

impl View for Gradient {
    type V = GradientModel;

    open spec fn view(&self) -> GradientModel {
        GradientModel {
            thresholds: Seq::new(self.thresholds@.len(), |i: int| self.thresholds@[i]@),
            colors: texts(self.colors@),
        }
    }
}

/// The optional gradient behind an optional gradient record.
pub open spec fn gradient_of(g: Option<Gradient>) -> Option<GradientModel> {
    match g {
        Some(x) => Some(x@),
        None => None,
    }
}

/// A gradient with every colour turned from stored to display form.
pub open spec fn gradient_shown(g: GradientModel) -> GradientModel {
    GradientModel {
        thresholds: g.thresholds,
        colors: Seq::new(g.colors.len(), |i: int| hex_of_argb(g.colors[i])),
    }
}

/// A gradient with every colour turned from display to stored form.
pub open spec fn gradient_stored(g: GradientModel) -> GradientModel {
    GradientModel {
        thresholds: g.thresholds,
        colors: Seq::new(g.colors.len(), |i: int| argb_of_hex(g.colors[i])),
    }
}

/// The data bar that a rule gets where none is supplied: from the number 0
/// to the number 10, in one colour.
pub open spec fn default_bar() -> GradientModel {
    GradientModel {
        thresholds: seq![
            ThresholdModel { kind: "num"@, value: "0"@ },
            ThresholdModel { kind: "num"@, value: "10"@ },
        ],
        colors: seq![argb_of_hex("638EC6"@)],
    }
}

/// The colour scale that a rule gets where none is supplied: from the
/// minimum over the 50th percentile to the maximum, red to yellow to green.
pub open spec fn default_scale() -> GradientModel {
    GradientModel {
        thresholds: seq![
            ThresholdModel { kind: "min"@, value: Seq::empty() },
            ThresholdModel { kind: "percentile"@, value: "50"@ },
            ThresholdModel { kind: "max"@, value: Seq::empty() },
        ],
        colors: seq![argb_of_hex("F8696B"@), argb_of_hex("FFEB84"@), argb_of_hex("63BE7B"@)],
    }
}

fn threshold(kind: &str, value: &str) -> (t: Threshold)
    ensures
        t@ == (ThresholdModel { kind: kind@, value: value@ }),
{
    Threshold { kind: String::from_str(kind), value: String::from_str(value) }
}

/// Builds the data bar that a rule gets where none is supplied, with its
/// colour in stored form.
pub fn default_data_bar() -> (g: Gradient)
    ensures
        g@ == default_bar(),
{
    let mut thresholds: Vec<Threshold> = Vec::new();
    thresholds.push(threshold("num", "0"));
    thresholds.push(threshold("num", "10"));
    let mut colors: Vec<String> = Vec::new();
    colors.push(hex_to_argb("638EC6"));
    let g = Gradient { thresholds, colors };
    assert(g@.thresholds =~= default_bar().thresholds);
    assert(g@.colors =~= default_bar().colors);
    g
}

/// Builds the colour scale that a rule gets where none is supplied, with
/// its colours in stored form.
pub fn default_color_scale() -> (g: Gradient)
    ensures
        g@ == default_scale(),
{
    let mut thresholds: Vec<Threshold> = Vec::new();
    thresholds.push(threshold("min", ""));
    thresholds.push(threshold("percentile", "50"));
    thresholds.push(threshold("max", ""));
    let mut colors: Vec<String> = Vec::new();
    colors.push(hex_to_argb("F8696B"));
    colors.push(hex_to_argb("FFEB84"));
    colors.push(hex_to_argb("63BE7B"));
    let g = Gradient { thresholds, colors };
    proof {
        reveal_strlit("");
        assert(""@ =~= Seq::<char>::empty());
    }
    assert(g@.thresholds =~= default_scale().thresholds);
    assert(g@.colors =~= default_scale().colors);
    g
}

fn clone_thresholds(v: &Vec<Threshold>) -> (out: Vec<Threshold>)
    ensures
        out@.len() == v@.len(),
        forall|i: int| 0 <= i < v@.len() ==> out@[i]@ == v@[i]@,
{
    let mut out: Vec<Threshold> = Vec::new();
    let mut i: usize = 0;
    while i < v.len()
        invariant
            i <= v.len(),
            out@.len() == i,
            forall|k: int| 0 <= k < i ==> out@[k]@ == v@[k]@,
        decreases v.len() - i,
    {
        out.push(Threshold { kind: v[i].kind.clone(), value: v[i].value.clone() });
        i = i + 1;
    }
    out
}

/// Turns the colours of a stored gradient into display colours.
pub fn show_gradient(g: &Gradient) -> (out: Gradient)
    ensures
        out@ == gradient_shown(g@),
{
    let thresholds = clone_thresholds(&g.thresholds);
    let mut colors: Vec<String> = Vec::new();
    let mut i: usize = 0;
    while i < g.colors.len()
        invariant
            i <= g.colors.len(),
            colors@.len() == i,
            forall|k: int| 0 <= k < i ==> colors@[k]@ == hex_of_argb(g.colors@[k]@),
        decreases g.colors.len() - i,
    {
        colors.push(argb_to_hex(g.colors[i].as_str()));
        i = i + 1;
    }
    let out = Gradient { thresholds, colors };
    assert(out@.thresholds =~= gradient_shown(g@).thresholds);
    assert(out@.colors =~= gradient_shown(g@).colors);
    out
}

/// Turns the colours of a gradient record into stored colours.
pub fn store_gradient(g: &Gradient) -> (out: Gradient)
    ensures
        out@ == gradient_stored(g@),
{
    let thresholds = clone_thresholds(&g.thresholds);
    let mut colors: Vec<String> = Vec::new();
    let mut i: usize = 0;
    while i < g.colors.len()
        invariant
            i <= g.colors.len(),
            colors@.len() == i,
            forall|k: int| 0 <= k < i ==> colors@[k]@ == argb_of_hex(g.colors@[k]@),
        decreases g.colors.len() - i,
    {
        colors.push(hex_to_argb(g.colors[i].as_str()));
        i = i + 1;
    }
    let out = Gradient { thresholds, colors };
    assert(out@.thresholds =~= gradient_stored(g@).thresholds);
    assert(out@.colors =~= gradient_stored(g@).colors);
    out
}

/// A rule as a document holds it inside a formatting block.
#[derive(Clone, Debug, PartialEq, Eq)]
pub struct RawRule {
    pub rule_type: String,
    pub operator: String,
    pub priority: i32,
    pub stop_if_true: bool,
    pub formula: Option<String>,
    pub background_argb: Option<String>,
    pub data_bar: Option<Gradient>,
    pub color_scale: Option<Gradient>,
}

/// The mathematical content of a [`RawRule`].
pub struct RawRuleModel {
    pub rule_type: Seq<char>,
    pub operator: Seq<char>,
    pub priority: i32,
    pub stop_if_true: bool,
    pub formula: Option<Seq<char>>,
    pub background_argb: Option<Seq<char>>,
    pub data_bar: Option<GradientModel>,
    pub color_scale: Option<GradientModel>,
}

impl View for RawRule {
    type V = RawRuleModel;

    open spec fn view(&self) -> RawRuleModel {
        RawRuleModel {
            rule_type: self.rule_type@,
            operator: self.operator@,
            priority: self.priority,
            stop_if_true: self.stop_if_true,
            formula: text_of(self.formula),
            background_argb: text_of(self.background_argb),
            data_bar: gradient_of(self.data_bar),
            color_scale: gradient_of(self.color_scale),
        }
    }
}

/// A formatting block of a document: one range reference and the rules
/// that apply to it.
#[derive(Clone, Debug, PartialEq, Eq)]
pub struct RawFormatting {
    pub sqref: String,
    pub rules: Vec<RawRule>,
}

/// The mathematical content of a [`RawFormatting`].
pub struct RawFormattingModel {
    pub sqref: Seq<char>,
    pub rules: Seq<RawRuleModel>,
}

impl View for RawFormatting {
    type V = RawFormattingModel;

    open spec fn view(&self) -> RawFormattingModel {
        RawFormattingModel {
            sqref: self.sqref@,
            rules: Seq::new(self.rules@.len(), |i: int| self.rules@[i]@),
        }
    }
}

/// A conditional-formatting rule as callers see it.
#[derive(Clone, Debug, PartialEq, Eq)]
pub struct ConditionalFormatRule {
    pub range: Option<String>,
    pub rule_type: String,
    pub operator: String,
    pub priority: i32,
    pub stop_if_true: bool,
    pub formula: Option<String>,
    pub bg_color: Option<String>,
    pub data_bar: Option<Gradient>,
    pub color_scale: Option<Gradient>,
}

/// The mathematical content of a [`ConditionalFormatRule`].
pub struct RuleModel {
    pub range: Option<Seq<char>>,
    pub rule_type: Seq<char>,
    pub operator: Seq<char>,
    pub priority: i32,
    pub stop_if_true: bool,
    pub formula: Option<Seq<char>>,
    pub bg_color: Option<Seq<char>>,
    pub data_bar: Option<GradientModel>,
    pub color_scale: Option<GradientModel>,
}

impl View for ConditionalFormatRule {
    type V = RuleModel;

    open spec fn view(&self) -> RuleModel {
        RuleModel {
            range: text_of(self.range),
            rule_type: self.rule_type@,
            operator: self.operator@,
            priority: self.priority,
            stop_if_true: self.stop_if_true,
            formula: text_of(self.formula),
            bg_color: text_of(self.bg_color),
            data_bar: gradient_of(self.data_bar),
            color_scale: gradient_of(self.color_scale),
        }
    }
}

/// Optional text that is present only when it is not empty.
pub open spec fn non_empty(s: Option<Seq<char>>) -> Option<Seq<char>> {
    match s {
        Some(t) => if t.len() == 0 {
            None
        } else {
            Some(t)
        },
        None => None,
    }
}

/// An optional stored colour as a display colour, absent where empty.
pub open spec fn shown_color(argb: Option<Seq<char>>) -> Option<Seq<char>> {
    match non_empty(argb) {
        Some(c) => Some(hex_of_argb(c)),
        None => None,
    }
}

/// An optional stored gradient with display colours.
pub open spec fn shown_gradient(g: Option<GradientModel>) -> Option<GradientModel> {
    match g {
        Some(x) => Some(gradient_shown(x)),
        None => None,
    }
}

/// The record of one rule of a block with range reference `sqref`.
pub open spec fn rule_read(sqref: Seq<char>, rule: RawRuleModel) -> RuleModel {
    RuleModel {
        range: non_empty(Some(sqref)),
        rule_type: rule.rule_type,
        operator: rule.operator,
        priority: rule.priority,
        stop_if_true: rule.stop_if_true,
        formula: non_empty(rule.formula),
        bg_color: shown_color(rule.background_argb),
        data_bar: shown_gradient(rule.data_bar),
        color_scale: shown_gradient(rule.color_scale),
    }
}

/// The records of one block: one per rule, in order, each under the
/// block's range reference.
pub open spec fn block_read(block: RawFormattingModel) -> Seq<RuleModel> {
    Seq::new(block.rules.len(), |i: int| rule_read(block.sqref, block.rules[i]))
}

/// The records of all blocks, block after block.
pub open spec fn blocks_read(blocks: Seq<RawFormattingModel>) -> Seq<RuleModel>
    decreases blocks.len(),
{
    if blocks.len() == 0 {
        Seq::empty()
    } else {
        blocks_read(blocks.drop_last()) + block_read(blocks.last())
    }
}

/// The contents of a run of blocks.
pub open spec fn blocks_of(v: Seq<RawFormatting>) -> Seq<RawFormattingModel> {
    Seq::new(v.len(), |i: int| v[i]@)
}

/// The contents of a run of rule records.
pub open spec fn rules_of(v: Seq<ConditionalFormatRule>) -> Seq<RuleModel> {
    Seq::new(v.len(), |i: int| v[i]@)
}

fn present(s: &String) -> (r: Option<String>)
    ensures
        text_of(r) == non_empty(Some(s@)),
{
    if chars_of(s.as_str()).len() == 0 {
        None
    } else {
        Some(s.clone())
    }
}

fn read_rule(sqref: &String, rule: &RawRule) -> (r: ConditionalFormatRule)
    ensures
        r@ == rule_read(sqref@, rule@),
{
    let formula = match &rule.formula {
        Some(f) => present(f),
        None => None,
    };
    let bg_color = match &rule.background_argb {
        Some(c) => match present(c) {
            Some(argb) => Some(argb_to_hex(argb.as_str())),
            None => None,
        },
        None => None,
    };
    let data_bar = match &rule.data_bar {
        Some(g) => Some(show_gradient(g)),
        None => None,
    };
    let color_scale = match &rule.color_scale {
        Some(g) => Some(show_gradient(g)),
        None => None,
    };
    ConditionalFormatRule {
        range: present(sqref),
        rule_type: rule.rule_type.clone(),
        operator: rule.operator.clone(),
        priority: rule.priority,
        stop_if_true: rule.stop_if_true,
        formula,
        bg_color,
        data_bar,
        color_scale,
    }
}

/// Decodes the formatting blocks of a sheet into rule records.
pub fn decode_conditional_formats(blocks: &Vec<RawFormatting>) -> (out: Vec<ConditionalFormatRule>)
    ensures
        rules_of(out@) == blocks_read(blocks_of(blocks@)),
{
    let mut out: Vec<ConditionalFormatRule> = Vec::new();
    let mut b: usize = 0;
    let ghost all = blocks_of(blocks@);
    assert(all.subrange(0, 0) =~= Seq::<RawFormattingModel>::empty());
    assert(rules_of(out@) =~= Seq::<RuleModel>::empty());
    while b < blocks.len()
        invariant
            b <= blocks.len(),
            all == blocks_of(blocks@),
            rules_of(out@) == blocks_read(all.subrange(0, b as int)),
        decreases blocks.len() - b,
    {
        let block = &blocks[b];
        let ghost before = rules_of(out@);
        let mut i: usize = 0;
        while i < block.rules.len()
            invariant
                i <= block.rules.len(),
                rules_of(out@) == before + block_read(block@).subrange(0, i as int),
            decreases block.rules.len() - i,
        {
            let ghost prev = out@;
            let rec = read_rule(&block.sqref, &block.rules[i]);
            out.push(rec);
            assert(rules_of(out@) =~= rules_of(prev).push(rec@));
            assert(block_read(block@).subrange(0, i + 1) =~= block_read(block@).subrange(
                0,
                i as int,
            ).push(rec@));
            assert(before + block_read(block@).subrange(0, i as int).push(rec@) =~= (before
                + block_read(block@).subrange(0, i as int)).push(rec@));
            i = i + 1;
        }
        proof {
            assert(block_read(block@).subrange(0, i as int) =~= block_read(block@));
            let upto = all.subrange(0, b + 1);
            assert(upto.drop_last() =~= all.subrange(0, b as int));
            assert(upto.last() == block@);
        }
        b = b + 1;
    }
    assert(all.subrange(0, b as int) =~= all);
    out
}

/// A rule record as callers supply it. Every field may be absent.
#[derive(Clone, Debug, PartialEq, Eq)]
pub struct RulePayload {
    pub range: Option<String>,
    pub rule_type: Option<String>,
    pub operator: Option<String>,
    pub formula: Option<String>,
    pub priority: Option<i32>,
    pub stop_if_true: Option<bool>,
    pub bg_color: Option<String>,
    pub data_bar: Option<Gradient>,
    pub color_scale: Option<Gradient>,
}

/// The mathematical content of a [`RulePayload`].
pub struct RulePayloadModel {
    pub range: Option<Seq<char>>,
    pub rule_type: Option<Seq<char>>,
    pub operator: Option<Seq<char>>,
    pub formula: Option<Seq<char>>,
    pub priority: Option<i32>,
    pub stop_if_true: Option<bool>,
    pub bg_color: Option<Seq<char>>,
    pub data_bar: Option<GradientModel>,
    pub color_scale: Option<GradientModel>,
}

impl View for RulePayload {
    type V = RulePayloadModel;

    open spec fn view(&self) -> RulePayloadModel {
        RulePayloadModel {
            range: text_of(self.range),
            rule_type: text_of(self.rule_type),
            operator: text_of(self.operator),
            formula: text_of(self.formula),
            priority: self.priority,
            stop_if_true: self.stop_if_true,
            bg_color: text_of(self.bg_color),
            data_bar: gradient_of(self.data_bar),
            color_scale: gradient_of(self.color_scale),
        }
    }
}

/// The formatting block to add to a sheet: one range reference and one
/// rule. Optional parts are set on the rule only where they are present.
#[derive(Clone, Debug, PartialEq, Eq)]
pub struct RuleEdit {
    pub sqref: String,
    pub rule_type: String,
    pub operator: Option<String>,
    pub formula: Option<String>,
    pub priority: Option<i32>,
    pub stop_if_true: Option<bool>,
    pub background_argb: Option<String>,
    pub data_bar: Option<Gradient>,
    pub color_scale: Option<Gradient>,
}

/// The mathematical content of a [`RuleEdit`].
pub struct RuleEditModel {
    pub sqref: Seq<char>,
    pub rule_type: Seq<char>,
    pub operator: Option<Seq<char>>,
    pub formula: Option<Seq<char>>,
    pub priority: Option<i32>,
    pub stop_if_true: Option<bool>,
    pub background_argb: Option<Seq<char>>,
    pub data_bar: Option<GradientModel>,
    pub color_scale: Option<GradientModel>,
}

impl View for RuleEdit {
    type V = RuleEditModel;

    open spec fn view(&self) -> RuleEditModel {
        RuleEditModel {
            sqref: self.sqref@,
            rule_type: self.rule_type@,
            operator: text_of(self.operator),
            formula: text_of(self.formula),
            priority: self.priority,
            stop_if_true: self.stop_if_true,
            background_argb: text_of(self.background_argb),
            data_bar: gradient_of(self.data_bar),
            color_scale: gradient_of(self.color_scale),
        }
    }
}

/// The kind of the first threshold whose kind is outside the vocabulary.
pub open spec fn first_unknown_kind(thresholds: Seq<ThresholdModel>) -> Option<Seq<char>>
    decreases thresholds.len(),
{
    if thresholds.len() == 0 {
        None
    } else if !is_threshold_kind(thresholds[0].kind) {
        Some(thresholds[0].kind)
    } else {
        first_unknown_kind(thresholds.drop_first())
    }
}

/// The first threshold kind of a supplied gradient that is outside the
/// vocabulary.
pub open spec fn unknown_kind(g: Option<GradientModel>) -> Option<Seq<char>> {
    match g {
        Some(x) => first_unknown_kind(x.thresholds),
        None => None,
    }
}

/// The data bar of the rule to add: the supplied one in stored form; the
/// default where the rule is a data bar and none is supplied.
pub open spec fn bar_written(p: RulePayloadModel) -> Option<GradientModel> {
    match p.data_bar {
        Some(g) => Some(gradient_stored(g)),
        None => if p.rule_type == Some("dataBar"@) {
            Some(default_bar())
        } else {
            None
        },
    }
}

/// The colour scale of the rule to add: the supplied one in stored form;
/// the default where the rule is a colour scale and none is supplied.
pub open spec fn scale_written(p: RulePayloadModel) -> Option<GradientModel> {
    match p.color_scale {
        Some(g) => Some(gradient_stored(g)),
        None => if p.rule_type == Some("colorScale"@) {
            Some(default_scale())
        } else {
            None
        },
    }
}

/// The block that a rule record asks to add, or why it is rejected: a
/// missing range, a missing rule type, a rule type outside its vocabulary,
/// an operator outside its vocabulary, a threshold kind outside its
/// vocabulary in the data bar, then in the colour scale, in that order.
pub open spec fn rule_written(p: RulePayloadModel) -> Result<RuleEditModel, Failure> {
    if p.range is None {
        Err(Failure::MissingRequiredField("range"@))
    } else if p.rule_type is None {
        Err(Failure::MissingRequiredField("rule_type"@))
    } else if !is_rule_type(p.rule_type.unwrap()) {
        Err(Failure::InvalidEnumValue(p.rule_type.unwrap()))
    } else if p.operator is Some && !is_rule_operator(p.operator.unwrap()) {
        Err(Failure::InvalidEnumValue(p.operator.unwrap()))
    } else if unknown_kind(p.data_bar) is Some {
        Err(Failure::InvalidEnumValue(unknown_kind(p.data_bar).unwrap()))
    } else if unknown_kind(p.color_scale) is Some {
        Err(Failure::InvalidEnumValue(unknown_kind(p.color_scale).unwrap()))
    } else {
        Ok(
            RuleEditModel {
                sqref: p.range.unwrap(),
                rule_type: p.rule_type.unwrap(),
                operator: p.operator,
                formula: p.formula,
                priority: p.priority,
                stop_if_true: p.stop_if_true,
                background_argb: match p.bg_color {
                    Some(c) => Some(argb_of_hex(c)),
                    None => None,
                },
                data_bar: bar_written(p),
                color_scale: scale_written(p),
            },
        )
    }
}

fn find_unknown_kind(g: &Option<Gradient>) -> (r: Option<String>)
    ensures
        text_of(r) == unknown_kind(gradient_of(*g)),
{
    let given = match g {
        Some(x) => x,
        None => {
            return None;
        },
    };
    let n = given.thresholds.len();
    let ghost all = given@.thresholds;
    let mut i: usize = 0;
    assert(all.subrange(0, n as int) =~= all);
    while i < n
        invariant
            n == given.thresholds.len(),
            i <= n,
            *g == Some(*given),
            all == given@.thresholds,
            first_unknown_kind(all) == first_unknown_kind(all.subrange(i as int, n as int)),
        decreases n - i,
    {
        let ghost rest = all.subrange(i as int, n as int);
        assert(rest[0] == given.thresholds@[i as int]@);
        if !knows_threshold_kind(given.thresholds[i].kind.as_str()) {
            let bad = given.thresholds[i].kind.clone();
            assert(rest[0].kind == bad@);
            assert(first_unknown_kind(rest) == Some(bad@));
            return Some(bad);
        }
        assert(rest.drop_first() =~= all.subrange(i + 1, n as int));
        i = i + 1;
    }
    None
}

/// Validates a rule record and computes the block to add for it. A data
/// bar or colour scale rule always leaves with its sub-object.
pub fn encode_conditional_format(p: &RulePayload) -> (r: Result<RuleEdit, CodecError>)
    ensures
        agrees(r, rule_written(p@)),
{
    let range = match &p.range {
        Some(s) => s,
        None => {
            return Err(CodecError::MissingRequiredField(String::from_str("range")));
        },
    };
    let rule_type = match &p.rule_type {
        Some(s) => s,
        None => {
            return Err(CodecError::MissingRequiredField(String::from_str("rule_type")));
        },
    };
    if !knows_rule_type(rule_type.as_str()) {
        return Err(CodecError::InvalidEnumValue(rule_type.clone()));
    }
    match &p.operator {
        Some(op) => {
            if !knows_rule_operator(op.as_str()) {
                return Err(CodecError::InvalidEnumValue(op.clone()));
            }
        },
        None => {},
    }
    match find_unknown_kind(&p.data_bar) {
        Some(k) => {
            return Err(CodecError::InvalidEnumValue(k));
        },
        None => {},
    }
    match find_unknown_kind(&p.color_scale) {
        Some(k) => {
            return Err(CodecError::InvalidEnumValue(k));
        },
        None => {},
    }
    let kind = chars_of(rule_type.as_str());
    let data_bar = match &p.data_bar {
        Some(g) => Some(store_gradient(g)),
        None => if spells(&kind, "dataBar") {
            Some(default_data_bar())
        } else {
            None
        },
    };
    let color_scale = match &p.color_scale {
        Some(g) => Some(store_gradient(g)),
        None => if spells(&kind, "colorScale") {
            Some(default_color_scale())
        } else {
            None
        },
    };
    let background_argb = match &p.bg_color {
        Some(c) => Some(hex_to_argb(c.as_str())),
        None => None,
    };
    Ok(
        RuleEdit {
            sqref: range.clone(),
            rule_type: rule_type.clone(),
            operator: clone_text(&p.operator),
            formula: clone_text(&p.formula),
            priority: p.priority,
            stop_if_true: p.stop_if_true,
            background_argb,
            data_bar,
            color_scale,
        },
    )
}

/// A data bar rule that is written without a bar is read back with
/// thresholds at the numbers 0 and 10 and the one colour `#638EC6`.
pub proof fn lemma_default_bar_reads_back(p: RulePayloadModel)
    requires
        p.rule_type == Some("dataBar"@),
        p.data_bar is None,
        rule_written(p) is Ok,
    ensures
        rule_written(p)->Ok_0.data_bar == Some(default_bar()),
        gradient_shown(default_bar()).thresholds == seq![
            ThresholdModel { kind: "num"@, value: "0"@ },
            ThresholdModel { kind: "num"@, value: "10"@ },
        ],
        gradient_shown(default_bar()).colors == seq!["#638EC6"@],
{
    reveal_strlit("638EC6");
    reveal_strlit("#638EC6");
    let rgb = "638EC6"@;
    lemma_hex_round_trip(rgb);
    crate::color::lemma_tight_is_trimmed(rgb);
    assert(argb_of_hex(rgb) =~= seq!['F', 'F'] + rgb);
    assert(seq!['#'] + rgb =~= "#638EC6"@);
    assert(gradient_shown(default_bar()).colors =~= seq!["#638EC6"@]);
}

/// A colour scale rule that is written without a scale is read back with
/// three thresholds and the three colours red, yellow and green.
pub proof fn lemma_default_scale_reads_back(p: RulePayloadModel)
    requires
        p.rule_type == Some("colorScale"@),
        p.color_scale is None,
        rule_written(p) is Ok,
    ensures
        rule_written(p)->Ok_0.color_scale == Some(default_scale()),
        gradient_shown(default_scale()).thresholds.len() == 3,
        gradient_shown(default_scale()).colors == seq!["#F8696B"@, "#FFEB84"@, "#63BE7B"@],
{
    reveal_strlit("F8696B");
    reveal_strlit("#F8696B");
    reveal_strlit("FFEB84");
    reveal_strlit("#FFEB84");
    reveal_strlit("63BE7B");
    reveal_strlit("#63BE7B");
    lemma_shown_default("F8696B"@, "#F8696B"@);
    lemma_shown_default("FFEB84"@, "#FFEB84"@);
    lemma_shown_default("63BE7B"@, "#63BE7B"@);
    assert(gradient_shown(default_scale()).colors =~= seq![
        "#F8696B"@,
        "#FFEB84"@,
        "#63BE7B"@,
    ]);
}

proof fn lemma_shown_default(rgb: Seq<char>, hex: Seq<char>)
    requires
        rgb.len() == 6,
        rgb[0] != '#',
        crate::color::is_tight(rgb),
        hex =~= seq!['#'] + rgb,
    ensures
        hex_of_argb(argb_of_hex(rgb)) == hex,
{
    lemma_hex_round_trip(rgb);
    crate::color::lemma_tight_is_trimmed(rgb);
    assert(argb_of_hex(rgb) =~= seq!['F', 'F'] + rgb);
}

} // verus!
