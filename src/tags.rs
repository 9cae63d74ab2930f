use vstd::prelude::*;

use crate::stock_rating::{ChartPattern, MarketTrend};
use crate::trade::TradeStatus;

verus! {

// Each variant is stored as text: a fixed name in double quotes, and for
// `ChartPattern::Other` the label as a JSON string literal, framed as
// `{"Other":<label>}`.

/// `s` and `lit` hold the same characters.
fn equals_literal(s: &str, lit: &str) -> (r: bool)
    ensures
        r == (s@ == lit@),
{
    let a = String::from_str(s);
    let b = String::from_str(lit);
    a == b
}

/// The stored text of a `MarketTrend`.
pub open spec fn trend_text(v: MarketTrend) -> Seq<char> {
    match v {
        MarketTrend::Uptrend => "\"Uptrend\""@,
        MarketTrend::Downtrend => "\"Downtrend\""@,
        MarketTrend::Sideways => "\"Sideways\""@,
        MarketTrend::Uncertain => "\"Uncertain\""@,
    }
}

/// Distinct variants are stored as distinct texts.
pub proof fn trend_text_injective(a: MarketTrend, b: MarketTrend)
    requires
        trend_text(a) == trend_text(b),
    ensures
        a == b,
{
    match a {
        MarketTrend::Uptrend => {
            reveal_strlit("\"Uptrend\"");
            assert(trend_text(a).len() == 9 && trend_text(a)[1] == 'U' && trend_text(a)[2] == 'p' && trend_text(a)[3] == 't');
        },
        MarketTrend::Downtrend => {
            reveal_strlit("\"Downtrend\"");
            assert(trend_text(a).len() == 11 && trend_text(a)[1] == 'D' && trend_text(a)[2] == 'o' && trend_text(a)[3] == 'w');
        },
        MarketTrend::Sideways => {
            reveal_strlit("\"Sideways\"");
            assert(trend_text(a).len() == 10 && trend_text(a)[1] == 'S' && trend_text(a)[2] == 'i' && trend_text(a)[3] == 'd');
        },
        MarketTrend::Uncertain => {
            reveal_strlit("\"Uncertain\"");
            assert(trend_text(a).len() == 11 && trend_text(a)[1] == 'U' && trend_text(a)[2] == 'n' && trend_text(a)[3] == 'c');
        },
    }
    match b {
        MarketTrend::Uptrend => {
            reveal_strlit("\"Uptrend\"");
            assert(trend_text(b).len() == 9 && trend_text(b)[1] == 'U' && trend_text(b)[2] == 'p' && trend_text(b)[3] == 't');
        },
        MarketTrend::Downtrend => {
            reveal_strlit("\"Downtrend\"");
            assert(trend_text(b).len() == 11 && trend_text(b)[1] == 'D' && trend_text(b)[2] == 'o' && trend_text(b)[3] == 'w');
        },
        MarketTrend::Sideways => {
            reveal_strlit("\"Sideways\"");
            assert(trend_text(b).len() == 10 && trend_text(b)[1] == 'S' && trend_text(b)[2] == 'i' && trend_text(b)[3] == 'd');
        },
        MarketTrend::Uncertain => {
            reveal_strlit("\"Uncertain\"");
            assert(trend_text(b).len() == 11 && trend_text(b)[1] == 'U' && trend_text(b)[2] == 'n' && trend_text(b)[3] == 'c');
        },
    }
}

/// The stored text of `v`.
pub fn encode_market_trend(v: &MarketTrend) -> (r: String)
    ensures
        r@ == trend_text(*v),
{
    match v {
        MarketTrend::Uptrend => String::from_str("\"Uptrend\""),
        MarketTrend::Downtrend => String::from_str("\"Downtrend\""),
        MarketTrend::Sideways => String::from_str("\"Sideways\""),
        MarketTrend::Uncertain => String::from_str("\"Uncertain\""),
    }
}

/// The `MarketTrend` stored as `text`; `None` where no variant is stored so.
pub fn decode_market_trend(text: &str) -> (r: Option<MarketTrend>)
    ensures
        r matches Some(v) ==> trend_text(v) == text@,
        r is None ==> forall|v: MarketTrend| trend_text(v) != text@,
{
    if equals_literal(text, "\"Uptrend\"") {
        return Some(MarketTrend::Uptrend);
    }
    if equals_literal(text, "\"Downtrend\"") {
        return Some(MarketTrend::Downtrend);
    }
    if equals_literal(text, "\"Sideways\"") {
        return Some(MarketTrend::Sideways);
    }
    if equals_literal(text, "\"Uncertain\"") {
        return Some(MarketTrend::Uncertain);
    }
    proof {
        reveal_strlit("\"Uptrend\"");
        reveal_strlit("\"Downtrend\"");
        reveal_strlit("\"Sideways\"");
        reveal_strlit("\"Uncertain\"");
    }
    None
}

/// The JSON string literal that serde_json writes for a text.
pub uninterp spec fn json_string_text(s: Seq<char>) -> Seq<char>;

/// The text that serde_json reads from a JSON string literal; `None` where
/// the input is not one.
pub uninterp spec fn json_string_value(text: Seq<char>) -> Option<Seq<char>>;

/// Relies on serde_json::to_string on a `str`: the text as a JSON string
/// literal. Writing to memory cannot fail, so the empty default is never
/// taken.
#[verifier::external_body]
fn json_quote(s: &str) -> (r: String)
    ensures
        r@ == json_string_text(s@),
{
    serde_json::to_string(s).unwrap_or_default()
}

/// Relies on serde_json::from_str into a `String`: the text of a JSON string
/// literal, `None` where the input is not one.
#[verifier::external_body]
fn json_unquote(text: &str) -> (r: Option<String>)
    ensures
        match r {
            Some(s) => json_string_value(text@) == Some(s@),
            None => json_string_value(text@) is None,
        },
{
    serde_json::from_str::<String>(text).ok()
}

/// The stored text of a `ChartPattern`.
pub open spec fn pattern_text(v: ChartPattern) -> Seq<char> {
    match v {
        ChartPattern::HighBase => "\"HighBase\""@,
        ChartPattern::LowBase => "\"LowBase\""@,
        ChartPattern::AscendingTriangle => "\"AscendingTriangle\""@,
        ChartPattern::DescendingTriangle => "\"DescendingTriangle\""@,
        ChartPattern::Cup => "\"Cup\""@,
        ChartPattern::HeadAndShoulders => "\"HeadAndShoulders\""@,
        ChartPattern::InverseHeadAndShoulders => "\"InverseHeadAndShoulders\""@,
        ChartPattern::DoubleTop => "\"DoubleTop\""@,
        ChartPattern::DoubleBottom => "\"DoubleBottom\""@,
        ChartPattern::Consolidation => "\"Consolidation\""@,
        ChartPattern::BreakoutPullback => "\"BreakoutPullback\""@,
        ChartPattern::Other(l) => "{\"Other\":"@ + json_string_text(l@) + "}"@,
    }
}

/// The label framed in a stored `Other` text: the JSON string between
/// `{"Other":` and the closing brace, read by serde_json.
pub open spec fn other_label(text: Seq<char>) -> Option<Seq<char>> {
    if text.len() >= 10 && text.subrange(0, 9) == "{\"Other\":"@ && text.last() == '}' {
        json_string_value(text.subrange(9, text.len() - 1))
    } else {
        None
    }
}

/// `text` is read as the pattern `v`.
pub open spec fn reads_as_pattern(text: Seq<char>, v: ChartPattern) -> bool {
    match v {
        ChartPattern::Other(l) => other_label(text) == Some(l@),
        _ => pattern_text(v) == text,
    }
}

/// `text` is read as some pattern.
pub open spec fn pattern_readable(text: Seq<char>) -> bool {
    other_label(text) is Some || exists|v: ChartPattern| !(v is Other) && pattern_text(v) == text
}

/// What a pattern reads back as from its stored text: a named pattern as
/// itself, and `Other` as the label serde_json reads from the literal it
/// wrote.
pub open spec fn pattern_reads_back(p: ChartPattern, q: ChartPattern) -> bool {
    match p {
        ChartPattern::Other(l) => q matches ChartPattern::Other(m) && json_string_value(json_string_text(l@)) == Some(m@),
        _ => q == p,
    }
}

proof fn pattern_text_shape(v: ChartPattern)
    ensures
        !(v is Other) ==> pattern_text(v)[0] == '"' && pattern_text(v).len() >= 5,
        v is Other ==> pattern_text(v)[0] == '{',
{
    match v {
        ChartPattern::HighBase => {
            reveal_strlit("\"HighBase\"");
        },
        ChartPattern::LowBase => {
            reveal_strlit("\"LowBase\"");
        },
        ChartPattern::AscendingTriangle => {
            reveal_strlit("\"AscendingTriangle\"");
        },
        ChartPattern::DescendingTriangle => {
            reveal_strlit("\"DescendingTriangle\"");
        },
        ChartPattern::Cup => {
            reveal_strlit("\"Cup\"");
        },
        ChartPattern::HeadAndShoulders => {
            reveal_strlit("\"HeadAndShoulders\"");
        },
        ChartPattern::InverseHeadAndShoulders => {
            reveal_strlit("\"InverseHeadAndShoulders\"");
        },
        ChartPattern::DoubleTop => {
            reveal_strlit("\"DoubleTop\"");
        },
        ChartPattern::DoubleBottom => {
            reveal_strlit("\"DoubleBottom\"");
        },
        ChartPattern::Consolidation => {
            reveal_strlit("\"Consolidation\"");
        },
        ChartPattern::BreakoutPullback => {
            reveal_strlit("\"BreakoutPullback\"");
        },
        ChartPattern::Other(_) => {
            reveal_strlit("{\"Other\":");
        },
    }
}

/// Distinct named patterns are stored as distinct texts, and none as the
/// text of an `Other`.
pub proof fn pattern_text_injective(a: ChartPattern, b: ChartPattern)
    requires
        pattern_text(a) == pattern_text(b),
        !(a is Other),
    ensures
        a == b,
{
    pattern_text_shape(a);
    pattern_text_shape(b);
    match a {
        ChartPattern::HighBase => {
            reveal_strlit("\"HighBase\"");
            assert(pattern_text(a).len() == 10 && pattern_text(a)[1] == 'H' && pattern_text(a)[2] == 'i' && pattern_text(a)[3] == 'g');
        },
        ChartPattern::LowBase => {
            reveal_strlit("\"LowBase\"");
            assert(pattern_text(a).len() == 9 && pattern_text(a)[1] == 'L' && pattern_text(a)[2] == 'o' && pattern_text(a)[3] == 'w');
        },
        ChartPattern::AscendingTriangle => {
            reveal_strlit("\"AscendingTriangle\"");
            assert(pattern_text(a).len() == 19 && pattern_text(a)[1] == 'A' && pattern_text(a)[2] == 's' && pattern_text(a)[3] == 'c');
        },
        ChartPattern::DescendingTriangle => {
            reveal_strlit("\"DescendingTriangle\"");
            assert(pattern_text(a).len() == 20 && pattern_text(a)[1] == 'D' && pattern_text(a)[2] == 'e' && pattern_text(a)[3] == 's');
        },
        ChartPattern::Cup => {
            reveal_strlit("\"Cup\"");
            assert(pattern_text(a).len() == 5 && pattern_text(a)[1] == 'C' && pattern_text(a)[2] == 'u' && pattern_text(a)[3] == 'p');
        },
        ChartPattern::HeadAndShoulders => {
            reveal_strlit("\"HeadAndShoulders\"");
            assert(pattern_text(a).len() == 18 && pattern_text(a)[1] == 'H' && pattern_text(a)[2] == 'e' && pattern_text(a)[3] == 'a');
        },
        ChartPattern::InverseHeadAndShoulders => {
            reveal_strlit("\"InverseHeadAndShoulders\"");
            assert(pattern_text(a).len() == 25 && pattern_text(a)[1] == 'I' && pattern_text(a)[2] == 'n' && pattern_text(a)[3] == 'v');
        },
        ChartPattern::DoubleTop => {
            reveal_strlit("\"DoubleTop\"");
            assert(pattern_text(a).len() == 11 && pattern_text(a)[1] == 'D' && pattern_text(a)[2] == 'o' && pattern_text(a)[3] == 'u');
        },
        ChartPattern::DoubleBottom => {
            reveal_strlit("\"DoubleBottom\"");
            assert(pattern_text(a).len() == 14 && pattern_text(a)[1] == 'D' && pattern_text(a)[2] == 'o' && pattern_text(a)[3] == 'u');
        },
        ChartPattern::Consolidation => {
            reveal_strlit("\"Consolidation\"");
            assert(pattern_text(a).len() == 15 && pattern_text(a)[1] == 'C' && pattern_text(a)[2] == 'o' && pattern_text(a)[3] == 'n');
        },
        ChartPattern::BreakoutPullback => {
            reveal_strlit("\"BreakoutPullback\"");
            assert(pattern_text(a).len() == 18 && pattern_text(a)[1] == 'B' && pattern_text(a)[2] == 'r' && pattern_text(a)[3] == 'e');
        },
        ChartPattern::Other(_) => {},
    }
    match b {
        ChartPattern::HighBase => {
            reveal_strlit("\"HighBase\"");
            assert(pattern_text(b).len() == 10 && pattern_text(b)[1] == 'H' && pattern_text(b)[2] == 'i' && pattern_text(b)[3] == 'g');
        },
        ChartPattern::LowBase => {
            reveal_strlit("\"LowBase\"");
            assert(pattern_text(b).len() == 9 && pattern_text(b)[1] == 'L' && pattern_text(b)[2] == 'o' && pattern_text(b)[3] == 'w');
        },
        ChartPattern::AscendingTriangle => {
            reveal_strlit("\"AscendingTriangle\"");
            assert(pattern_text(b).len() == 19 && pattern_text(b)[1] == 'A' && pattern_text(b)[2] == 's' && pattern_text(b)[3] == 'c');
        },
        ChartPattern::DescendingTriangle => {
            reveal_strlit("\"DescendingTriangle\"");
            assert(pattern_text(b).len() == 20 && pattern_text(b)[1] == 'D' && pattern_text(b)[2] == 'e' && pattern_text(b)[3] == 's');
        },
        ChartPattern::Cup => {
            reveal_strlit("\"Cup\"");
            assert(pattern_text(b).len() == 5 && pattern_text(b)[1] == 'C' && pattern_text(b)[2] == 'u' && pattern_text(b)[3] == 'p');
        },
        ChartPattern::HeadAndShoulders => {
            reveal_strlit("\"HeadAndShoulders\"");
            assert(pattern_text(b).len() == 18 && pattern_text(b)[1] == 'H' && pattern_text(b)[2] == 'e' && pattern_text(b)[3] == 'a');
        },
        ChartPattern::InverseHeadAndShoulders => {
            reveal_strlit("\"InverseHeadAndShoulders\"");
            assert(pattern_text(b).len() == 25 && pattern_text(b)[1] == 'I' && pattern_text(b)[2] == 'n' && pattern_text(b)[3] == 'v');
        },
        ChartPattern::DoubleTop => {
            reveal_strlit("\"DoubleTop\"");
            assert(pattern_text(b).len() == 11 && pattern_text(b)[1] == 'D' && pattern_text(b)[2] == 'o' && pattern_text(b)[3] == 'u');
        },
        ChartPattern::DoubleBottom => {
            reveal_strlit("\"DoubleBottom\"");
            assert(pattern_text(b).len() == 14 && pattern_text(b)[1] == 'D' && pattern_text(b)[2] == 'o' && pattern_text(b)[3] == 'u');
        },
        ChartPattern::Consolidation => {
            reveal_strlit("\"Consolidation\"");
            assert(pattern_text(b).len() == 15 && pattern_text(b)[1] == 'C' && pattern_text(b)[2] == 'o' && pattern_text(b)[3] == 'n');
        },
        ChartPattern::BreakoutPullback => {
            reveal_strlit("\"BreakoutPullback\"");
            assert(pattern_text(b).len() == 18 && pattern_text(b)[1] == 'B' && pattern_text(b)[2] == 'r' && pattern_text(b)[3] == 'e');
        },
        ChartPattern::Other(_) => {},
    }
}

/// The stored text of `v`.
pub fn encode_chart_pattern(v: &ChartPattern) -> (r: String)
    ensures
        r@ == pattern_text(*v),
{
    match v {
        ChartPattern::HighBase => String::from_str("\"HighBase\""),
        ChartPattern::LowBase => String::from_str("\"LowBase\""),
        ChartPattern::AscendingTriangle => String::from_str("\"AscendingTriangle\""),
        ChartPattern::DescendingTriangle => String::from_str("\"DescendingTriangle\""),
        ChartPattern::Cup => String::from_str("\"Cup\""),
        ChartPattern::HeadAndShoulders => String::from_str("\"HeadAndShoulders\""),
        ChartPattern::InverseHeadAndShoulders => String::from_str("\"InverseHeadAndShoulders\""),
        ChartPattern::DoubleTop => String::from_str("\"DoubleTop\""),
        ChartPattern::DoubleBottom => String::from_str("\"DoubleBottom\""),
        ChartPattern::Consolidation => String::from_str("\"Consolidation\""),
        ChartPattern::BreakoutPullback => String::from_str("\"BreakoutPullback\""),
        ChartPattern::Other(l) => {
            let mut s = String::from_str("{\"Other\":");
            s.append(json_quote(l.as_str()).as_str());
            s.append("}");
            s
        },
    }
}

/// The `ChartPattern` stored as `text`; `None` where no pattern is stored so.
pub fn decode_chart_pattern(text: &str) -> (r: Option<ChartPattern>)
    ensures
        r matches Some(v) ==> reads_as_pattern(text@, v),
        r is None ==> !pattern_readable(text@),
{
    proof {
        reveal_strlit("{\"Other\":");
    }
    let n = text.unicode_len();
    if n >= 10 && equals_literal(text.substring_char(0, 9), "{\"Other\":") && text.get_char(n - 1) == '}' {
        let middle = text.substring_char(9, n - 1);
        match json_unquote(middle) {
            Some(label) => {
                return Some(ChartPattern::Other(label));
            },
            None => {
                proof {
                    assert(text@[0] == text@.subrange(0, 9)[0]);
                    assert forall|v: ChartPattern| !(v is Other) implies pattern_text(v) != text@ by {
                        pattern_text_shape(v);
                    }
                }
                return None;
            },
        }
    }
    if equals_literal(text, "\"HighBase\"") {
        return Some(ChartPattern::HighBase);
    }
    if equals_literal(text, "\"LowBase\"") {
        return Some(ChartPattern::LowBase);
    }
    if equals_literal(text, "\"AscendingTriangle\"") {
        return Some(ChartPattern::AscendingTriangle);
    }
    if equals_literal(text, "\"DescendingTriangle\"") {
        return Some(ChartPattern::DescendingTriangle);
    }
    if equals_literal(text, "\"Cup\"") {
        return Some(ChartPattern::Cup);
    }
    if equals_literal(text, "\"HeadAndShoulders\"") {
        return Some(ChartPattern::HeadAndShoulders);
    }
    if equals_literal(text, "\"InverseHeadAndShoulders\"") {
        return Some(ChartPattern::InverseHeadAndShoulders);
    }
    if equals_literal(text, "\"DoubleTop\"") {
        return Some(ChartPattern::DoubleTop);
    }
    if equals_literal(text, "\"DoubleBottom\"") {
        return Some(ChartPattern::DoubleBottom);
    }
    if equals_literal(text, "\"Consolidation\"") {
        return Some(ChartPattern::Consolidation);
    }
    if equals_literal(text, "\"BreakoutPullback\"") {
        return Some(ChartPattern::BreakoutPullback);
    }
    proof {
        reveal_strlit("\"HighBase\"");
        reveal_strlit("\"LowBase\"");
        reveal_strlit("\"AscendingTriangle\"");
        reveal_strlit("\"DescendingTriangle\"");
        reveal_strlit("\"Cup\"");
        reveal_strlit("\"HeadAndShoulders\"");
        reveal_strlit("\"InverseHeadAndShoulders\"");
        reveal_strlit("\"DoubleTop\"");
        reveal_strlit("\"DoubleBottom\"");
        reveal_strlit("\"Consolidation\"");
        reveal_strlit("\"BreakoutPullback\"");
    }
    None
}

/// The stored text of a `TradeStatus`.
pub open spec fn status_text(v: TradeStatus) -> Seq<char> {
    match v {
        TradeStatus::Planned => "\"Planned\""@,
        TradeStatus::Open => "\"Open\""@,
        TradeStatus::Closed => "\"Closed\""@,
        TradeStatus::Cancelled => "\"Cancelled\""@,
    }
}

/// Distinct variants are stored as distinct texts.
pub proof fn status_text_injective(a: TradeStatus, b: TradeStatus)
    requires
        status_text(a) == status_text(b),
    ensures
        a == b,
{
    match a {
        TradeStatus::Planned => {
            reveal_strlit("\"Planned\"");
            assert(status_text(a).len() == 9 && status_text(a)[1] == 'P' && status_text(a)[2] == 'l' && status_text(a)[3] == 'a');
        },
        TradeStatus::Open => {
            reveal_strlit("\"Open\"");
            assert(status_text(a).len() == 6 && status_text(a)[1] == 'O' && status_text(a)[2] == 'p' && status_text(a)[3] == 'e');
        },
        TradeStatus::Closed => {
            reveal_strlit("\"Closed\"");
            assert(status_text(a).len() == 8 && status_text(a)[1] == 'C' && status_text(a)[2] == 'l' && status_text(a)[3] == 'o');
        },
        TradeStatus::Cancelled => {
            reveal_strlit("\"Cancelled\"");
            assert(status_text(a).len() == 11 && status_text(a)[1] == 'C' && status_text(a)[2] == 'a' && status_text(a)[3] == 'n');
        },
    }
    match b {
        TradeStatus::Planned => {
            reveal_strlit("\"Planned\"");
            assert(status_text(b).len() == 9 && status_text(b)[1] == 'P' && status_text(b)[2] == 'l' && status_text(b)[3] == 'a');
        },
        TradeStatus::Open => {
            reveal_strlit("\"Open\"");
            assert(status_text(b).len() == 6 && status_text(b)[1] == 'O' && status_text(b)[2] == 'p' && status_text(b)[3] == 'e');
        },
        TradeStatus::Closed => {
            reveal_strlit("\"Closed\"");
            assert(status_text(b).len() == 8 && status_text(b)[1] == 'C' && status_text(b)[2] == 'l' && status_text(b)[3] == 'o');
        },
        TradeStatus::Cancelled => {
            reveal_strlit("\"Cancelled\"");
            assert(status_text(b).len() == 11 && status_text(b)[1] == 'C' && status_text(b)[2] == 'a' && status_text(b)[3] == 'n');
        },
    }
}

/// The stored text of `v`.
pub fn encode_trade_status(v: &TradeStatus) -> (r: String)
    ensures
        r@ == status_text(*v),
{
    match v {
        TradeStatus::Planned => String::from_str("\"Planned\""),
        TradeStatus::Open => String::from_str("\"Open\""),
        TradeStatus::Closed => String::from_str("\"Closed\""),
        TradeStatus::Cancelled => String::from_str("\"Cancelled\""),
    }
}

/// The `TradeStatus` stored as `text`; `None` where no variant is stored so.
pub fn decode_trade_status(text: &str) -> (r: Option<TradeStatus>)
    ensures
        r matches Some(v) ==> status_text(v) == text@,
        r is None ==> forall|v: TradeStatus| status_text(v) != text@,
{
    if equals_literal(text, "\"Planned\"") {
        return Some(TradeStatus::Planned);
    }
    if equals_literal(text, "\"Open\"") {
        return Some(TradeStatus::Open);
    }
    if equals_literal(text, "\"Closed\"") {
        return Some(TradeStatus::Closed);
    }
    if equals_literal(text, "\"Cancelled\"") {
        return Some(TradeStatus::Cancelled);
    }
    proof {
        reveal_strlit("\"Planned\"");
        reveal_strlit("\"Open\"");
        reveal_strlit("\"Closed\"");
        reveal_strlit("\"Cancelled\"");
    }
    None
}

/// Every chart pattern reads back from its stored text: a named pattern as
/// itself, and `Other` as the label that serde_json reads from the JSON
/// string it wrote for the label.
pub proof fn chart_pattern_round_trip(p: ChartPattern)
    ensures
        forall|q: ChartPattern| reads_as_pattern(pattern_text(p), q) ==> pattern_reads_back(p, q),
{
    pattern_text_shape(p);
    assert forall|q: ChartPattern| reads_as_pattern(pattern_text(p), q) implies pattern_reads_back(p, q) by {
        pattern_text_shape(q);
        if let ChartPattern::Other(l) = p {
            let t = pattern_text(p);
            reveal_strlit("{\"Other\":");
            reveal_strlit("}");
            assert(t.subrange(0, 9) =~= "{\"Other\":"@);
            assert(t.subrange(9, t.len() - 1) =~= json_string_text(l@));
            if !(q is Other) {
                pattern_text_injective(q, p);
            }
        } else {
            if q is Other {
                assert(pattern_text(p)[0] == '"');
            } else {
                pattern_text_injective(p, q);
            }
        }
    }
}

} // verus!
