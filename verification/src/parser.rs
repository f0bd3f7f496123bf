//! Reads the free text of an annotation into a configuration.
//!
//! A keyword counts as present when its bytes occur anywhere in the text, so
//! neither order nor separators matter, and text that holds no keyword leaves
//! every default in place.

use crate::search::{
    contains, lemma_occurs_in_embedding, lemma_occurs_in_needs_room, lemma_occurs_in_widened,
    occurs_at, occurs_in,
};
use crate::types::{SecurityTestConfig, ThreatLevel};
use vstd::prelude::*;
use vstd::string::{is_ascii_spec_bytes, StringSliceAdditionalSpecFns};

verus! {

/// The bytes of `keyword` occur somewhere in `text`.
pub open spec fn mentions(text: Seq<u8>, keyword: &str) -> bool {
    occurs_in(keyword.spec_bytes(), text)
}

/// The level that the level keywords present in a text resolve to: the most
/// severe one that is present, and medium where none is.
pub open spec fn resolve_level_spec(
    critical: bool,
    high: bool,
    medium: bool,
    low: bool,
) -> ThreatLevel {
    if critical {
        ThreatLevel::Critical
    } else if high {
        ThreatLevel::High
    } else if medium {
        ThreatLevel::Medium
    } else if low {
        ThreatLevel::Low
    } else {
        ThreatLevel::Medium
    }
}

/// The configuration that an annotation with the bytes `text` stands for.
pub open spec fn config_of(text: Seq<u8>) -> SecurityTestConfig {
    SecurityTestConfig {
        sql_injection: mentions(text, "sql_injection"),
        race_condition: mentions(text, "race_condition"),
        timing_attack: mentions(text, "timing_attack"),
        buffer_overflow: mentions(text, "buffer_overflow"),
        threat_level: resolve_level_spec(
            mentions(text, "critical"),
            mentions(text, "high"),
            mentions(text, "medium"),
            mentions(text, "low"),
        ),
    }
}

/// Picks the threat level from the level keywords that a text holds.
#[verifier::when_used_as_spec(resolve_level_spec)]
pub fn resolve_level(critical: bool, high: bool, medium: bool, low: bool) -> (level: ThreatLevel)
    ensures
        level == resolve_level_spec(critical, high, medium, low),
{
    if critical {
        ThreatLevel::Critical
    } else if high {
        ThreatLevel::High
    } else if medium {
        ThreatLevel::Medium
    } else if low {
        ThreatLevel::Low
    } else {
        ThreatLevel::Medium
    }
}

impl SecurityTestConfig {
    /// Reads the text of an annotation. Every text is accepted: what it does
    /// not mention keeps its default.
    pub fn parse(attr: &str) -> (config: SecurityTestConfig)
        ensures
            config == config_of(attr.spec_bytes()),
            attr@.len() == 0 ==> config == SecurityTestConfig::empty(),
    {
        proof {
            if attr@.len() == 0 {
                lemma_short_text_is_empty_config(attr.spec_bytes());
            }
        }
        let text = attr.as_bytes();
        SecurityTestConfig {
            sql_injection: contains(text, "sql_injection".as_bytes()),
            race_condition: contains(text, "race_condition".as_bytes()),
            timing_attack: contains(text, "timing_attack".as_bytes()),
            buffer_overflow: contains(text, "buffer_overflow".as_bytes()),
            threat_level: resolve_level(
                contains(text, "critical".as_bytes()),
                contains(text, "high".as_bytes()),
                contains(text, "medium".as_bytes()),
                contains(text, "low".as_bytes()),
            ),
        }
    }
}

/// An annotation of fewer than three bytes holds no keyword, so it stands
/// for the empty configuration. The annotation without text is one of them.
pub proof fn lemma_short_text_is_empty_config(text: Seq<u8>)
    requires
        text.len() < 3,
    ensures
        config_of(text) == SecurityTestConfig::empty(),
{
    lemma_longer_keywords_are_absent(text);
}

/// A keyword does not occur in a text that is shorter than it.
pub proof fn lemma_longer_keywords_are_absent(text: Seq<u8>)
    ensures
        text.len() < 13 ==> !mentions(text, "sql_injection"),
        text.len() < 14 ==> !mentions(text, "race_condition"),
        text.len() < 13 ==> !mentions(text, "timing_attack"),
        text.len() < 15 ==> !mentions(text, "buffer_overflow"),
        text.len() < 8 ==> !mentions(text, "critical"),
        text.len() < 4 ==> !mentions(text, "high"),
        text.len() < 6 ==> !mentions(text, "medium"),
        text.len() < 3 ==> !mentions(text, "low"),
{
    reveal_strlit("sql_injection");
    reveal_strlit("race_condition");
    reveal_strlit("timing_attack");
    reveal_strlit("buffer_overflow");
    reveal_strlit("critical");
    reveal_strlit("high");
    reveal_strlit("medium");
    reveal_strlit("low");
    is_ascii_spec_bytes("sql_injection");
    is_ascii_spec_bytes("race_condition");
    is_ascii_spec_bytes("timing_attack");
    is_ascii_spec_bytes("buffer_overflow");
    is_ascii_spec_bytes("critical");
    is_ascii_spec_bytes("high");
    is_ascii_spec_bytes("medium");
    is_ascii_spec_bytes("low");
    if mentions(text, "sql_injection") {
        lemma_occurs_in_needs_room("sql_injection".spec_bytes(), text);
    }
    if mentions(text, "race_condition") {
        lemma_occurs_in_needs_room("race_condition".spec_bytes(), text);
    }
    if mentions(text, "timing_attack") {
        lemma_occurs_in_needs_room("timing_attack".spec_bytes(), text);
    }
    if mentions(text, "buffer_overflow") {
        lemma_occurs_in_needs_room("buffer_overflow".spec_bytes(), text);
    }
    if mentions(text, "critical") {
        lemma_occurs_in_needs_room("critical".spec_bytes(), text);
    }
    if mentions(text, "high") {
        lemma_occurs_in_needs_room("high".spec_bytes(), text);
    }
    if mentions(text, "medium") {
        lemma_occurs_in_needs_room("medium".spec_bytes(), text);
    }
    if mentions(text, "low") {
        lemma_occurs_in_needs_room("low".spec_bytes(), text);
    }
}

/// A probe keyword sets its flag wherever it stands in the text and whatever
/// surrounds it.
pub proof fn lemma_keyword_sets_flag(before: Seq<u8>, after: Seq<u8>)
    ensures
        config_of(before + "sql_injection".spec_bytes() + after).sql_injection,
        config_of(before + "race_condition".spec_bytes() + after).race_condition,
        config_of(before + "timing_attack".spec_bytes() + after).timing_attack,
        config_of(before + "buffer_overflow".spec_bytes() + after).buffer_overflow,
{
    lemma_occurs_in_embedding("sql_injection".spec_bytes(), before, after);
    lemma_occurs_in_embedding("race_condition".spec_bytes(), before, after);
    lemma_occurs_in_embedding("timing_attack".spec_bytes(), before, after);
    lemma_occurs_in_embedding("buffer_overflow".spec_bytes(), before, after);
}

/// Text added before or after an annotation clears none of its flags.
pub proof fn lemma_flags_survive_widening(text: Seq<u8>, before: Seq<u8>, after: Seq<u8>)
    ensures
        config_of(text).sql_injection ==> config_of(before + text + after).sql_injection,
        config_of(text).race_condition ==> config_of(before + text + after).race_condition,
        config_of(text).timing_attack ==> config_of(before + text + after).timing_attack,
        config_of(text).buffer_overflow ==> config_of(before + text + after).buffer_overflow,
{
    if mentions(text, "sql_injection") {
        lemma_occurs_in_widened("sql_injection".spec_bytes(), text, before, after);
    }
    if mentions(text, "race_condition") {
        lemma_occurs_in_widened("race_condition".spec_bytes(), text, before, after);
    }
    if mentions(text, "timing_attack") {
        lemma_occurs_in_widened("timing_attack".spec_bytes(), text, before, after);
    }
    if mentions(text, "buffer_overflow") {
        lemma_occurs_in_widened("buffer_overflow".spec_bytes(), text, before, after);
    }
}

/// The flags do not depend on the order of the parts of an annotation: two
/// texts joined either way ask for every probe that either of them asks for.
pub proof fn lemma_flags_survive_joining(first: Seq<u8>, second: Seq<u8>)
    ensures
        config_of(first).sql_injection || config_of(second).sql_injection ==> config_of(
            first + second,
        ).sql_injection && config_of(second + first).sql_injection,
        config_of(first).race_condition || config_of(second).race_condition ==> config_of(
            first + second,
        ).race_condition && config_of(second + first).race_condition,
        config_of(first).timing_attack || config_of(second).timing_attack ==> config_of(
            first + second,
        ).timing_attack && config_of(second + first).timing_attack,
        config_of(first).buffer_overflow || config_of(second).buffer_overflow ==> config_of(
            first + second,
        ).buffer_overflow && config_of(second + first).buffer_overflow,
{
    let none = Seq::<u8>::empty();
    assert(first + second =~= none + first + second);
    assert(first + second =~= first + second + none);
    assert(second + first =~= none + second + first);
    assert(second + first =~= second + first + none);
    lemma_flags_survive_widening(first, none, second);
    lemma_flags_survive_widening(first, second, none);
    lemma_flags_survive_widening(second, none, first);
    lemma_flags_survive_widening(second, first, none);
}

/// Among the level keywords that a text holds, the most severe one decides:
/// the level is at least that of every level keyword present, it is that of
/// one of them, and it is medium where the text holds none.
pub proof fn lemma_level_is_most_severe_present(text: Seq<u8>)
    ensures
        mentions(text, "critical") ==> config_of(text).threat_level == ThreatLevel::Critical,
        mentions(text, "high") ==> config_of(text).threat_level.ordinal() >= 2,
        mentions(text, "medium") ==> config_of(text).threat_level.ordinal() >= 1,
        config_of(text).threat_level == ThreatLevel::Critical ==> mentions(text, "critical"),
        config_of(text).threat_level == ThreatLevel::High ==> mentions(text, "high"),
        config_of(text).threat_level == ThreatLevel::Low ==> mentions(text, "low"),
        config_of(text).threat_level == ThreatLevel::Medium ==> mentions(text, "medium")
            || !mentions(text, "low"),
        !mentions(text, "critical") && !mentions(text, "high") && !mentions(text, "medium")
            && !mentions(text, "low") ==> config_of(text).threat_level == ThreatLevel::Medium,
{
}

/// The keyword `buffer_overflow` ends in the letters of `low`, so a text that
/// asks for the buffer-overflow probe also holds the level keyword `low`, and
/// is of low severity unless it names a higher level.
pub proof fn lemma_buffer_overflow_holds_low(text: Seq<u8>)
    requires
        mentions(text, "buffer_overflow"),
    ensures
        mentions(text, "low"),
        config_of(text).threat_level == resolve_level_spec(
            mentions(text, "critical"),
            mentions(text, "high"),
            mentions(text, "medium"),
            true,
        ),
{
    reveal_strlit("buffer_overflow");
    reveal_strlit("low");
    is_ascii_spec_bytes("buffer_overflow");
    is_ascii_spec_bytes("low");
    let probe = "buffer_overflow".spec_bytes();
    let level = "low".spec_bytes();
    let at = choose|at: int| occurs_at(probe, text, at);
    assert(text.subrange(at + 12, at + 15) =~= text.subrange(at, at + 15).subrange(12, 15));
    assert(probe.subrange(12, 15) =~= level);
    assert(occurs_at(level, text, at + 12));
}

} // verus!
