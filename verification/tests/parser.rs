use security_scanner::parser::resolve_level;
use security_scanner::{SecurityTestConfig, ThreatLevel};

fn config(
    sql: bool,
    race: bool,
    timing: bool,
    buffer: bool,
    level: ThreatLevel,
) -> SecurityTestConfig {
    SecurityTestConfig {
        sql_injection: sql,
        race_condition: race,
        timing_attack: timing,
        buffer_overflow: buffer,
        threat_level: level,
    }
}

#[test]
fn empty_text_gives_the_defaults() {
    let parsed = SecurityTestConfig::parse("");
    assert_eq!(parsed, config(false, false, false, false, ThreatLevel::Medium));
    assert_eq!(parsed, SecurityTestConfig::default());
}

#[test]
fn garbage_gives_the_defaults() {
    for text in ["   ", "???", "xss, csrf", "sql-injection", "race condition", "hi", "lo w", "42"] {
        assert_eq!(SecurityTestConfig::parse(text), SecurityTestConfig::default(), "{:?}", text);
    }
}

#[test]
fn keywords_are_case_sensitive() {
    assert_eq!(
        SecurityTestConfig::parse("SQL_INJECTION, Race_Condition, CRITICAL, High, LOW"),
        SecurityTestConfig::default()
    );
}

#[test]
fn each_probe_keyword_sets_its_own_flag_only() {
    assert_eq!(
        SecurityTestConfig::parse("sql_injection"),
        config(true, false, false, false, ThreatLevel::Medium)
    );
    assert_eq!(
        SecurityTestConfig::parse("race_condition"),
        config(false, true, false, false, ThreatLevel::Medium)
    );
    assert_eq!(
        SecurityTestConfig::parse("timing_attack"),
        config(false, false, true, false, ThreatLevel::Medium)
    );
}

#[test]
fn every_subset_of_the_three_level_free_probes_is_read_exactly() {
    let keywords = ["sql_injection", "race_condition", "timing_attack"];
    for mask in 0u32..8 {
        let chosen: Vec<&str> =
            (0..3).filter(|i| mask & (1 << i) != 0).map(|i| keywords[i]).collect();
        let mut reversed = chosen.clone();
        reversed.reverse();
        let texts = [
            chosen.join(", "),
            chosen.join(" "),
            chosen.join(""),
            reversed.join(","),
            format!("(( {} ))", reversed.join(" ; noise ; ")),
        ];
        for text in texts {
            let parsed = SecurityTestConfig::parse(&text);
            assert_eq!(parsed.sql_injection, mask & 1 != 0, "{:?}", text);
            assert_eq!(parsed.race_condition, mask & 2 != 0, "{:?}", text);
            assert_eq!(parsed.timing_attack, mask & 4 != 0, "{:?}", text);
            assert!(!parsed.buffer_overflow, "{:?}", text);
            assert_eq!(parsed.threat_level, ThreatLevel::Medium, "{:?}", text);
        }
    }
}

#[test]
fn every_subset_of_the_four_probes_sets_exactly_its_flags() {
    let keywords = ["sql_injection", "race_condition", "timing_attack", "buffer_overflow"];
    for mask in 0u32..16 {
        let chosen: Vec<&str> =
            (0..4).filter(|i| mask & (1 << i) != 0).map(|i| keywords[i]).collect();
        let mut reversed = chosen.clone();
        reversed.reverse();
        for text in [chosen.join(", "), reversed.join(" | "), format!("x{}y", chosen.join("z"))] {
            let parsed = SecurityTestConfig::parse(&text);
            assert_eq!(parsed.sql_injection, mask & 1 != 0, "{:?}", text);
            assert_eq!(parsed.race_condition, mask & 2 != 0, "{:?}", text);
            assert_eq!(parsed.timing_attack, mask & 4 != 0, "{:?}", text);
            assert_eq!(parsed.buffer_overflow, mask & 8 != 0, "{:?}", text);
        }
    }
}

#[test]
fn order_of_keywords_does_not_matter() {
    let one = SecurityTestConfig::parse("sql_injection, timing_attack, critical");
    let other = SecurityTestConfig::parse("critical timing_attack sql_injection");
    assert_eq!(one, other);
    assert_eq!(one, config(true, false, true, false, ThreatLevel::Critical));
}

#[test]
fn a_keyword_inside_a_longer_word_counts() {
    let parsed = SecurityTestConfig::parse("my_sql_injection_case, highest");
    assert_eq!(parsed, config(true, false, false, false, ThreatLevel::High));
}

#[test]
fn race_condition_high() {
    assert_eq!(
        SecurityTestConfig::parse("race_condition high"),
        config(false, true, false, false, ThreatLevel::High)
    );
}

#[test]
fn each_level_keyword_alone_gives_its_level() {
    assert_eq!(SecurityTestConfig::parse("critical").threat_level, ThreatLevel::Critical);
    assert_eq!(SecurityTestConfig::parse("high").threat_level, ThreatLevel::High);
    assert_eq!(SecurityTestConfig::parse("medium").threat_level, ThreatLevel::Medium);
    assert_eq!(SecurityTestConfig::parse("low").threat_level, ThreatLevel::Low);
}

#[test]
fn the_most_severe_level_keyword_wins() {
    let cases = [
        ("low, critical", ThreatLevel::Critical),
        ("critical, low", ThreatLevel::Critical),
        ("high critical", ThreatLevel::Critical),
        ("medium high critical low", ThreatLevel::Critical),
        ("low high", ThreatLevel::High),
        ("high medium", ThreatLevel::High),
        ("medium low high", ThreatLevel::High),
        ("low medium", ThreatLevel::Medium),
        ("medium low", ThreatLevel::Medium),
        ("low low", ThreatLevel::Low),
    ];
    for (text, level) in cases {
        assert_eq!(SecurityTestConfig::parse(text).threat_level, level, "{:?}", text);
    }
}

#[test]
fn resolve_level_on_every_combination() {
    for critical in [false, true] {
        for high in [false, true] {
            for medium in [false, true] {
                for low in [false, true] {
                    let expected = if critical {
                        ThreatLevel::Critical
                    } else if high {
                        ThreatLevel::High
                    } else if medium {
                        ThreatLevel::Medium
                    } else if low {
                        ThreatLevel::Low
                    } else {
                        ThreatLevel::Medium
                    };
                    assert_eq!(resolve_level(critical, high, medium, low), expected);
                }
            }
        }
    }
}

#[test]
fn buffer_overflow_ends_in_the_level_keyword_low() {
    assert_eq!(
        SecurityTestConfig::parse("buffer_overflow"),
        config(false, false, false, true, ThreatLevel::Low)
    );
    assert_eq!(
        SecurityTestConfig::parse("buffer_overflow, medium"),
        config(false, false, false, true, ThreatLevel::Medium)
    );
    assert_eq!(
        SecurityTestConfig::parse("buffer_overflow, high"),
        config(false, false, false, true, ThreatLevel::High)
    );
    assert_eq!(
        SecurityTestConfig::parse("critical buffer_overflow"),
        config(false, false, false, true, ThreatLevel::Critical)
    );
}

#[test]
fn text_added_around_an_annotation_clears_no_flag() {
    let inner = "timing_attack,race_condition";
    let parsed = SecurityTestConfig::parse(inner);
    for (before, after) in [("", " "), ("sql_", "injection"), ("[", "]"), ("critical ", " low")] {
        let wide = SecurityTestConfig::parse(&format!("{}{}{}", before, inner, after));
        assert!(wide.timing_attack && wide.race_condition);
        assert!(!parsed.sql_injection && !wide.sql_injection);
    }
}

#[test]
fn joining_two_texts_can_make_a_keyword_that_neither_holds() {
    assert!(!SecurityTestConfig::parse("sql_inj").sql_injection);
    assert!(!SecurityTestConfig::parse("ection").sql_injection);
    assert!(SecurityTestConfig::parse("sql_injection").sql_injection);
    assert!(!SecurityTestConfig::parse("ectionsql_inj").sql_injection);
}

#[test]
fn threat_level_ordinals() {
    assert_eq!(ThreatLevel::Low.ordinal(), 0);
    assert_eq!(ThreatLevel::Medium.ordinal(), 1);
    assert_eq!(ThreatLevel::High.ordinal(), 2);
    assert_eq!(ThreatLevel::Critical.ordinal(), 3);
}

#[test]
fn threat_level_from_ordinal() {
    assert_eq!(ThreatLevel::from_ordinal(0), Some(ThreatLevel::Low));
    assert_eq!(ThreatLevel::from_ordinal(1), Some(ThreatLevel::Medium));
    assert_eq!(ThreatLevel::from_ordinal(2), Some(ThreatLevel::High));
    assert_eq!(ThreatLevel::from_ordinal(3), Some(ThreatLevel::Critical));
    for ordinal in 4..=255u8 {
        assert_eq!(ThreatLevel::from_ordinal(ordinal), None);
    }
}

#[test]
fn threat_level_default_is_medium() {
    assert_eq!(ThreatLevel::default(), ThreatLevel::Medium);
    assert_eq!(SecurityTestConfig::default().threat_level, ThreatLevel::Medium);
}

#[test]
fn a_list_of_keywords_is_read_from_the_set_of_its_words() {
    let keywords = [
        "sql_injection",
        "race_condition",
        "timing_attack",
        "buffer_overflow",
        "critical",
        "high",
        "medium",
        "low",
    ];
    for mask in 0u32..256 {
        let has = |i: u32| mask & (1 << i) != 0;
        let chosen: Vec<&str> = (0..8).filter(|i| has(*i)).map(|i| keywords[i as usize]).collect();
        let mut reversed = chosen.clone();
        reversed.reverse();
        let mut rotated = chosen.clone();
        if !rotated.is_empty() {
            rotated.rotate_left(chosen.len() / 2);
        }
        let expected = config(
            has(0),
            has(1),
            has(2),
            has(3),
            resolve_level(has(4), has(5), has(6), has(7) || has(3)),
        );
        let texts = [
            chosen.join(","),
            chosen.join(", "),
            reversed.join(" "),
            rotated.join(" | "),
            format!(" {} ", rotated.join("\t")),
            format!(",{};", reversed.join(";;")),
            chosen.join("0"),
            reversed.join("-AND-"),
        ];
        for text in texts {
            assert_eq!(SecurityTestConfig::parse(&text), expected, "{:?}", text);
        }
    }
}

#[test]
fn a_keyword_may_be_listed_more_than_once() {
    assert_eq!(
        SecurityTestConfig::parse("high, sql_injection, high, sql_injection"),
        config(true, false, false, false, ThreatLevel::High)
    );
}

#[test]
fn without_a_separator_two_keywords_are_still_both_read() {
    assert_eq!(
        SecurityTestConfig::parse("timing_attackrace_conditionhigh"),
        config(false, true, true, false, ThreatLevel::High)
    );
}
