//! Annotations written as a list of keywords.
//!
//! The usual annotation is a list: keywords with commas or blanks between
//! them. Because no keyword holds such a byte, a list is read word by word,
//! and what it stands for can be told from the set of its words alone.

use crate::parser::{config_of, lemma_longer_keywords_are_absent, mentions, resolve_level_spec};
use crate::search::{
    lemma_gap_splits_occurrences, lemma_missing_byte_excludes, occurs_at, occurs_in,
};
use vstd::prelude::*;
use vstd::string::{is_ascii_spec_bytes, StringSliceAdditionalSpecFns};

verus! {

/// A byte that stands in no keyword: any but a lower-case letter and the
/// underscore. Commas, blanks, digits and capitals are separators.
pub open spec fn is_separator(byte: u8) -> bool {
    !(0x61 <= byte <= 0x7a) && byte != 0x5f
}

/// One separator or more.
pub open spec fn is_gap(gap: Seq<u8>) -> bool {
    &&& gap.len() > 0
    &&& forall|i: int| 0 <= i < gap.len() ==> is_separator(#[trigger] gap[i])
}

/// No byte of the word is a separator.
pub open spec fn is_unbroken(word: Seq<u8>) -> bool {
    forall|j: int| 0 <= j < word.len() ==> !is_separator(#[trigger] word[j])
}

/// The text of a list: the first word, then each further word behind its gap.
/// An entry of `rest` is a gap and the word that follows it.
pub open spec fn listed(first: Seq<u8>, rest: Seq<(Seq<u8>, Seq<u8>)>) -> Seq<u8>
    decreases rest.len(),
{
    if rest.len() == 0 {
        first
    } else {
        first + rest[0].0 + listed(rest[0].1, rest.drop_first())
    }
}

/// The gaps of a list are gaps.
pub open spec fn gaps_are_gaps(rest: Seq<(Seq<u8>, Seq<u8>)>) -> bool {
    forall|i: int| 0 <= i < rest.len() ==> is_gap((#[trigger] rest[i]).0)
}

/// `pat` occurs in one of the words of a list.
pub open spec fn some_word_holds(
    first: Seq<u8>,
    rest: Seq<(Seq<u8>, Seq<u8>)>,
    pat: Seq<u8>,
) -> bool {
    occurs_in(pat, first) || exists|i: int|
        0 <= i < rest.len() && occurs_in(pat, (#[trigger] rest[i]).1)
}

/// `word` is one of the words of a list.
pub open spec fn lists(first: Seq<u8>, rest: Seq<(Seq<u8>, Seq<u8>)>, word: &str) -> bool {
    first == word.spec_bytes() || exists|i: int|
        0 <= i < rest.len() && (#[trigger] rest[i]).1 == word.spec_bytes()
}

/// One of the eight keywords, or no word at all (as before a leading gap or
/// behind a trailing one).
pub open spec fn is_keyword_or_empty(word: Seq<u8>) -> bool {
    ||| word.len() == 0
    ||| word == "sql_injection".spec_bytes()
    ||| word == "race_condition".spec_bytes()
    ||| word == "timing_attack".spec_bytes()
    ||| word == "buffer_overflow".spec_bytes()
    ||| word == "critical".spec_bytes()
    ||| word == "high".spec_bytes()
    ||| word == "medium".spec_bytes()
    ||| word == "low".spec_bytes()
}

/// Every word of a list is a keyword or empty.
pub open spec fn words_are_keywords(first: Seq<u8>, rest: Seq<(Seq<u8>, Seq<u8>)>) -> bool {
    &&& is_keyword_or_empty(first)
    &&& forall|i: int| 0 <= i < rest.len() ==> is_keyword_or_empty((#[trigger] rest[i]).1)
}

/// The bytes of an ASCII text: the codes of its characters.
pub open spec fn ascii_bytes(text: Seq<char>) -> Seq<u8> {
    Seq::new(text.len(), |i: int| text[i] as u8)
}

/// Each keyword is ASCII, and made of lower-case letters and underscores.
pub proof fn lemma_keywords_are_unbroken()
    ensures
        "sql_injection".spec_bytes() == ascii_bytes("sql_injection"@),
        "race_condition".spec_bytes() == ascii_bytes("race_condition"@),
        "timing_attack".spec_bytes() == ascii_bytes("timing_attack"@),
        "buffer_overflow".spec_bytes() == ascii_bytes("buffer_overflow"@),
        "critical".spec_bytes() == ascii_bytes("critical"@),
        "high".spec_bytes() == ascii_bytes("high"@),
        "medium".spec_bytes() == ascii_bytes("medium"@),
        "low".spec_bytes() == ascii_bytes("low"@),
        is_unbroken("sql_injection".spec_bytes()),
        is_unbroken("race_condition".spec_bytes()),
        is_unbroken("timing_attack".spec_bytes()),
        is_unbroken("buffer_overflow".spec_bytes()),
        is_unbroken("critical".spec_bytes()),
        is_unbroken("high".spec_bytes()),
        is_unbroken("medium".spec_bytes()),
        is_unbroken("low".spec_bytes()),
{
    reveal_strlit("sql_injection");
    reveal_strlit("race_condition");
    reveal_strlit("timing_attack");
    reveal_strlit("buffer_overflow");
    reveal_strlit("critical");
    reveal_strlit("high");
    reveal_strlit("medium");
    reveal_strlit("low");
    is_ascii_spec_bytes("sql_injection");
    is_ascii_spec_bytes("race_condition");
    is_ascii_spec_bytes("timing_attack");
    is_ascii_spec_bytes("buffer_overflow");
    is_ascii_spec_bytes("critical");
    is_ascii_spec_bytes("high");
    is_ascii_spec_bytes("medium");
    is_ascii_spec_bytes("low");
}

/// A pattern without separators occurs in a list exactly when it occurs in
/// one of the words: the gaps hide nothing and join nothing.
pub proof fn lemma_list_is_read_word_by_word(
    first: Seq<u8>,
    rest: Seq<(Seq<u8>, Seq<u8>)>,
    pat: Seq<u8>,
)
    requires
        gaps_are_gaps(rest),
        is_unbroken(pat),
    ensures
        occurs_in(pat, listed(first, rest)) <==> some_word_holds(first, rest, pat),
    decreases rest.len(),
{
    if rest.len() > 0 {
        let gap = rest[0].0;
        let next = rest[0].1;
        let tail = rest.drop_first();
        assert forall|i: int| 0 <= i < tail.len() implies is_gap((#[trigger] tail[i]).0) by {
            assert(tail[i] == rest[i + 1]);
        }
        lemma_list_is_read_word_by_word(next, tail, pat);
        lemma_gap_splits_occurrences(pat, first, gap, listed(next, tail));
        if some_word_holds(next, tail, pat) && !occurs_in(pat, next) {
            let i = choose|i: int| 0 <= i < tail.len() && occurs_in(pat, (#[trigger] tail[i]).1);
            assert(tail[i] == rest[i + 1]);
        }
        if some_word_holds(first, rest, pat) && !occurs_in(pat, first) {
            let i = choose|i: int| 0 <= i < rest.len() && occurs_in(pat, (#[trigger] rest[i]).1);
            if i > 0 {
                assert(rest[i] == tail[i - 1]);
            }
        }
    }
}

/// In `word` each keyword occurs only as the word itself, but for `low`,
/// which also stands at the end of `buffer_overflow`.
pub open spec fn keyword_in_word_is_word(word: Seq<u8>) -> bool {
    &&& mentions(word, "sql_injection") <==> word == "sql_injection".spec_bytes()
    &&& mentions(word, "race_condition") <==> word == "race_condition".spec_bytes()
    &&& mentions(word, "timing_attack") <==> word == "timing_attack".spec_bytes()
    &&& mentions(word, "buffer_overflow") <==> word == "buffer_overflow".spec_bytes()
    &&& mentions(word, "critical") <==> word == "critical".spec_bytes()
    &&& mentions(word, "high") <==> word == "high".spec_bytes()
    &&& mentions(word, "medium") <==> word == "medium".spec_bytes()
    &&& mentions(word, "low") <==> word == "low".spec_bytes() || word
        == "buffer_overflow".spec_bytes()
}

/// Which keywords occur in which: each in itself, `low` also at the end of
/// `buffer_overflow`, and none in any other keyword or in the empty word.
pub proof fn lemma_keyword_in_word(word: Seq<u8>)
    requires
        is_keyword_or_empty(word),
    ensures
        keyword_in_word_is_word(word),
{
    lemma_keywords_are_unbroken();
    lemma_longer_keywords_are_absent(word);
    reveal_strlit("sql_injection");
    reveal_strlit("race_condition");
    reveal_strlit("timing_attack");
    reveal_strlit("buffer_overflow");
    reveal_strlit("critical");
    reveal_strlit("high");
    reveal_strlit("medium");
    reveal_strlit("low");
    if word == "sql_injection".spec_bytes() {
        assert(occurs_at(word, word, 0)) by {
            assert(word.subrange(0, 13) =~= word);
        }
        lemma_missing_byte_excludes("timing_attack".spec_bytes(), word, 2);
        lemma_missing_byte_excludes("critical".spec_bytes(), word, 1);
        lemma_missing_byte_excludes("high".spec_bytes(), word, 0);
        lemma_missing_byte_excludes("medium".spec_bytes(), word, 0);
        lemma_missing_byte_excludes("low".spec_bytes(), word, 2);
    } else if word == "race_condition".spec_bytes() {
        assert(occurs_at(word, word, 0)) by {
            assert(word.subrange(0, 14) =~= word);
        }
        lemma_missing_byte_excludes("sql_injection".spec_bytes(), word, 0);
        lemma_missing_byte_excludes("timing_attack".spec_bytes(), word, 2);
        lemma_missing_byte_excludes("critical".spec_bytes(), word, 7);
        lemma_missing_byte_excludes("high".spec_bytes(), word, 0);
        lemma_missing_byte_excludes("medium".spec_bytes(), word, 0);
        lemma_missing_byte_excludes("low".spec_bytes(), word, 0);
    } else if word == "timing_attack".spec_bytes() {
        assert(occurs_at(word, word, 0)) by {
            assert(word.subrange(0, 13) =~= word);
        }
        lemma_missing_byte_excludes("sql_injection".spec_bytes(), word, 0);
        lemma_missing_byte_excludes("critical".spec_bytes(), word, 1);
        lemma_missing_byte_excludes("high".spec_bytes(), word, 0);
        lemma_missing_byte_excludes("medium".spec_bytes(), word, 1);
        lemma_missing_byte_excludes("low".spec_bytes(), word, 0);
    } else if word == "buffer_overflow".spec_bytes() {
        assert(occurs_at(word, word, 0)) by {
            assert(word.subrange(0, 15) =~= word);
        }
        lemma_missing_byte_excludes("sql_injection".spec_bytes(), word, 0);
        lemma_missing_byte_excludes("race_condition".spec_bytes(), word, 1);
        lemma_missing_byte_excludes("timing_attack".spec_bytes(), word, 0);
        lemma_missing_byte_excludes("critical".spec_bytes(), word, 0);
        lemma_missing_byte_excludes("high".spec_bytes(), word, 0);
        lemma_missing_byte_excludes("medium".spec_bytes(), word, 0);
        assert(occurs_at("low".spec_bytes(), word, 12)) by {
            assert(word.subrange(12, 15) =~= "low".spec_bytes());
        }
    } else if word == "critical".spec_bytes() {
        assert(occurs_at(word, word, 0)) by {
            assert(word.subrange(0, 8) =~= word);
        }
        lemma_missing_byte_excludes("high".spec_bytes(), word, 0);
        lemma_missing_byte_excludes("medium".spec_bytes(), word, 0);
        lemma_missing_byte_excludes("low".spec_bytes(), word, 1);
    } else if word == "high".spec_bytes() {
        assert(occurs_at(word, word, 0)) by {
            assert(word.subrange(0, 4) =~= word);
        }
        lemma_missing_byte_excludes("low".spec_bytes(), word, 0);
    } else if word == "medium".spec_bytes() {
        assert(occurs_at(word, word, 0)) by {
            assert(word.subrange(0, 6) =~= word);
        }
        lemma_missing_byte_excludes("high".spec_bytes(), word, 0);
        lemma_missing_byte_excludes("low".spec_bytes(), word, 0);
    } else if word == "low".spec_bytes() {
        assert(occurs_at(word, word, 0)) by {
            assert(word.subrange(0, 3) =~= word);
        }
    }
}

/// A list of keywords stands for exactly what its words say, whatever their
/// order and whatever separators stand between them: each probe flag is set
/// exactly when the list holds that keyword, and the level is the most severe
/// one that the list names, where `buffer_overflow` also names `low`.
pub proof fn lemma_keyword_list_is_read_exactly(first: Seq<u8>, rest: Seq<(Seq<u8>, Seq<u8>)>)
    requires
        gaps_are_gaps(rest),
        words_are_keywords(first, rest),
    ensures
        config_of(listed(first, rest)).sql_injection <==> lists(first, rest, "sql_injection"),
        config_of(listed(first, rest)).race_condition <==> lists(first, rest, "race_condition"),
        config_of(listed(first, rest)).timing_attack <==> lists(first, rest, "timing_attack"),
        config_of(listed(first, rest)).buffer_overflow <==> lists(first, rest, "buffer_overflow"),
        config_of(listed(first, rest)).threat_level == resolve_level_spec(
            lists(first, rest, "critical"),
            lists(first, rest, "high"),
            lists(first, rest, "medium"),
            lists(first, rest, "low") || lists(first, rest, "buffer_overflow"),
        ),
{
    lemma_keywords_are_unbroken();
    lemma_keyword_in_word(first);
    assert forall|i: int| 0 <= i < rest.len() implies is_keyword_or_empty(
        (#[trigger] rest[i]).1,
    ) && keyword_in_word_is_word(rest[i].1) by {
        lemma_keyword_in_word(rest[i].1);
    }
    lemma_list_is_read_word_by_word(first, rest, "sql_injection".spec_bytes());
    lemma_list_is_read_word_by_word(first, rest, "race_condition".spec_bytes());
    lemma_list_is_read_word_by_word(first, rest, "timing_attack".spec_bytes());
    lemma_list_is_read_word_by_word(first, rest, "buffer_overflow".spec_bytes());
    lemma_list_is_read_word_by_word(first, rest, "critical".spec_bytes());
    lemma_list_is_read_word_by_word(first, rest, "high".spec_bytes());
    lemma_list_is_read_word_by_word(first, rest, "medium".spec_bytes());
    lemma_list_is_read_word_by_word(first, rest, "low".spec_bytes());
}

} // verus!
