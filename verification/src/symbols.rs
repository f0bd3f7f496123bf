//! The names of the two data items that are generated for a function.
//!
//! Both are derived from the function's name alone: it is upper-cased and
//! put behind a fixed prefix. Two functions whose names agree once
//! upper-cased therefore get the same two names.

use vstd::prelude::*;

verus! {

/// The upper-case form of a text, as the standard library computes it from
/// the Unicode case tables.
pub uninterp spec fn uppercase_of(text: Seq<char>) -> Seq<char>;

/// `str::to_uppercase` of the standard library. Its result depends on the
/// text alone, and stands here under the name `uppercase_of`; nothing more is
/// claimed of it.
#[verifier::external_body]
fn uppercase(text: &str) -> (upper: String)
    ensures
        upper@ == uppercase_of(text@),
{
    text.to_uppercase()
}

/// The name of the record item, given the upper-cased function name.
pub open spec fn record_symbol_spec(upper: Seq<char>) -> Seq<char> {
    "__SEC_TEST_"@ + upper
}

/// The name of the name item, given the upper-cased function name.
pub open spec fn name_symbol_spec(upper: Seq<char>) -> Seq<char> {
    "__SEC_NAME_"@ + upper
}

/// Names the record item of a function whose upper-cased name is `upper`.
pub fn record_symbol_of_upper(upper: &str) -> (symbol: String)
    ensures
        symbol@ == record_symbol_spec(upper@),
{
    let mut symbol = String::from_str("__SEC_TEST_");
    symbol.append(upper);
    symbol
}

/// Names the name item of a function whose upper-cased name is `upper`.
pub fn name_symbol_of_upper(upper: &str) -> (symbol: String)
    ensures
        symbol@ == name_symbol_spec(upper@),
{
    let mut symbol = String::from_str("__SEC_NAME_");
    symbol.append(upper);
    symbol
}

/// Names the record item of the function `function_name`.
pub fn record_symbol(function_name: &str) -> (symbol: String)
    ensures
        symbol@ == record_symbol_spec(uppercase_of(function_name@)),
{
    let upper = uppercase(function_name);
    record_symbol_of_upper(upper.as_str())
}

/// Names the name item of the function `function_name`.
pub fn name_symbol(function_name: &str) -> (symbol: String)
    ensures
        symbol@ == name_symbol_spec(uppercase_of(function_name@)),
{
    let upper = uppercase(function_name);
    name_symbol_of_upper(upper.as_str())
}

/// A record item and a name item never share a name, be they of one function
/// or of two.
pub proof fn lemma_record_and_name_symbols_differ(upper: Seq<char>, other_upper: Seq<char>)
    ensures
        record_symbol_spec(upper) != name_symbol_spec(other_upper),
{
    reveal_strlit("__SEC_TEST_");
    reveal_strlit("__SEC_NAME_");
    assert(record_symbol_spec(upper)[6] == 'T');
    assert(name_symbol_spec(other_upper)[6] == 'N');
}

/// Two functions get the same item names exactly when their upper-cased
/// names are equal: that, and nothing else, makes generated names collide.
pub proof fn lemma_symbols_collide_iff_upper_equal(upper: Seq<char>, other_upper: Seq<char>)
    ensures
        record_symbol_spec(upper) == record_symbol_spec(other_upper) <==> upper == other_upper,
        name_symbol_spec(upper) == name_symbol_spec(other_upper) <==> upper == other_upper,
{
    reveal_strlit("__SEC_TEST_");
    reveal_strlit("__SEC_NAME_");
    let prefix_len = 11int;
    let record = record_symbol_spec(upper);
    let other_record = record_symbol_spec(other_upper);
    assert(upper =~= record.subrange(prefix_len, record.len() as int));
    assert(other_upper =~= other_record.subrange(prefix_len, other_record.len() as int));
    let name = name_symbol_spec(upper);
    let other_name = name_symbol_spec(other_upper);
    assert(upper =~= name.subrange(prefix_len, name.len() as int));
    assert(other_upper =~= other_name.subrange(prefix_len, other_name.len() as int));
}

} // verus!
