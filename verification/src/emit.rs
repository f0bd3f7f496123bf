//! From an annotated function to the data that is compiled in beside it.
//!
//! The function itself is left as it is. Beside it go two data items: the
//! 64-byte record, and the function's name as text. A scanner pairs the two
//! by their position in their sections.

use crate::parser::config_of;
use crate::record::{decode_spec, lemma_decode_inverts_encode, lemma_record_layout};
use crate::symbols::{
    lemma_record_and_name_symbols_differ, name_symbol, name_symbol_spec, record_symbol,
    record_symbol_spec, uppercase_of,
};
use crate::types::{SecurityTestConfig, SecurityTestMetadata};
use vstd::prelude::*;
use vstd::string::StringSliceAdditionalSpecFns;
use vstd::utf8::encode_utf8;

verus! {

/// The two data items that are generated for one annotated function, each
/// with the name under which it is declared.
#[derive(Clone, Debug, PartialEq, Eq)]
pub struct Emission {
    pub record_symbol: String,
    pub record: [u8; 64],
    pub name_symbol: String,
    pub name_record: String,
}

impl Emission {
    /// This is what is generated for the function `function_name` with the
    /// configuration `config`.
    pub open spec fn is_for(&self, function_name: &str, config: SecurityTestConfig) -> bool {
        &&& self.record@ == SecurityTestMetadata::for_function(
            function_name.spec_bytes().len(),
            config,
        ).record_bytes()
        &&& self.name_record@ == function_name@
        &&& self.record_symbol@ == record_symbol_spec(uppercase_of(function_name@))
        &&& self.name_symbol@ == name_symbol_spec(uppercase_of(function_name@))
    }
}

/// Generates the record and the name item of the function `function_name`.
pub fn emit(function_name: &str, config: SecurityTestConfig) -> (out: Emission)
    ensures
        out.is_for(function_name, config),
{
    Emission {
        record_symbol: record_symbol(function_name),
        record: SecurityTestMetadata::new(function_name, config).encode(),
        name_symbol: name_symbol(function_name),
        name_record: String::from_str(function_name),
    }
}

/// Compiles the annotation `attr` on the function `function_name`: reads the
/// text into a configuration and generates the two items from it.
pub fn security_test(attr: &str, function_name: &str) -> (out: Emission)
    ensures
        out.is_for(function_name, config_of(attr.spec_bytes())),
{
    emit(function_name, SecurityTestConfig::parse(attr))
}

/// What is generated for a function holds together: the record is 64 bytes
/// and reads back as the configuration it was made from, its length field is
/// the byte length of the name item modulo 256, and the two items are
/// declared under different names.
pub proof fn lemma_emission_reads_back(
    out: Emission,
    function_name: &str,
    config: SecurityTestConfig,
)
    requires
        out.is_for(function_name, config),
    ensures
        out.record@.len() == 64,
        decode_spec(out.record@) == Some(
            SecurityTestMetadata::for_function(function_name.spec_bytes().len(), config),
        ),
        out.record@[8] as nat == encode_utf8(out.name_record@).len() % 256,
        out.record_symbol@ != out.name_symbol@,
{
    let metadata = SecurityTestMetadata::for_function(function_name.spec_bytes().len(), config);
    lemma_record_layout(metadata);
    lemma_decode_inverts_encode(metadata);
    lemma_record_and_name_symbols_differ(
        uppercase_of(function_name@),
        uppercase_of(function_name@),
    );
}

} // verus!
