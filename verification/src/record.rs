//! The wire format of a record: 64 bytes at fixed offsets.
//!
//! | offset | size | field                                  |
//! |--------|------|----------------------------------------|
//! | 0      | 8    | marker, least significant byte first   |
//! | 8      | 1    | length of the function's name          |
//! | 9      | 1    | SQL-injection flag, 0 or 1             |
//! | 10     | 1    | race-condition flag, 0 or 1            |
//! | 11     | 1    | timing-attack flag, 0 or 1             |
//! | 12     | 1    | buffer-overflow flag, 0 or 1           |
//! | 13     | 1    | threat level, 0 to 3                   |
//! | 14     | 50   | zero, kept for later fields            |

use crate::types::{SecurityTestConfig, SecurityTestMetadata, ThreatLevel};
use vstd::prelude::*;
use vstd::string::StringSliceAdditionalSpecFns;

verus! {

/// The marker at the start of every record.
pub const MAGIC: u64 = 0xDEAD_BEEF_CAFE_BABE;

/// The size of a record in bytes, whatever it describes.
pub const RECORD_SIZE: usize = 64;

/// The eight bytes of a 64-bit value, least significant first.
pub open spec fn le_bytes(value: u64) -> Seq<u8> {
    seq![
        (value & 0xff) as u8,
        ((value >> 8) & 0xff) as u8,
        ((value >> 16) & 0xff) as u8,
        ((value >> 24) & 0xff) as u8,
        ((value >> 32) & 0xff) as u8,
        ((value >> 40) & 0xff) as u8,
        ((value >> 48) & 0xff) as u8,
        ((value >> 56) & 0xff) as u8,
    ]
}

/// The byte that stands for a flag.
pub open spec fn flag_byte(flag: bool) -> u8 {
    if flag {
        1
    } else {
        0
    }
}

/// The six bytes that follow the marker: the name length, the four flags and
/// the threat level.
pub open spec fn field_bytes(name_length: u8, config: SecurityTestConfig) -> Seq<u8> {
    seq![
        name_length,
        flag_byte(config.sql_injection),
        flag_byte(config.race_condition),
        flag_byte(config.timing_attack),
        flag_byte(config.buffer_overflow),
        config.threat_level.ordinal(),
    ]
}

/// The configuration that bytes 9 to 13 of a record stand for, if each flag
/// byte is 0 or 1 and the level byte is at most 3.
pub open spec fn decode_config_spec(bytes: Seq<u8>) -> Option<SecurityTestConfig>
    recommends
        bytes.len() >= 14,
{
    if bytes[9] <= 1 && bytes[10] <= 1 && bytes[11] <= 1 && bytes[12] <= 1 && bytes[13] <= 3 {
        Some(
            SecurityTestConfig {
                sql_injection: bytes[9] == 1,
                race_condition: bytes[10] == 1,
                timing_attack: bytes[11] == 1,
                buffer_overflow: bytes[12] == 1,
                threat_level: ThreatLevel::from_ordinal(bytes[13])->0,
            },
        )
    } else {
        None
    }
}

/// The bytes are a record: 64 of them, the marker first, each flag byte 0 or
/// 1, the level byte at most 3. The last 50 bytes are not looked at.
pub open spec fn is_record(bytes: Seq<u8>) -> bool {
    &&& bytes.len() == RECORD_SIZE
    &&& bytes.subrange(0, 8) == le_bytes(MAGIC)
    &&& decode_config_spec(bytes) is Some
}

/// The fields that a record stands for; nothing for other bytes.
pub open spec fn decode_spec(bytes: Seq<u8>) -> Option<SecurityTestMetadata> {
    if is_record(bytes) {
        Some(
            SecurityTestMetadata {
                magic: MAGIC,
                name_length: bytes[8],
                test_config: decode_config_spec(bytes)->0,
            },
        )
    } else {
        None
    }
}

/// Splits a 64-bit value into its eight bytes, least significant first.
pub fn le_bytes_of(value: u64) -> (bytes: [u8; 8])
    ensures
        bytes@ == le_bytes(value),
{
    proof {
        lemma_masked_byte_fits(value);
    }
    let bytes: [u8; 8] = [
        (value & 0xff) as u8,
        ((value >> 8) & 0xff) as u8,
        ((value >> 16) & 0xff) as u8,
        ((value >> 24) & 0xff) as u8,
        ((value >> 32) & 0xff) as u8,
        ((value >> 40) & 0xff) as u8,
        ((value >> 48) & 0xff) as u8,
        ((value >> 56) & 0xff) as u8,
    ];
    assert(bytes@ =~= le_bytes(value));
    bytes
}

impl SecurityTestMetadata {
    /// The record carries the marker by which a scanner finds it.
    pub open spec fn wf(&self) -> bool {
        self.magic == MAGIC
    }

    /// The fields of the record of a function whose name is `name_len` bytes
    /// long. The length is stored modulo 256: a name of up to 255 bytes keeps
    /// its length, a longer one wraps round.
    pub open spec fn for_function(
        name_len: nat,
        config: SecurityTestConfig,
    ) -> SecurityTestMetadata {
        SecurityTestMetadata {
            magic: MAGIC,
            name_length: (name_len % 256) as u8,
            test_config: config,
        }
    }

    /// The 64 bytes of the record.
    pub open spec fn record_bytes(&self) -> Seq<u8> {
        le_bytes(self.magic) + field_bytes(self.name_length, self.test_config) + Seq::new(
            50,
            |i: int| 0u8,
        )
    }

    /// The fields of the record of the function `function_name`.
    pub fn new(
        function_name: &str,
        test_config: SecurityTestConfig,
    ) -> (metadata: SecurityTestMetadata)
        ensures
            metadata == SecurityTestMetadata::for_function(
                function_name.spec_bytes().len(),
                test_config,
            ),
            metadata.wf(),
            function_name.spec_bytes().len() <= 255 ==> metadata.name_length
                == function_name.spec_bytes().len(),
    {
        let len: usize = function_name.as_bytes().len();
        SecurityTestMetadata { magic: MAGIC, name_length: (len % 256) as u8, test_config }
    }

    /// Lays the fields out as a record.
    pub fn encode(&self) -> (record: [u8; 64])
        ensures
            record@ == self.record_bytes(),
    {
        let marker = le_bytes_of(self.magic);
        let config = self.test_config;
        let mut record = [0u8; 64];
        let mut i: usize = 0;
        while i < 8
            invariant
                i <= 8,
                forall|j: int| 0 <= j < i ==> record@[j] == marker@[j],
                forall|j: int| i <= j < 64 ==> record@[j] == 0,
            decreases 8 - i,
        {
            record[i] = marker[i];
            i += 1;
        }
        record[8] = self.name_length;
        record[9] = if config.sql_injection { 1 } else { 0 };
        record[10] = if config.race_condition { 1 } else { 0 };
        record[11] = if config.timing_attack { 1 } else { 0 };
        record[12] = if config.buffer_overflow { 1 } else { 0 };
        record[13] = config.threat_level.ordinal();
        assert(record@ =~= self.record_bytes());
        record
    }

    /// Reads a record back into its fields. Bytes that are no record are
    /// refused.
    pub fn decode(bytes: &[u8]) -> (metadata: Option<SecurityTestMetadata>)
        ensures
            metadata == decode_spec(bytes@),
            metadata is Some <==> is_record(bytes@),
            metadata matches Some(fields) ==> fields.wf(),
    {
        if bytes.len() != RECORD_SIZE {
            return None;
        }
        let marker = le_bytes_of(MAGIC);
        let mut i: usize = 0;
        while i < 8
            invariant
                i <= 8,
                bytes@.len() == 64,
                marker@ == le_bytes(MAGIC),
                forall|j: int| 0 <= j < i ==> bytes@[j] == marker@[j],
            decreases 8 - i,
        {
            if bytes[i] != marker[i] {
                assert(bytes@.subrange(0, 8)[i as int] != le_bytes(MAGIC)[i as int]);
                return None;
            }
            i += 1;
        }
        assert(bytes@.subrange(0, 8) =~= le_bytes(MAGIC));
        if bytes[9] > 1 || bytes[10] > 1 || bytes[11] > 1 || bytes[12] > 1 {
            return None;
        }
        match ThreatLevel::from_ordinal(bytes[13]) {
            Some(threat_level) => Some(
                SecurityTestMetadata {
                    magic: MAGIC,
                    name_length: bytes[8],
                    test_config: SecurityTestConfig {
                        sql_injection: bytes[9] == 1,
                        race_condition: bytes[10] == 1,
                        timing_attack: bytes[11] == 1,
                        buffer_overflow: bytes[12] == 1,
                        threat_level,
                    },
                },
            ),
            None => None,
        }
    }
}

/// Each byte cut out of a 64-bit value fits in a byte.
proof fn lemma_masked_byte_fits(value: u64)
    ensures
        value & 0xff < 256,
        (value >> 8) & 0xff < 256,
        (value >> 16) & 0xff < 256,
        (value >> 24) & 0xff < 256,
        (value >> 32) & 0xff < 256,
        (value >> 40) & 0xff < 256,
        (value >> 48) & 0xff < 256,
        (value >> 56) & 0xff < 256,
{
    assert(value & 0xff < 256) by (bit_vector);
    assert((value >> 8) & 0xff < 256) by (bit_vector);
    assert((value >> 16) & 0xff < 256) by (bit_vector);
    assert((value >> 24) & 0xff < 256) by (bit_vector);
    assert((value >> 32) & 0xff < 256) by (bit_vector);
    assert((value >> 40) & 0xff < 256) by (bit_vector);
    assert((value >> 48) & 0xff < 256) by (bit_vector);
    assert((value >> 56) & 0xff < 256) by (bit_vector);
}

/// In a record the marker reads `BE BA FE CA EF BE AD DE`.
pub proof fn lemma_magic_bytes()
    ensures
        le_bytes(MAGIC) == seq![0xBEu8, 0xBA, 0xFE, 0xCA, 0xEF, 0xBE, 0xAD, 0xDE],
{
    let m: u64 = MAGIC;
    assert(m & 0xff == 0xBE && (m >> 8) & 0xff == 0xBA && (m >> 16) & 0xff == 0xFE && (m >> 24)
        & 0xff == 0xCA && (m >> 32) & 0xff == 0xEF && (m >> 40) & 0xff == 0xBE && (m >> 48) & 0xff
        == 0xAD && (m >> 56) & 0xff == 0xDE) by (bit_vector)
        requires
            m == 0xDEAD_BEEF_CAFE_BABEu64,
    ;
    assert(le_bytes(MAGIC) =~= seq![0xBEu8, 0xBA, 0xFE, 0xCA, 0xEF, 0xBE, 0xAD, 0xDE]);
}

/// Every record is 64 bytes long, and holds each field at its offset.
pub proof fn lemma_record_layout(metadata: SecurityTestMetadata)
    ensures
        metadata.record_bytes().len() == RECORD_SIZE,
        metadata.record_bytes().subrange(0, 8) == le_bytes(metadata.magic),
        metadata.record_bytes()[8] == metadata.name_length,
        metadata.record_bytes()[9] == flag_byte(metadata.test_config.sql_injection),
        metadata.record_bytes()[10] == flag_byte(metadata.test_config.race_condition),
        metadata.record_bytes()[11] == flag_byte(metadata.test_config.timing_attack),
        metadata.record_bytes()[12] == flag_byte(metadata.test_config.buffer_overflow),
        metadata.record_bytes()[13] == metadata.test_config.threat_level.ordinal(),
        forall|i: int| 14 <= i < 64 ==> metadata.record_bytes()[i] == 0,
{
    assert(metadata.record_bytes().subrange(0, 8) =~= le_bytes(metadata.magic));
}

/// Bytes 9 to 13 of a record give back the configuration that went into it,
/// whatever the other fields hold.
pub proof fn lemma_config_round_trip(metadata: SecurityTestMetadata)
    ensures
        decode_config_spec(metadata.record_bytes()) == Some(metadata.test_config),
{
    lemma_record_layout(metadata);
}

/// Decoding undoes encoding: a record that carries the marker gives back the
/// fields that went into it.
pub proof fn lemma_decode_inverts_encode(metadata: SecurityTestMetadata)
    requires
        metadata.wf(),
    ensures
        decode_spec(metadata.record_bytes()) == Some(metadata),
{
    lemma_record_layout(metadata);
    lemma_config_round_trip(metadata);
}

/// Encoding undoes decoding up to the reserved bytes: the record of the
/// decoded fields agrees with the bytes read on the first 14, and on all 64
/// where the reserved bytes were zero.
pub proof fn lemma_encode_inverts_decode(bytes: Seq<u8>)
    requires
        decode_spec(bytes) is Some,
    ensures
        decode_spec(bytes)->0.wf(),
        decode_spec(bytes)->0.record_bytes().subrange(0, 14) == bytes.subrange(0, 14),
        (forall|i: int| 14 <= i < 64 ==> bytes[i] == 0) ==> decode_spec(bytes)->0.record_bytes()
            == bytes,
{
    let metadata = decode_spec(bytes)->0;
    lemma_record_layout(metadata);
    let record = metadata.record_bytes();
    assert forall|i: int| 0 <= i < 14 implies record[i] == bytes[i] by {
        if i < 8 {
            assert(record.subrange(0, 8)[i] == bytes.subrange(0, 8)[i]);
        }
    }
    assert(record.subrange(0, 14) =~= bytes.subrange(0, 14));
    if forall|i: int| 14 <= i < 64 ==> bytes[i] == 0 {
        assert(record =~= bytes);
    }
}

/// A record is a function of the length of the name and of the configuration
/// alone: two functions whose names are equally long modulo 256 and whose
/// configurations are equal get the same 64 bytes, byte for byte.
pub proof fn lemma_record_is_determined(
    name_len: nat,
    other_name_len: nat,
    config: SecurityTestConfig,
)
    requires
        name_len % 256 == other_name_len % 256,
    ensures
        SecurityTestMetadata::for_function(name_len, config).record_bytes()
            == SecurityTestMetadata::for_function(other_name_len, config).record_bytes(),
        SecurityTestMetadata::for_function(name_len, config).record_bytes().len() == RECORD_SIZE,
{
    lemma_record_layout(SecurityTestMetadata::for_function(name_len, config));
}

/// Two records that carry the marker are equal only if their fields are:
/// no two configurations share a record.
pub proof fn lemma_record_is_injective(first: SecurityTestMetadata, second: SecurityTestMetadata)
    requires
        first.wf(),
        second.wf(),
        first.record_bytes() == second.record_bytes(),
    ensures
        first == second,
{
    lemma_decode_inverts_encode(first);
    lemma_decode_inverts_encode(second);
}

/// A name of up to 255 bytes keeps its length in the record; one of 256
/// bytes is recorded with length 0, and in general the length wraps round
/// at every multiple of 256.
pub proof fn lemma_name_length_wraps(name_len: nat, config: SecurityTestConfig)
    ensures
        name_len <= 255 ==> SecurityTestMetadata::for_function(name_len, config).name_length
            == name_len,
        SecurityTestMetadata::for_function(name_len + 256, config)
            == SecurityTestMetadata::for_function(name_len, config),
        SecurityTestMetadata::for_function(256, config).name_length == 0,
{
}

} // verus!
