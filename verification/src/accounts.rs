//! Byte codecs for the RSM program's persistent account records.
//!
//! The host hands account contents over as raw bytes; this module turns them
//! into the library's config and genome records and back. The layout is
//! fixed: fields in declaration order, integers little-endian, signed
//! timestamps two's-complement, 32-byte identities verbatim, booleans a
//! single `0` or `1` byte.

use vstd::prelude::*;

verus! {

use vstd::arithmetic::div_mod::{lemma_fundamental_div_mod, lemma_small_mod};

use crate::rsm::{GenomeData, RSMError, TokenConfig};
use crate::scoring::AGIParameters;
use crate::wire::{read_bytes32, read_u64_le, spec_u64_le};

/// Encoded length of a [`TokenConfig`] record.
pub const TOKEN_CONFIG_LEN: usize = 92;

/// Encoded length of a [`GenomeData`] record.
pub const GENOME_DATA_LEN: usize = 83;

/// The two's-complement 64-bit value of a signed number.
pub open spec fn spec_i64_bits(value: int) -> int {
    if value >= 0 {
        value
    } else {
        value + 0x1_0000_0000_0000_0000
    }
}

/// Whether twelve bytes are exactly the encoding of a parameter set.
pub open spec fn spec_params_encode(data: Seq<u8>, params: AGIParameters) -> bool {
    &&& data.len() == 12
    &&& params.complexity_weight == data[0]
    &&& params.uniqueness_weight == data[1]
    &&& params.entropy_weight == data[2]
    &&& params.blockchain_weight == data[3]
    &&& spec_u64_le(data.subrange(4, 12)) == spec_i64_bits(params.last_update as int)
}

/// Whether `data` is exactly the encoding of a config record.
pub open spec fn spec_token_config_encode(data: Seq<u8>, config: TokenConfig) -> bool {
    &&& data.len() == TOKEN_CONFIG_LEN
    &&& config.authority@ == data.subrange(0, 32)
    &&& config.agi_controller@ == data.subrange(32, 64)
    &&& config.max_supply == spec_u64_le(data.subrange(64, 72))
    &&& config.total_minted == spec_u64_le(data.subrange(72, 80))
    &&& spec_params_encode(data.subrange(80, 92), config.agi_params)
}

/// Whether `data` is exactly the encoding of a genome record.
pub open spec fn spec_genome_data_encode(data: Seq<u8>, genome: GenomeData) -> bool {
    &&& data.len() == GENOME_DATA_LEN
    &&& genome.hash@ == data.subrange(0, 32)
    &&& genome.owner@ == data.subrange(32, 64)
    &&& genome.tokens_minted == spec_u64_le(data.subrange(64, 72))
    &&& genome.complexity == data[72]
    &&& genome.uniqueness == data[73]
    &&& (data[74] == 0 || data[74] == 1)
    &&& (genome.is_minted <==> data[74] == 1)
    &&& spec_u64_le(data.subrange(75, 83)) == spec_i64_bits(genome.mint_timestamp as int)
}

/// Appends 32 bytes verbatim.
fn push_bytes32(out: &mut Vec<u8>, bytes: &[u8; 32])
    ensures
        final(out)@ == old(out)@ + bytes@,
{
    let ghost orig: Seq<u8> = out@;
    let mut i: usize = 0;
    while i < 32
        invariant
            i <= 32,
            out@ == orig + bytes@.subrange(0, i as int),
        decreases 32 - i,
    {
        proof {
            assert(bytes@.subrange(0, i + 1) =~= bytes@.subrange(0, i as int).push(bytes@[i as int]));
        }
        out.push(bytes[i]);
        i = i + 1;
    }
    proof {
        assert(bytes@.subrange(0, 32) =~= bytes@);
    }
}

/// Appends a `u64` as eight little-endian bytes.
fn push_u64_le(out: &mut Vec<u8>, value: u64)
    ensures
        final(out)@.len() == old(out)@.len() as int + 8,
        final(out)@ == old(out)@ + final(out)@.subrange(
            old(out)@.len() as int,
            old(out)@.len() as int + 8,
        ),
        spec_u64_le(final(out)@.subrange(old(out)@.len() as int, old(out)@.len() as int + 8))
            == value,
{
    let ghost orig: Seq<u8> = out@;
    let b0: u8 = (value % 256) as u8;
    let r1: u64 = value / 256;
    let b1: u8 = (r1 % 256) as u8;
    let r2: u64 = r1 / 256;
    let b2: u8 = (r2 % 256) as u8;
    let r3: u64 = r2 / 256;
    let b3: u8 = (r3 % 256) as u8;
    let r4: u64 = r3 / 256;
    let b4: u8 = (r4 % 256) as u8;
    let r5: u64 = r4 / 256;
    let b5: u8 = (r5 % 256) as u8;
    let r6: u64 = r5 / 256;
    let b6: u8 = (r6 % 256) as u8;
    let r7: u64 = r6 / 256;
    out.push(b0);
    out.push(b1);
    out.push(b2);
    out.push(b3);
    out.push(b4);
    out.push(b5);
    out.push(b6);
    proof {
        lemma_fundamental_div_mod(value as int, 256);
        lemma_fundamental_div_mod(r1 as int, 256);
        lemma_fundamental_div_mod(r2 as int, 256);
        lemma_fundamental_div_mod(r3 as int, 256);
        lemma_fundamental_div_mod(r4 as int, 256);
        lemma_fundamental_div_mod(r5 as int, 256);
        lemma_fundamental_div_mod(r6 as int, 256);
        lemma_small_mod(r7 as nat, 256);
    }
    out.push((r7 % 256) as u8);
    proof {
        let tail = out@.subrange(orig.len() as int, orig.len() as int + 8);
        assert(tail =~= seq![b0, b1, b2, b3, b4, b5, b6, (r7 % 256) as u8]);
        assert(out@ =~= orig + tail);
    }
}

/// Appends a signed 64-bit value as its two's-complement bytes.
fn push_i64_le(out: &mut Vec<u8>, value: i64)
    ensures
        final(out)@.len() == old(out)@.len() as int + 8,
        final(out)@ == old(out)@ + final(out)@.subrange(
            old(out)@.len() as int,
            old(out)@.len() as int + 8,
        ),
        spec_u64_le(final(out)@.subrange(old(out)@.len() as int, old(out)@.len() as int + 8))
            == spec_i64_bits(value as int),
{
    let bits: u64 = if value >= 0 {
        value as u64
    } else {
        ((value - i64::MIN) as u64) + 0x8000_0000_0000_0000
    };
    push_u64_le(out, bits);
}

/// Reads back a signed 64-bit value from its two's-complement bits.
fn i64_from_bits(bits: u64) -> (value: i64)
    ensures
        spec_i64_bits(value as int) == bits,
{
    if bits < 0x8000_0000_0000_0000 {
        bits as i64
    } else {
        ((bits - 0x8000_0000_0000_0000) as i64) + i64::MIN
    }
}

/// Encodes a config record into its account bytes.
pub fn serialize_token_config(config: &TokenConfig) -> (out: Vec<u8>)
    ensures
        spec_token_config_encode(out@, *config),
{
    let mut out: Vec<u8> = Vec::new();
    push_bytes32(&mut out, &config.authority);
    push_bytes32(&mut out, &config.agi_controller);
    push_u64_le(&mut out, config.max_supply);
    push_u64_le(&mut out, config.total_minted);
    out.push(config.agi_params.complexity_weight);
    out.push(config.agi_params.uniqueness_weight);
    out.push(config.agi_params.entropy_weight);
    out.push(config.agi_params.blockchain_weight);
    push_i64_le(&mut out, config.agi_params.last_update);
    proof {
        assert(config.authority@ =~= out@.subrange(0, 32));
        assert(config.agi_controller@ =~= out@.subrange(32, 64));
    }
    out
}

/// Decodes a config record from its account bytes. Exactly the byte strings
/// of the record's length decode; the decoded record is the one the bytes
/// encode, and anything else earns `InvalidAccountData`.
pub fn deserialize_token_config(data: &[u8]) -> (result: Result<TokenConfig, RSMError>)
    ensures
        result is Ok <==> data@.len() == TOKEN_CONFIG_LEN,
        result matches Ok(config) ==> spec_token_config_encode(data@, config),
        result is Err ==> result == Err::<TokenConfig, RSMError>(RSMError::InvalidAccountData),
{
    if data.len() != TOKEN_CONFIG_LEN {
        return Err(RSMError::InvalidAccountData);
    }
    let authority: [u8; 32] = read_bytes32(data, 0);
    let agi_controller: [u8; 32] = read_bytes32(data, 32);
    let max_supply: u64 = read_u64_le(data, 64);
    let total_minted: u64 = read_u64_le(data, 72);
    let agi_params = AGIParameters {
        complexity_weight: data[80],
        uniqueness_weight: data[81],
        entropy_weight: data[82],
        blockchain_weight: data[83],
        last_update: i64_from_bits(read_u64_le(data, 84)),
    };
    proof {
        assert(data@.subrange(80, 92).subrange(4, 12) =~= data@.subrange(84, 92));
    }
    Ok(TokenConfig { authority, agi_controller, max_supply, total_minted, agi_params })
}

/// Encodes a genome record into its account bytes.
pub fn serialize_genome_data(genome: &GenomeData) -> (out: Vec<u8>)
    ensures
        spec_genome_data_encode(out@, *genome),
{
    let mut out: Vec<u8> = Vec::new();
    push_bytes32(&mut out, &genome.hash);
    push_bytes32(&mut out, &genome.owner);
    push_u64_le(&mut out, genome.tokens_minted);
    out.push(genome.complexity);
    out.push(genome.uniqueness);
    out.push(if genome.is_minted {
        1
    } else {
        0
    });
    push_i64_le(&mut out, genome.mint_timestamp);
    proof {
        assert(genome.hash@ =~= out@.subrange(0, 32));
        assert(genome.owner@ =~= out@.subrange(32, 64));
    }
    out
}

/// Decodes a genome record from its account bytes. Exactly the byte strings
/// of the record's length whose minted flag is a `0` or `1` byte decode; the
/// decoded record is the one the bytes encode, and anything else earns
/// `InvalidAccountData`.
pub fn deserialize_genome_data(data: &[u8]) -> (result: Result<GenomeData, RSMError>)
    ensures
        result is Ok <==> data@.len() == GENOME_DATA_LEN && (data@[74] == 0 || data@[74] == 1),
        result matches Ok(genome) ==> spec_genome_data_encode(data@, genome),
        result is Err ==> result == Err::<GenomeData, RSMError>(RSMError::InvalidAccountData),
{
    if data.len() != GENOME_DATA_LEN {
        return Err(RSMError::InvalidAccountData);
    }
    let minted_byte: u8 = data[74];
    if minted_byte != 0 && minted_byte != 1 {
        return Err(RSMError::InvalidAccountData);
    }
    let genome = GenomeData {
        hash: read_bytes32(data, 0),
        owner: read_bytes32(data, 32),
        tokens_minted: read_u64_le(data, 64),
        complexity: data[72],
        uniqueness: data[73],
        is_minted: minted_byte == 1,
        mint_timestamp: i64_from_bits(read_u64_le(data, 75)),
    };
    Ok(genome)
}

/// Two signed values with the same two's-complement bits are the same value.
proof fn lemma_i64_bits_injective(x: i64, y: i64)
    requires
        spec_i64_bits(x as int) == spec_i64_bits(y as int),
    ensures
        x == y,
{
}

/// The config encoding is unambiguous: one byte string encodes at most one
/// config record, so decoding what was encoded gives the record back.
pub proof fn lemma_token_config_encoding_unambiguous(
    data: Seq<u8>,
    c1: TokenConfig,
    c2: TokenConfig,
)
    requires
        spec_token_config_encode(data, c1),
        spec_token_config_encode(data, c2),
    ensures
        c1 == c2,
{
    assert(c1.authority@ == c2.authority@);
    assert(c1.authority == c2.authority);
    assert(c1.agi_controller@ == c2.agi_controller@);
    assert(c1.agi_controller == c2.agi_controller);
    lemma_i64_bits_injective(c1.agi_params.last_update, c2.agi_params.last_update);
}

/// The genome encoding is unambiguous: one byte string encodes at most one
/// genome record, so decoding what was encoded gives the record back.
pub proof fn lemma_genome_data_encoding_unambiguous(data: Seq<u8>, g1: GenomeData, g2: GenomeData)
    requires
        spec_genome_data_encode(data, g1),
        spec_genome_data_encode(data, g2),
    ensures
        g1 == g2,
{
    assert(g1.hash@ == g2.hash@);
    assert(g1.hash == g2.hash);
    assert(g1.owner@ == g2.owner@);
    assert(g1.owner == g2.owner);
    lemma_i64_bits_injective(g1.mint_timestamp, g2.mint_timestamp);
}

} // verus!
