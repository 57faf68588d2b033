//! The RSM fungible token: a capped supply minted genome by genome.
//!
//! The controller mints RSM for a genome by claiming an amount; the handler
//! recomputes the amount from the genome's attributes under the configured
//! weights and rejects any claim that differs. The running total never
//! exceeds the configured maximum supply; burning a genome returns its
//! recorded amount to the unminted pool.

use vstd::prelude::*;

verus! {

use crate::keys::keys_equal;
use crate::scoring::{calculate_token_amount, spec_token_amount, AGIParameters};
use crate::wire::{read_bytes32, read_u16_le, read_u64_le, spec_u16_le, spec_u64_le};

/// The canonical RSM supply cap, in base units.
pub const MAX_SUPPLY: u64 = 100_000_666_000_000_000;

/// Base units per whole RSM token.
pub const DECIMALS: u8 = 9;

/// Errors an RSM request can earn.
#[derive(Clone, Copy, Debug, PartialEq, Eq, Structural)]
pub enum RSMError {
    /// The required signer did not sign.
    MissingRequiredSignature,
    /// The signer is not the configured controller.
    InvalidAccountData,
    /// An attribute is out of range, the claimed amount is wrong, or the cap
    /// would be exceeded.
    InvalidArgument,
    /// The genome record does not match the hash or the claimed owner.
    IllegalOwner,
    /// The instruction bytes do not decode to any request.
    InvalidInstructionData,
}

/// One request to the RSM token program, as decoded from instruction bytes.
#[derive(Clone, Copy, Debug, PartialEq, Eq)]
pub enum RSMInstruction {
    Initialize { max_supply: u64, agi_controller: [u8; 32] },
    MintFromGenome { genome_hash: [u8; 32], complexity: u8, uniqueness: u8, entropy: u16, amount: u64 },
    BurnGenome { genome_hash: [u8; 32] },
    UpdateAGIParams {
        complexity_weight: u8,
        uniqueness_weight: u8,
        entropy_weight: u8,
        blockchain_weight: u8,
    },
}

/// The token's persistent configuration and running total.
#[derive(Clone, Debug)]
pub struct TokenConfig {
    pub authority: [u8; 32],
    pub agi_controller: [u8; 32],
    pub max_supply: u64,
    pub total_minted: u64,
    pub agi_params: AGIParameters,
}

/// The record of one genome's RSM mint.
#[derive(Clone, Debug)]
pub struct GenomeData {
    pub hash: [u8; 32],
    pub owner: [u8; 32],
    pub tokens_minted: u64,
    pub complexity: u8,
    pub uniqueness: u8,
    pub is_minted: bool,
    pub mint_timestamp: i64,
}

impl TokenConfig {
    /// A well-formed config never records more minted than its cap.
    pub open spec fn wf(self) -> bool {
        self.total_minted <= self.max_supply
    }
}

/// Whether a mint request's attributes are in range: complexity and
/// uniqueness are percentages, entropy is capped at 200.
pub open spec fn spec_attributes_in_range(complexity: u8, uniqueness: u8, entropy: u16) -> bool {
    complexity <= 100 && uniqueness <= 100 && entropy <= 200
}

/// Creates the token config. The authority must sign; the config starts with
/// nothing minted and the default weight split.
pub fn process_initialize(
    authority: [u8; 32],
    authority_is_signer: bool,
    max_supply: u64,
    agi_controller: [u8; 32],
) -> (result: Result<TokenConfig, RSMError>)
    ensures
        !authority_is_signer ==> result == Err::<TokenConfig, RSMError>(
            RSMError::MissingRequiredSignature,
        ),
        authority_is_signer ==> (result matches Ok(config) && {
            &&& config.authority == authority
            &&& config.agi_controller == agi_controller
            &&& config.max_supply == max_supply
            &&& config.total_minted == 0
            &&& config.agi_params.complexity_weight == 40
            &&& config.agi_params.uniqueness_weight == 30
            &&& config.agi_params.entropy_weight == 20
            &&& config.agi_params.blockchain_weight == 10
            &&& config.agi_params.last_update == 0
            &&& config.wf()
        }),
{
    if !authority_is_signer {
        return Err(RSMError::MissingRequiredSignature);
    }
    Ok(
        TokenConfig {
            authority,
            agi_controller,
            max_supply,
            total_minted: 0,
            agi_params: AGIParameters::default(),
        },
    )
}

/// Mints RSM for a genome.
///
/// The controller must sign and match the config; the attributes must be in
/// range; the claimed amount must equal the amount recomputed from the
/// attributes under the configured weights at the given slot; and the new
/// total must stay within the cap. Exactly the requests meeting all of that
/// succeed: the total advances by the amount and the genome's mint record is
/// returned. Every rejected request leaves the config untouched.
pub fn process_mint_from_genome(
    config: &mut TokenConfig,
    controller: [u8; 32],
    controller_is_signer: bool,
    recipient: [u8; 32],
    genome_hash: [u8; 32],
    complexity: u8,
    uniqueness: u8,
    entropy: u16,
    amount: u64,
    slot: u64,
    now: i64,
) -> (result: Result<GenomeData, RSMError>)
    requires
        old(config).wf(),
    ensures
        !controller_is_signer ==> result == Err::<GenomeData, RSMError>(
            RSMError::MissingRequiredSignature,
        ),
        controller_is_signer && controller@ != old(config).agi_controller@ ==> result == Err::<
            GenomeData,
            RSMError,
        >(RSMError::InvalidAccountData),
        controller_is_signer && controller@ == old(config).agi_controller@
            && !spec_attributes_in_range(complexity, uniqueness, entropy) ==> result == Err::<
            GenomeData,
            RSMError,
        >(RSMError::InvalidArgument),
        controller_is_signer && controller@ == old(config).agi_controller@
            && spec_attributes_in_range(complexity, uniqueness, entropy) && (amount
            != spec_token_amount(old(config).agi_params, complexity, uniqueness, entropy, slot)
            || old(config).total_minted + amount > old(config).max_supply) ==> result == Err::<
            GenomeData,
            RSMError,
        >(RSMError::InvalidArgument),
        controller_is_signer && controller@ == old(config).agi_controller@
            && spec_attributes_in_range(complexity, uniqueness, entropy) && amount
            == spec_token_amount(old(config).agi_params, complexity, uniqueness, entropy, slot)
            && old(config).total_minted + amount <= old(config).max_supply ==> result is Ok,
        result matches Ok(genome) ==> {
            &&& genome.hash == genome_hash
            &&& genome.owner == recipient
            &&& genome.tokens_minted == amount
            &&& genome.complexity == complexity
            &&& genome.uniqueness == uniqueness
            &&& genome.is_minted
            &&& genome.mint_timestamp == now
            &&& final(config).total_minted == old(config).total_minted + amount
        },
        result is Err ==> *final(config) == *old(config),
        final(config).authority == old(config).authority,
        final(config).agi_controller == old(config).agi_controller,
        final(config).max_supply == old(config).max_supply,
        final(config).agi_params == old(config).agi_params,
        final(config).wf(),
{
    if !controller_is_signer {
        return Err(RSMError::MissingRequiredSignature);
    }
    if !keys_equal(&controller, &config.agi_controller) {
        return Err(RSMError::InvalidAccountData);
    }
    if complexity > 100 || uniqueness > 100 || entropy > 200 {
        return Err(RSMError::InvalidArgument);
    }

    let calculated_amount: u64 = calculate_token_amount(
        &config.agi_params,
        complexity,
        uniqueness,
        entropy,
        slot,
    );
    if amount != calculated_amount {
        return Err(RSMError::InvalidArgument);
    }
    if amount > config.max_supply - config.total_minted {
        return Err(RSMError::InvalidArgument);
    }

    let genome = GenomeData {
        hash: genome_hash,
        owner: recipient,
        tokens_minted: amount,
        complexity,
        uniqueness,
        is_minted: true,
        mint_timestamp: now,
    };
    config.total_minted = config.total_minted + amount;
    Ok(genome)
}

/// Burns a genome's RSM: returns its recorded amount to the unminted pool.
///
/// The owner must sign, and the genome record must carry the claimed hash
/// and be owned by the signer; otherwise the request is rejected and the
/// config untouched.
pub fn process_burn_genome(
    config: &mut TokenConfig,
    genome: &GenomeData,
    owner: [u8; 32],
    owner_is_signer: bool,
    genome_hash: [u8; 32],
) -> (result: Result<(), RSMError>)
    requires
        genome.tokens_minted <= old(config).total_minted,
    ensures
        !owner_is_signer ==> result == Err::<(), RSMError>(RSMError::MissingRequiredSignature),
        owner_is_signer && (genome.hash@ != genome_hash@ || genome.owner@ != owner@) ==> result
            == Err::<(), RSMError>(RSMError::IllegalOwner),
        owner_is_signer && genome.hash@ == genome_hash@ && genome.owner@ == owner@ ==> result is Ok
            && final(config).total_minted == old(config).total_minted - genome.tokens_minted,
        result is Err ==> *final(config) == *old(config),
        final(config).authority == old(config).authority,
        final(config).agi_controller == old(config).agi_controller,
        final(config).max_supply == old(config).max_supply,
        final(config).agi_params == old(config).agi_params,
        old(config).wf() ==> final(config).wf(),
{
    if !owner_is_signer {
        return Err(RSMError::MissingRequiredSignature);
    }
    if !keys_equal(&genome.hash, &genome_hash) || !keys_equal(&genome.owner, &owner) {
        return Err(RSMError::IllegalOwner);
    }
    config.total_minted = config.total_minted - genome.tokens_minted;
    Ok(())
}

/// Replaces the scoring weights.
///
/// The controller must sign and match the config, and the four new weights
/// must sum to exactly 100; otherwise the request is rejected and the config
/// untouched.
pub fn process_update_agi_params(
    config: &mut TokenConfig,
    controller: [u8; 32],
    controller_is_signer: bool,
    complexity_weight: u8,
    uniqueness_weight: u8,
    entropy_weight: u8,
    blockchain_weight: u8,
) -> (result: Result<(), RSMError>)
    ensures
        !controller_is_signer ==> result == Err::<(), RSMError>(
            RSMError::MissingRequiredSignature,
        ),
        controller_is_signer && controller@ != old(config).agi_controller@ ==> result == Err::<
            (),
            RSMError,
        >(RSMError::InvalidAccountData),
        controller_is_signer && controller@ == old(config).agi_controller@ && complexity_weight
            + uniqueness_weight + entropy_weight + blockchain_weight != 100 ==> result == Err::<
            (),
            RSMError,
        >(RSMError::InvalidArgument),
        controller_is_signer && controller@ == old(config).agi_controller@ && complexity_weight
            + uniqueness_weight + entropy_weight + blockchain_weight == 100 ==> result is Ok && {
            &&& final(config).agi_params.complexity_weight == complexity_weight
            &&& final(config).agi_params.uniqueness_weight == uniqueness_weight
            &&& final(config).agi_params.entropy_weight == entropy_weight
            &&& final(config).agi_params.blockchain_weight == blockchain_weight
            &&& final(config).agi_params.last_update == old(config).agi_params.last_update
            &&& final(config).agi_params.valid()
        },
        result is Err ==> *final(config) == *old(config),
        final(config).authority == old(config).authority,
        final(config).agi_controller == old(config).agi_controller,
        final(config).max_supply == old(config).max_supply,
        final(config).total_minted == old(config).total_minted,
        old(config).wf() ==> final(config).wf(),
{
    if !controller_is_signer {
        return Err(RSMError::MissingRequiredSignature);
    }
    if !keys_equal(&controller, &config.agi_controller) {
        return Err(RSMError::InvalidAccountData);
    }
    let weight_sum: u32 = (complexity_weight as u32) + (uniqueness_weight as u32) + (entropy_weight
        as u32) + (blockchain_weight as u32);
    if weight_sum != 100 {
        return Err(RSMError::InvalidArgument);
    }
    config.agi_params.complexity_weight = complexity_weight;
    config.agi_params.uniqueness_weight = uniqueness_weight;
    config.agi_params.entropy_weight = entropy_weight;
    config.agi_params.blockchain_weight = blockchain_weight;
    Ok(())
}

/// Whether `data` is exactly the wire encoding of `instruction`: a tag byte
/// naming the variant, then the variant's fields in declaration order,
/// integers little-endian and 32-byte identities verbatim.
pub open spec fn spec_instruction_encodes(data: Seq<u8>, instruction: RSMInstruction) -> bool {
    match instruction {
        RSMInstruction::Initialize { max_supply, agi_controller } => {
            &&& data.len() == 41
            &&& data[0] == 0
            &&& max_supply == spec_u64_le(data.subrange(1, 9))
            &&& agi_controller@ == data.subrange(9, 41)
        },
        RSMInstruction::MintFromGenome { genome_hash, complexity, uniqueness, entropy, amount } => {
            &&& data.len() == 45
            &&& data[0] == 1
            &&& genome_hash@ == data.subrange(1, 33)
            &&& complexity == data[33]
            &&& uniqueness == data[34]
            &&& entropy == spec_u16_le(data.subrange(35, 37))
            &&& amount == spec_u64_le(data.subrange(37, 45))
        },
        RSMInstruction::BurnGenome { genome_hash } => {
            &&& data.len() == 33
            &&& data[0] == 2
            &&& genome_hash@ == data.subrange(1, 33)
        },
        RSMInstruction::UpdateAGIParams {
            complexity_weight,
            uniqueness_weight,
            entropy_weight,
            blockchain_weight,
        } => {
            &&& data.len() == 5
            &&& data[0] == 3
            &&& complexity_weight == data[1]
            &&& uniqueness_weight == data[2]
            &&& entropy_weight == data[3]
            &&& blockchain_weight == data[4]
        },
    }
}

/// Whether `data` decodes to some request: a known tag byte with exactly the
/// length that variant's fields occupy.
pub open spec fn spec_instruction_parseable(data: Seq<u8>) -> bool {
    data.len() > 0 && ((data[0] == 0 && data.len() == 41) || (data[0] == 1 && data.len() == 45) || (
    data[0] == 2 && data.len() == 33) || (data[0] == 3 && data.len() == 5))
}

/// Decodes instruction bytes into a request.
///
/// Exactly the byte strings carrying a known tag with that variant's exact
/// length decode; the decoded request is the one the bytes encode, and
/// anything else earns `InvalidInstructionData`.
pub fn parse_instruction(data: &[u8]) -> (result: Result<RSMInstruction, RSMError>)
    ensures
        result is Ok <==> spec_instruction_parseable(data@),
        result matches Ok(instruction) ==> spec_instruction_encodes(data@, instruction),
        result is Err ==> result == Err::<RSMInstruction, RSMError>(
            RSMError::InvalidInstructionData,
        ),
{
    let len: usize = data.len();
    if len == 0 {
        return Err(RSMError::InvalidInstructionData);
    }
    let tag: u8 = data[0];
    if tag == 0 && len == 41 {
        let max_supply: u64 = read_u64_le(data, 1);
        let agi_controller: [u8; 32] = read_bytes32(data, 9);
        Ok(RSMInstruction::Initialize { max_supply, agi_controller })
    } else if tag == 1 && len == 45 {
        let genome_hash: [u8; 32] = read_bytes32(data, 1);
        let complexity: u8 = data[33];
        let uniqueness: u8 = data[34];
        let entropy: u16 = read_u16_le(data, 35);
        let amount: u64 = read_u64_le(data, 37);
        Ok(
            RSMInstruction::MintFromGenome {
                genome_hash,
                complexity,
                uniqueness,
                entropy,
                amount,
            },
        )
    } else if tag == 2 && len == 33 {
        let genome_hash: [u8; 32] = read_bytes32(data, 1);
        Ok(RSMInstruction::BurnGenome { genome_hash })
    } else if tag == 3 && len == 5 {
        Ok(
            RSMInstruction::UpdateAGIParams {
                complexity_weight: data[1],
                uniqueness_weight: data[2],
                entropy_weight: data[3],
                blockchain_weight: data[4],
            },
        )
    } else {
        Err(RSMError::InvalidInstructionData)
    }
}

/// The instruction encoding is unambiguous: one byte string encodes at most
/// one request, so decoding is the inverse of encoding.
pub proof fn lemma_instruction_encoding_unambiguous(
    data: Seq<u8>,
    i1: RSMInstruction,
    i2: RSMInstruction,
)
    requires
        spec_instruction_encodes(data, i1),
        spec_instruction_encodes(data, i2),
    ensures
        i1 == i2,
{
    match (i1, i2) {
        (
            RSMInstruction::Initialize { agi_controller: a1, .. },
            RSMInstruction::Initialize { agi_controller: a2, .. },
        ) => {
            assert(a1@ == a2@);
            assert(a1 == a2);
        },
        (
            RSMInstruction::MintFromGenome { genome_hash: h1, .. },
            RSMInstruction::MintFromGenome { genome_hash: h2, .. },
        ) => {
            assert(h1@ == h2@);
            assert(h1 == h2);
        },
        (
            RSMInstruction::BurnGenome { genome_hash: h1 },
            RSMInstruction::BurnGenome { genome_hash: h2 },
        ) => {
            assert(h1@ == h2@);
            assert(h1 == h2);
        },
        _ => {},
    }
}

/// The total after a sequence of attempted mints, starting from `total`:
/// each attempt is added when it fits under `max_supply` and skipped when it
/// does not, exactly as [`process_mint_from_genome`] admits or rejects it.
pub open spec fn spec_total_after_mints(total: int, max_supply: int, amounts: Seq<int>) -> int
    decreases amounts.len(),
{
    if amounts.len() == 0 {
        total
    } else {
        let next = if total + amounts[0] <= max_supply && amounts[0] >= 0 {
            total + amounts[0]
        } else {
            total
        };
        spec_total_after_mints(next, max_supply, amounts.drop_first())
    }
}

/// The running total never exceeds the cap: starting within the cap, any
/// sequence of mint attempts — each admitted only when it fits, as the mint
/// handler decides — leaves the total within the cap.
pub proof fn lemma_total_minted_bounded(total: int, max_supply: int, amounts: Seq<int>)
    requires
        0 <= total <= max_supply,
    ensures
        spec_total_after_mints(total, max_supply, amounts) <= max_supply,
        spec_total_after_mints(total, max_supply, amounts) >= 0,
    decreases amounts.len(),
{
    if amounts.len() == 0 {
    } else {
        let next = if total + amounts[0] <= max_supply && amounts[0] >= 0 {
            total + amounts[0]
        } else {
            total
        };
        lemma_total_minted_bounded(next, max_supply, amounts.drop_first());
    }
}

} // verus!
