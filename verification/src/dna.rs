//! DNA genome tokens: a record per genome with a fixed market/founder supply
//! split and a one-time mint.
//!
//! A genome record is created once with its supply split 85.71% / 14.29%
//! between a market share and a founder share, and is minted exactly once:
//! the mint hands back the two amounts to credit, and a second attempt is
//! rejected with [`ErrorCode::AlreadyMinted`]. The host performs the actual
//! balance credits with the amounts this module decides.

use vstd::prelude::*;

verus! {

use vstd::arithmetic::div_mod::lemma_fundamental_div_mod;

/// Numerator of the market share, in hundredths of a percent (85.71%).
pub const MARKET_SHARE_NUM: u64 = 8571;

/// Numerator of the founder share, in hundredths of a percent (14.29%).
pub const FOUNDER_SHARE_NUM: u64 = 1429;

/// Denominator of both shares.
pub const SHARE_DEN: u64 = 10000;

/// The largest total supply whose share products stay within `u64`.
pub const MAX_SPLITTABLE_SUPPLY: u64 = 2_152_227_753_320_447;

/// Errors a genome token request can earn.
#[derive(Clone, Copy, Debug, PartialEq, Eq, Structural)]
pub enum ErrorCode {
    /// The genome's one-time mint has already happened.
    AlreadyMinted,
    /// The requested amount does not match the genome's declared supply.
    InvalidAmount,
}

/// One genome token type: its identity, provenance and supply split.
#[derive(Clone, Debug)]
pub struct Genome {
    pub genome_id: u64,
    pub dna_sequence: String,
    pub consciousness: u8,
    pub blockchain: String,
    pub block_hash: String,
    pub total_supply: u64,
    pub market_supply: u64,
    pub founder_supply: u64,
    pub rna_multiplier: u16,
    pub minted: bool,
    pub created_at: i64,
    pub minted_at: i64,
}

/// The metadata view of a genome record.
#[derive(Clone, Debug)]
pub struct GenomeInfo {
    pub genome_id: u64,
    pub dna_sequence: String,
    pub consciousness: u8,
    pub blockchain: String,
    pub total_supply: u64,
    pub rna_multiplier: u16,
    pub minted: bool,
}

/// The two credits a successful mint orders: first the market share, then the
/// founder share.
#[derive(Clone, Copy, Debug, PartialEq, Eq, Structural)]
pub struct MintPlan {
    pub market_amount: u64,
    pub founder_amount: u64,
}

/// The market share of a total supply: 85.71%, rounded down.
pub open spec fn spec_market_supply(total_supply: int) -> int {
    (total_supply * MARKET_SHARE_NUM) / (SHARE_DEN as int)
}

/// The founder share of a total supply: 14.29%, rounded down.
pub open spec fn spec_founder_supply(total_supply: int) -> int {
    (total_supply * FOUNDER_SHARE_NUM) / (SHARE_DEN as int)
}

impl Genome {
    /// A well-formed genome record carries exactly the supply split of its
    /// declared total supply.
    pub open spec fn wf(self) -> bool {
        &&& self.market_supply == spec_market_supply(self.total_supply as int)
        &&& self.founder_supply == spec_founder_supply(self.total_supply as int)
    }
}

/// The two rounded shares never exceed the total they are cut from: for any
/// total supply, market share plus founder share is at most the total.
pub proof fn lemma_split_within_total(total_supply: int)
    requires
        total_supply >= 0,
    ensures
        spec_market_supply(total_supply) + spec_founder_supply(total_supply) <= total_supply,
{
    let den = SHARE_DEN as int;
    let market_raw = total_supply * MARKET_SHARE_NUM;
    let founder_raw = total_supply * FOUNDER_SHARE_NUM;
    lemma_fundamental_div_mod(market_raw, den);
    lemma_fundamental_div_mod(founder_raw, den);
    let market = market_raw / den;
    let founder = founder_raw / den;
    assert(market_raw + founder_raw == total_supply * den);
    assert(den * (market + founder) <= total_supply * den);
    assert(market + founder <= total_supply);
}

/// Creates a genome record: stores its identity and provenance, cuts the
/// declared total supply into the market and founder shares, and leaves the
/// record unminted.
pub fn initialize_genome(
    genome_id: u64,
    dna_sequence: String,
    consciousness: u8,
    blockchain: String,
    block_hash: String,
    total_supply: u64,
    rna_multiplier: u16,
    now: i64,
) -> (genome: Genome)
    requires
        total_supply <= MAX_SPLITTABLE_SUPPLY,
    ensures
        genome.genome_id == genome_id,
        genome.dna_sequence == dna_sequence,
        genome.consciousness == consciousness,
        genome.blockchain == blockchain,
        genome.block_hash == block_hash,
        genome.total_supply == total_supply,
        genome.rna_multiplier == rna_multiplier,
        genome.wf(),
        genome.market_supply + genome.founder_supply <= total_supply,
        !genome.minted,
        genome.created_at == now,
        genome.minted_at == 0,
{
    let market_supply: u64 = (total_supply * MARKET_SHARE_NUM) / SHARE_DEN;
    let founder_supply: u64 = (total_supply * FOUNDER_SHARE_NUM) / SHARE_DEN;
    proof {
        lemma_split_within_total(total_supply as int);
    }
    Genome {
        genome_id,
        dna_sequence,
        consciousness,
        blockchain,
        block_hash,
        total_supply,
        market_supply,
        founder_supply,
        rna_multiplier,
        minted: false,
        created_at: now,
        minted_at: 0,
    }
}

/// Performs the one-time mint of a genome's supply.
///
/// A genome that is already minted is always rejected with `AlreadyMinted`;
/// an amount other than the genome's declared total supply is rejected with
/// `InvalidAmount`; in both cases the record is untouched. Otherwise the
/// record becomes minted and the plan orders the market credit and the
/// founder credit, in that order.
pub fn mint_genome_tokens(genome: &mut Genome, amount: u64, now: i64) -> (result: Result<
    MintPlan,
    ErrorCode,
>)
    ensures
        old(genome).minted ==> result == Err::<MintPlan, ErrorCode>(ErrorCode::AlreadyMinted)
            && *final(genome) == *old(genome),
        !old(genome).minted && amount != old(genome).total_supply ==> result == Err::<
            MintPlan,
            ErrorCode,
        >(ErrorCode::InvalidAmount) && *final(genome) == *old(genome),
        !old(genome).minted && amount == old(genome).total_supply ==> result == Ok::<
            MintPlan,
            ErrorCode,
        >(
            MintPlan {
                market_amount: old(genome).market_supply,
                founder_amount: old(genome).founder_supply,
            },
        ),
        result is Ok ==> final(genome).minted && final(genome).minted_at == now,
        final(genome).genome_id == old(genome).genome_id,
        final(genome).dna_sequence == old(genome).dna_sequence,
        final(genome).consciousness == old(genome).consciousness,
        final(genome).blockchain == old(genome).blockchain,
        final(genome).block_hash == old(genome).block_hash,
        final(genome).total_supply == old(genome).total_supply,
        final(genome).market_supply == old(genome).market_supply,
        final(genome).founder_supply == old(genome).founder_supply,
        final(genome).rna_multiplier == old(genome).rna_multiplier,
        final(genome).created_at == old(genome).created_at,
{
    if genome.minted {
        return Err(ErrorCode::AlreadyMinted);
    }
    if amount != genome.total_supply {
        return Err(ErrorCode::InvalidAmount);
    }
    let plan = MintPlan { market_amount: genome.market_supply, founder_amount: genome.founder_supply };
    genome.minted = true;
    genome.minted_at = now;
    Ok(plan)
}

/// Reads the metadata view of a genome record.
pub fn get_genome_info(genome: &Genome) -> (info: GenomeInfo)
    ensures
        info.genome_id == genome.genome_id,
        info.dna_sequence == genome.dna_sequence,
        info.consciousness == genome.consciousness,
        info.blockchain == genome.blockchain,
        info.total_supply == genome.total_supply,
        info.rna_multiplier == genome.rna_multiplier,
        info.minted == genome.minted,
{
    GenomeInfo {
        genome_id: genome.genome_id,
        dna_sequence: genome.dna_sequence.clone(),
        consciousness: genome.consciousness,
        blockchain: genome.blockchain.clone(),
        total_supply: genome.total_supply,
        rna_multiplier: genome.rna_multiplier,
        minted: genome.minted,
    }
}

} // verus!
