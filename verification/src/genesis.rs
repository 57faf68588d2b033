//! The genesis engine: burns a fixed RNA cost to derive a new genome
//! identifier, recording lineage and an entropy seed.
//!
//! The engine is a counter with an authority: each creation burns the current
//! RNA cost, assigns the next sequential identifier offset by a fixed base,
//! and appends a record of the creation. The authority alone may change the
//! cost or pause the engine.

use vstd::prelude::*;

verus! {

use crate::keys::keys_equal;

/// New genome identifiers start here; the engine's counter is added on top.
pub const GENOME_ID_OFFSET: u64 = 100_000;

/// Errors a genesis request can earn.
#[derive(Clone, Copy, Debug, PartialEq, Eq, Structural)]
pub enum ErrorCode {
    /// A running total would no longer fit in its counter.
    Overflow,
    /// The engine is paused.
    EngineInactive,
    /// The caller is not the engine's authority.
    Unauthorized,
}

/// The engine's persistent state.
#[derive(Clone, Debug)]
pub struct GenesisEngine {
    pub authority: [u8; 32],
    pub genesis_cost: u64,
    pub total_genomes_created: u64,
    pub total_rna_burned: u64,
    pub active: bool,
}

/// The record appended for one created genome.
#[derive(Clone, Debug)]
pub struct GenesisRecord {
    pub genome_id: u64,
    pub creator: [u8; 32],
    pub parent_genomes: Vec<u64>,
    pub rna_burned: u64,
    pub consciousness: u8,
    pub created_at: i64,
    pub entropy_seed: [u8; 32],
}

/// A snapshot of the engine's counters.
#[derive(Clone, Copy, Debug, PartialEq, Eq, Structural)]
pub struct EngineStats {
    pub total_genomes_created: u64,
    pub total_rna_burned: u64,
    pub genesis_cost: u64,
    pub active: bool,
}

/// The event a successful creation announces.
#[derive(Clone, Debug)]
pub struct GenesisCreatedEvent {
    pub genome_id: u64,
    pub creator: [u8; 32],
    pub rna_burned: u64,
    pub consciousness: u8,
    pub timestamp: i64,
}

/// Everything a successful creation orders: the RNA burn to perform, the
/// record to append, and the event to emit.
#[derive(Clone, Debug)]
pub struct GenesisOutcome {
    pub genome_id: u64,
    pub rna_to_burn: u64,
    pub record: GenesisRecord,
    pub event: GenesisCreatedEvent,
}

/// The consciousness a new genome starts with: a flat value when it has
/// parents, zero when it has none.
pub open spec fn spec_initial_consciousness(parent_count: int) -> int {
    if parent_count > 0 {
        50
    } else {
        0
    }
}

/// Creates the engine: owned by `authority`, charging `genesis_cost` RNA per
/// genome, with zeroed counters, running.
pub fn initialize(authority: [u8; 32], genesis_cost: u64) -> (engine: GenesisEngine)
    ensures
        engine.authority == authority,
        engine.genesis_cost == genesis_cost,
        engine.total_genomes_created == 0,
        engine.total_rna_burned == 0,
        engine.active,
{
    GenesisEngine {
        authority,
        genesis_cost,
        total_genomes_created: 0,
        total_rna_burned: 0,
        active: true,
    }
}

/// Creates a new genome from an RNA burn.
///
/// A paused engine rejects every request with `EngineInactive`; a request
/// that would overflow the burned-RNA counter is rejected with `Overflow`;
/// in both cases the engine is untouched. Otherwise the new genome gets the
/// next sequential identifier (counter plus [`GENOME_ID_OFFSET`]), the
/// engine's counters advance, and the outcome orders the RNA burn, the
/// lineage record and the announcement event.
pub fn create_genome(
    engine: &mut GenesisEngine,
    user: [u8; 32],
    parent_genome_ids: Vec<u64>,
    entropy_seed: [u8; 32],
    now: i64,
) -> (result: Result<GenesisOutcome, ErrorCode>)
    requires
        old(engine).total_genomes_created <= u64::MAX - GENOME_ID_OFFSET,
    ensures
        !old(engine).active ==> result == Err::<GenesisOutcome, ErrorCode>(
            ErrorCode::EngineInactive,
        ) && *final(engine) == *old(engine),
        old(engine).active && old(engine).total_rna_burned + old(engine).genesis_cost > u64::MAX
            ==> result == Err::<GenesisOutcome, ErrorCode>(ErrorCode::Overflow) && *final(engine)
            == *old(engine),
        old(engine).active && old(engine).total_rna_burned + old(engine).genesis_cost <= u64::MAX
            ==> result is Ok,
        result matches Ok(outcome) ==> {
            &&& outcome.genome_id == old(engine).total_genomes_created + GENOME_ID_OFFSET
            &&& outcome.rna_to_burn == old(engine).genesis_cost
            &&& outcome.record.genome_id == outcome.genome_id
            &&& outcome.record.creator == user
            &&& outcome.record.parent_genomes@ == parent_genome_ids@
            &&& outcome.record.rna_burned == old(engine).genesis_cost
            &&& outcome.record.consciousness == spec_initial_consciousness(
                parent_genome_ids@.len() as int,
            )
            &&& outcome.record.created_at == now
            &&& outcome.record.entropy_seed == entropy_seed
            &&& outcome.event.genome_id == outcome.genome_id
            &&& outcome.event.creator == user
            &&& outcome.event.rna_burned == old(engine).genesis_cost
            &&& outcome.event.consciousness == outcome.record.consciousness
            &&& outcome.event.timestamp == now
            &&& final(engine).total_genomes_created == old(engine).total_genomes_created + 1
            &&& final(engine).total_rna_burned == old(engine).total_rna_burned + old(
                engine,
            ).genesis_cost
        },
        final(engine).authority == old(engine).authority,
        final(engine).genesis_cost == old(engine).genesis_cost,
        final(engine).active == old(engine).active,
{
    if !engine.active {
        return Err(ErrorCode::EngineInactive);
    }

    let new_total_created: u64 = match engine.total_genomes_created.checked_add(1) {
        Some(n) => n,
        None => {
            return Err(ErrorCode::Overflow);
        },
    };
    let new_total_burned: u64 = match engine.total_rna_burned.checked_add(engine.genesis_cost) {
        Some(n) => n,
        None => {
            return Err(ErrorCode::Overflow);
        },
    };

    let new_genome_id: u64 = engine.total_genomes_created + GENOME_ID_OFFSET;
    let consciousness: u8 = if parent_genome_ids.len() > 0 {
        50
    } else {
        0
    };
    let rna_to_burn: u64 = engine.genesis_cost;

    let record = GenesisRecord {
        genome_id: new_genome_id,
        creator: user,
        parent_genomes: parent_genome_ids,
        rna_burned: rna_to_burn,
        consciousness,
        created_at: now,
        entropy_seed,
    };
    let event = GenesisCreatedEvent {
        genome_id: new_genome_id,
        creator: user,
        rna_burned: rna_to_burn,
        consciousness,
        timestamp: now,
    };

    engine.total_genomes_created = new_total_created;
    engine.total_rna_burned = new_total_burned;

    Ok(GenesisOutcome { genome_id: new_genome_id, rna_to_burn, record, event })
}

/// Updates the RNA cost of a genesis. Only the engine's authority may do so;
/// anyone else is rejected with `Unauthorized` and the engine is untouched.
pub fn update_cost(engine: &mut GenesisEngine, authority: [u8; 32], new_cost: u64) -> (result:
    Result<(), ErrorCode>)
    ensures
        authority@ != old(engine).authority@ ==> result == Err::<(), ErrorCode>(
            ErrorCode::Unauthorized,
        ) && *final(engine) == *old(engine),
        authority@ == old(engine).authority@ ==> result is Ok && final(engine).genesis_cost
            == new_cost,
        final(engine).authority == old(engine).authority,
        final(engine).total_genomes_created == old(engine).total_genomes_created,
        final(engine).total_rna_burned == old(engine).total_rna_burned,
        final(engine).active == old(engine).active,
{
    if !keys_equal(&authority, &engine.authority) {
        return Err(ErrorCode::Unauthorized);
    }
    engine.genesis_cost = new_cost;
    Ok(())
}

/// Reads a snapshot of the engine's counters.
pub fn get_stats(engine: &GenesisEngine) -> (stats: EngineStats)
    ensures
        stats.total_genomes_created == engine.total_genomes_created,
        stats.total_rna_burned == engine.total_rna_burned,
        stats.genesis_cost == engine.genesis_cost,
        stats.active == engine.active,
{
    EngineStats {
        total_genomes_created: engine.total_genomes_created,
        total_rna_burned: engine.total_rna_burned,
        genesis_cost: engine.genesis_cost,
        active: engine.active,
    }
}

/// Pauses a running engine or resumes a paused one. Only the engine's
/// authority may do so; anyone else is rejected with `Unauthorized` and the
/// engine is untouched.
pub fn toggle_active(engine: &mut GenesisEngine, authority: [u8; 32]) -> (result: Result<
    (),
    ErrorCode,
>)
    ensures
        authority@ != old(engine).authority@ ==> result == Err::<(), ErrorCode>(
            ErrorCode::Unauthorized,
        ) && *final(engine) == *old(engine),
        authority@ == old(engine).authority@ ==> result is Ok && final(engine).active == !old(
            engine,
        ).active,
        final(engine).authority == old(engine).authority,
        final(engine).genesis_cost == old(engine).genesis_cost,
        final(engine).total_genomes_created == old(engine).total_genomes_created,
        final(engine).total_rna_burned == old(engine).total_rna_burned,
{
    if !keys_equal(&authority, &engine.authority) {
        return Err(ErrorCode::Unauthorized);
    }
    engine.active = !engine.active;
    Ok(())
}

} // verus!
