use rsm_coin::rsm::{
    parse_instruction, process_burn_genome, process_initialize, process_mint_from_genome,
    process_update_agi_params, RSMError, RSMInstruction, TokenConfig,
};
use rsm_coin::scoring::calculate_token_amount;

const AUTHORITY: [u8; 32] = [3u8; 32];
const CONTROLLER: [u8; 32] = [5u8; 32];
const RECIPIENT: [u8; 32] = [6u8; 32];
const HASH: [u8; 32] = [8u8; 32];

fn fresh_config(max_supply: u64) -> TokenConfig {
    process_initialize(AUTHORITY, true, max_supply, CONTROLLER).unwrap()
}

#[test]
fn initialize_requires_signer() {
    let denied = process_initialize(AUTHORITY, false, 100, CONTROLLER);
    assert_eq!(denied.err(), Some(RSMError::MissingRequiredSignature));
}

#[test]
fn initialize_starts_unminted_with_default_weights() {
    let config = fresh_config(1_000_000);
    assert_eq!(config.authority, AUTHORITY);
    assert_eq!(config.agi_controller, CONTROLLER);
    assert_eq!(config.max_supply, 1_000_000);
    assert_eq!(config.total_minted, 0);
    assert_eq!(config.agi_params.complexity_weight, 40);
    assert_eq!(config.agi_params.uniqueness_weight, 30);
    assert_eq!(config.agi_params.entropy_weight, 20);
    assert_eq!(config.agi_params.blockchain_weight, 10);
}

#[test]
fn mint_recomputes_and_accepts_matching_claim() {
    let mut config = fresh_config(u64::MAX);
    let amount = calculate_token_amount(&config.agi_params, 80, 70, 150, 42);
    let genome = process_mint_from_genome(
        &mut config, CONTROLLER, true, RECIPIENT, HASH, 80, 70, 150, amount, 42, 999,
    )
    .unwrap();
    assert_eq!(genome.hash, HASH);
    assert_eq!(genome.owner, RECIPIENT);
    assert_eq!(genome.tokens_minted, amount);
    assert_eq!(genome.complexity, 80);
    assert_eq!(genome.uniqueness, 70);
    assert!(genome.is_minted);
    assert_eq!(genome.mint_timestamp, 999);
    assert_eq!(config.total_minted, amount);
}

#[test]
fn mint_rejects_mismatched_claim() {
    let mut config = fresh_config(u64::MAX);
    let amount = calculate_token_amount(&config.agi_params, 80, 70, 150, 42);
    let denied = process_mint_from_genome(
        &mut config, CONTROLLER, true, RECIPIENT, HASH, 80, 70, 150, amount + 1, 42, 999,
    );
    assert_eq!(denied.err(), Some(RSMError::InvalidArgument));
    assert_eq!(config.total_minted, 0);
}

#[test]
fn mint_rejects_wrong_controller_and_missing_signature() {
    let mut config = fresh_config(u64::MAX);
    let amount = calculate_token_amount(&config.agi_params, 80, 70, 150, 42);
    let unsigned = process_mint_from_genome(
        &mut config, CONTROLLER, false, RECIPIENT, HASH, 80, 70, 150, amount, 42, 999,
    );
    assert_eq!(unsigned.err(), Some(RSMError::MissingRequiredSignature));
    let wrong = process_mint_from_genome(
        &mut config, RECIPIENT, true, RECIPIENT, HASH, 80, 70, 150, amount, 42, 999,
    );
    assert_eq!(wrong.err(), Some(RSMError::InvalidAccountData));
}

#[test]
fn mint_rejects_out_of_range_attributes() {
    let mut config = fresh_config(u64::MAX);
    for (complexity, uniqueness, entropy) in [(101u8, 50u8, 100u16), (50, 101, 100), (50, 50, 201)]
    {
        let denied = process_mint_from_genome(
            &mut config, CONTROLLER, true, RECIPIENT, HASH, complexity, uniqueness, entropy, 0,
            42, 999,
        );
        assert_eq!(denied.err(), Some(RSMError::InvalidArgument));
    }
}

#[test]
fn total_minted_never_exceeds_max_supply() {
    let mut config = fresh_config(50_000_000_000);
    let amount = calculate_token_amount(&config.agi_params, 50, 50, 100, 12345);
    assert_eq!(amount, 49_500_000_000);
    let first = process_mint_from_genome(
        &mut config, CONTROLLER, true, RECIPIENT, HASH, 50, 50, 100, amount, 12345, 1,
    );
    assert!(first.is_ok());
    assert!(config.total_minted <= config.max_supply);
    // A second mint of the same size no longer fits under the cap.
    let second = process_mint_from_genome(
        &mut config, CONTROLLER, true, RECIPIENT, HASH, 50, 50, 100, amount, 12345, 2,
    );
    assert_eq!(second.err(), Some(RSMError::InvalidArgument));
    assert_eq!(config.total_minted, amount);
    assert!(config.total_minted <= config.max_supply);
}

#[test]
fn burn_returns_recorded_amount_to_pool() {
    let mut config = fresh_config(u64::MAX);
    let amount = calculate_token_amount(&config.agi_params, 80, 70, 150, 42);
    let genome = process_mint_from_genome(
        &mut config, CONTROLLER, true, RECIPIENT, HASH, 80, 70, 150, amount, 42, 999,
    )
    .unwrap();
    process_burn_genome(&mut config, &genome, RECIPIENT, true, HASH).unwrap();
    assert_eq!(config.total_minted, 0);
}

#[test]
fn burn_rejects_wrong_owner_or_hash() {
    let mut config = fresh_config(u64::MAX);
    let amount = calculate_token_amount(&config.agi_params, 80, 70, 150, 42);
    let genome = process_mint_from_genome(
        &mut config, CONTROLLER, true, RECIPIENT, HASH, 80, 70, 150, amount, 42, 999,
    )
    .unwrap();
    let wrong_owner = process_burn_genome(&mut config, &genome, CONTROLLER, true, HASH);
    assert_eq!(wrong_owner, Err(RSMError::IllegalOwner));
    let wrong_hash = process_burn_genome(&mut config, &genome, RECIPIENT, true, [0u8; 32]);
    assert_eq!(wrong_hash, Err(RSMError::IllegalOwner));
    let unsigned = process_burn_genome(&mut config, &genome, RECIPIENT, false, HASH);
    assert_eq!(unsigned, Err(RSMError::MissingRequiredSignature));
    assert_eq!(config.total_minted, amount);
}

#[test]
fn update_params_requires_exact_percentage_split() {
    let mut config = fresh_config(u64::MAX);
    let bad = process_update_agi_params(&mut config, CONTROLLER, true, 40, 30, 20, 11);
    assert_eq!(bad, Err(RSMError::InvalidArgument));
    assert_eq!(config.agi_params.complexity_weight, 40);
    // Widened sums do not wrap around: 200 + 156 is not 100.
    let wrapped = process_update_agi_params(&mut config, CONTROLLER, true, 200, 156, 0, 0);
    assert_eq!(wrapped, Err(RSMError::InvalidArgument));
    process_update_agi_params(&mut config, CONTROLLER, true, 25, 25, 25, 25).unwrap();
    assert_eq!(config.agi_params.complexity_weight, 25);
    assert_eq!(config.agi_params.uniqueness_weight, 25);
    assert_eq!(config.agi_params.entropy_weight, 25);
    assert_eq!(config.agi_params.blockchain_weight, 25);
}

#[test]
fn update_params_requires_controller() {
    let mut config = fresh_config(u64::MAX);
    let unsigned = process_update_agi_params(&mut config, CONTROLLER, false, 25, 25, 25, 25);
    assert_eq!(unsigned, Err(RSMError::MissingRequiredSignature));
    let wrong = process_update_agi_params(&mut config, RECIPIENT, true, 25, 25, 25, 25);
    assert_eq!(wrong, Err(RSMError::InvalidAccountData));
}

#[test]
fn parse_initialize_roundtrip() {
    let mut data: Vec<u8> = vec![0u8];
    data.extend_from_slice(&777_000_000u64.to_le_bytes());
    data.extend_from_slice(&CONTROLLER);
    match parse_instruction(&data).unwrap() {
        RSMInstruction::Initialize { max_supply, agi_controller } => {
            assert_eq!(max_supply, 777_000_000);
            assert_eq!(agi_controller, CONTROLLER);
        }
        other => panic!("wrong variant: {:?}", other),
    }
}

#[test]
fn parse_mint_roundtrip() {
    let mut data: Vec<u8> = vec![1u8];
    data.extend_from_slice(&HASH);
    data.push(95);
    data.push(88);
    data.extend_from_slice(&198u16.to_le_bytes());
    data.extend_from_slice(&123_456_789u64.to_le_bytes());
    match parse_instruction(&data).unwrap() {
        RSMInstruction::MintFromGenome { genome_hash, complexity, uniqueness, entropy, amount } => {
            assert_eq!(genome_hash, HASH);
            assert_eq!(complexity, 95);
            assert_eq!(uniqueness, 88);
            assert_eq!(entropy, 198);
            assert_eq!(amount, 123_456_789);
        }
        other => panic!("wrong variant: {:?}", other),
    }
}

#[test]
fn parse_burn_and_update_roundtrip() {
    let mut data: Vec<u8> = vec![2u8];
    data.extend_from_slice(&HASH);
    match parse_instruction(&data).unwrap() {
        RSMInstruction::BurnGenome { genome_hash } => assert_eq!(genome_hash, HASH),
        other => panic!("wrong variant: {:?}", other),
    }
    let update = [3u8, 40, 30, 20, 10];
    match parse_instruction(&update).unwrap() {
        RSMInstruction::UpdateAGIParams {
            complexity_weight,
            uniqueness_weight,
            entropy_weight,
            blockchain_weight,
        } => {
            assert_eq!(complexity_weight, 40);
            assert_eq!(uniqueness_weight, 30);
            assert_eq!(entropy_weight, 20);
            assert_eq!(blockchain_weight, 10);
        }
        other => panic!("wrong variant: {:?}", other),
    }
}

#[test]
fn parse_rejects_garbage() {
    assert_eq!(parse_instruction(&[]), Err(RSMError::InvalidInstructionData));
    assert_eq!(parse_instruction(&[9u8, 0, 0]), Err(RSMError::InvalidInstructionData));
    // A known tag with the wrong length is rejected too.
    assert_eq!(parse_instruction(&[0u8, 1, 2, 3]), Err(RSMError::InvalidInstructionData));
    assert_eq!(parse_instruction(&[3u8, 40, 30, 20, 10, 0]), Err(RSMError::InvalidInstructionData));
}
