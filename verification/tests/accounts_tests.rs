use rsm_coin::accounts::{
    deserialize_genome_data, deserialize_token_config, serialize_genome_data,
    serialize_token_config, GENOME_DATA_LEN, TOKEN_CONFIG_LEN,
};
use rsm_coin::rsm::{process_initialize, process_mint_from_genome, RSMError};
use rsm_coin::scoring::calculate_token_amount;

const AUTHORITY: [u8; 32] = [3u8; 32];
const CONTROLLER: [u8; 32] = [5u8; 32];
const HASH: [u8; 32] = [8u8; 32];

#[test]
fn config_round_trips_through_bytes() {
    let mut config = process_initialize(AUTHORITY, true, 1_000_000, CONTROLLER).unwrap();
    config.agi_params.last_update = -12345;
    let bytes = serialize_token_config(&config);
    assert_eq!(bytes.len(), TOKEN_CONFIG_LEN);
    let back = deserialize_token_config(&bytes).unwrap();
    assert_eq!(back.authority, AUTHORITY);
    assert_eq!(back.agi_controller, CONTROLLER);
    assert_eq!(back.max_supply, 1_000_000);
    assert_eq!(back.total_minted, 0);
    assert_eq!(back.agi_params.complexity_weight, 40);
    assert_eq!(back.agi_params.uniqueness_weight, 30);
    assert_eq!(back.agi_params.entropy_weight, 20);
    assert_eq!(back.agi_params.blockchain_weight, 10);
    assert_eq!(back.agi_params.last_update, -12345);
}

#[test]
fn config_bytes_follow_the_layout() {
    let config = process_initialize(AUTHORITY, true, 0x0102_0304_0506_0708, CONTROLLER).unwrap();
    let bytes = serialize_token_config(&config);
    assert_eq!(&bytes[0..32], &AUTHORITY);
    assert_eq!(&bytes[32..64], &CONTROLLER);
    assert_eq!(&bytes[64..72], &0x0102_0304_0506_0708u64.to_le_bytes());
    assert_eq!(&bytes[72..80], &[0u8; 8]);
    assert_eq!(&bytes[80..84], &[40, 30, 20, 10]);
    assert_eq!(&bytes[84..92], &[0u8; 8]);
}

#[test]
fn genome_round_trips_through_bytes() {
    let mut config = process_initialize(AUTHORITY, true, u64::MAX, CONTROLLER).unwrap();
    let amount = calculate_token_amount(&config.agi_params, 91, 93, 150, 7);
    let genome = process_mint_from_genome(
        &mut config, CONTROLLER, true, AUTHORITY, HASH, 91, 93, 150, amount, 7, -42,
    )
    .unwrap();
    let bytes = serialize_genome_data(&genome);
    assert_eq!(bytes.len(), GENOME_DATA_LEN);
    let back = deserialize_genome_data(&bytes).unwrap();
    assert_eq!(back.hash, HASH);
    assert_eq!(back.owner, AUTHORITY);
    assert_eq!(back.tokens_minted, amount);
    assert_eq!(back.complexity, 91);
    assert_eq!(back.uniqueness, 93);
    assert!(back.is_minted);
    assert_eq!(back.mint_timestamp, -42);
}

#[test]
fn record_decoding_rejects_malformed_bytes() {
    let short = [0u8; 91];
    assert_eq!(deserialize_token_config(&short).err(), Some(RSMError::InvalidAccountData));
    let long = [0u8; 84];
    assert_eq!(deserialize_genome_data(&long).err(), Some(RSMError::InvalidAccountData));
    // A minted flag outside 0 / 1 is not a boolean.
    let mut bad_flag = [0u8; 83];
    bad_flag[74] = 2;
    assert_eq!(deserialize_genome_data(&bad_flag).err(), Some(RSMError::InvalidAccountData));
    bad_flag[74] = 1;
    assert!(deserialize_genome_data(&bad_flag).is_ok());
}
