use rsm_coin::dna::{
    get_genome_info, initialize_genome, mint_genome_tokens, ErrorCode, MintPlan,
};

fn sample_genome(total_supply: u64) -> rsm_coin::dna::Genome {
    initialize_genome(
        42,
        String::from("ATCGGCTA"),
        77,
        String::from("mainnet"),
        String::from("abc123"),
        total_supply,
        200,
        1_700_000_000,
    )
}

#[test]
fn split_is_market_and_founder_shares() {
    let genome = sample_genome(1000);
    assert_eq!(genome.market_supply, 857);
    assert_eq!(genome.founder_supply, 142);
    assert!(!genome.minted);
    assert_eq!(genome.created_at, 1_700_000_000);
}

#[test]
fn split_never_exceeds_total() {
    for total in [0u64, 1, 3, 7, 9999, 10_000, 10_001, 123_456_789] {
        let genome = sample_genome(total);
        assert!(genome.market_supply + genome.founder_supply <= total);
    }
}

#[test]
fn split_of_odd_total_loses_at_most_two_units() {
    // Integer division may round both shares down.
    let genome = sample_genome(7);
    assert_eq!(genome.market_supply, 5);
    assert_eq!(genome.founder_supply, 1);
}

#[test]
fn mint_orders_both_credits() {
    let mut genome = sample_genome(1000);
    let plan = mint_genome_tokens(&mut genome, 1000, 1_700_000_500).unwrap();
    assert_eq!(plan, MintPlan { market_amount: 857, founder_amount: 142 });
    assert!(genome.minted);
    assert_eq!(genome.minted_at, 1_700_000_500);
}

#[test]
fn second_mint_always_fails() {
    let mut genome = sample_genome(1000);
    assert!(mint_genome_tokens(&mut genome, 1000, 10).is_ok());
    let again = mint_genome_tokens(&mut genome, 1000, 20);
    assert_eq!(again, Err(ErrorCode::AlreadyMinted));
    // The record keeps its first mint time.
    assert_eq!(genome.minted_at, 10);
}

#[test]
fn mint_rejects_wrong_amount() {
    let mut genome = sample_genome(1000);
    let wrong = mint_genome_tokens(&mut genome, 999, 10);
    assert_eq!(wrong, Err(ErrorCode::InvalidAmount));
    assert!(!genome.minted);
}

#[test]
fn info_reflects_record() {
    let mut genome = sample_genome(1000);
    let info = get_genome_info(&genome);
    assert_eq!(info.genome_id, 42);
    assert_eq!(info.dna_sequence, "ATCGGCTA");
    assert_eq!(info.consciousness, 77);
    assert_eq!(info.blockchain, "mainnet");
    assert_eq!(info.total_supply, 1000);
    assert_eq!(info.rna_multiplier, 200);
    assert!(!info.minted);
    mint_genome_tokens(&mut genome, 1000, 10).unwrap();
    assert!(get_genome_info(&genome).minted);
}
