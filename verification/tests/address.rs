use anchor_lang::prelude::Pubkey;
use incident_registry::address::{PROGRAM_ID, SEED_PREFIX};
use incident_registry::{find_incident_address, incident_address_from_bump};

#[test]
fn program_id_is_the_registry_program() {
    assert_eq!(
        Pubkey::new_from_array(PROGRAM_ID).to_string(),
        "DpJ2bA7az2WgKcpcxC63ALY7B9K31NCckQdEfaG9R9Nx"
    );
}

#[test]
fn seed_prefix_spells_incident() {
    assert_eq!(&SEED_PREFIX, b"incident");
}

#[test]
fn address_is_the_program_derived_address() {
    let reporter = [7u8; 32];
    let program = Pubkey::new_from_array(PROGRAM_ID);
    for id in [0u64, 1, 2, 255, 256, u64::MAX] {
        let expected =
            Pubkey::try_find_program_address(&[b"incident", &reporter, &id.to_le_bytes()], &program)
                .map(|(key, bump)| (key.to_bytes(), bump));
        assert_eq!(find_incident_address(&reporter, id), expected);
    }
}

#[test]
fn address_can_be_derived_again_from_the_bump() {
    let reporter = [42u8; 32];
    let program = Pubkey::new_from_array(PROGRAM_ID);
    let (address, bump) = find_incident_address(&reporter, 9).expect("an address exists");
    let again = Pubkey::create_program_address(
        &[b"incident", &reporter, &9u64.to_le_bytes(), &[bump]],
        &program,
    )
    .expect("the bump gives an address");
    assert_eq!(again.to_bytes(), address);
    assert!(!again.is_on_curve());
}

#[test]
fn address_is_deterministic() {
    let reporter = [3u8; 32];
    assert_eq!(find_incident_address(&reporter, 5), find_incident_address(&reporter, 5));
}

#[test]
fn address_differs_from_its_inputs() {
    let reporter = [9u8; 32];
    let (address, _) = find_incident_address(&reporter, 1).expect("an address exists");
    assert_ne!(address, reporter);
    assert_ne!(address, PROGRAM_ID);
}

#[test]
fn distinct_requests_get_distinct_addresses() {
    let alice = [1u8; 32];
    let bob = [2u8; 32];
    let a1 = find_incident_address(&alice, 1).expect("an address exists").0;
    let a2 = find_incident_address(&alice, 2).expect("an address exists").0;
    let b1 = find_incident_address(&bob, 1).expect("an address exists").0;
    assert_ne!(a1, a2);
    assert_ne!(a1, b1);
    assert_ne!(a2, b1);
}

#[test]
fn bump_leads_back_to_the_address() {
    for (reporter, id) in [([1u8; 32], 1u64), ([2u8; 32], 77), ([0u8; 32], u64::MAX)] {
        let (address, bump) = find_incident_address(&reporter, id).expect("an address exists");
        assert_eq!(incident_address_from_bump(&reporter, id, bump), Some(address));
    }
}

#[test]
fn address_from_bump_is_the_created_program_address() {
    let reporter = [5u8; 32];
    let program = Pubkey::new_from_array(PROGRAM_ID);
    for bump in [0u8, 1, 2, 17, 128, 200, 253, 254, 255] {
        let expected = Pubkey::create_program_address(
            &[b"incident", &reporter, &3u64.to_le_bytes(), &[bump]],
            &program,
        )
        .ok()
        .map(|key| key.to_bytes());
        assert_eq!(incident_address_from_bump(&reporter, 3, bump), expected);
    }
}

#[test]
fn another_bump_leads_elsewhere() {
    let reporter = [6u8; 32];
    let (address, bump) = find_incident_address(&reporter, 4).expect("an address exists");
    let other = incident_address_from_bump(&reporter, 4, bump.wrapping_sub(1));
    assert_ne!(other, Some(address));
}
