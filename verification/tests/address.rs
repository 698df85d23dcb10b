use raffle_platform::address::{raffle_address, raffle_seeds, ticket_address, ticket_seeds};
use raffle_platform::Pubkey;

fn address_key(n: u8) -> Pubkey {
    Pubkey::new_from_array([n; 32])
}

fn outside_key(key: &Pubkey) -> anchor_lang::prelude::Pubkey {
    anchor_lang::prelude::Pubkey::new_from_array(key.to_bytes())
}

#[test]
fn raffle_seeds_are_the_tag_the_creator_and_the_number() {
    let seeds = raffle_seeds(&address_key(3), 0x0102_0304_0506_0708);
    assert_eq!(
        seeds,
        vec![b"raffle".to_vec(), vec![3u8; 32], vec![8u8, 7, 6, 5, 4, 3, 2, 1]]
    );
}

#[test]
fn raffle_seeds_write_the_number_as_std_does() {
    for id in [0u64, 1, 255, 256, 65_535, 1 << 32, u64::MAX - 1, u64::MAX] {
        let seeds = raffle_seeds(&address_key(1), id);
        assert_eq!(seeds.len(), 3);
        assert_eq!(seeds[2], id.to_le_bytes().to_vec());
    }
}

#[test]
fn ticket_seeds_are_the_tag_the_raffle_and_the_number() {
    let seeds = ticket_seeds(&address_key(5), 0x0102_0304);
    assert_eq!(seeds, vec![b"ticket".to_vec(), vec![5u8; 32], vec![4u8, 3, 2, 1]]);
}

#[test]
fn ticket_seeds_write_the_number_as_std_does() {
    for number in [0u32, 1, 255, 256, 65_536, u32::MAX] {
        let seeds = ticket_seeds(&address_key(1), number);
        assert_eq!(seeds.len(), 3);
        assert_eq!(seeds[2], number.to_le_bytes().to_vec());
    }
}

#[test]
fn raffle_address_is_the_one_the_program_derives() {
    let program = address_key(77);
    let creator = address_key(3);
    let (address, bump) = raffle_address(&program, &creator, 12).unwrap();
    let (expected, expected_bump) = anchor_lang::prelude::Pubkey::find_program_address(
        &[b"raffle", &creator.to_bytes(), &12u64.to_le_bytes()],
        &outside_key(&program),
    );
    assert_eq!(address.to_bytes(), expected.to_bytes());
    assert_eq!(bump, expected_bump);
    assert_ne!(address, program);
    assert_ne!(address, creator);
}

#[test]
fn raffle_address_rebuilds_from_its_bump_seed() {
    let program = address_key(77);
    let creator = address_key(3);
    let (address, bump) = raffle_address(&program, &creator, 12).unwrap();
    let rebuilt = anchor_lang::prelude::Pubkey::create_program_address(
        &[b"raffle", &creator.to_bytes(), &12u64.to_le_bytes(), &[bump]],
        &outside_key(&program),
    )
    .unwrap();
    assert_eq!(address.to_bytes(), rebuilt.to_bytes());
    assert!(!rebuilt.is_on_curve());
}

#[test]
fn raffle_address_depends_on_each_argument() {
    let base = raffle_address(&address_key(77), &address_key(3), 12).unwrap();
    assert_eq!(raffle_address(&address_key(77), &address_key(3), 12).unwrap(), base);
    assert_ne!(raffle_address(&address_key(78), &address_key(3), 12).unwrap().0, base.0);
    assert_ne!(raffle_address(&address_key(77), &address_key(4), 12).unwrap().0, base.0);
    assert_ne!(raffle_address(&address_key(77), &address_key(3), 13).unwrap().0, base.0);
}

#[test]
fn ticket_address_is_the_one_the_program_derives() {
    let program = address_key(77);
    let raffle = address_key(8);
    for number in [0u32, 1, 2, 19] {
        let (address, bump) = ticket_address(&program, &raffle, number).unwrap();
        let (expected, expected_bump) = anchor_lang::prelude::Pubkey::find_program_address(
            &[b"ticket", &raffle.to_bytes(), &number.to_le_bytes()],
            &outside_key(&program),
        );
        assert_eq!(address.to_bytes(), expected.to_bytes());
        assert_eq!(bump, expected_bump);
    }
}

#[test]
fn tickets_of_one_raffle_have_different_addresses() {
    let program = address_key(77);
    let raffle = address_key(8);
    let first = ticket_address(&program, &raffle, 0).unwrap().0;
    let second = ticket_address(&program, &raffle, 1).unwrap().0;
    assert_ne!(first, second);
    assert_ne!(first, raffle_address(&program, &raffle, 0).unwrap().0);
}

#[test]
fn raffle_address_of_a_known_raffle() {
    let (address, bump) = raffle_address(&address_key(77), &address_key(3), 12).unwrap();
    assert_eq!(
        address.to_bytes(),
        [
            150, 168, 208, 105, 173, 56, 10, 238, 90, 251, 200, 83, 80, 239, 144, 151, 161, 22,
            101, 169, 58, 112, 241, 51, 91, 244, 17, 151, 53, 195, 37, 48
        ]
    );
    assert_eq!(bump, 251);
}
