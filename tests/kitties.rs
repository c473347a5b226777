use kitties::dna::combine;
use kitties::random::random_value;
use kitties::{combine_dna, Error, Event, Kitty, KittyGender, Module};
use parity_scale_codec::Encode;

fn dna_with_first(first: u8, rest: u8) -> [u8; 16] {
    let mut d = [rest; 16];
    d[0] = first;
    d
}

#[test]
fn gender_even_first_byte_is_male() {
    assert_eq!(Kitty(dna_with_first(0, 7)).gender(), KittyGender::Male);
    assert_eq!(Kitty(dna_with_first(254, 1)).gender(), KittyGender::Male);
}

#[test]
fn gender_odd_first_byte_is_female() {
    assert_eq!(Kitty(dna_with_first(1, 0)).gender(), KittyGender::Female);
    assert_eq!(Kitty(dna_with_first(255, 0)).gender(), KittyGender::Female);
}

#[test]
fn gender_ignores_every_other_bit() {
    let base = dna_with_first(0b0110_1010, 0x5a);
    let g = Kitty(base).gender();
    for i in 0..16 {
        for b in 0..8 {
            if i == 0 && b == 0 {
                continue;
            }
            let mut d = base;
            d[i] ^= 1u8 << b;
            assert_eq!(Kitty(d).gender(), g);
        }
    }
    let mut d = base;
    d[0] ^= 1;
    assert_ne!(Kitty(d).gender(), g);
}

#[test]
fn combine_dna_takes_bits_by_selector() {
    assert_eq!(combine_dna(0b1010_1010, 0b0000_1111, 0b0000_0001), 0b1010_1011);
    assert_eq!(combine_dna(0b1111_0000, 0b0000_1111, 0b1100_0011), 0b0011_0011);
    assert_eq!(combine_dna(0xAB, 0xCD, 0x00), 0xAB);
    assert_eq!(combine_dna(0xAB, 0xCD, 0xFF), 0xCD);
}

#[test]
fn combine_each_bit_follows_selector() {
    let p1: [u8; 16] = [0x00, 0xFF, 0x0F, 0xF0, 0x12, 0x34, 0x56, 0x78, 0x9A, 0xBC, 0xDE, 0xF0, 1, 2, 3, 4];
    let p2: [u8; 16] = [0xFF, 0x00, 0xF0, 0x0F, 0x21, 0x43, 0x65, 0x87, 0xA9, 0xCB, 0xED, 0x0F, 4, 3, 2, 1];
    let sel: [u8; 16] = [0x55, 0xAA, 0x33, 0xCC, 0x0F, 0xF0, 0x81, 0x7E, 0, 0xFF, 1, 0x80, 3, 5, 9, 17];
    let child = combine(&p1, &p2, &sel);
    for i in 0..16 {
        for b in 0..8 {
            let from = if (sel[i] >> b) & 1 == 0 { p1[i] } else { p2[i] };
            assert_eq!((child[i] >> b) & 1, (from >> b) & 1);
        }
    }
}

#[test]
fn combine_with_extreme_selectors() {
    let p1 = [0x3Cu8; 16];
    let p2 = dna_with_first(9, 0xA5);
    assert_eq!(combine(&p1, &p2, &[0u8; 16]), p1);
    assert_eq!(combine(&p1, &p2, &[0xFFu8; 16]), p2);
}

#[test]
fn random_value_hashes_seed_sender_and_index() {
    let seed = [7u8; 32];
    let expected = sp_io::hashing::blake2_128(&(seed, 42u64, Some(3u32)).encode());
    assert_eq!(random_value(&seed, 42, Some(3)), expected);
    let mut bytes = seed.to_vec();
    bytes.extend_from_slice(&42u64.to_le_bytes());
    bytes.push(1);
    bytes.extend_from_slice(&3u32.to_le_bytes());
    assert_eq!(random_value(&seed, 42, Some(3)), sp_io::hashing::blake2_128(&bytes));
    let mut none_bytes = seed.to_vec();
    none_bytes.extend_from_slice(&42u64.to_le_bytes());
    none_bytes.push(0);
    assert_eq!(random_value(&seed, 42, None), sp_io::hashing::blake2_128(&none_bytes));
}

#[test]
fn random_value_depends_on_call_index() {
    let seed = [1u8; 32];
    assert_ne!(random_value(&seed, 5, Some(0)), random_value(&seed, 5, Some(1)));
    assert_ne!(random_value(&seed, 5, Some(0)), random_value(&seed, 6, Some(0)));
    assert_ne!(random_value(&seed, 5, Some(0)), [0u8; 16]);
}

#[test]
fn ids_are_handed_out_in_order() {
    let mut m = Module::new();
    assert_eq!(m.next_kitty_id(), 0);
    for n in 0..5u32 {
        let r = m.create_with_dna(1, [n as u8; 16]);
        assert_eq!(r, Ok(Event::KittyCreated(1, n, Kitty([n as u8; 16]))));
        assert_eq!(m.next_kitty_id(), n + 1);
    }
    for n in 0..5u32 {
        assert_eq!(m.kitties(1, n), Some(Kitty([n as u8; 16])));
    }
}

#[test]
fn create_draws_dna_from_randomness() {
    let mut m = Module::new();
    let seed = [9u8; 32];
    let r = m.create(3, &seed, Some(2));
    let dna = random_value(&seed, 3, Some(2));
    assert_eq!(r, Ok(Event::KittyCreated(3, 0, Kitty(dna))));
    assert_eq!(m.kitties(3, 0), Some(Kitty(dna)));
    assert_eq!(m.kitties(4, 0), None);
    assert_eq!(m.next_kitty_id(), 1);
}

#[test]
fn breed_uses_random_selector() {
    let mut m = Module::new();
    let d0 = dna_with_first(2, 0x0F);
    let d1 = dna_with_first(3, 0xF0);
    m.create_with_dna(1, d0).unwrap();
    m.create_with_dna(1, d1).unwrap();
    let seed = [4u8; 32];
    let r = m.breed(1, 0, 1, &seed, Some(5));
    let child = Kitty(combine(&d0, &d1, &random_value(&seed, 1, Some(5))));
    assert_eq!(r, Ok(Event::KittyBred(1, 2, child)));
    assert_eq!(m.kitties(1, 2), Some(child));
}

#[test]
fn end_to_end_mint_breed_transfer() {
    let mut m = Module::new();
    let x = 10u64;
    let y = 20u64;
    let d0 = dna_with_first(0x10, 0xAA);
    let d1 = dna_with_first(0x21, 0x55);
    assert_eq!(m.create_with_dna(x, d0), Ok(Event::KittyCreated(x, 0, Kitty(d0))));
    assert_eq!(m.create_with_dna(x, d1), Ok(Event::KittyCreated(x, 1, Kitty(d1))));
    assert_ne!(m.kitties(x, 0), m.kitties(x, 1));
    assert_ne!(Kitty(d0).gender(), Kitty(d1).gender());
    let selector = [0x0Fu8; 16];
    let child = Kitty(combine(&d0, &d1, &selector));
    assert_eq!(child.0[0], 0x11);
    assert_eq!(child.0[1], 0xA5);
    assert_eq!(m.breed_with_selector(x, 0, 1, selector), Ok(Event::KittyBred(x, 2, child)));
    assert_eq!(m.next_kitty_id(), 3);
    assert_eq!(m.kitties(x, 2), Some(child));
    assert_eq!(m.kitties(x, 0), Some(Kitty(d0)));
    assert_eq!(m.kitties(x, 1), Some(Kitty(d1)));
    assert_eq!(m.transfer(x, y, 2), Ok(Some(Event::KittyTransferred(x, y, 2))));
    assert_eq!(m.kitties(x, 2), None);
    assert_eq!(m.kitties(y, 2), Some(child));
}

#[test]
fn breed_rejects_same_gender() {
    let mut m = Module::new();
    m.create_with_dna(1, dna_with_first(2, 1)).unwrap();
    m.create_with_dna(1, dna_with_first(4, 2)).unwrap();
    assert_eq!(m.breed_with_selector(1, 0, 1, [0xFF; 16]), Err(Error::SameGender));
    assert_eq!(m.breed_with_selector(1, 0, 0, [0xFF; 16]), Err(Error::SameGender));
    assert_eq!(m.next_kitty_id(), 2);
    assert_eq!(m.kitties(1, 2), None);
    assert_eq!(m.kitties(1, 0), Some(Kitty(dna_with_first(2, 1))));
}

#[test]
fn breed_rejects_unknown_or_foreign_kitty() {
    let mut m = Module::new();
    m.create_with_dna(1, dna_with_first(2, 1)).unwrap();
    m.create_with_dna(2, dna_with_first(3, 1)).unwrap();
    assert_eq!(m.breed_with_selector(1, 0, 1, [0; 16]), Err(Error::InvalidKittyId));
    assert_eq!(m.breed_with_selector(1, 0, 7, [0; 16]), Err(Error::InvalidKittyId));
    assert_eq!(m.breed_with_selector(1, 7, 0, [0; 16]), Err(Error::InvalidKittyId));
    assert_eq!(m.next_kitty_id(), 2);
}

#[test]
fn transfer_rejects_kitty_not_owned() {
    let mut m = Module::new();
    m.create_with_dna(1, [6; 16]).unwrap();
    assert_eq!(m.transfer(2, 3, 0), Err(Error::InvalidKittyId));
    assert_eq!(m.transfer(1, 3, 5), Err(Error::InvalidKittyId));
    assert_eq!(m.kitties(1, 0), Some(Kitty([6; 16])));
    assert_eq!(m.kitties(3, 0), None);
}

#[test]
fn transfer_to_self_only_checks_ownership() {
    let mut m = Module::new();
    m.create_with_dna(1, [8; 16]).unwrap();
    assert_eq!(m.transfer(1, 1, 0), Ok(None));
    assert_eq!(m.kitties(1, 0), Some(Kitty([8; 16])));
    assert_eq!(m.transfer(2, 2, 0), Err(Error::InvalidKittyId));
    assert_eq!(m.transfer(1, 1, 1), Err(Error::InvalidKittyId));
    assert_eq!(m.next_kitty_id(), 1);
}

#[test]
fn transfer_twice_moves_back() {
    let mut m = Module::new();
    m.create_with_dna(1, [5; 16]).unwrap();
    assert_eq!(m.transfer(1, 2, 0), Ok(Some(Event::KittyTransferred(1, 2, 0))));
    assert_eq!(m.transfer(1, 2, 0), Err(Error::InvalidKittyId));
    assert_eq!(m.transfer(2, 1, 0), Ok(Some(Event::KittyTransferred(2, 1, 0))));
    assert_eq!(m.kitties(1, 0), Some(Kitty([5; 16])));
    assert_eq!(m.kitties(2, 0), None);
}
