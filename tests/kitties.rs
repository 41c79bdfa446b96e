use kitties::dna::{breed_dna, combine_dna, random_value, Kitty, KittyGender};
use kitties::mock::{new_test_ext, MockRandom};
use kitties::nft::TokenInfo;
use kitties::pallet::{last_event, Error, Event, Pallet};

const KITTY_0: [u8; 16] = [59, 250, 138, 82, 209, 39, 141, 109, 163, 238, 183, 145, 235, 168, 18, 122];
const KITTY_1: [u8; 16] = [138, 178, 107, 116, 67, 242, 232, 253, 56, 225, 143, 56, 13, 43, 209, 8];

fn create(p: &mut Pallet, rng: &MockRandom, sender: u64) -> Result<u32, Error> {
    p.create(sender, &rng.random(b"kitty"), Some(0))
}

fn breed(p: &mut Pallet, rng: &MockRandom, sender: u64, id1: u32, id2: u32) -> Result<u32, Error> {
    p.breed(sender, id1, id2, &rng.random(b"kitty"), Some(0))
}

fn owner_of(p: &Pallet, id: u32) -> u64 {
    p.token(id).unwrap().owner
}

#[test]
fn can_create() {
    let mut p = new_test_ext();
    let rng = MockRandom::new();
    assert_eq!(create(&mut p, &rng, 100), Ok(0));

    let kitty = Kitty([59, 250, 138, 82, 209, 39, 141, 109, 163, 238, 183, 145, 235, 168, 18, 122]);

    assert_eq!(p.kitties(100, 0), Some(kitty.clone()));
    assert_eq!(p.token(0).unwrap().owner, 100);

    assert_eq!(last_event(&p), Some(Event::KittyCreated(100, 0, kitty)));
}

#[test]
fn gender() {
    assert_eq!(Kitty([0; 16]).gender(), KittyGender::Male);
    assert_eq!(Kitty([1, 0, 0, 0, 0, 0, 0, 0, 0, 0, 0, 0, 0, 0, 0, 0]).gender(), KittyGender::Female);
}

#[test]
fn can_breed() {
    let mut p = new_test_ext();
    let mut rng = MockRandom::new();
    assert_eq!(create(&mut p, &rng, 100), Ok(0));

    rng.set_random([2; 32]);

    assert_eq!(create(&mut p, &rng, 100), Ok(1));
    let events = p.events().len();

    assert_eq!(breed(&mut p, &rng, 100, 0, 11), Err(Error::InvalidKittyId));
    assert_eq!(breed(&mut p, &rng, 100, 0, 0), Err(Error::SameGender));
    assert_eq!(breed(&mut p, &rng, 101, 0, 1), Err(Error::InvalidKittyId));
    assert_eq!(p.next_kitty_id(), 2);
    assert_eq!(p.events().len(), events);

    assert_eq!(breed(&mut p, &rng, 100, 0, 1), Ok(2));

    // The random bytes drawn for the child are kitty 1's own code, and where
    // the parents differ the child takes its bit from them: so the child
    // carries kitty 1's code.
    let kitty = Kitty([138, 178, 107, 116, 67, 242, 232, 253, 56, 225, 143, 56, 13, 43, 209, 8]);

    assert_eq!(p.kitties(100, 2), Some(kitty.clone()));
    assert_eq!(p.token(2).unwrap().owner, 100);

    assert_eq!(last_event(&p), Some(Event::KittyBred(100u64, 2u32, kitty)));
}

#[test]
fn can_transfer() {
    let mut p = new_test_ext();
    let rng = MockRandom::new();
    // Setup
    assert_eq!(create(&mut p, &rng, 100), Ok(0));
    assert_eq!(p.kitty_prices(0), None);

    // Only the owner
    assert_eq!(p.transfer(101, 300, 0), Err(Error::NoPermission));
    assert_eq!(p.transfer(300, 300, 0), Err(Error::NoPermission));
    assert_eq!(p.set_price(101, 0, Some(400)), Err(Error::NotOwner));
    assert_eq!(p.set_price(100, 1, Some(400)), Err(Error::NotOwner));
    assert_eq!(p.transfer(100, 100, 1), Err(Error::TokenNotFound));

    // Price
    assert_eq!(p.set_price(100, 0, Some(400)), Ok(()));
    assert_eq!(p.kitty_prices(0), Some(400));
    assert_eq!(last_event(&p), Some(Event::KittyPriceUpdated(100, 0, Some(400))));
    // Transfer
    assert_eq!(p.transfer(100, 300, 0), Ok(()));
    assert_eq!(p.kitty_prices(0), None);

    assert_eq!(p.token(0).unwrap().owner, 300);
    assert!(p.kitties(300, 0).is_some());

    // Balances
    assert_eq!(p.free_balance(100), 0);
    assert_eq!(p.free_balance(300), 0);

    assert_eq!(last_event(&p), Some(Event::KittyTransferred(100, 300, 0)));
}

#[test]
fn handle_self_transfer() {
    let mut p = new_test_ext();
    let rng = MockRandom::new();
    assert_eq!(create(&mut p, &rng, 100), Ok(0));

    p.reset_events();

    assert_eq!(p.transfer(100, 100, 1), Err(Error::TokenNotFound));

    assert_eq!(p.transfer(100, 100, 0), Ok(()));

    assert_eq!(p.token(0).unwrap().owner, 100);

    // no transfer event because no actual transfer is executed
    assert_eq!(p.events().len(), 0);
}

#[test]
fn can_set_price() {
    let mut p = new_test_ext();
    let rng = MockRandom::new();
    // Setup
    assert_eq!(create(&mut p, &rng, 100), Ok(0));
    p.reset_events();

    assert_eq!(p.set_price(101, 0, Some(400)), Err(Error::NotOwner));
    assert_eq!(p.set_price(100, 1, Some(400)), Err(Error::NotOwner));

    assert_eq!(p.kitty_prices(0), None);
    assert_eq!(p.set_price(100, 0, Some(400)), Ok(()));
    assert!(p.kitties(100, 0).is_some());
    assert_eq!(p.kitty_prices(0), Some(400));
    assert_eq!(last_event(&p), Some(Event::KittyPriceUpdated(100, 0, Some(400))));
}

#[test]
fn can_buy() {
    let mut p = new_test_ext();
    let rng = MockRandom::new();
    // Setup
    assert_eq!(create(&mut p, &rng, 100), Ok(0));
    p.reset_events();

    assert_eq!(p.set_price(100, 0, Some(400)), Ok(()));
    assert_eq!(p.kitty_prices(0), Some(400));

    assert_eq!(p.buy(200, 100, 0, 399), Err(Error::PriceTooLow));
    assert_eq!(p.buy(200, 100, 1, 400), Err(Error::NotForSale));

    assert_eq!(p.buy(200, 100, 0, 400), Ok(()));
    assert!(p.kitties(200, 0).is_some());
    assert_eq!(p.kitty_prices(0), None);

    assert_eq!(p.free_balance(100), 400);
    assert_eq!(p.free_balance(200), 100);

    assert_eq!(last_event(&p), Some(Event::KittySold(100, 200, 0, 400)));
}

// Further cases.

#[test]
fn gender_reads_only_the_low_bit() {
    let mut code = [0xffu8; 16];
    code[0] = 0xfe;
    assert_eq!(Kitty(code).gender(), KittyGender::Male);
    code[0] = 0x01;
    assert_eq!(Kitty(code).gender(), KittyGender::Female);
    assert_eq!(Kitty([3, 0, 0, 0, 0, 0, 0, 0, 0, 0, 0, 0, 0, 0, 0, 0]).gender(), KittyGender::Female);
}

#[test]
fn combine_keeps_agreed_bits_and_takes_the_rest_from_the_selector() {
    // a and b agree on the high nibble (1010), differ on the low one.
    assert_eq!(combine_dna(0b1010_0000, 0b1010_1111, 0b0101_0110), 0b1010_0110);
    assert_eq!(combine_dna(0, 0, 0xff), 0);
    assert_eq!(combine_dna(0xff, 0xff, 0), 0xff);
    assert_eq!(combine_dna(0x0f, 0xf0, 0x3c), 0x3c);
}

#[test]
fn breed_dna_mixes_every_byte() {
    let a = [0x0fu8; 16];
    let b = [0xf0u8; 16];
    let mut s = [0u8; 16];
    for (i, x) in s.iter_mut().enumerate() {
        *x = i as u8;
    }
    assert_eq!(breed_dna(&a, &b, &s), s);
    assert_eq!(breed_dna(&a, &a, &s), a);
}

#[test]
fn random_value_hashes_seed_sender_and_index() {
    assert_eq!(random_value(&[0; 32], 100, Some(0)), KITTY_0);
    assert_eq!(random_value(&[2; 32], 100, Some(0)), KITTY_1);
    assert_ne!(random_value(&[0; 32], 101, Some(0)), KITTY_0);
    assert_ne!(random_value(&[0; 32], 100, None), KITTY_0);
    assert_ne!(random_value(&[0; 32], 100, Some(1)), KITTY_0);
}

#[test]
fn scenario_create_once() {
    let mut p = new_test_ext();
    let rng = MockRandom::new();
    assert_eq!(create(&mut p, &rng, 100), Ok(0));
    assert_eq!(p.next_kitty_id(), 1);
    assert_eq!(owner_of(&p, 0), 100);
    assert_eq!(p.kitty_prices(0), None);
    assert_eq!(p.token(0), Some(TokenInfo { owner: 100, data: Kitty(KITTY_0) }));
    assert_eq!(p.token(1), None);
}

#[test]
fn ids_increase_and_are_never_reused() {
    let mut p = new_test_ext();
    let mut rng = MockRandom::new();
    assert_eq!(create(&mut p, &rng, 100), Ok(0));
    rng.set_random([7; 32]);
    assert_eq!(create(&mut p, &rng, 101), Ok(1));
    assert_eq!(p.transfer(100, 300, 0), Ok(()));
    assert_eq!(create(&mut p, &rng, 100), Ok(2));
    assert_eq!(p.next_kitty_id(), 3);
}

#[test]
fn scenario_breed_two() {
    let mut p = new_test_ext();
    let mut rng = MockRandom::new();
    assert_eq!(create(&mut p, &rng, 100), Ok(0));
    rng.set_random([2; 32]);
    assert_eq!(create(&mut p, &rng, 100), Ok(1));
    assert_ne!(p.kitties(100, 0), p.kitties(100, 1));
    assert_ne!(p.kitties(100, 0).unwrap().gender(), p.kitties(100, 1).unwrap().gender());
    assert_eq!(breed(&mut p, &rng, 101, 0, 1), Err(Error::InvalidKittyId));
    assert_eq!(breed(&mut p, &rng, 100, 0, 0), Err(Error::SameGender));
    assert_eq!(breed(&mut p, &rng, 100, 0, 1), Ok(2));
    assert_eq!(owner_of(&p, 2), 100);
}

#[test]
fn breed_with_selector_follows_the_bit_rule() {
    let mut p = Pallet::new();
    let female = [0x01u8, 0x0f, 0, 0, 0, 0, 0, 0, 0, 0, 0, 0, 0, 0, 0, 0xaa];
    let male = [0x00u8, 0xf0, 0, 0, 0, 0, 0, 0, 0, 0, 0, 0, 0, 0, 0, 0xaa];
    assert_eq!(p.create_with_dna(5, female), Ok(0));
    assert_eq!(p.create_with_dna(5, male), Ok(1));
    let selector = [0xffu8, 0x3c, 0, 0, 0, 0, 0, 0, 0, 0, 0, 0, 0, 0, 0, 0x55];
    assert_eq!(p.breed_with_selector(5, 0, 1, selector), Ok(2));
    let child = [0x01u8, 0x3c, 0, 0, 0, 0, 0, 0, 0, 0, 0, 0, 0, 0, 0, 0xaa];
    assert_eq!(p.kitties(5, 2), Some(Kitty(child)));
    assert_eq!(last_event(&p), Some(Event::KittyBred(5, 2, Kitty(child))));
}

#[test]
fn same_gender_breeding_changes_nothing() {
    let mut p = Pallet::new();
    assert_eq!(p.create_with_dna(5, [2; 16]), Ok(0));
    assert_eq!(p.create_with_dna(5, [4; 16]), Ok(1));
    let before = p.events().clone();
    assert_eq!(p.breed_with_selector(5, 0, 1, [9; 16]), Err(Error::SameGender));
    assert_eq!(p.next_kitty_id(), 2);
    assert_eq!(p.events(), &before);
    assert_eq!(p.kitties(5, 0), Some(Kitty([2; 16])));
    assert_eq!(p.kitties(5, 1), Some(Kitty([4; 16])));
}

#[test]
fn self_transfer_keeps_price_and_records_nothing() {
    let mut p = new_test_ext();
    let rng = MockRandom::new();
    assert_eq!(create(&mut p, &rng, 100), Ok(0));
    assert_eq!(p.set_price(100, 0, Some(400)), Ok(()));
    let n = p.events().len();
    assert_eq!(p.transfer(100, 100, 0), Ok(()));
    assert_eq!(p.kitty_prices(0), Some(400));
    assert_eq!(p.kitties(100, 0), Some(Kitty(KITTY_0)));
    assert_eq!(p.events().len(), n);
}

#[test]
fn refused_set_price_changes_nothing() {
    let mut p = new_test_ext();
    let rng = MockRandom::new();
    assert_eq!(create(&mut p, &rng, 100), Ok(0));
    assert_eq!(p.set_price(100, 0, Some(10)), Ok(()));
    let n = p.events().len();
    assert_eq!(p.set_price(101, 0, None), Err(Error::NotOwner));
    assert_eq!(p.set_price(100, 7, Some(1)), Err(Error::NotOwner));
    assert_eq!(p.kitty_prices(0), Some(10));
    assert_eq!(p.kitty_prices(7), None);
    assert_eq!(p.events().len(), n);
}

#[test]
fn clearing_a_price_records_it() {
    let mut p = new_test_ext();
    let rng = MockRandom::new();
    assert_eq!(create(&mut p, &rng, 100), Ok(0));
    assert_eq!(p.set_price(100, 0, Some(10)), Ok(()));
    assert_eq!(p.set_price(100, 0, None), Ok(()));
    assert_eq!(p.kitty_prices(0), None);
    assert_eq!(last_event(&p), Some(Event::KittyPriceUpdated(100, 0, None)));
    assert_eq!(p.buy(200, 100, 0, 500), Err(Error::NotForSale));
}

#[test]
fn buy_pays_the_listed_price_not_the_bid() {
    let mut p = new_test_ext();
    let rng = MockRandom::new();
    assert_eq!(create(&mut p, &rng, 100), Ok(0));
    assert_eq!(p.set_price(100, 0, Some(300)), Ok(()));
    assert_eq!(p.buy(200, 100, 0, 450), Ok(()));
    assert_eq!(p.free_balance(100), 300);
    assert_eq!(p.free_balance(200), 200);
    assert_eq!(p.kitty_prices(0), None);
    assert_eq!(p.kitties(100, 0), None);
    assert_eq!(p.kitties(200, 0), Some(Kitty(KITTY_0)));
    assert_eq!(last_event(&p), Some(Event::KittySold(100, 200, 0, 300)));
}

#[test]
fn scenario_low_bid_then_buy() {
    let mut p = new_test_ext();
    let rng = MockRandom::new();
    assert_eq!(create(&mut p, &rng, 100), Ok(0));
    assert_eq!(p.set_price(100, 0, Some(400)), Ok(()));
    let n = p.events().len();
    assert_eq!(p.buy(200, 100, 0, 399), Err(Error::PriceTooLow));
    assert_eq!(p.events().len(), n);
    assert_eq!(owner_of(&p, 0), 100);
    assert_eq!(p.free_balance(200), 500);
    assert_eq!(p.kitty_prices(0), Some(400));
    assert_eq!(p.buy(200, 100, 0, 400), Ok(()));
    assert_eq!(owner_of(&p, 0), 200);
    assert_eq!(p.free_balance(100), 400);
    assert_eq!(p.free_balance(200), 100);
    assert_eq!(p.kitty_prices(0), None);
}

#[test]
fn buy_errors() {
    let mut p = new_test_ext();
    let rng = MockRandom::new();
    assert_eq!(create(&mut p, &rng, 100), Ok(0));
    assert_eq!(p.set_price(100, 0, Some(600)), Ok(()));
    // seller named wrongly
    assert_eq!(p.buy(200, 101, 0, 600), Err(Error::NoPermission));
    // buyer holds 500 < 600
    assert_eq!(p.buy(200, 100, 0, 600), Err(Error::InsufficientBalance));
    // account 300 holds nothing
    assert_eq!(p.set_price(100, 0, Some(1)), Ok(()));
    assert_eq!(p.buy(300, 100, 0, 1), Err(Error::InsufficientBalance));
    assert_eq!(owner_of(&p, 0), 100);
    assert_eq!(p.kitty_prices(0), Some(1));
    // the seller's balance would overflow
    p.set_balance(100, u64::MAX);
    assert_eq!(p.buy(200, 100, 0, 1), Err(Error::Overflow));
    assert_eq!(p.free_balance(200), 500);
    assert_eq!(p.free_balance(100), u64::MAX);
}

#[test]
fn buying_from_oneself_clears_the_price() {
    let mut p = new_test_ext();
    let rng = MockRandom::new();
    assert_eq!(create(&mut p, &rng, 200), Ok(0));
    assert_eq!(p.set_price(200, 0, Some(50)), Ok(()));
    assert_eq!(p.buy(200, 200, 0, 50), Ok(()));
    assert_eq!(p.kitty_prices(0), None);
    assert_eq!(p.free_balance(200), 500);
    assert_eq!(owner_of(&p, 0), 200);
    assert_eq!(last_event(&p), Some(Event::KittySold(200, 200, 0, 50)));
}

#[test]
fn last_event_of_fresh_system_is_none() {
    let p = new_test_ext();
    assert_eq!(last_event(&p), None);
    assert_eq!(p.free_balance(200), 500);
    assert_eq!(p.next_kitty_id(), 0);
}

#[test]
fn mock_random_ignores_subject() {
    let mut rng = MockRandom::new();
    assert_eq!(rng.random(b"a"), [0; 32]);
    rng.set_random([9; 32]);
    assert_eq!(rng.random(b"a"), [9; 32]);
    assert_eq!(rng.random(b"other"), [9; 32]);
}
