use vstd::prelude::*;

use crate::balances::{balance_in, paid, BalanceError, Balances};
use crate::dna::{blake2_128_of, bred_code, breed_dna, dna_payload, gender_of, random_value, Kitty};
use crate::nft::{token_owner, Nft, NftError, TokenInfo};

verus! {

/// Why a call was refused. A refused call changes nothing.
#[derive(Clone, Copy, Debug, PartialEq, Eq, Structural)]
pub enum Error {
    /// A parent is unknown or not owned by the caller.
    InvalidKittyId,
    /// The two parents have the same gender.
    SameGender,
    /// The caller does not own the kitty whose price they set.
    NotOwner,
    /// The kitty has no price.
    NotForSale,
    /// The bid is under the price.
    PriceTooLow,
    /// Every kitty id has been handed out.
    NoAvailableTokenId,
    /// No kitty has this id.
    TokenNotFound,
    /// The kitty belongs to another account.
    NoPermission,
    /// The buyer cannot pay the price.
    InsufficientBalance,
    /// The seller's balance would pass the largest amount.
    Overflow,
}

/// What a successful call records.
#[derive(Clone, Copy, Debug, PartialEq, Eq)]
pub enum Event {
    /// owner, id, kitty
    KittyCreated(u64, u32, Kitty),
    /// owner, id, kitty
    KittyBred(u64, u32, Kitty),
    /// from, to, id
    KittyTransferred(u64, u64, u32),
    /// owner, id, new price
    KittyPriceUpdated(u64, u32, Option<u64>),
    /// seller, buyer, id, price paid
    KittySold(u64, u64, u32, u64),
}

/// The state as a whole: the registry's tokens (the id of a token is its
/// position), the ownership index keyed by (owner, id), the prices of the
/// kitties for sale, the balances, and the events recorded so far.
pub struct PalletView {
    pub tokens: Seq<TokenInfo>,
    pub index: Map<(u64, u32), Kitty>,
    pub prices: Map<u32, u64>,
    pub balances: Map<u64, u64>,
    pub events: Seq<Event>,
}

/// Kitties, their owners, their prices and the balances that pay for them.
pub struct Pallet {
    nft: Nft,
    kitties: Vec<(u64, Kitty)>,
    prices: Vec<Option<u64>>,
    balances: Balances,
    events: Vec<Event>,
}

spec fn index_of(entries: Seq<(u64, Kitty)>) -> Map<(u64, u32), Kitty> {
    Map::new(
        |k: (u64, u32)| (k.1 as int) < entries.len() && entries[k.1 as int].0 == k.0,
        |k: (u64, u32)| entries[k.1 as int].1,
    )
}

spec fn prices_of(p: Seq<Option<u64>>) -> Map<u32, u64> {
    Map::new(|i: u32| (i as int) < p.len() && p[i as int] is Some, |i: u32| p[i as int]->Some_0)
}

impl View for Pallet {
    type V = PalletView;

    closed spec fn view(&self) -> PalletView {
        PalletView {
            tokens: self.nft@,
            index: index_of(self.kitties@),
            prices: prices_of(self.prices@),
            balances: self.balances@,
            events: self.events@,
        }
    }
}

/// The ownership index holds exactly one entry for each token, under the
/// token's current owner and with the token's kitty, and only existing
/// kitties have a price.
pub open spec fn consistent(v: PalletView) -> bool {
    &&& v.tokens.len() <= u32::MAX
    &&& forall|o: u64, id: u32| #[trigger]
        v.index.contains_key((o, id)) <==> token_owner(v.tokens, id) == Some(o)
    &&& forall|o: u64, id: u32| #[trigger]
        v.index.contains_key((o, id)) ==> v.index[(o, id)] == v.tokens[id as int].data
    &&& forall|id: u32| #[trigger] v.prices.contains_key(id) ==> (id as int) < v.tokens.len()
}

/// `v` after a new token for `owner` carrying `kitty`, unpriced, and `event`.
pub open spec fn minted(v: PalletView, owner: u64, kitty: Kitty, event: Event) -> PalletView {
    PalletView {
        tokens: v.tokens.push(TokenInfo { owner, data: kitty }),
        index: v.index.insert((owner, v.tokens.len() as u32), kitty),
        prices: v.prices,
        balances: v.balances,
        events: v.events.push(event),
    }
}

/// `v` after token `id` moved from `from` to `to` in the registry and in the
/// ownership index, as one step. Moving to oneself changes nothing.
pub open spec fn moved(v: PalletView, from: u64, to: u64, id: u32) -> PalletView {
    if from == to {
        v
    } else {
        PalletView {
            tokens: v.tokens.update(id as int, TokenInfo { owner: to, data: v.tokens[id as int].data }),
            index: v.index.remove((from, id)).insert((to, id), v.tokens[id as int].data),
            prices: v.prices,
            balances: v.balances,
            events: v.events,
        }
    }
}

/// The registry's verdict on `from` moving token `id`.
pub open spec fn move_check(v: PalletView, from: u64, id: u32) -> Result<(), Error> {
    if (id as int) >= v.tokens.len() {
        Err(Error::TokenNotFound)
    } else if v.tokens[id as int].owner != from {
        Err(Error::NoPermission)
    } else {
        Ok(())
    }
}

/// The ledger's verdict on `from` paying `amount` to `to`.
pub open spec fn pay_check(v: PalletView, from: u64, to: u64, amount: u64) -> Result<(), Error> {
    if from == to {
        Ok(())
    } else if amount > balance_in(v.balances, from) {
        Err(Error::InsufficientBalance)
    } else if balance_in(v.balances, to) + amount > u64::MAX {
        Err(Error::Overflow)
    } else {
        Ok(())
    }
}

/// The outcome of breeding kitties `id1` and `id2` for `sender`.
pub open spec fn breed_check(v: PalletView, sender: u64, id1: u32, id2: u32) -> Result<u32, Error> {
    if !v.index.contains_key((sender, id1)) || !v.index.contains_key((sender, id2)) {
        Err(Error::InvalidKittyId)
    } else if gender_of(v.index[(sender, id1)].0@) == gender_of(v.index[(sender, id2)].0@) {
        Err(Error::SameGender)
    } else if v.tokens.len() >= u32::MAX {
        Err(Error::NoAvailableTokenId)
    } else {
        Ok(v.tokens.len() as u32)
    }
}

/// The outcome of `sender` buying kitty `id` from `owner` with a bid of `max_price`.
pub open spec fn buy_check(v: PalletView, sender: u64, owner: u64, id: u32, max_price: u64) -> Result<(), Error> {
    if !v.prices.contains_key(id) {
        Err(Error::NotForSale)
    } else if max_price < v.prices[id] {
        Err(Error::PriceTooLow)
    } else if move_check(v, owner, id) is Err {
        move_check(v, owner, id)
    } else {
        pay_check(v, sender, owner, v.prices[id])
    }
}

fn nft_error(e: NftError) -> (r: Error)
    ensures
        r == (match e {
            NftError::NoAvailableTokenId => Error::NoAvailableTokenId,
            NftError::TokenNotFound => Error::TokenNotFound,
            NftError::NoPermission => Error::NoPermission,
        }),
{
    match e {
        NftError::NoAvailableTokenId => Error::NoAvailableTokenId,
        NftError::TokenNotFound => Error::TokenNotFound,
        NftError::NoPermission => Error::NoPermission,
    }
}

fn balance_error(e: BalanceError) -> (r: Error)
    ensures
        r == (match e {
            BalanceError::InsufficientBalance => Error::InsufficientBalance,
            BalanceError::Overflow => Error::Overflow,
        }),
{
    match e {
        BalanceError::InsufficientBalance => Error::InsufficientBalance,
        BalanceError::Overflow => Error::Overflow,
    }
}

impl Pallet {
    /// The fields agree: one index entry and one price slot per token, each
    /// index entry naming the token's owner and kitty.
    pub closed spec fn wf(&self) -> bool {
        &&& self.nft.wf()
        &&& self.kitties@.len() == self.nft@.len()
        &&& self.prices@.len() == self.nft@.len()
        &&& forall|i: int|
            0 <= i < self.kitties@.len() ==> #[trigger] self.kitties@[i] == (
                self.nft@[i].owner,
                self.nft@[i].data,
            )
    }

    /// A fresh system: no kitties, no prices, no balances, no events.
    pub fn new() -> (r: Pallet)
        ensures
            r.wf(),
            r@.tokens == Seq::<TokenInfo>::empty(),
            r@.index == Map::<(u64, u32), Kitty>::empty(),
            r@.prices == Map::<u32, u64>::empty(),
            r@.balances == Map::<u64, u64>::empty(),
            r@.events == Seq::<Event>::empty(),
    {
        let r = Pallet {
            nft: Nft::new(),
            kitties: Vec::new(),
            prices: Vec::new(),
            balances: Balances::new(),
            events: Vec::new(),
        };
        assert(r@.index =~= Map::<(u64, u32), Kitty>::empty());
        assert(r@.prices =~= Map::<u32, u64>::empty());
        r
    }

    /// Appends a kitty minted for `owner` to the registry and the index, unpriced.
    fn mint_kitty(&mut self, owner: u64, kitty: Kitty) -> (r: Result<u32, Error>)
        requires
            old(self).wf(),
        ensures
            final(self).wf(),
            final(self)@.events == old(self)@.events,
            old(self)@.tokens.len() < u32::MAX ==> r == Ok::<u32, Error>(old(self)@.tokens.len() as u32)
                && final(self)@.tokens == old(self)@.tokens.push(TokenInfo { owner, data: kitty })
                && final(self)@.index == old(self)@.index.insert((owner, old(self)@.tokens.len() as u32), kitty)
                && final(self)@.prices == old(self)@.prices
                && final(self)@.balances == old(self)@.balances,
            old(self)@.tokens.len() >= u32::MAX ==> r == Err::<u32, Error>(Error::NoAvailableTokenId)
                && final(self)@ == old(self)@,
    {
        let ghost old_kitties = self.kitties@;
        let ghost old_prices = self.prices@;
        match self.nft.mint(owner, kitty) {
            Err(e) => Err(nft_error(e)),
            Ok(id) => {
                self.kitties.push((owner, kitty));
                self.prices.push(None);
                proof {
                    assert(index_of(self.kitties@) =~= index_of(old_kitties).insert((owner, id), kitty));
                    assert(prices_of(self.prices@) =~= prices_of(old_prices));
                }
                Ok(id)
            },
        }
    }

    /// Moves kitty `id` from `from` to `to` in the registry and the index at
    /// once; the caller has checked that `from` owns it.
    fn move_kitty(&mut self, from: u64, to: u64, id: u32)
        requires
            old(self).wf(),
            move_check(old(self)@, from, id) is Ok,
        ensures
            final(self).wf(),
            final(self)@ == moved(old(self)@, from, to, id),
    {
        let ghost old_kitties = self.kitties@;
        let kitty = self.kitties[id as usize].1;
        let _ = self.nft.transfer(from, to, id);
        if from != to {
            self.kitties.set(id as usize, (to, kitty));
            proof {
                assert(index_of(self.kitties@) =~= index_of(old_kitties).remove((from, id)).insert((to, id), kitty));
            }
        }
        proof {
            assert(old_kitties[id as int] == (old(self)@.tokens[id as int].owner, old(self)@.tokens[id as int].data));
            if from == to {
                assert(self.nft@ =~= old(self).nft@);
                assert(self.kitties@ =~= old_kitties);
            }
        }
    }

    /// Drops the price of kitty `id`.
    fn clear_price(&mut self, id: u32)
        requires
            old(self).wf(),
            (id as int) < old(self)@.tokens.len(),
        ensures
            final(self).wf(),
            final(self)@ == (PalletView { prices: old(self)@.prices.remove(id), ..old(self)@ }),
    {
        let ghost old_prices = self.prices@;
        self.prices.set(id as usize, None);
        assert(prices_of(self.prices@) =~= prices_of(old_prices).remove(id));
    }
}

/// Every well-formed state keeps the ownership index in step with the registry.
pub proof fn lemma_index_mirrors_registry(p: &Pallet)
    requires
        p.wf(),
    ensures
        consistent(p@),
{
    assert forall|o: u64, id: u32| #[trigger]
        p@.index.contains_key((o, id)) <==> token_owner(p@.tokens, id) == Some(o) by {
        if (id as int) < p.kitties@.len() {
            assert(p.kitties@[id as int] == (p.nft@[id as int].owner, p.nft@[id as int].data));
        }
    }
    assert forall|o: u64, id: u32| #[trigger]
        p@.index.contains_key((o, id)) implies p@.index[(o, id)] == p@.tokens[id as int].data by {
        assert(p.kitties@[id as int] == (p.nft@[id as int].owner, p.nft@[id as int].data));
    }
}

impl Pallet {
    /// The kitty with this id in `owner`'s part of the ownership index.
    pub fn kitties(&self, owner: u64, id: u32) -> (r: Option<Kitty>)
        requires
            self.wf(),
        ensures
            r == (if self@.index.contains_key((owner, id)) {
                Some(self@.index[(owner, id)])
            } else {
                None
            }),
    {
        if (id as usize) < self.kitties.len() && self.kitties[id as usize].0 == owner {
            Some(self.kitties[id as usize].1)
        } else {
            None
        }
    }

    /// The price of kitty `id`, if it is for sale.
    pub fn kitty_prices(&self, id: u32) -> (r: Option<u64>)
        ensures
            r == (if self@.prices.contains_key(id) {
                Some(self@.prices[id])
            } else {
                None
            }),
    {
        if (id as usize) < self.prices.len() {
            self.prices[id as usize]
        } else {
            None
        }
    }

    /// The registry's record of token `id`.
    pub fn token(&self, id: u32) -> (r: Option<TokenInfo>)
        ensures
            r == (if (id as int) < self@.tokens.len() {
                Some(self@.tokens[id as int])
            } else {
                None
            }),
    {
        self.nft.token(id)
    }

    /// The id that the next new kitty gets.
    pub fn next_kitty_id(&self) -> (r: u32)
        requires
            self.wf(),
        ensures
            r as int == self@.tokens.len(),
    {
        self.nft.next_token_id()
    }

    /// The free balance of `who`.
    pub fn free_balance(&self, who: u64) -> (r: u64)
        ensures
            r == balance_in(self@.balances, who),
    {
        self.balances.free_balance(who)
    }

    /// Sets the balance of `who`, as a genesis allocation does.
    pub fn set_balance(&mut self, who: u64, amount: u64)
        requires
            old(self).wf(),
        ensures
            final(self).wf(),
            final(self)@ == (PalletView { balances: old(self)@.balances.insert(who, amount), ..old(self)@ }),
    {
        self.balances.set_balance(who, amount);
    }

    /// The events recorded so far, oldest first.
    pub fn events(&self) -> (r: &Vec<Event>)
        ensures
            r@ == self@.events,
    {
        &self.events
    }

    /// Forgets the events recorded so far.
    pub fn reset_events(&mut self)
        requires
            old(self).wf(),
        ensures
            final(self).wf(),
            final(self)@ == (PalletView { events: Seq::<Event>::empty(), ..old(self)@ }),
    {
        self.events = Vec::new();
    }

    /// Makes a kitty with the code `dna` for `sender`, under the next id.
    pub fn create_with_dna(&mut self, sender: u64, dna: [u8; 16]) -> (r: Result<u32, Error>)
        requires
            old(self).wf(),
        ensures
            final(self).wf(),
            old(self)@.tokens.len() < u32::MAX ==> r == Ok::<u32, Error>(old(self)@.tokens.len() as u32)
                && final(self)@ == minted(
                old(self)@,
                sender,
                Kitty(dna),
                Event::KittyCreated(sender, old(self)@.tokens.len() as u32, Kitty(dna)),
            ),
            old(self)@.tokens.len() >= u32::MAX ==> r == Err::<u32, Error>(Error::NoAvailableTokenId)
                && final(self)@ == old(self)@,
    {
        let kitty = Kitty(dna);
        let r = self.mint_kitty(sender, kitty);
        if let Ok(id) = r {
            self.events.push(Event::KittyCreated(sender, id, kitty));
        }
        r
    }

    /// Makes a kitty for `sender` whose code is drawn from the random `seed`,
    /// the sender and the call index.
    pub fn create(&mut self, sender: u64, seed: &[u8; 32], index: Option<u32>) -> (r: Result<u32, Error>)
        requires
            old(self).wf(),
        ensures
            final(self).wf(),
            old(self)@.tokens.len() < u32::MAX ==> r == Ok::<u32, Error>(old(self)@.tokens.len() as u32)
                && final(self)@.tokens.len() == old(self)@.tokens.len() + 1
                && final(self)@.tokens.last().data.0@ == blake2_128_of(dna_payload(seed@, sender, index))
                && final(self)@ == minted(
                old(self)@,
                sender,
                final(self)@.tokens.last().data,
                Event::KittyCreated(sender, old(self)@.tokens.len() as u32, final(self)@.tokens.last().data),
            ),
            old(self)@.tokens.len() >= u32::MAX ==> r == Err::<u32, Error>(Error::NoAvailableTokenId)
                && final(self)@ == old(self)@,
    {
        let dna = random_value(seed, sender, index);
        self.create_with_dna(sender, dna)
    }
}

impl Pallet {
    /// Gives kitty `id` from `sender` to `to`. The registry must recognise
    /// `sender` as its owner. A gift to oneself then changes nothing and records
    /// nothing; any other clears the price and records the transfer.
    pub fn transfer(&mut self, sender: u64, to: u64, id: u32) -> (r: Result<(), Error>)
        requires
            old(self).wf(),
        ensures
            final(self).wf(),
            r == move_check(old(self)@, sender, id),
            r is Ok && sender != to ==> final(self)@ == (PalletView {
                prices: old(self)@.prices.remove(id),
                events: old(self)@.events.push(Event::KittyTransferred(sender, to, id)),
                ..moved(old(self)@, sender, to, id)
            }),
            r is Ok && sender == to ==> final(self)@ == old(self)@,
            r is Err ==> final(self)@ == old(self)@,
    {
        match self.nft.check_owner(sender, id) {
            Err(e) => Err(nft_error(e)),
            Ok(()) => {
                if sender != to {
                    self.move_kitty(sender, to, id);
                    self.clear_price(id);
                    self.events.push(Event::KittyTransferred(sender, to, id));
                }
                Ok(())
            },
        }
    }

    /// Puts kitty `id` up for sale at `new_price`, or takes it off sale with
    /// `None`. Only the kitty's owner may do so.
    pub fn set_price(&mut self, sender: u64, id: u32, new_price: Option<u64>) -> (r: Result<(), Error>)
        requires
            old(self).wf(),
        ensures
            final(self).wf(),
            r == (if old(self)@.index.contains_key((sender, id)) {
                Ok::<(), Error>(())
            } else {
                Err(Error::NotOwner)
            }),
            r is Ok ==> final(self)@ == (PalletView {
                prices: match new_price {
                    Some(p) => old(self)@.prices.insert(id, p),
                    None => old(self)@.prices.remove(id),
                },
                events: old(self)@.events.push(Event::KittyPriceUpdated(sender, id, new_price)),
                ..old(self)@
            }),
            r is Err ==> final(self)@ == old(self)@,
    {
        if !((id as usize) < self.kitties.len() && self.kitties[id as usize].0 == sender) {
            return Err(Error::NotOwner);
        }
        let ghost old_prices = self.prices@;
        self.prices.set(id as usize, new_price);
        proof {
            match new_price {
                Some(p) => {
                    assert(prices_of(self.prices@) =~= prices_of(old_prices).insert(id, p));
                },
                None => {
                    assert(prices_of(self.prices@) =~= prices_of(old_prices).remove(id));
                },
            }
        }
        self.events.push(Event::KittyPriceUpdated(sender, id, new_price));
        Ok(())
    }

    /// `sender` buys kitty `id` from `owner`, bidding `max_price`. The kitty
    /// must be for sale at no more than the bid, `owner` must own it and
    /// `sender` must be able to pay. The listed price, not the bid, is paid;
    /// the kitty moves to `sender` and leaves the market.
    pub fn buy(&mut self, sender: u64, owner: u64, id: u32, max_price: u64) -> (r: Result<(), Error>)
        requires
            old(self).wf(),
        ensures
            final(self).wf(),
            r == buy_check(old(self)@, sender, owner, id, max_price),
            r is Ok ==> final(self)@ == (PalletView {
                prices: old(self)@.prices.remove(id),
                balances: paid(old(self)@.balances, sender, owner, old(self)@.prices[id]),
                events: old(self)@.events.push(Event::KittySold(owner, sender, id, old(self)@.prices[id])),
                ..moved(old(self)@, owner, sender, id)
            }),
            r is Err ==> final(self)@ == old(self)@,
    {
        let price = match self.kitty_prices(id) {
            None => {
                return Err(Error::NotForSale);
            },
            Some(p) => p,
        };
        if max_price < price {
            return Err(Error::PriceTooLow);
        }
        if let Err(e) = self.nft.check_owner(owner, id) {
            return Err(nft_error(e));
        }
        if let Err(e) = self.balances.check_transfer(sender, owner, price) {
            return Err(balance_error(e));
        }
        self.move_kitty(owner, sender, id);
        self.clear_price(id);
        let _ = self.balances.transfer(sender, owner, price);
        self.events.push(Event::KittySold(owner, sender, id, price));
        Ok(())
    }

    /// Breeds kitties `id1` and `id2` of `sender` into a new kitty for
    /// `sender`, mixing the parents' codes with the random bytes `selector`.
    /// Both parents must be `sender`'s and of different genders.
    pub fn breed_with_selector(&mut self, sender: u64, id1: u32, id2: u32, selector: [u8; 16]) -> (r: Result<u32, Error>)
        requires
            old(self).wf(),
        ensures
            final(self).wf(),
            r == breed_check(old(self)@, sender, id1, id2),
            r is Ok ==> final(self)@.tokens.len() == old(self)@.tokens.len() + 1 && bred_code(
                old(self)@.index[(sender, id1)].0@,
                old(self)@.index[(sender, id2)].0@,
                selector@,
                final(self)@.tokens.last().data.0@,
            ) && final(self)@ == minted(
                old(self)@,
                sender,
                final(self)@.tokens.last().data,
                Event::KittyBred(sender, old(self)@.tokens.len() as u32, final(self)@.tokens.last().data),
            ),
            r is Err ==> final(self)@ == old(self)@,
    {
        let kitty1 = match self.kitties(sender, id1) {
            None => {
                return Err(Error::InvalidKittyId);
            },
            Some(k) => k,
        };
        let kitty2 = match self.kitties(sender, id2) {
            None => {
                return Err(Error::InvalidKittyId);
            },
            Some(k) => k,
        };
        if kitty1.gender() == kitty2.gender() {
            return Err(Error::SameGender);
        }
        let dna = breed_dna(&kitty1.0, &kitty2.0, &selector);
        let child = Kitty(dna);
        let r = self.mint_kitty(sender, child);
        if let Ok(id) = r {
            self.events.push(Event::KittyBred(sender, id, child));
        }
        r
    }

    /// Breeds kitties `id1` and `id2` of `sender`, with random bytes drawn
    /// from the random `seed`, the sender and the call index.
    pub fn breed(&mut self, sender: u64, id1: u32, id2: u32, seed: &[u8; 32], index: Option<u32>) -> (r: Result<u32, Error>)
        requires
            old(self).wf(),
        ensures
            final(self).wf(),
            r == breed_check(old(self)@, sender, id1, id2),
            r is Ok ==> final(self)@.tokens.len() == old(self)@.tokens.len() + 1 && bred_code(
                old(self)@.index[(sender, id1)].0@,
                old(self)@.index[(sender, id2)].0@,
                blake2_128_of(dna_payload(seed@, sender, index)),
                final(self)@.tokens.last().data.0@,
            ) && final(self)@ == minted(
                old(self)@,
                sender,
                final(self)@.tokens.last().data,
                Event::KittyBred(sender, old(self)@.tokens.len() as u32, final(self)@.tokens.last().data),
            ),
            r is Err ==> final(self)@ == old(self)@,
    {
        let selector = random_value(seed, sender, index);
        self.breed_with_selector(sender, id1, id2, selector)
    }
}

/// The event recorded last, if any.
pub fn last_event(p: &Pallet) -> (r: Option<Event>)
    ensures
        r == (if p@.events.len() == 0 {
            None
        } else {
            Some(p@.events.last())
        }),
{
    let events = p.events();
    if events.len() == 0 {
        None
    } else {
        Some(events[events.len() - 1])
    }
}

/// Ids of new kitties are handed out from zero upwards: in a fresh system the
/// first kitty gets id zero, each later kitty gets the id one above the one
/// before, and no id that a kitty already holds is handed out again.
pub proof fn lemma_ids_increase(
    v0: PalletView,
    owner1: u64,
    kitty1: Kitty,
    event1: Event,
    owner2: u64,
    kitty2: Kitty,
    event2: Event,
)
    requires
        consistent(v0),
        v0.tokens.len() + 1 < u32::MAX,
    ensures
        ({
            let v1 = minted(v0, owner1, kitty1, event1);
            let id1 = v0.tokens.len() as u32;
            let id2 = v1.tokens.len() as u32;
            &&& v0.tokens.len() == 0 ==> id1 == 0
            &&& id1 < id2 && id2 == id1 + 1
            &&& forall|o: u64, j: u32| v0.index.contains_key((o, j)) ==> j < id1
            &&& forall|o: u64, j: u32| v1.index.contains_key((o, j)) ==> j < id2
            &&& v1.index.contains_key((owner1, id1)) && v1.index[(owner1, id1)] == kitty1
        }),
{
    let v1 = minted(v0, owner1, kitty1, event1);
    assert forall|o: u64, j: u32| v0.index.contains_key((o, j)) implies j < v0.tokens.len() as u32 by {
        assert(token_owner(v0.tokens, j) == Some(o));
    }
}

/// Setting a price is refused to anyone but the kitty's owner, and so for
/// every id that no kitty has.
pub proof fn lemma_price_needs_owner(v: PalletView, sender: u64, id: u32)
    requires
        consistent(v),
        token_owner(v.tokens, id) != Some(sender),
    ensures
        !v.index.contains_key((sender, id)),
{
}

/// A purchase goes through only with a bid of at least the listed price, and
/// then exactly the listed price, not the bid, passes from buyer to seller.
pub proof fn lemma_buy_pays_listed_price(v: PalletView, sender: u64, owner: u64, id: u32, max_price: u64)
    requires
        buy_check(v, sender, owner, id, max_price) is Ok,
        sender != owner,
    ensures
        v.prices.contains_key(id),
        max_price >= v.prices[id],
        balance_in(paid(v.balances, sender, owner, v.prices[id]), sender) == balance_in(v.balances, sender)
            - v.prices[id],
        balance_in(paid(v.balances, sender, owner, v.prices[id]), owner) == balance_in(v.balances, owner)
            + v.prices[id],
        forall|w: u64|
            w != sender && w != owner ==> #[trigger] balance_in(paid(v.balances, sender, owner, v.prices[id]), w)
                == balance_in(v.balances, w),
{
}

/// A kitty that changes hands, by gift to another account or by purchase,
/// leaves the market, whatever its price was before.
pub proof fn lemma_new_owner_finds_no_price(v: PalletView, from: u64, to: u64, id: u32, event: Event, balances: Map<u64, u64>)
    ensures
        !(PalletView { prices: v.prices.remove(id), events: v.events.push(event), ..moved(v, from, to, id) }).prices.contains_key(id),
        !(PalletView { prices: v.prices.remove(id), balances, events: v.events.push(event), ..moved(v, from, to, id) }).prices.contains_key(id),
{
}

/// Breeding two kitties of the caller that share a gender is refused with
/// `SameGender`; a refused call changes nothing.
pub proof fn lemma_same_gender_refused(v: PalletView, sender: u64, id1: u32, id2: u32)
    requires
        v.index.contains_key((sender, id1)),
        v.index.contains_key((sender, id2)),
        gender_of(v.index[(sender, id1)].0@) == gender_of(v.index[(sender, id2)].0@),
    ensures
        breed_check(v, sender, id1, id2) == Err::<u32, Error>(Error::SameGender),
{
}

} // verus!
