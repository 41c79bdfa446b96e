use vstd::prelude::*;

use crate::dna::Kitty;
use crate::nft::TokenInfo;
use crate::pallet::{Event, Pallet};

verus! {

/// A randomness source for tests: it hands out whatever payload it was last
/// given, whatever the subject, so that codes can be predicted.
#[derive(Clone, Copy, Debug)]
pub struct MockRandom {
    pub payload: [u8; 32],
}

impl MockRandom {
    /// A source whose payload is all zeros.
    pub fn new() -> (r: MockRandom)
        ensures
            r.payload@ == Seq::new(32, |i: int| 0u8),
    {
        let r = MockRandom { payload: [0u8; 32] };
        assert(r.payload@ =~= Seq::new(32, |i: int| 0u8));
        r
    }

    /// Replaces the payload.
    pub fn set_random(&mut self, val: [u8; 32])
        ensures
            final(self).payload == val,
    {
        self.payload = val;
    }

    /// The payload, whatever the subject.
    pub fn random(&self, subject: &[u8]) -> (r: [u8; 32])
        ensures
            r == self.payload,
    {
        self.payload
    }
}

/// A fresh system for tests: no kitties, and account 200 holding 500.
pub fn new_test_ext() -> (r: Pallet)
    ensures
        r.wf(),
        r@.tokens == Seq::<TokenInfo>::empty(),
        r@.index == Map::<(u64, u32), Kitty>::empty(),
        r@.prices == Map::<u32, u64>::empty(),
        r@.balances == Map::<u64, u64>::empty().insert(200, 500),
        r@.events == Seq::<Event>::empty(),
{
    let mut p = Pallet::new();
    p.set_balance(200, 500);
    p
}

} // verus!
