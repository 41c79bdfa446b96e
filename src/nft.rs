use vstd::prelude::*;

use crate::dna::Kitty;

verus! {

/// One token of the registry: who owns it and the kitty it carries.
#[derive(Clone, Copy, Debug, PartialEq, Eq)]
pub struct TokenInfo {
    pub owner: u64,
    pub data: Kitty,
}

/// Failures that the token registry reports.
#[derive(Clone, Copy, Debug, PartialEq, Eq, Structural)]
pub enum NftError {
    /// Every token id has been handed out.
    NoAvailableTokenId,
    /// No token has this id.
    TokenNotFound,
    /// The token belongs to another account.
    NoPermission,
}

/// The authoritative registry of who owns which token. Token ids are handed
/// out from zero upwards and never reused; the id of a token is its position.
pub struct Nft {
    tokens: Vec<TokenInfo>,
}

impl View for Nft {
    type V = Seq<TokenInfo>;

    closed spec fn view(&self) -> Seq<TokenInfo> {
        self.tokens@
    }
}

/// The owner of token `id`, if there is such a token.
pub open spec fn token_owner(tokens: Seq<TokenInfo>, id: u32) -> Option<u64> {
    if (id as int) < tokens.len() {
        Some(tokens[id as int].owner)
    } else {
        None
    }
}

impl Nft {
    /// Every id handed out fits a token id.
    pub open spec fn wf(&self) -> bool {
        self@.len() <= u32::MAX
    }

    /// An empty registry.
    pub fn new() -> (r: Nft)
        ensures
            r@ == Seq::<TokenInfo>::empty(),
            r.wf(),
    {
        Nft { tokens: Vec::new() }
    }

    /// The id that the next mint hands out.
    pub fn next_token_id(&self) -> (r: u32)
        requires
            self.wf(),
        ensures
            r as int == self@.len(),
    {
        self.tokens.len() as u32
    }

    /// The token with this id, if any.
    pub fn token(&self, id: u32) -> (r: Option<TokenInfo>)
        ensures
            r == (if (id as int) < self@.len() {
                Some(self@[id as int])
            } else {
                None
            }),
    {
        if (id as usize) < self.tokens.len() {
            Some(self.tokens[id as usize])
        } else {
            None
        }
    }

    /// The owner of the token with this id, if any.
    pub fn owner_of(&self, id: u32) -> (r: Option<u64>)
        ensures
            r == token_owner(self@, id),
    {
        if (id as usize) < self.tokens.len() {
            Some(self.tokens[id as usize].owner)
        } else {
            None
        }
    }

    /// Checks that `from` may move token `id`: the token exists and is theirs.
    pub fn check_owner(&self, from: u64, id: u32) -> (r: Result<(), NftError>)
        ensures
            r == (if (id as int) >= self@.len() {
                Err(NftError::TokenNotFound)
            } else if self@[id as int].owner != from {
                Err(NftError::NoPermission)
            } else {
                Ok(())
            }),
    {
        if (id as usize) >= self.tokens.len() {
            Err(NftError::TokenNotFound)
        } else if self.tokens[id as usize].owner != from {
            Err(NftError::NoPermission)
        } else {
            Ok(())
        }
    }

    /// Mints a token for `owner` under the next id, unless the ids are spent.
    pub fn mint(&mut self, owner: u64, data: Kitty) -> (r: Result<u32, NftError>)
        requires
            old(self).wf(),
        ensures
            final(self).wf(),
            old(self)@.len() < u32::MAX ==> r == Ok::<u32, NftError>(old(self)@.len() as u32)
                && final(self)@ == old(self)@.push(TokenInfo { owner, data }),
            old(self)@.len() >= u32::MAX ==> r == Err::<u32, NftError>(NftError::NoAvailableTokenId)
                && final(self)@ == old(self)@,
    {
        if self.tokens.len() >= u32::MAX as usize {
            return Err(NftError::NoAvailableTokenId);
        }
        let id = self.tokens.len() as u32;
        self.tokens.push(TokenInfo { owner, data });
        Ok(id)
    }

    /// Moves token `id` from `from` to `to`. Fails, changing nothing, when the
    /// token is unknown or not owned by `from`; moving to oneself changes nothing.
    pub fn transfer(&mut self, from: u64, to: u64, id: u32) -> (r: Result<(), NftError>)
        requires
            old(self).wf(),
        ensures
            final(self).wf(),
            r == (if (id as int) >= old(self)@.len() {
                Err(NftError::TokenNotFound)
            } else if old(self)@[id as int].owner != from {
                Err(NftError::NoPermission)
            } else {
                Ok(())
            }),
            r is Ok ==> final(self)@ == old(self)@.update(
                id as int,
                TokenInfo { owner: to, data: old(self)@[id as int].data },
            ),
            r is Err ==> final(self)@ == old(self)@,
    {
        let c = self.check_owner(from, id);
        match c {
            Err(e) => Err(e),
            Ok(()) => {
                let data = self.tokens[id as usize].data;
                if from != to {
                    self.tokens.set(id as usize, TokenInfo { owner: to, data });
                } else {
                    proof {
                        assert(self.tokens@ =~= self.tokens@.update(id as int, TokenInfo { owner: to, data }));
                    }
                }
                Ok(())
            },
        }
    }
}

} // verus!
