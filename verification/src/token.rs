use vstd::prelude::*;

verus! {

/// The slot of a test token in the fixture's token list, which holds BLND (0),
/// USDC (1), wETH (2), XLM (3) and the STABLE token (4); `MockOusd` names the
/// STABLE slot.
#[derive(Copy, Clone, PartialEq, Eq, Hash, Debug, Structural)]
pub enum TokenIndex {
    BLND,
    XLM,
    MockOusd,
}

impl TokenIndex {
    /// Position of the token in the fixture's token list.
    pub open spec fn spec_position(self) -> usize {
        match self {
            TokenIndex::BLND => 0,
            TokenIndex::XLM => 3,
            TokenIndex::MockOusd => 4,
        }
    }

    /// Position of the token in the fixture's token list.
    #[verifier::when_used_as_spec(spec_position)]
    pub fn position(self) -> (p: usize)
        ensures
            p == self.spec_position(),
    {
        match self {
            TokenIndex::BLND => 0,
            TokenIndex::XLM => 3,
            TokenIndex::MockOusd => 4,
        }
    }
}

/// Two tokens share a position only if they are the same token, so a table
/// keyed by position is a table keyed by token.
pub proof fn lemma_position_injective(a: TokenIndex, b: TokenIndex)
    ensures
        a.position() == b.position() <==> a == b,
        a.position() < 5,
{
}

impl<T> std::ops::Index<TokenIndex> for Vec<T> {
    type Output = T;

    /// The entry of a token list that belongs to `index`.
    fn index(&self, index: TokenIndex) -> (entry: &T)
        ensures
            *entry == self@[index.position() as int],
    {
        &self[index.position()]
    }
}

impl<T> vstd::std_specs::core::IndexSpecImpl<TokenIndex> for Vec<T> {
    open spec fn index_req(&self, index: &TokenIndex) -> bool {
        index.position() < self.len()
    }
}

} // verus!
