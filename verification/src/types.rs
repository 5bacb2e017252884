//! Plain-value stand-ins for the ledger's identities and token symbols.
use vstd::prelude::*;

verus! {

/// An account or contract identity, held as its textual (strkey) form.
#[derive(Debug, PartialEq, Eq, Hash)]
pub struct Address {
    /// The textual form of the identity.
    pub id: String,
}

impl View for Address {
    type V = Seq<char>;

    open spec fn view(&self) -> Seq<char> {
        self.id@
    }
}

impl Clone for Address {
    fn clone(&self) -> (r: Self)
        ensures
            r == *self,
    {
        Address { id: self.id.clone() }
    }
}

impl Address {
    /// Builds an address from its textual form.
    pub fn new(id: String) -> (r: Address)
        ensures
            r.id == id,
    {
        Address { id }
    }

    /// Whether two addresses denote the same identity.
    pub fn same_as(&self, other: &Address) -> (r: bool)
        ensures
            r == (self@ == other@),
    {
        self.id == other.id
    }
}

/// Whether an optional stored address is present and names `who`.
pub open spec fn holds(stored: Option<Address>, who: Address) -> bool {
    stored matches Some(a) && a@ == who@
}

/// A token symbol as the swap logic distinguishes it: the two simulated
/// tokens of the built-in pool, or any other symbol.
#[derive(Debug, PartialEq, Eq)]
pub enum Token {
    /// The `XLM` token.
    Xlm,
    /// The simulated stable token `USDCSIM`.
    UsdcSim,
    /// Any other symbol, kept by name.
    Other(String),
}

/// The symbol text `XLM`.
pub open spec fn xlm_text() -> Seq<char> {
    seq!['X', 'L', 'M']
}

/// The symbol text `USDCSIM`.
pub open spec fn usdcsim_text() -> Seq<char> {
    seq!['U', 'S', 'D', 'C', 'S', 'I', 'M']
}

impl Token {
    /// Classifies a symbol text: `XLM`, `USDCSIM`, or another symbol.
    pub fn from_symbol(s: &str) -> (r: Token)
        ensures
            (s@ == xlm_text()) <==> (r is Xlm),
            (s@ == usdcsim_text()) <==> (r is UsdcSim),
            r matches Token::Other(name) ==> name@ == s@,
    {
        let owned = s.to_owned();
        let xlm = String::from_str("XLM");
        let usdc = String::from_str("USDCSIM");
        proof {
            reveal_strlit("XLM");
            reveal_strlit("USDCSIM");
            assert(xlm@ == xlm_text());
            assert(usdc@ == usdcsim_text());
            assert(xlm_text() != usdcsim_text()) by {
                assert(xlm_text().len() != usdcsim_text().len());
            }
        }
        if owned == xlm {
            Token::Xlm
        } else if owned == usdc {
            Token::UsdcSim
        } else {
            Token::Other(owned)
        }
    }

    /// Whether this is one of the two tokens of the built-in pool.
    pub open spec fn is_pool_token(self) -> bool {
        self is Xlm || self is UsdcSim
    }
}

} // verus!
