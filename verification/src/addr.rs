//! Chain addresses as plain 32-byte values, and parsing from the textual
//! (base58) form through the chain SDK.
use vstd::prelude::*;

verus! {

/// A chain address (program identity, token mint, wallet), held as its
/// 32 raw bytes so that attribution is decided by exact byte comparison.
pub struct Address {
    pub bytes: Vec<u8>,
}

impl View for Address {
    type V = Seq<u8>;

    open spec fn view(&self) -> Seq<u8> {
        self.bytes@
    }
}

impl Address {
    /// A well-formed address holds exactly 32 bytes.
    pub open spec fn wf(&self) -> bool {
        self@.len() == 32
    }

    /// Exact byte-for-byte comparison of two addresses.
    pub fn matches(&self, other: &Address) -> (r: bool)
        ensures
            r == (self@ == other@),
    {
        if self.bytes.len() != other.bytes.len() {
            return false;
        }
        let n = self.bytes.len();
        let mut i: usize = 0;
        while i < n
            invariant
                0 <= i <= n,
                n == self@.len(),
                n == other@.len(),
                forall|k: int| 0 <= k < i ==> self@[k] == other@[k],
            decreases n - i,
        {
            if self.bytes[i] != other.bytes[i] {
                return false;
            }
            i = i + 1;
        }
        proof {
            assert(self@ =~= other@);
        }
        true
    }

    /// A copy of this address holding the same bytes.
    pub fn duplicate(&self) -> (r: Address)
        ensures
            r@ == self@,
    {
        Address { bytes: vstd::slice::slice_to_vec(self.bytes.as_slice()) }
    }
}

/// What the chain SDK's base58 parser returns for a given string: the 32
/// decoded bytes, or nothing when the string is not a valid address.
pub uninterp spec fn parsed_address(s: Seq<char>) -> Option<Seq<u8>>;

/// The bytes of an optional address, for contracts over parse results.
pub open spec fn addr_opt_bytes(a: Option<Address>) -> Option<Seq<u8>> {
    match a {
        Option::Some(x) => Option::Some(x@),
        Option::None => Option::None,
    }
}

/// Every address held in an optional parse result is well formed.
pub open spec fn addr_opt_wf(a: Option<Address>) -> bool {
    match a {
        Option::Some(x) => x.wf(),
        Option::None => true,
    }
}

/// Relies on solana_sdk::pubkey::Pubkey::from_str (base58 decode to exactly
/// 32 bytes) and Pubkey::to_bytes; the result is a function of the string
/// alone.
#[verifier::external_body]
fn parse_address_raw(s: &str) -> (r: Option<Vec<u8>>)
    ensures
        r matches Some(v) ==> parsed_address(s@) == Some(v@) && v@.len() == 32,
        r is None ==> parsed_address(s@) is None,
{
    match <solana_sdk::pubkey::Pubkey as core::str::FromStr>::from_str(s) {
        Ok(p) => Some(p.to_bytes().to_vec()),
        Err(_) => None,
    }
}

impl Address {
    /// Parse the textual (base58) form of an address; `None` when the text
    /// does not denote a 32-byte address.
    pub fn parse(s: &str) -> (r: Option<Address>)
        ensures
            r matches Some(a) ==> parsed_address(s@) == Some(a@) && a.wf(),
            r is None ==> parsed_address(s@) is None,
    {
        match parse_address_raw(s) {
            Some(bytes) => Some(Address { bytes }),
            None => None,
        }
    }
}

} // verus!
