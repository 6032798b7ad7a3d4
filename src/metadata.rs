//! Description of the native token, as the ERC-20 balances operation reports it.
use vstd::prelude::*;

verus! {

/// ERC-20 metadata of the chain's native token.
#[derive(Clone, Copy, Debug)]
pub struct NativeErc20Metadata;

impl NativeErc20Metadata {
    /// The name of the token.
    pub fn name() -> (r: &'static str)
        ensures
            r@ == "OCTAN token"@,
    {
        "OCTAN token"
    }

    /// The symbol of the token.
    pub fn symbol() -> (r: &'static str)
        ensures
            r@ == "OCTAN"@,
    {
        "OCTAN"
    }

    /// The number of decimal places of the token.
    pub fn decimals() -> (r: u8)
        ensures
            r == 18,
    {
        18
    }

    /// Whether the token is the main native currency of the network, the one
    /// that the EVM pallet uses. It is.
    pub fn is_native_currency() -> (r: bool)
        ensures
            r,
    {
        true
    }
}

} // verus!
