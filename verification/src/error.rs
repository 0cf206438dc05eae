use vstd::prelude::*;

verus! {

/// Reasons for which an instruction of the program is refused.
#[derive(Clone, Copy, Debug, PartialEq, Eq, Structural)]
pub enum ErrorCode {
    /// The user holds fewer mass tokens than a level-up costs.
    InsufficientMassTokens,
    /// The user holds fewer energy tokens than a level-up costs.
    InsufficientEnergyTokens,
    /// The user holds fewer order tokens than a level-up costs.
    InsufficientOrderTokens,
    /// More stat tokens were offered than the user holds of every kind.
    InvalidMonTokenAmount,
    /// The user holds none of the mon NFT, so does not own the mon.
    NftNotHeld,
}

} // verus!
