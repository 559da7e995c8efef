//! The feature flag that enables or disables the mint and burn entry points.

use vstd::prelude::*;

verus! {

/// Modality of a stablecoin deployment.
#[derive(Clone, Copy, Debug, PartialEq, Eq, Structural)]
pub enum StablecoinModality {
    /// No modality is set: mint and burn are disabled.
    Unset,
    /// The contract can mint and burn tokens.
    MintAndBurn,
}

impl StablecoinModality {
    /// Returns true if the mint and burn functionality is enabled.
    pub fn mint_and_burn_enabled(&self) -> (r: bool)
        ensures
            r <==> *self == StablecoinModality::MintAndBurn,
    {
        matches!(self, StablecoinModality::MintAndBurn)
    }

    /// The numeric code of the modality.
    pub open spec fn code(self) -> u8 {
        match self {
            StablecoinModality::Unset => 0,
            StablecoinModality::MintAndBurn => 1,
        }
    }
}

impl Default for StablecoinModality {
    fn default() -> (r: StablecoinModality)
        ensures
            r == StablecoinModality::Unset,
    {
        StablecoinModality::Unset
    }
}

impl From<StablecoinModality> for u8 {
    fn from(modality: StablecoinModality) -> (r: u8) {
        match modality {
            StablecoinModality::Unset => 0,
            StablecoinModality::MintAndBurn => 1,
        }
    }
}

impl vstd::std_specs::convert::FromSpecImpl<StablecoinModality> for u8 {
    open spec fn obeys_from_spec() -> bool {
        true
    }

    open spec fn from_spec(modality: StablecoinModality) -> u8 {
        modality.code()
    }
}

/// Modality of a CEP-18 token deployment.
#[derive(Clone, Copy, Debug, PartialEq, Eq, Structural)]
pub enum Cep18Modality {
    /// No modality is set: mint and burn are disabled.
    Unset,
    /// The contract can mint and burn tokens.
    MintAndBurn,
}

impl Cep18Modality {
    /// Returns true if the mint and burn functionality is enabled.
    pub fn mint_and_burn_enabled(&self) -> (r: bool)
        ensures
            r <==> *self == Cep18Modality::MintAndBurn,
    {
        matches!(self, Cep18Modality::MintAndBurn)
    }

    /// The numeric code of the modality.
    pub open spec fn code(self) -> u8 {
        match self {
            Cep18Modality::Unset => 0,
            Cep18Modality::MintAndBurn => 1,
        }
    }
}

impl Default for Cep18Modality {
    fn default() -> (r: Cep18Modality)
        ensures
            r == Cep18Modality::Unset,
    {
        Cep18Modality::Unset
    }
}

impl From<Cep18Modality> for u8 {
    fn from(modality: Cep18Modality) -> (r: u8) {
        match modality {
            Cep18Modality::Unset => 0,
            Cep18Modality::MintAndBurn => 1,
        }
    }
}

impl vstd::std_specs::convert::FromSpecImpl<Cep18Modality> for u8 {
    open spec fn obeys_from_spec() -> bool {
        true
    }

    open spec fn from_spec(modality: Cep18Modality) -> u8 {
        modality.code()
    }
}

} // verus!
