//! Numeric identification of a nuclide.

use vstd::prelude::*;

verus! {

/// Numeric description of a nuclide: its nucleon numbers, and an optional
/// isomer index.
#[derive(Debug, Clone, Copy, PartialEq, Eq, Structural)]
pub struct NumSpec {
    /// Nuclei charge i.e. proton count.
    pub z: i32,
    /// Nuclei mass number i.e. nucleon count.
    pub mass_number: i32,
    /// Isomer index; `None` stands for the ground state.
    pub iso: Option<i32>,
}

impl NumSpec {
    /// Describes the ground state of the nuclide with the given proton and
    /// nucleon counts.
    pub fn new(z: i32, mass_number: i32) -> (s: Self)
        ensures
            s == (NumSpec { z, mass_number, iso: None }),
    {
        NumSpec { z, mass_number, iso: None }
    }

    /// Whether the two descriptions name the same nuclide.
    pub fn same_nuclide(&self, other: &NumSpec) -> (r: bool)
        ensures
            r <==> *self == *other,
    {
        let iso_eq = match (self.iso, other.iso) {
            (Some(a), Some(b)) => a == b,
            (None, None) => true,
            _ => false,
        };
        self.z == other.z && self.mass_number == other.mass_number && iso_eq
    }
}

} // verus!
