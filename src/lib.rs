//! Ownership and lineage of kitties: minting, breeding and transfer of
//! uniquely numbered creatures whose genes are sixteen bytes of DNA.
pub mod dna;
pub mod pallet;
pub mod random;

pub use dna::{combine_dna, Kitty, KittyGender};
pub use pallet::{Error, Event, Module};
