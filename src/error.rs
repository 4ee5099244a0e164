use crate::gear::Outfit;
use crate::weather::Conditions;
use vstd::prelude::*;

verus! {

/// Why no outfit could be recommended.
#[derive(Debug)]
pub enum Error {
    /// The temperature does not fit the stated weather.
    InvalidWeather(Conditions),
    /// Torso, legs or feet came out empty: the catalog leaves a gap at
    /// this temperature. Carries what was selected.
    InvalidOutfit(Outfit),
}

} // verus!
