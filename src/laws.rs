use crate::error::Error;
use crate::gear::{
    picked, selection, selection_result, standard_catalog, wearable, CatalogView,
    Gear, Outfit, SINGLET_NAME,
};
use crate::inputs::{temperature_model, Feel, Intensity, Sex, UserPreferences};
use crate::weather::{Conditions, TimeOfDay, Weather, Wind};
use vstd::prelude::*;

verus! {

/// Equal conditions and preferences give the same felt temperature, and
/// two selections from one catalog on equal inputs agree: both succeed with
/// the same outfit, or both fail with the same incomplete one.
pub proof fn lemma_selection_is_deterministic(
    catalog: CatalogView,
    c1: Conditions,
    p1: UserPreferences,
    r1: Result<Outfit, Error>,
    c2: Conditions,
    p2: UserPreferences,
    r2: Result<Outfit, Error>,
)
    requires
        c1 == c2,
        p1 == p2,
        selection_result(r1, catalog, c1, p1, temperature_model(c1, p1)),
        selection_result(r2, catalog, c2, p2, temperature_model(c2, p2)),
    ensures
        temperature_model(c1, p1) == temperature_model(c2, p2),
        r1 is Ok <==> r2 is Ok,
        r1 matches Ok(o1) ==> r2 matches Ok(o2) && o1@ == o2@,
        r1 matches Err(Error::InvalidOutfit(o1)) ==> r2 matches Err(Error::InvalidOutfit(o2))
            && o1@ == o2@,
{
}

/// With average effort and feel, in clear, calm daytime weather, the
/// built-in catalog dresses torso, legs and feet at every felt temperature
/// from -50 to 120 °F.
pub proof fn lemma_standard_catalog_covers(conditions: Conditions, preferences: UserPreferences, t: int)
    requires
        conditions.weather == Weather::Clear,
        conditions.wind == Wind::Calm,
        conditions.time == TimeOfDay::Daytime,
        preferences.intensity == Intensity::Average,
        preferences.feel == Feel::Average,
        -50 <= t <= 120,
    ensures
        selection(standard_catalog(), conditions, preferences, t).is_complete(),
{
    reveal_with_fuel(picked, 9);
}

/// A man racing above 35 °F gets exactly a singlet on the torso, whatever
/// the catalog holds and whatever its scan would have picked.
pub proof fn lemma_race_override_wins(
    catalog: CatalogView,
    conditions: Conditions,
    preferences: UserPreferences,
    t: int,
)
    requires
        preferences.sex == Sex::Male,
        preferences.intensity == Intensity::Race,
        t > 35,
    ensures
        selection(catalog, conditions, preferences, t).torso == seq![SINGLET_NAME],
{
}

/// In heavy rain the head gets the hat with visor and never the winter cap;
/// in rain too, once it is warmer than the cap's 38 °F.
pub proof fn lemma_rain_brings_the_hat(conditions: Conditions, preferences: UserPreferences, t: int)
    requires
        conditions.weather == Weather::HeavyRain || (conditions.weather == Weather::Rain && t > 38),
    ensures
        picked(standard_catalog().head, conditions, preferences, t) == seq!["a hat with visor"],
{
    reveal_with_fuel(picked, 3);
    assert(picked(standard_catalog().head, conditions, preferences, t) =~= seq!["a hat with visor"]);
}

/// In rain at 38 °F or below, the winter cap goes on under the hat.
pub proof fn lemma_cold_rain_brings_cap_and_hat(
    conditions: Conditions,
    preferences: UserPreferences,
    t: int,
)
    requires
        conditions.weather == Weather::Rain,
        t <= 38,
    ensures
        picked(standard_catalog().head, conditions, preferences, t) == seq![
            "a winter cap",
            "a hat with visor",
        ],
{
    reveal_with_fuel(picked, 3);
    assert(picked(standard_catalog().head, conditions, preferences, t) =~= seq![
        "a winter cap",
        "a hat with visor",
    ]);
}

/// An upper bound is inclusive: at it a garment is judged by its other
/// tests alone, one degree above it the garment is out.
pub proof fn lemma_max_temp_is_inclusive(
    gear: Gear,
    conditions: Conditions,
    preferences: UserPreferences,
    max: i16,
)
    requires
        gear.max_temp == Some(max),
    ensures
        !wearable(gear, conditions, preferences, max + 1),
        wearable(gear, conditions, preferences, max as int) == wearable(
            Gear { max_temp: None, ..gear },
            conditions,
            preferences,
            max as int,
        ),
{
}

/// A lower bound is inclusive: at it a garment is judged by its other
/// tests alone, one degree below it the garment is out.
pub proof fn lemma_min_temp_is_inclusive(
    gear: Gear,
    conditions: Conditions,
    preferences: UserPreferences,
    min: i16,
)
    requires
        gear.min_temp == Some(min),
    ensures
        !wearable(gear, conditions, preferences, min - 1),
        wearable(gear, conditions, preferences, min as int) == wearable(
            Gear { min_temp: None, ..gear },
            conditions,
            preferences,
            min as int,
        ),
{
}

} // verus!
