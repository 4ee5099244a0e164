use crate::error::Error;
use crate::inputs::{Intensity, RunParameters, Sex, UserPreferences};
use crate::weather::{Conditions, TimeOfDay, Weather};
use vstd::prelude::*;

verus! {

/// A situational test that a garment may ask for beyond its temperature
/// range.
#[derive(Clone, Copy, Debug, PartialEq, Eq, Structural)]
pub enum Check {
    /// Men stop at 80 °F.
    LowerHeatThresholdForMales,
    /// Not in heavy rain.
    NoHeavyRain,
    /// Only in rain or heavy rain.
    Rain,
    /// Only while the sun is up and the sky is clear or partly cloudy.
    Sun,
    Male,
    Female,
    /// Not when racing.
    NoRaces,
    /// Only while the sun is up and the sky is clear or partly cloudy.
    BrightSun,
}

/// A garment of the catalog. Both temperature bounds are inclusive.
#[derive(Clone, Copy, Debug)]
pub struct Gear {
    pub name: &'static str,
    pub max_temp: Option<i16>,
    pub min_temp: Option<i16>,
    pub other_checks: Option<Check>,
}

pub open spec fn sun_is_out(conditions: Conditions) -> bool {
    conditions.time != TimeOfDay::Night && (conditions.weather == Weather::Clear
        || conditions.weather == Weather::PartlyCloudy)
}

/// Whether a check passes, at felt temperature `t`.
pub open spec fn check_holds(
    check: Check,
    conditions: Conditions,
    preferences: UserPreferences,
    t: int,
) -> bool {
    match check {
        Check::LowerHeatThresholdForMales => preferences.sex == Sex::Male ==> t <= 80,
        Check::NoHeavyRain => conditions.weather != Weather::HeavyRain,
        Check::Rain => conditions.weather == Weather::Rain || conditions.weather
            == Weather::HeavyRain,
        Check::Sun => sun_is_out(conditions),
        Check::Male => preferences.sex == Sex::Male,
        Check::Female => preferences.sex == Sex::Female,
        Check::NoRaces => preferences.intensity != Intensity::Race,
        Check::BrightSun => sun_is_out(conditions),
    }
}

/// Whether a garment may be worn: `t` lies within its bounds and its check,
/// if any, passes.
pub open spec fn wearable(
    gear: Gear,
    conditions: Conditions,
    preferences: UserPreferences,
    t: int,
) -> bool {
    &&& match gear.max_temp {
        Some(max) => t <= max,
        None => true,
    }
    &&& match gear.min_temp {
        Some(min) => t >= min,
        None => true,
    }
    &&& match gear.other_checks {
        Some(check) => check_holds(check, conditions, preferences, t),
        None => true,
    }
}

/// The names of the wearable garments among `choices`, in their order.
pub open spec fn picked(
    choices: Seq<Gear>,
    conditions: Conditions,
    preferences: UserPreferences,
    t: int,
) -> Seq<&'static str>
    decreases choices.len(),
{
    if choices.len() == 0 {
        seq![]
    } else {
        let rest = picked(choices.drop_last(), conditions, preferences, t);
        if wearable(choices.last(), conditions, preferences, t) {
            rest.push(choices.last().name)
        } else {
            rest
        }
    }
}

// The garments of the built-in catalog

pub open spec fn winter_cap() -> Gear {
    Gear {
        name: "a winter cap",
        min_temp: None,
        max_temp: Some(38),
        other_checks: Some(Check::NoHeavyRain),
    }
}

pub open spec fn hat() -> Gear {
    Gear {
        name: "a hat with visor",
        min_temp: None,
        max_temp: None,
        other_checks: Some(Check::Rain),
    }
}

pub open spec fn sunglasses() -> Gear {
    Gear { name: "sunglasses", min_temp: None, max_temp: None, other_checks: Some(Check::Sun) }
}

pub open spec fn heavy_jacket() -> Gear {
    Gear { name: "a heavy jacket", min_temp: None, max_temp: Some(20), other_checks: None }
}

pub open spec fn light_jacket() -> Gear {
    Gear { name: "a light jacket", min_temp: Some(21), max_temp: Some(35), other_checks: None }
}

pub open spec fn vest() -> Gear {
    Gear { name: "a vest", min_temp: Some(36), max_temp: Some(40), other_checks: None }
}

pub open spec fn long_sleeve() -> Gear {
    Gear { name: "a long-sleeved shirt", min_temp: None, max_temp: Some(54), other_checks: None }
}

pub open spec fn short_sleeve() -> Gear {
    Gear {
        name: "a short-sleeved shirt",
        min_temp: Some(55),
        max_temp: Some(65),
        other_checks: None,
    }
}

pub open spec fn singlet() -> Gear {
    Gear {
        name: SINGLET_NAME,
        min_temp: Some(66),
        max_temp: Some(85),
        other_checks: Some(Check::LowerHeatThresholdForMales),
    }
}

pub open spec fn sports_bra() -> Gear {
    Gear { name: "a sports bra", min_temp: None, max_temp: None, other_checks: Some(Check::Female) }
}

pub open spec fn topless() -> Gear {
    Gear { name: "no shirt", min_temp: Some(81), max_temp: None, other_checks: Some(Check::Male) }
}

pub open spec fn tights() -> Gear {
    Gear { name: "tights", min_temp: None, max_temp: Some(40), other_checks: None }
}

pub open spec fn capris() -> Gear {
    Gear {
        name: "capri tights",
        min_temp: Some(41),
        max_temp: Some(50),
        other_checks: Some(Check::Female),
    }
}

pub open spec fn shorts() -> Gear {
    Gear { name: "shorts", min_temp: Some(40), max_temp: None, other_checks: None }
}

pub open spec fn gloves() -> Gear {
    Gear { name: "gloves", min_temp: None, max_temp: Some(47), other_checks: Some(Check::NoRaces) }
}

pub open spec fn shoes() -> Gear {
    Gear { name: "running shoes", min_temp: None, max_temp: None, other_checks: None }
}

pub open spec fn sunblock() -> Gear {
    Gear { name: "sunblock", min_temp: None, max_temp: None, other_checks: Some(Check::BrightSun) }
}

/// A catalog viewed as its five ordered lists of candidates.
pub struct CatalogView {
    pub head: Seq<Gear>,
    pub torso: Seq<Gear>,
    pub legs: Seq<Gear>,
    pub feet: Seq<Gear>,
    pub accessories: Seq<Gear>,
}

/// The garments to choose from for each body region, in the order they are
/// tried and reported.
pub struct Catalog {
    pub head: Vec<Gear>,
    pub torso: Vec<Gear>,
    pub legs: Vec<Gear>,
    pub feet: Vec<Gear>,
    pub accessories: Vec<Gear>,
}

impl View for Catalog {
    type V = CatalogView;

    open spec fn view(&self) -> CatalogView {
        CatalogView {
            head: self.head@,
            torso: self.torso@,
            legs: self.legs@,
            feet: self.feet@,
            accessories: self.accessories@,
        }
    }
}

pub open spec fn standard_catalog() -> CatalogView {
    CatalogView {
        head: seq![winter_cap(), hat()],
        torso: seq![
            heavy_jacket(),
            light_jacket(),
            vest(),
            long_sleeve(),
            short_sleeve(),
            singlet(),
            sports_bra(),
            topless(),
        ],
        legs: seq![tights(), capris(), shorts()],
        feet: seq![shoes()],
        accessories: seq![gloves(), sunglasses(), sunblock()],
    }
}

impl Catalog {
    /// The built-in catalog.
    pub fn standard() -> (c: Catalog)
        ensures
            c@ == standard_catalog(),
    {
        let head = vec![
            Gear {
                name: "a winter cap",
                min_temp: None,
                max_temp: Some(38),
                other_checks: Some(Check::NoHeavyRain),
            },
            Gear {
                name: "a hat with visor",
                min_temp: None,
                max_temp: None,
                other_checks: Some(Check::Rain),
            },
        ];
        let torso = vec![
            Gear { name: "a heavy jacket", min_temp: None, max_temp: Some(20), other_checks: None },
            Gear {
                name: "a light jacket",
                min_temp: Some(21),
                max_temp: Some(35),
                other_checks: None,
            },
            Gear { name: "a vest", min_temp: Some(36), max_temp: Some(40), other_checks: None },
            Gear {
                name: "a long-sleeved shirt",
                min_temp: None,
                max_temp: Some(54),
                other_checks: None,
            },
            Gear {
                name: "a short-sleeved shirt",
                min_temp: Some(55),
                max_temp: Some(65),
                other_checks: None,
            },
            Gear {
                name: SINGLET_NAME,
                min_temp: Some(66),
                max_temp: Some(85),
                other_checks: Some(Check::LowerHeatThresholdForMales),
            },
            Gear {
                name: "a sports bra",
                min_temp: None,
                max_temp: None,
                other_checks: Some(Check::Female),
            },
            Gear {
                name: "no shirt",
                min_temp: Some(81),
                max_temp: None,
                other_checks: Some(Check::Male),
            },
        ];
        let legs = vec![
            Gear { name: "tights", min_temp: None, max_temp: Some(40), other_checks: None },
            Gear {
                name: "capri tights",
                min_temp: Some(41),
                max_temp: Some(50),
                other_checks: Some(Check::Female),
            },
            Gear { name: "shorts", min_temp: Some(40), max_temp: None, other_checks: None },
        ];
        let feet = vec![
            Gear { name: "running shoes", min_temp: None, max_temp: None, other_checks: None },
        ];
        let accessories = vec![
            Gear {
                name: "gloves",
                min_temp: None,
                max_temp: Some(47),
                other_checks: Some(Check::NoRaces),
            },
            Gear {
                name: "sunglasses",
                min_temp: None,
                max_temp: None,
                other_checks: Some(Check::Sun),
            },
            Gear {
                name: "sunblock",
                min_temp: None,
                max_temp: None,
                other_checks: Some(Check::BrightSun),
            },
        ];
        let c = Catalog { head, torso, legs, feet, accessories };
        assert(c@.head =~= standard_catalog().head);
        assert(c@.torso =~= standard_catalog().torso);
        assert(c@.legs =~= standard_catalog().legs);
        assert(c@.feet =~= standard_catalog().feet);
        assert(c@.accessories =~= standard_catalog().accessories);
        c
    }
}

// Extra checks that a garment can ask for

fn check_lower_heat_threshold_for_males(params: &RunParameters) -> (r: bool)
    ensures
        r == check_holds(
            Check::LowerHeatThresholdForMales,
            params@.conditions,
            params@.preferences,
            params.felt_temperature(),
        ),
{
    match params.preferences().sex {
        Sex::Male => params.effective_temperature() <= 80,
        Sex::Female => true,
    }
}

fn disallow_heavy_rain(params: &RunParameters) -> (r: bool)
    ensures
        r == check_holds(
            Check::NoHeavyRain,
            params@.conditions,
            params@.preferences,
            params.felt_temperature(),
        ),
{
    match params.conditions().weather {
        Weather::HeavyRain => false,
        _ => true,
    }
}

fn require_rain(params: &RunParameters) -> (r: bool)
    ensures
        r == check_holds(
            Check::Rain,
            params@.conditions,
            params@.preferences,
            params.felt_temperature(),
        ),
{
    match params.conditions().weather {
        Weather::HeavyRain | Weather::Rain => true,
        _ => false,
    }
}

fn require_sun(params: &RunParameters) -> (r: bool)
    ensures
        r == check_holds(
            Check::Sun,
            params@.conditions,
            params@.preferences,
            params.felt_temperature(),
        ),
{
    let conditions = params.conditions();
    if let TimeOfDay::Night = conditions.time {
        return false;
    }
    match conditions.weather {
        Weather::Clear | Weather::PartlyCloudy => true,
        _ => false,
    }
}

fn require_male(params: &RunParameters) -> (r: bool)
    ensures
        r == check_holds(
            Check::Male,
            params@.conditions,
            params@.preferences,
            params.felt_temperature(),
        ),
{
    match params.preferences().sex {
        Sex::Male => true,
        Sex::Female => false,
    }
}

fn require_female(params: &RunParameters) -> (r: bool)
    ensures
        r == check_holds(
            Check::Female,
            params@.conditions,
            params@.preferences,
            params.felt_temperature(),
        ),
{
    match params.preferences().sex {
        Sex::Male => false,
        Sex::Female => true,
    }
}

fn disallow_races(params: &RunParameters) -> (r: bool)
    ensures
        r == check_holds(
            Check::NoRaces,
            params@.conditions,
            params@.preferences,
            params.felt_temperature(),
        ),
{
    match params.preferences().intensity {
        Intensity::Race => false,
        _ => true,
    }
}

fn require_bright_sun(params: &RunParameters) -> (r: bool)
    ensures
        r == check_holds(
            Check::BrightSun,
            params@.conditions,
            params@.preferences,
            params.felt_temperature(),
        ),
{
    let conditions = params.conditions();
    if let TimeOfDay::Night = conditions.time {
        return false;
    }
    match conditions.weather {
        Weather::Clear | Weather::PartlyCloudy => true,
        _ => false,
    }
}

impl Gear {
    pub fn is_wearable(&self, params: &RunParameters) -> (r: bool)
        ensures
            r == wearable(*self, params@.conditions, params@.preferences, params.felt_temperature()),
    {
        // Check if current temperature is within acceptable range for this gear
        let effective_temperature = params.effective_temperature();
        if let Some(max_temp) = self.max_temp {
            if effective_temperature > max_temp {
                return false;
            }
        }
        if let Some(min_temp) = self.min_temp {
            if effective_temperature < min_temp {
                return false;
            }
        }
        // Apply optional additional checks
        match self.other_checks {
            None => true,
            Some(Check::LowerHeatThresholdForMales) => check_lower_heat_threshold_for_males(params),
            Some(Check::NoHeavyRain) => disallow_heavy_rain(params),
            Some(Check::Rain) => require_rain(params),
            Some(Check::Sun) => require_sun(params),
            Some(Check::Male) => require_male(params),
            Some(Check::Female) => require_female(params),
            Some(Check::NoRaces) => disallow_races(params),
            Some(Check::BrightSun) => require_bright_sun(params),
        }
    }
}

fn filter_wearable(choices: &Vec<Gear>, params: &RunParameters) -> (r: Vec<&'static str>)
    ensures
        r@ == picked(choices@, params@.conditions, params@.preferences, params.felt_temperature()),
{
    let ghost c = params@.conditions;
    let ghost p = params@.preferences;
    let ghost t = params.felt_temperature();
    let mut names: Vec<&'static str> = Vec::new();
    let mut i: usize = 0;
    assert(choices@.take(0) =~= seq![]);
    while i < choices.len()
        invariant
            i <= choices@.len(),
            c == params@.conditions,
            p == params@.preferences,
            t == params.felt_temperature(),
            names@ == picked(choices@.take(i as int), c, p, t),
        decreases choices@.len() - i,
    {
        let gear = choices[i];
        assert(choices@.take(i + 1).drop_last() =~= choices@.take(i as int));
        assert(choices@.take(i + 1).last() == gear);
        if gear.is_wearable(params) {
            names.push(gear.name);
        }
        i = i + 1;
    }
    assert(choices@.take(choices@.len() as int) =~= choices@);
    names
}

/// The name that the race override puts on the torso.
pub const SINGLET_NAME: &'static str = "a sleeveless shirt";

/// An outfit viewed as its five ordered lists of names.
pub struct OutfitView {
    pub head: Seq<&'static str>,
    pub torso: Seq<&'static str>,
    pub legs: Seq<&'static str>,
    pub feet: Seq<&'static str>,
    pub accessories: Seq<&'static str>,
}

impl OutfitView {
    /// Torso, legs and feet each hold something.
    pub open spec fn is_complete(self) -> bool {
        self.torso.len() > 0 && self.legs.len() > 0 && self.feet.len() > 0
    }
}

/// Men who race above 35 °F wear a singlet whatever else would fit.
pub open spec fn race_override(preferences: UserPreferences, t: int) -> bool {
    preferences.sex == Sex::Male && preferences.intensity == Intensity::Race && t > 35
}

/// What the selection makes of a catalog at felt temperature `t`.
pub open spec fn selection(
    catalog: CatalogView,
    conditions: Conditions,
    preferences: UserPreferences,
    t: int,
) -> OutfitView {
    OutfitView {
        head: picked(catalog.head, conditions, preferences, t),
        torso: if race_override(preferences, t) {
            seq![SINGLET_NAME]
        } else {
            picked(catalog.torso, conditions, preferences, t)
        },
        legs: picked(catalog.legs, conditions, preferences, t),
        feet: picked(catalog.feet, conditions, preferences, t),
        accessories: picked(catalog.accessories, conditions, preferences, t),
    }
}

/// The garments chosen for each body region, in catalog order.
#[derive(Debug)]
pub struct Outfit {
    pub head: Vec<&'static str>,
    pub torso: Vec<&'static str>,
    pub legs: Vec<&'static str>,
    pub feet: Vec<&'static str>,
    pub accessories: Vec<&'static str>,
}

impl View for Outfit {
    type V = OutfitView;

    open spec fn view(&self) -> OutfitView {
        OutfitView {
            head: self.head@,
            torso: self.torso@,
            legs: self.legs@,
            feet: self.feet@,
            accessories: self.accessories@,
        }
    }
}

/// The result of selecting from `catalog`: the selection when it is
/// complete, else `InvalidOutfit` carrying it.
pub open spec fn selection_result(
    r: Result<Outfit, Error>,
    catalog: CatalogView,
    conditions: Conditions,
    preferences: UserPreferences,
    t: int,
) -> bool {
    let s = selection(catalog, conditions, preferences, t);
    match r {
        Ok(o) => o@ == s && s.is_complete(),
        Err(Error::InvalidOutfit(o)) => o@ == s && !s.is_complete(),
        Err(_) => false,
    }
}

impl Outfit {
    /// Picks an outfit from the built-in catalog.
    pub fn new(params: &RunParameters) -> (r: Result<Self, Error>)
        ensures
            selection_result(
                r,
                standard_catalog(),
                params@.conditions,
                params@.preferences,
                params.felt_temperature(),
            ),
    {
        let catalog = Catalog::standard();
        Self::from_catalog(params, &catalog)
    }

    /// Picks an outfit from `catalog`.
    pub fn from_catalog(params: &RunParameters, catalog: &Catalog) -> (r: Result<Self, Error>)
        ensures
            selection_result(
                r,
                catalog@,
                params@.conditions,
                params@.preferences,
                params.felt_temperature(),
            ),
    {
        let mut outfit = Outfit {
            head: filter_wearable(&catalog.head, params),
            torso: filter_wearable(&catalog.torso, params),
            legs: filter_wearable(&catalog.legs, params),
            feet: filter_wearable(&catalog.feet, params),
            accessories: filter_wearable(&catalog.accessories, params),
        };

        // Special override for males running races
        let preferences = params.preferences();
        if let Sex::Male = preferences.sex {
            if let Intensity::Race = preferences.intensity {
                if params.effective_temperature() > 35 {
                    outfit.torso = vec![SINGLET_NAME];
                    assert(outfit.torso@ =~= seq![SINGLET_NAME]);
                }
            }
        }

        assert(outfit@ == selection(
            catalog@,
            params@.conditions,
            params@.preferences,
            params.felt_temperature(),
        ));
        if outfit.torso.len() == 0 || outfit.legs.len() == 0 || outfit.feet.len() == 0 {
            Err(Error::InvalidOutfit(outfit))
        } else {
            Ok(outfit)
        }
    }
}

} // verus!
