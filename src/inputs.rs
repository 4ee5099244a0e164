use crate::weather::{Conditions, TimeOfDay, Weather, Wind};
use vstd::prelude::*;

verus! {

#[derive(Clone, Copy, Debug, PartialEq, Eq, Structural)]
pub enum Sex {
    Male,
    Female,
}

impl Default for Sex {
    fn default() -> (r: Self)
        ensures
            r == Sex::Male,
    {
        Sex::Male
    }
}

#[derive(Clone, Copy, Debug, PartialEq, Eq, Structural)]
pub enum Intensity {
    LongRun,
    Average,
    Workout,
    Race,
}

impl Default for Intensity {
    fn default() -> (r: Self)
        ensures
            r == Intensity::Average,
    {
        Intensity::Average
    }
}

#[derive(Clone, Copy, Debug, PartialEq, Eq, Structural)]
pub enum Feel {
    RunsWarm,
    Average,
    RunsCold,
}

impl Default for Feel {
    fn default() -> (r: Self)
        ensures
            r == Feel::Average,
    {
        Feel::Average
    }
}

/// What the runner tells us about themselves.
#[derive(Clone, Copy, Debug, PartialEq, Eq, Structural)]
pub struct UserPreferences {
    pub sex: Sex,
    pub intensity: Intensity,
    pub feel: Feel,
}

impl Default for UserPreferences {
    fn default() -> (r: Self)
        ensures
            r == (UserPreferences { sex: Sex::Male, intensity: Intensity::Average, feel: Feel::Average }),
    {
        UserPreferences { sex: Sex::default(), intensity: Intensity::default(), feel: Feel::default() }
    }
}

/// Whether two strings hold the same characters.
fn same_text(a: &str, b: &str) -> (r: bool)
    ensures
        r == (a@ == b@),
{
    String::from_str(a) == String::from_str(b)
}

/// The effort that a named voice intent asks for; any other intent is an
/// average run.
pub open spec fn intensity_of_intent(name: Seq<char>) -> Intensity {
    if name == "GetOutfitLongRun"@ {
        Intensity::LongRun
    } else if name == "GetOutfitRace"@ {
        Intensity::Race
    } else if name == "GetOutfitWorkout"@ {
        Intensity::Workout
    } else {
        Intensity::Average
    }
}

pub fn intensity_for_intent(name: &str) -> (r: Intensity)
    ensures
        r == intensity_of_intent(name@),
{
    if same_text(name, "GetOutfitLongRun") {
        Intensity::LongRun
    } else if same_text(name, "GetOutfitRace") {
        Intensity::Race
    } else if same_text(name, "GetOutfitWorkout") {
        Intensity::Workout
    } else {
        Intensity::Average
    }
}

/// The sex named by a voice slot's value: "female", or male for anything
/// else and when the slot is missing.
pub fn sex_for_slot(id: Option<&str>) -> (r: Sex)
    ensures
        r == (if id matches Some(s) && s@ == "female"@ {
            Sex::Female
        } else {
            Sex::Male
        }),
{
    match id {
        Some(s) => if same_text(s, "female") {
            Sex::Female
        } else {
            Sex::Male
        },
        None => Sex::Male,
    }
}

/// Degrees gained or lost to the sky: precipitation cools, sunshine warms
/// (more so in the middle of the day).
pub open spec fn weather_adjustment(weather: Weather, time: TimeOfDay) -> int {
    match weather {
        Weather::Snow => -3,
        Weather::Rain => -4,
        Weather::HeavyRain => -10,
        Weather::Overcast => 0,
        Weather::PartlyCloudy => match time {
            TimeOfDay::Daytime => 5,
            TimeOfDay::Morning | TimeOfDay::Evening => 2,
            TimeOfDay::Night => 0,
        },
        Weather::Clear => match time {
            TimeOfDay::Daytime => 10,
            TimeOfDay::Morning | TimeOfDay::Evening => 5,
            TimeOfDay::Night => 0,
        },
    }
}

pub open spec fn wind_adjustment(wind: Wind) -> int {
    match wind {
        Wind::Light => -5,
        Wind::Heavy => -9,
        Wind::Calm => 0,
    }
}

pub open spec fn intensity_adjustment(intensity: Intensity) -> int {
    match intensity {
        Intensity::Race => 15,
        Intensity::Workout => 8,
        Intensity::LongRun => -5,
        Intensity::Average => 0,
    }
}

pub open spec fn feel_adjustment(feel: Feel) -> int {
    match feel {
        Feel::RunsWarm => 10,
        Feel::RunsCold => -10,
        Feel::Average => 0,
    }
}

/// The felt temperature: the observed one plus four independent adjustments.
pub open spec fn temperature_model(conditions: Conditions, preferences: UserPreferences) -> int {
    conditions.temperature + weather_adjustment(conditions.weather, conditions.time)
        + wind_adjustment(conditions.wind) + intensity_adjustment(preferences.intensity)
        + feel_adjustment(preferences.feel)
}

/// Whether the felt temperature for these inputs can be held in an `i16`.
pub open spec fn temperature_model_fits(conditions: Conditions, preferences: UserPreferences) -> bool {
    i16::MIN <= temperature_model(conditions, preferences) <= i16::MAX
}

/// What a run's parameters are made of.
pub struct RunView {
    pub conditions: Conditions,
    pub preferences: UserPreferences,
}

/// Everything the outfit selection looks at, with the felt temperature
/// worked out once when the value is made.
#[derive(Debug)]
pub struct RunParameters {
    conditions: Conditions,
    preferences: UserPreferences,
    effective_temperature: i16,
}

impl View for RunParameters {
    type V = RunView;

    closed spec fn view(&self) -> RunView {
        RunView { conditions: self.conditions, preferences: self.preferences }
    }
}

impl RunParameters {
    /// The felt temperature of these parameters.
    pub open spec fn felt_temperature(&self) -> int {
        temperature_model(self@.conditions, self@.preferences)
    }

    /// The stored felt temperature is the one the temperature model gives.
    #[verifier::type_invariant]
    spec fn inv(self) -> bool {
        self.effective_temperature == temperature_model(self.conditions, self.preferences)
    }

    pub fn new(conditions: &Conditions, preferences: &UserPreferences) -> (r: RunParameters)
        requires
            temperature_model_fits(*conditions, *preferences),
        ensures
            r@.conditions == *conditions,
            r@.preferences == *preferences,
    {
        let effective_temperature = Self::calculate_effective_temperature(conditions, preferences);
        RunParameters { conditions: *conditions, preferences: *preferences, effective_temperature }
    }

    pub fn conditions(&self) -> (c: Conditions)
        ensures
            c == self@.conditions,
    {
        self.conditions
    }

    pub fn preferences(&self) -> (p: UserPreferences)
        ensures
            p == self@.preferences,
    {
        self.preferences
    }

    /// `new` for any inputs: `None` exactly when the felt temperature
    /// would not fit in an `i16`.
    pub fn try_new(conditions: &Conditions, preferences: &UserPreferences) -> (r: Option<
        RunParameters,
    >)
        ensures
            r is Some <==> temperature_model_fits(*conditions, *preferences),
            r matches Some(p) ==> p@.conditions == *conditions && p@.preferences == *preferences,
    {
        let adjustment = Self::adjustment(conditions, preferences);
        let t = conditions.temperature as i32 + adjustment as i32;
        if t < i16::MIN as i32 || t > i16::MAX as i32 {
            None
        } else {
            Some(Self::new(conditions, preferences))
        }
    }

    pub fn effective_temperature(&self) -> (t: i16)
        ensures
            t == self.felt_temperature(),
    {
        proof {
            use_type_invariant(self);
        }
        self.effective_temperature
    }

    /// The sum of the four adjustments, without the observed temperature.
    fn adjustment(conditions: &Conditions, preferences: &UserPreferences) -> (a: i16)
        ensures
            a == temperature_model(*conditions, *preferences) - conditions.temperature,
            -34 <= a <= 35,
    {
        // Adjust for weather conditions
        let weather_adj: i16 = match conditions.weather {
            Weather::Snow => -3,
            Weather::Rain => -4,
            Weather::HeavyRain => -10,
            Weather::Overcast => 0,
            Weather::PartlyCloudy => match conditions.time {
                TimeOfDay::Daytime => 5,
                TimeOfDay::Morning | TimeOfDay::Evening => 2,
                TimeOfDay::Night => 0,
            },
            Weather::Clear => match conditions.time {
                TimeOfDay::Daytime => 10,
                TimeOfDay::Morning | TimeOfDay::Evening => 5,
                TimeOfDay::Night => 0,
            },
        };

        // Adjust for wind
        let wind_adj: i16 = match conditions.wind {
            Wind::Light => -5,
            Wind::Heavy => -9,
            Wind::Calm => 0,
        };

        // Adjust for intensity
        let intensity_adj: i16 = match preferences.intensity {
            Intensity::Race => 15,
            Intensity::Workout => 8,
            Intensity::LongRun => -5,
            Intensity::Average => 0,
        };

        // Adjust for the runner's own bias
        let user_adj: i16 = match preferences.feel {
            Feel::RunsWarm => 10,
            Feel::RunsCold => -10,
            Feel::Average => 0,
        };

        weather_adj + wind_adj + intensity_adj + user_adj
    }

    fn calculate_effective_temperature(
        conditions: &Conditions,
        preferences: &UserPreferences,
    ) -> (t: i16)
        requires
            temperature_model_fits(*conditions, *preferences),
        ensures
            t == temperature_model(*conditions, *preferences),
    {
        conditions.temperature + Self::adjustment(conditions, preferences)
    }
}

} // verus!
