use crate::error::Error;
use vstd::prelude::*;

verus! {

#[derive(Clone, Copy, Debug, PartialEq, Eq, Structural)]
pub enum Weather {
    Clear,
    PartlyCloudy,
    Overcast,
    Rain,
    HeavyRain,
    Snow,
}

impl Default for Weather {
    fn default() -> (r: Self)
        ensures
            r == Weather::Clear,
    {
        Weather::Clear
    }
}

#[derive(Clone, Copy, Debug, PartialEq, Eq, Structural)]
pub enum Wind {
    Calm,
    Light,
    Heavy,
}

impl Default for Wind {
    fn default() -> (r: Self)
        ensures
            r == Wind::Calm,
    {
        Wind::Calm
    }
}

#[derive(Clone, Copy, Debug, PartialEq, Eq, Structural)]
pub enum TimeOfDay {
    Morning,
    Daytime,
    Evening,
    Night,
}

impl Default for TimeOfDay {
    fn default() -> (r: Self)
        ensures
            r == TimeOfDay::Daytime,
    {
        TimeOfDay::Daytime
    }
}

/// The observed environment.
#[derive(Clone, Copy, Debug, PartialEq, Eq, Structural)]
pub struct Conditions {
    /// Temperature in °F.
    pub temperature: i16,
    pub weather: Weather,
    pub wind: Wind,
    pub time: TimeOfDay,
}

impl Default for Conditions {
    fn default() -> (r: Self)
        ensures
            r == (Conditions {
                temperature: 0,
                weather: Weather::Clear,
                wind: Wind::Calm,
                time: TimeOfDay::Daytime,
            }),
    {
        Conditions {
            temperature: 0,
            weather: Weather::default(),
            wind: Wind::default(),
            time: TimeOfDay::default(),
        }
    }
}

impl Conditions {
    /// Rain needs at least 30 °F, snow at most 45 °F.
    pub open spec fn is_consistent(self) -> bool {
        &&& (self.weather == Weather::Rain || self.weather == Weather::HeavyRain) ==> self.temperature >= 30
        &&& self.weather == Weather::Snow ==> self.temperature <= 45
    }

    pub fn validate(&self) -> (r: Result<(), Error>)
        ensures
            r is Ok <==> self.is_consistent(),
            r matches Err(e) ==> e == Error::InvalidWeather(*self),
    {
        match self.weather {
            Weather::Rain | Weather::HeavyRain => {
                if self.temperature < 30 {
                    return Err(Error::InvalidWeather(*self));
                }
            },
            Weather::Snow => {
                if self.temperature > 45 {
                    return Err(Error::InvalidWeather(*self));
                }
            },
            _ => (),
        };
        Ok(())
    }
}

/// A weather report reduced to the plain values that conditions are read
/// from.
#[derive(Debug)]
pub struct Observation {
    /// Temperature in °F, rounded to the nearest degree.
    pub temperature: i16,
    /// Wind speed in miles per hour, rounded down.
    pub wind_speed: u32,
    /// Time of the observation, in seconds since the Unix epoch.
    pub time: u64,
    pub sunrise: u64,
    pub sunset: u64,
    /// Condition codes of the report, in the order it lists them.
    pub condition_codes: Vec<u32>,
    /// Cloud cover in percent.
    pub cloud_cover: u32,
}

pub open spec fn wind_of(speed: int) -> Wind {
    if speed < 8 {
        Wind::Calm
    } else if speed < 17 {
        Wind::Light
    } else {
        Wind::Heavy
    }
}

pub fn resolve_wind(wind_speed: u32) -> (r: Wind)
    ensures
        r == wind_of(wind_speed as int),
{
    if wind_speed < 8 {
        Wind::Calm
    } else if wind_speed < 17 {
        Wind::Light
    } else {
        Wind::Heavy
    }
}

/// Morning runs from an hour before sunrise to two hours after it, daytime
/// from then to an hour before sunset, evening to an hour after sunset.
/// The rest is night (higher latitudes are not considered).
pub open spec fn time_of_day_of(now: int, sunrise: int, sunset: int) -> TimeOfDay {
    if now + 3600 > sunrise && now < sunrise + 2 * 3600 {
        TimeOfDay::Morning
    } else if now >= sunrise + 2 * 3600 && now + 3600 < sunset {
        TimeOfDay::Daytime
    } else if now + 3600 >= sunset && now < sunset + 3600 {
        TimeOfDay::Evening
    } else {
        TimeOfDay::Night
    }
}

pub fn resolve_time_of_day(now: u64, sunrise: u64, sunset: u64) -> (r: TimeOfDay)
    ensures
        r == time_of_day_of(now as int, sunrise as int, sunset as int),
{
    let now = now as u128;
    let sunrise = sunrise as u128;
    let sunset = sunset as u128;
    if now + 3600 > sunrise && now < sunrise + 2 * 3600 {
        return TimeOfDay::Morning;
    }
    if now >= sunrise + 2 * 3600 && now + 3600 < sunset {
        return TimeOfDay::Daytime;
    }
    if now + 3600 >= sunset && now < sunset + 3600 {
        return TimeOfDay::Evening;
    }
    TimeOfDay::Night
}

/// The precipitation that one condition code stands for, if any.
pub open spec fn precipitation_of_code(code: u32) -> Option<Weather> {
    if 600 <= code <= 699 {
        Some(Weather::Snow)
    } else if code == 500 || code == 501 || code == 520 {
        Some(Weather::Rain)
    } else if 500 <= code <= 599 {
        Some(Weather::HeavyRain)
    } else {
        None
    }
}

/// The precipitation of the first code that names one.
pub open spec fn precipitation_of(codes: Seq<u32>) -> Option<Weather>
    decreases codes.len(),
{
    if codes.len() == 0 {
        None
    } else {
        match precipitation_of_code(codes[0]) {
            Some(w) => Some(w),
            None => precipitation_of(codes.drop_first()),
        }
    }
}

pub open spec fn weather_of(codes: Seq<u32>, cloud_cover: int) -> Weather {
    match precipitation_of(codes) {
        Some(w) => w,
        None => if cloud_cover > 75 {
            Weather::Overcast
        } else if cloud_cover > 25 {
            Weather::PartlyCloudy
        } else {
            Weather::Clear
        },
    }
}

proof fn lemma_precipitation_skip(codes: Seq<u32>, i: int)
    requires
        0 <= i < codes.len(),
        precipitation_of_code(codes[i]) is None,
    ensures
        precipitation_of(codes.subrange(i, codes.len() as int)) == precipitation_of(
            codes.subrange(i + 1, codes.len() as int),
        ),
{
    let rest = codes.subrange(i, codes.len() as int);
    assert(rest.drop_first() =~= codes.subrange(i + 1, codes.len() as int));
}

pub fn resolve_weather(condition_codes: &Vec<u32>, cloud_cover: u32) -> (r: Weather)
    ensures
        r == weather_of(condition_codes@, cloud_cover as int),
{
    // Check for precipitation
    let n = condition_codes.len();
    let mut i: usize = 0;
    assert(condition_codes@.subrange(0, n as int) =~= condition_codes@);
    while i < n
        invariant
            n == condition_codes@.len(),
            i <= n,
            precipitation_of(condition_codes@) == precipitation_of(
                condition_codes@.subrange(i as int, n as int),
            ),
        decreases n - i,
    {
        let code = condition_codes[i];
        proof {
            let rest = condition_codes@.subrange(i as int, n as int);
            assert(rest[0] == code);
        }
        if 600 <= code && code <= 699 {
            return Weather::Snow;
        } else if code == 500 || code == 501 || code == 520 {
            return Weather::Rain;
        } else if 500 <= code && code <= 599 {
            return Weather::HeavyRain;
        }
        proof {
            lemma_precipitation_skip(condition_codes@, i as int);
        }
        i = i + 1;
    }
    assert(condition_codes@.subrange(n as int, n as int).len() == 0);
    // No precipitation: the cloud cover decides
    if cloud_cover > 75 {
        Weather::Overcast
    } else if cloud_cover > 25 {
        Weather::PartlyCloudy
    } else {
        Weather::Clear
    }
}

pub open spec fn conditions_of(observation: Observation) -> Conditions {
    Conditions {
        temperature: observation.temperature,
        wind: wind_of(observation.wind_speed as int),
        time: time_of_day_of(
            observation.time as int,
            observation.sunrise as int,
            observation.sunset as int,
        ),
        weather: weather_of(observation.condition_codes@, observation.cloud_cover as int),
    }
}

/// Reads conditions off a weather report and checks that they hang together.
pub fn conditions_from(observation: &Observation) -> (r: Result<Conditions, Error>)
    ensures
        r is Ok <==> conditions_of(*observation).is_consistent(),
        r matches Ok(c) ==> c == conditions_of(*observation),
        r matches Err(e) ==> e == Error::InvalidWeather(conditions_of(*observation)),
{
    let conditions = Conditions {
        temperature: observation.temperature,
        wind: resolve_wind(observation.wind_speed),
        time: resolve_time_of_day(observation.time, observation.sunrise, observation.sunset),
        weather: resolve_weather(&observation.condition_codes, observation.cloud_cover),
    };
    match conditions.validate() {
        Ok(()) => Ok(conditions),
        Err(e) => Err(e),
    }
}

} // verus!
