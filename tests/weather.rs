use outfit_picker::weather::{
    conditions_from, resolve_time_of_day, resolve_weather, resolve_wind, Conditions, Observation,
    TimeOfDay, Weather, Wind,
};
use outfit_picker::Error;

#[test]
fn wind_speed_bands() {
    assert_eq!(Wind::Calm, resolve_wind(0));
    assert_eq!(Wind::Calm, resolve_wind(7));
    assert_eq!(Wind::Light, resolve_wind(8));
    assert_eq!(Wind::Light, resolve_wind(16));
    assert_eq!(Wind::Heavy, resolve_wind(17));
}

#[test]
fn time_of_day_bands() {
    let sunrise = 100_000;
    let sunset = 140_000;
    assert_eq!(TimeOfDay::Night, resolve_time_of_day(sunrise - 3600, sunrise, sunset));
    assert_eq!(TimeOfDay::Morning, resolve_time_of_day(sunrise - 3599, sunrise, sunset));
    assert_eq!(TimeOfDay::Morning, resolve_time_of_day(sunrise + 7199, sunrise, sunset));
    assert_eq!(TimeOfDay::Daytime, resolve_time_of_day(sunrise + 7200, sunrise, sunset));
    assert_eq!(TimeOfDay::Daytime, resolve_time_of_day(sunset - 3601, sunrise, sunset));
    assert_eq!(TimeOfDay::Evening, resolve_time_of_day(sunset - 3600, sunrise, sunset));
    assert_eq!(TimeOfDay::Evening, resolve_time_of_day(sunset + 3599, sunrise, sunset));
    assert_eq!(TimeOfDay::Night, resolve_time_of_day(sunset + 3600, sunrise, sunset));
    assert_eq!(TimeOfDay::Night, resolve_time_of_day(u64::MAX, u64::MAX - 100_000, u64::MAX - 50_000));
}

#[test]
fn weather_from_codes_and_clouds() {
    assert_eq!(Weather::Snow, resolve_weather(&vec![800, 601], 0));
    assert_eq!(Weather::Rain, resolve_weather(&vec![500], 0));
    assert_eq!(Weather::Rain, resolve_weather(&vec![520, 601], 0));
    assert_eq!(Weather::HeavyRain, resolve_weather(&vec![502], 0));
    assert_eq!(Weather::HeavyRain, resolve_weather(&vec![599, 500], 0));
    assert_eq!(Weather::Overcast, resolve_weather(&vec![804], 76));
    assert_eq!(Weather::PartlyCloudy, resolve_weather(&vec![], 75));
    assert_eq!(Weather::PartlyCloudy, resolve_weather(&vec![300], 26));
    assert_eq!(Weather::Clear, resolve_weather(&vec![], 25));
}

fn observation(temperature: i16, codes: Vec<u32>) -> Observation {
    Observation {
        temperature,
        wind_speed: 10,
        time: 50_000,
        sunrise: 20_000,
        sunset: 90_000,
        condition_codes: codes,
        cloud_cover: 30,
    }
}

#[test]
fn conditions_from_observation() {
    let c = conditions_from(&observation(41, vec![800])).unwrap();
    assert_eq!(
        Conditions {
            temperature: 41,
            weather: Weather::PartlyCloudy,
            wind: Wind::Light,
            time: TimeOfDay::Daytime
        },
        c
    );
}

#[test]
fn rain_too_cold_is_invalid() {
    match conditions_from(&observation(29, vec![501])) {
        Err(Error::InvalidWeather(c)) => assert_eq!(Weather::Rain, c.weather),
        other => panic!("expected invalid weather, got {:?}", other),
    }
    assert!(conditions_from(&observation(30, vec![501])).is_ok());
}

#[test]
fn snow_too_warm_is_invalid() {
    let snow = |temperature| Conditions {
        temperature,
        weather: Weather::Snow,
        wind: Wind::Calm,
        time: TimeOfDay::Night,
    };
    assert!(snow(45).validate().is_ok());
    assert!(matches!(snow(46).validate(), Err(Error::InvalidWeather(c)) if c == snow(46)));
    let heavy = Conditions { temperature: 10, weather: Weather::HeavyRain, ..Conditions::default() };
    assert!(heavy.validate().is_err());
    assert!(Conditions::default().validate().is_ok());
}
