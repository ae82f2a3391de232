use vstd::prelude::*;

verus! {

/// A weather condition with its description.
#[derive(Debug, Clone, PartialEq, PartialOrd)]
pub enum Weather {
    Thunderstorm(String),
    Drizzle(String),
    Rain(String),
    Snow(String),
    Atmosphere(Atmosphere),
    Clear(String),
    Clouds(String),
}

/// An atmospheric condition with its description.
#[derive(Debug, Clone, PartialEq, PartialOrd)]
pub enum Atmosphere {
    Mist(String),
    Smoke(String),
    Haze(String),
    SandDust(String),
    Fog(String),
    Sand(String),
    Dust(String),
    Ash(String),
    Squall(String),
    Tornado(String),
}

/// Day or night.
#[derive(Debug, Clone, Copy, PartialEq, Eq, PartialOrd, Hash, Structural)]
pub enum DayTime {
    Day,
    Night,
}

/// A character that names neither day nor night.
#[derive(Debug, Clone, Copy, PartialEq, Eq, Structural)]
pub struct InvalidDayTime(pub char);

/// The condition codes of atmospheric conditions.
pub open spec fn is_atmosphere_id(id: u16) -> bool {
    id == 701 || id == 711 || id == 721 || id == 731 || id == 741 || id == 751 || id == 761
        || id == 762 || id == 771 || id == 781
}

/// The condition codes that name a weather condition.
pub open spec fn is_weather_id(id: u16) -> bool {
    (200 <= id < 400) || (500 <= id < 700) || is_atmosphere_id(id) || (800 <= id < 810)
}

/// The atmospheric condition with code `id` and description `s`.
pub open spec fn atmosphere_of(id: u16, s: String) -> Atmosphere {
    if id == 701 {
        Atmosphere::Mist(s)
    } else if id == 711 {
        Atmosphere::Smoke(s)
    } else if id == 721 {
        Atmosphere::Haze(s)
    } else if id == 731 {
        Atmosphere::SandDust(s)
    } else if id == 741 {
        Atmosphere::Fog(s)
    } else if id == 751 {
        Atmosphere::Sand(s)
    } else if id == 761 {
        Atmosphere::Dust(s)
    } else if id == 762 {
        Atmosphere::Ash(s)
    } else if id == 771 {
        Atmosphere::Squall(s)
    } else {
        Atmosphere::Tornado(s)
    }
}

/// The weather condition with code `id` and description `s`: the code's
/// hundreds give the group, 800 is a clear sky and 801 to 809 are clouds.
pub open spec fn weather_of(id: u16, s: String) -> Weather {
    if 200 <= id < 300 {
        Weather::Thunderstorm(s)
    } else if 300 <= id < 400 {
        Weather::Drizzle(s)
    } else if 500 <= id < 600 {
        Weather::Rain(s)
    } else if 600 <= id < 700 {
        Weather::Snow(s)
    } else if 700 <= id < 800 {
        Weather::Atmosphere(atmosphere_of(id, s))
    } else if id == 800 {
        Weather::Clear(s)
    } else {
        Weather::Clouds(s)
    }
}

/// The description that a condition carries.
pub open spec fn atmosphere_text(a: Atmosphere) -> String {
    match a {
        Atmosphere::Mist(s) => s,
        Atmosphere::Smoke(s) => s,
        Atmosphere::Haze(s) => s,
        Atmosphere::SandDust(s) => s,
        Atmosphere::Fog(s) => s,
        Atmosphere::Sand(s) => s,
        Atmosphere::Dust(s) => s,
        Atmosphere::Ash(s) => s,
        Atmosphere::Squall(s) => s,
        Atmosphere::Tornado(s) => s,
    }
}

/// The description that a condition carries.
pub open spec fn weather_text(w: Weather) -> String {
    match w {
        Weather::Thunderstorm(s) => s,
        Weather::Drizzle(s) => s,
        Weather::Rain(s) => s,
        Weather::Snow(s) => s,
        Weather::Atmosphere(a) => atmosphere_text(a),
        Weather::Clear(s) => s,
        Weather::Clouds(s) => s,
    }
}

impl Weather {
    /// Whether `id` is a condition code that `from_id` takes.
    pub fn is_known_id(id: u16) -> (r: bool)
        ensures
            r == is_weather_id(id),
    {
        (200 <= id && id < 400) || (500 <= id && id < 700) || Atmosphere::is_known_id(id) || (800
            <= id && id < 810)
    }

    /// The condition with code `id` and description `s`.
    pub fn from_id(id: u16, s: String) -> (r: Weather)
        requires
            is_weather_id(id),
        ensures
            r == weather_of(id, s),
    {
        if 200 <= id && id < 300 {
            Weather::Thunderstorm(s)
        } else if 300 <= id && id < 400 {
            Weather::Drizzle(s)
        } else if 500 <= id && id < 600 {
            Weather::Rain(s)
        } else if 600 <= id && id < 700 {
            Weather::Snow(s)
        } else if 700 <= id && id < 800 {
            Weather::Atmosphere(Atmosphere::from_id(id, s))
        } else if id == 800 {
            Weather::Clear(s)
        } else {
            Weather::Clouds(s)
        }
    }

    /// The condition's description.
    pub fn description(&self) -> (r: &String)
        ensures
            *r == weather_text(*self),
    {
        match self {
            Weather::Thunderstorm(s) => s,
            Weather::Drizzle(s) => s,
            Weather::Rain(s) => s,
            Weather::Snow(s) => s,
            Weather::Atmosphere(a) => a.description(),
            Weather::Clear(s) => s,
            Weather::Clouds(s) => s,
        }
    }
}

impl Atmosphere {
    /// Whether `id` is an atmospheric condition code.
    pub fn is_known_id(id: u16) -> (r: bool)
        ensures
            r == is_atmosphere_id(id),
    {
        id == 701 || id == 711 || id == 721 || id == 731 || id == 741 || id == 751 || id == 761
            || id == 762 || id == 771 || id == 781
    }

    /// The atmospheric condition with code `id` and description `s`.
    pub fn from_id(id: u16, s: String) -> (r: Atmosphere)
        requires
            is_atmosphere_id(id),
        ensures
            r == atmosphere_of(id, s),
    {
        if id == 701 {
            Atmosphere::Mist(s)
        } else if id == 711 {
            Atmosphere::Smoke(s)
        } else if id == 721 {
            Atmosphere::Haze(s)
        } else if id == 731 {
            Atmosphere::SandDust(s)
        } else if id == 741 {
            Atmosphere::Fog(s)
        } else if id == 751 {
            Atmosphere::Sand(s)
        } else if id == 761 {
            Atmosphere::Dust(s)
        } else if id == 762 {
            Atmosphere::Ash(s)
        } else if id == 771 {
            Atmosphere::Squall(s)
        } else {
            Atmosphere::Tornado(s)
        }
    }

    /// The condition's description.
    pub fn description(&self) -> (r: &String)
        ensures
            *r == atmosphere_text(*self),
    {
        match self {
            Atmosphere::Mist(s) => s,
            Atmosphere::Smoke(s) => s,
            Atmosphere::Haze(s) => s,
            Atmosphere::SandDust(s) => s,
            Atmosphere::Fog(s) => s,
            Atmosphere::Sand(s) => s,
            Atmosphere::Dust(s) => s,
            Atmosphere::Ash(s) => s,
            Atmosphere::Squall(s) => s,
            Atmosphere::Tornado(s) => s,
        }
    }
}

impl core::ops::Deref for Weather {
    type Target = String;

    fn deref(&self) -> &String {
        self.description()
    }
}

impl core::ops::Deref for Atmosphere {
    type Target = String;

    fn deref(&self) -> &String {
        self.description()
    }
}

/// The time of day that a character names, upper or lower case: `d` for
/// day, `n` for night.
pub open spec fn day_time_of(c: char) -> Result<DayTime, InvalidDayTime> {
    if c == 'd' || c == 'D' {
        Ok(DayTime::Day)
    } else if c == 'n' || c == 'N' {
        Ok(DayTime::Night)
    } else {
        Err(InvalidDayTime(c))
    }
}

impl TryFrom<char> for DayTime {
    type Error = InvalidDayTime;

    fn try_from(c: char) -> (r: Result<DayTime, InvalidDayTime>)
        ensures
            r == day_time_of(c),
    {
        if c == 'd' || c == 'D' {
            Ok(DayTime::Day)
        } else if c == 'n' || c == 'N' {
            Ok(DayTime::Night)
        } else {
            Err(InvalidDayTime(c))
        }
    }
}

impl vstd::std_specs::convert::TryFromSpecImpl<char> for DayTime {
    open spec fn obeys_try_from_spec() -> bool {
        true
    }

    open spec fn try_from_spec(c: char) -> Result<DayTime, InvalidDayTime> {
        day_time_of(c)
    }
}

} // verus!
