//! Weather support: coordinates in microdegrees, the fixed weather-code
//! description table, the location-resolution fallback policy, and the
//! exact URLs of the outside lookups.

use vstd::prelude::*;
use vstd::string::*;
use crate::text::{render_u64, spec_nat_string};

verus! {

/// A geographic coordinate in microdegrees (one millionth of a degree).
#[derive(Clone, Copy, PartialEq, Eq, Structural, Debug)]
pub struct Coordinate {
    pub latitude_microdeg: i64,
    pub longitude_microdeg: i64,
}

/// Latitude within [-90, 90] degrees, longitude within [-180, 180].
pub open spec fn coordinate_valid(c: Coordinate) -> bool {
    -90_000_000 <= c.latitude_microdeg <= 90_000_000 && -180_000_000 <= c.longitude_microdeg
        <= 180_000_000
}

/// The fixed fallback coordinate (London).
pub const DEFAULT_LATITUDE_MICRODEG: i64 = 51_507_400;

/// The fixed fallback coordinate (London).
pub const DEFAULT_LONGITUDE_MICRODEG: i64 = -127_800;

impl Coordinate {
    pub fn new(latitude_microdeg: i64, longitude_microdeg: i64) -> (r: Coordinate)
        ensures
            r == (Coordinate { latitude_microdeg, longitude_microdeg }),
    {
        Coordinate { latitude_microdeg, longitude_microdeg }
    }

    pub fn is_valid(&self) -> (r: bool)
        ensures
            r == coordinate_valid(*self),
    {
        -90_000_000 <= self.latitude_microdeg && self.latitude_microdeg <= 90_000_000
            && -180_000_000 <= self.longitude_microdeg && self.longitude_microdeg <= 180_000_000
    }

    /// The fixed default used when no other source answered.
    pub fn default_fallback() -> (r: Coordinate)
        ensures
            r == (Coordinate {
                latitude_microdeg: DEFAULT_LATITUDE_MICRODEG,
                longitude_microdeg: DEFAULT_LONGITUDE_MICRODEG,
            }),
            coordinate_valid(r),
    {
        Coordinate {
            latitude_microdeg: DEFAULT_LATITUDE_MICRODEG,
            longitude_microdeg: DEFAULT_LONGITUDE_MICRODEG,
        }
    }
}

/// A weather observation: whole degrees Celsius, a description from the
/// fixed code table, and wind speed in whole km/h.
pub struct WeatherInfo {
    pub temperature: i32,
    pub description: String,
    pub wind_speed: i32,
}

/// The mathematical value of a `WeatherInfo`.
#[verifier::ext_equal]
pub struct WeatherInfoV {
    pub temperature: int,
    pub description: Seq<char>,
    pub wind_speed: int,
}

impl View for WeatherInfo {
    type V = WeatherInfoV;

    open spec fn view(&self) -> WeatherInfoV {
        WeatherInfoV {
            temperature: self.temperature as int,
            description: self.description@,
            wind_speed: self.wind_speed as int,
        }
    }
}

/// A location that could not be resolved.
#[derive(Clone, Copy, PartialEq, Eq, Structural, Debug)]
pub enum LocationError {
    NotFound,
}

/// The fixed table from coded weather condition to description.
pub open spec fn spec_weather_description(code: u32) -> Seq<char> {
    if code == 0 {
        "Clear sky"@
    } else if 1 <= code <= 3 {
        "Partly cloudy"@
    } else if code == 45 || code == 48 {
        "Foggy"@
    } else if 51 <= code <= 57 {
        "Drizzle"@
    } else if 61 <= code <= 67 {
        "Rain"@
    } else if 71 <= code <= 77 {
        "Snow"@
    } else if 80 <= code <= 82 {
        "Rain showers"@
    } else if 85 <= code <= 86 {
        "Snow showers"@
    } else if 95 <= code <= 99 {
        "Thunderstorm"@
    } else {
        "Unknown"@
    }
}

/// Describe a coded weather condition with the fixed table.
pub fn weather_code_to_description(code: u32) -> (r: String)
    ensures
        r@ == spec_weather_description(code),
{
    if code == 0 {
        "Clear sky".to_owned()
    } else if 1 <= code && code <= 3 {
        "Partly cloudy".to_owned()
    } else if code == 45 || code == 48 {
        "Foggy".to_owned()
    } else if 51 <= code && code <= 57 {
        "Drizzle".to_owned()
    } else if 61 <= code && code <= 67 {
        "Rain".to_owned()
    } else if 71 <= code && code <= 77 {
        "Snow".to_owned()
    } else if 80 <= code && code <= 82 {
        "Rain showers".to_owned()
    } else if 85 <= code && code <= 86 {
        "Snow showers".to_owned()
    } else if 95 <= code && code <= 99 {
        "Thunderstorm".to_owned()
    } else {
        "Unknown".to_owned()
    }
}

/// How a location request is answered from the lookups' outcomes: a
/// supplied place name must geocode to its first candidate; without one,
/// the IP-derived coordinate is used, and failing that the fixed default.
pub open spec fn spec_resolve_location(
    place_given: bool,
    geocoded: Option<Coordinate>,
    ip_derived: Option<Coordinate>,
) -> Result<Coordinate, LocationError> {
    if place_given {
        match geocoded {
            Some(c) => Ok(c),
            None => Err(LocationError::NotFound),
        }
    } else {
        match ip_derived {
            Some(c) => Ok(c),
            None => Ok(
                Coordinate {
                    latitude_microdeg: DEFAULT_LATITUDE_MICRODEG,
                    longitude_microdeg: DEFAULT_LONGITUDE_MICRODEG,
                },
            ),
        }
    }
}

/// Law: without a place name, location resolution never errors — the
/// result is the IP-derived coordinate when one came back, else the
/// fixed default.
pub proof fn lemma_resolve_without_place_total(
    geocoded: Option<Coordinate>,
    ip_derived: Option<Coordinate>,
)
    ensures
        spec_resolve_location(false, geocoded, ip_derived) is Ok,
        ip_derived matches Some(c) ==> spec_resolve_location(false, geocoded, ip_derived) == Ok::<
            Coordinate,
            LocationError,
        >(c),
        ip_derived is None ==> spec_resolve_location(false, geocoded, ip_derived) == Ok::<
            Coordinate,
            LocationError,
        >(
            Coordinate {
                latitude_microdeg: DEFAULT_LATITUDE_MICRODEG,
                longitude_microdeg: DEFAULT_LONGITUDE_MICRODEG,
            },
        ),
{
}

/// The location-resolution fallback chain over the outside lookups.
pub struct LocationResolver {
}

impl LocationResolver {
    /// Resolve a coordinate from the lookups' outcomes. `place_given`
    /// says whether a place name was supplied; `geocoded` is then the
    /// first geocoding candidate for it. `ip_derived` is the IP-based
    /// lookup's outcome. Errs exactly when a supplied name found no
    /// candidate.
    pub fn resolve(
        place_given: bool,
        geocoded: Option<Coordinate>,
        ip_derived: Option<Coordinate>,
    ) -> (r: Result<Coordinate, LocationError>)
        ensures
            r == spec_resolve_location(place_given, geocoded, ip_derived),
    {
        if place_given {
            match geocoded {
                Some(c) => Ok(c),
                None => Err(LocationError::NotFound),
            }
        } else {
            match ip_derived {
                Some(c) => Ok(c),
                None => Ok(Coordinate::default_fallback()),
            }
        }
    }
}

/// What `urlencoding::encode` returns: percent-encoding, a function of
/// the input alone.
pub uninterp spec fn encoded_of(s: Seq<char>) -> Seq<char>;

/// Relies on urlencoding::encode: the percent-encoded form depends on
/// the input characters alone.
#[verifier::external_body]
fn url_encode(s: &str) -> (r: String)
    ensures
        r@ == encoded_of(s@),
{
    urlencoding::encode(s).into_owned()
}

/// The geocoding lookup URL for a place name.
pub open spec fn spec_geocode_url(location: Seq<char>) -> Seq<char> {
    "https://geocoding-api.open-meteo.com/v1/search?name="@.add(encoded_of(location)).add(
        "&count=1"@,
    )
}

/// Strip trailing decimal zeros.
pub open spec fn spec_strip_trailing_zeros(n: int) -> int
    decreases n,
{
    if n > 0 && n % 10 == 0 {
        spec_strip_trailing_zeros(n / 10)
    } else {
        n
    }
}

/// The six fractional digits of a microdegree remainder, with trailing
/// zeros dropped, as decimal Display would render them.
pub open spec fn spec_frac_string(fp: int) -> Seq<char> {
    let zeros = (if fp < 100_000 {
        seq!['0']
    } else {
        Seq::<char>::empty()
    }).add(
        if fp < 10_000 {
            seq!['0']
        } else {
            Seq::<char>::empty()
        },
    ).add(
        if fp < 1_000 {
            seq!['0']
        } else {
            Seq::<char>::empty()
        },
    ).add(
        if fp < 100 {
            seq!['0']
        } else {
            Seq::<char>::empty()
        },
    ).add(
        if fp < 10 {
            seq!['0']
        } else {
            Seq::<char>::empty()
        },
    );
    zeros.add(spec_nat_string(spec_strip_trailing_zeros(fp)))
}

/// A microdegree value rendered as decimal degrees, as Display renders
/// the equivalent floating-point value: no point for whole degrees, no
/// trailing zeros otherwise.
pub open spec fn spec_degree_string(micro: int) -> Seq<char> {
    let a = if micro < 0 {
        -micro
    } else {
        micro
    };
    let ip = a / 1_000_000;
    let fp = a % 1_000_000;
    (if micro < 0 {
        seq!['-']
    } else {
        Seq::<char>::empty()
    }).add(spec_nat_string(ip)).add(
        if fp == 0 {
            Seq::<char>::empty()
        } else {
            seq!['.'].add(spec_frac_string(fp))
        },
    )
}

fn render_frac(fp: u64) -> (s: String)
    requires
        0 < fp < 1_000_000,
    ensures
        s@ == spec_frac_string(fp as int),
{
    let mut s = String::new();
    if fp < 100_000 {
        s.append("0");
    }
    if fp < 10_000 {
        s.append("0");
    }
    if fp < 1_000 {
        s.append("0");
    }
    if fp < 100 {
        s.append("0");
    }
    if fp < 10 {
        s.append("0");
    }
    let mut n = fp;
    while n % 10 == 0
        invariant
            1 <= n <= fp,
            spec_strip_trailing_zeros(n as int) == spec_strip_trailing_zeros(fp as int),
        decreases n,
    {
        n = n / 10;
    }
    let digits = render_u64(n);
    s.append(digits.as_str());
    proof {
        reveal_strlit("0");
        assert(s@ =~= spec_frac_string(fp as int));
    }
    s
}

/// Render a microdegree coordinate component as decimal degrees.
pub fn degree_string(micro: i64) -> (s: String)
    requires
        -1_000_000_000 <= micro <= 1_000_000_000,
    ensures
        s@ == spec_degree_string(micro as int),
{
    let neg = micro < 0;
    let a: u64 = if neg {
        (-micro) as u64
    } else {
        micro as u64
    };
    let ip: u64 = a / 1_000_000;
    let fp: u64 = a % 1_000_000;
    let mut s = String::new();
    if neg {
        s.append("-");
    }
    let ips = render_u64(ip);
    s.append(ips.as_str());
    if fp != 0 {
        s.append(".");
        let frac = render_frac(fp);
        s.append(frac.as_str());
    }
    proof {
        reveal_strlit("-");
        reveal_strlit(".");
        assert(s@ =~= spec_degree_string(micro as int));
    }
    s
}

/// The forecast lookup URL for a coordinate.
pub open spec fn spec_forecast_url(c: Coordinate) -> Seq<char> {
    "https://api.open-meteo.com/v1/forecast?latitude="@.add(
        spec_degree_string(c.latitude_microdeg as int),
    ).add("&longitude="@).add(spec_degree_string(c.longitude_microdeg as int)).add(
        "&current=temperature_2m,weather_code,wind_speed_10m"@,
    )
}

/// The weather lookups, reduced to what can be decided locally: the
/// exact request URLs and the interpretation of a fetched observation.
pub struct WeatherService {
}

impl WeatherService {
    pub fn new() -> (r: WeatherService) {
        WeatherService {  }
    }

    /// The geocoding lookup URL for a place name.
    pub fn geocode_url(&self, location: &str) -> (r: String)
        ensures
            r@ == spec_geocode_url(location@),
    {
        let mut s = String::new();
        s.append("https://geocoding-api.open-meteo.com/v1/search?name=");
        let encoded = url_encode(location);
        s.append(encoded.as_str());
        s.append("&count=1");
        proof {
            assert(s@ =~= spec_geocode_url(location@));
        }
        s
    }

    /// The forecast lookup URL for a coordinate.
    pub fn forecast_url(&self, c: Coordinate) -> (r: String)
        requires
            coordinate_valid(c),
        ensures
            r@ == spec_forecast_url(c),
    {
        let mut s = String::new();
        s.append("https://api.open-meteo.com/v1/forecast?latitude=");
        let lat = degree_string(c.latitude_microdeg);
        s.append(lat.as_str());
        s.append("&longitude=");
        let lon = degree_string(c.longitude_microdeg);
        s.append(lon.as_str());
        s.append("&current=temperature_2m,weather_code,wind_speed_10m");
        proof {
            assert(s@ =~= spec_forecast_url(c));
        }
        s
    }

    /// Turn a fetched observation into a `WeatherInfo`, describing the
    /// coded condition with the fixed table.
    pub fn interpret_observation(&self, temperature: i32, weather_code: u32, wind_speed: i32) -> (r:
        WeatherInfo)
        ensures
            r@ == (WeatherInfoV {
                temperature: temperature as int,
                description: spec_weather_description(weather_code),
                wind_speed: wind_speed as int,
            }),
    {
        let r = WeatherInfo {
            temperature,
            description: weather_code_to_description(weather_code),
            wind_speed,
        };
        proof {
            assert(r@ =~~= (WeatherInfoV {
                temperature: temperature as int,
                description: spec_weather_description(weather_code),
                wind_speed: wind_speed as int,
            }));
        }
        r
    }
}

} // verus!
