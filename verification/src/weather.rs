//! The decisions of a weather lookup: which city is asked for, and which place
//! the geocoding answer resolves to.

use vstd::prelude::*;
use crate::text::{trim, trimmed};

verus! {

/// Why a weather lookup cannot go on.
#[derive(PartialEq, Eq, Structural, Clone, Copy, Debug)]
pub enum WeatherError {
    /// The city is empty or only white space.
    EmptyCity,
    /// The geocoding service found no place of that name.
    CityNotFound,
    /// The place found has no usable latitude or longitude.
    InvalidCoordinates,
}

/// The city to look up: the text without surrounding white space, refused
/// when nothing is left.
pub fn weather_city(city: &str) -> (r: Result<&str, WeatherError>)
    ensures
        trimmed(city@).len() == 0 ==> r == Err::<&str, WeatherError>(WeatherError::EmptyCity),
        trimmed(city@).len() > 0 ==> (r matches Ok(c) && c@ == trimmed(city@)),
{
    let c = trim(city);
    if c.is_empty() {
        Err(WeatherError::EmptyCity)
    } else {
        Ok(c)
    }
}

/// The first place that the geocoding service returned, as far as it holds
/// each field: coordinates as binary64 encodings, names as text.
pub struct GeocodeResult {
    pub latitude_bits: Option<u64>,
    pub longitude_bits: Option<u64>,
    pub name: Option<String>,
    pub country: Option<String>,
}

/// The place whose weather is asked for.
pub struct Location {
    pub latitude_bits: u64,
    pub longitude_bits: u64,
    /// The place's own name, or the city as asked when the service gave none.
    pub city: String,
    /// The country's name, empty when the service gave none.
    pub country: String,
}

/// Resolves the geocoding answer for the city `query`: no place is
/// `CityNotFound`, a place without both coordinates is `InvalidCoordinates`;
/// otherwise its coordinates, its name (else `query`) and its country (else
/// empty).
pub fn resolve_location(first: Option<GeocodeResult>, query: &str) -> (r: Result<Location, WeatherError>)
    ensures
        match first {
            None => r matches Err(e) && e == WeatherError::CityNotFound,
            Some(g) => match (g.latitude_bits, g.longitude_bits) {
                (Some(lat), Some(lon)) => (r matches Ok(l) && l.latitude_bits == lat
                    && l.longitude_bits == lon && l.city@ == (match g.name {
                    Some(n) => n@,
                    None => query@,
                }) && l.country@ == (match g.country {
                    Some(c) => c@,
                    None => Seq::<char>::empty(),
                })),
                _ => (r matches Err(e) && e == WeatherError::InvalidCoordinates),
            },
        },
{
    let g = match first {
        Some(g) => g,
        None => return Err(WeatherError::CityNotFound),
    };
    let latitude_bits = match g.latitude_bits {
        Some(v) => v,
        None => return Err(WeatherError::InvalidCoordinates),
    };
    let longitude_bits = match g.longitude_bits {
        Some(v) => v,
        None => return Err(WeatherError::InvalidCoordinates),
    };
    let city = match g.name {
        Some(n) => n,
        None => query.to_owned(),
    };
    let country = match g.country {
        Some(c) => c,
        None => String::new(),
    };
    Ok(Location { latitude_bits, longitude_bits, city, country })
}

} // verus!
