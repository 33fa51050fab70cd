//! Reading a relay location given as country, city and hostname into the
//! list of constraint parts the daemon expects, lowercased as the servers
//! store them.

use vstd::prelude::*;

use crate::text::{lower_of, to_lowercase};
use vstd::utf8::encode_utf8;

verus! {

/// Why a location selection was rejected.
#[derive(Clone, Copy, Debug, PartialEq, Eq, Structural)]
pub enum ConstraintError {
    /// A city was given together with 'any' country.
    CityWithAnyCountry,
    /// A hostname was given without a city.
    InvalidCombination,
}

/// Turns a country code, and optionally a city code and a hostname, into
/// the lowercased location parts submitted to the daemon. The country
/// 'any' stands for no preference and allows no narrower part beside it;
/// a hostname makes no sense without a city.
pub fn get_constraint(country: &str, city: Option<&str>, hostname: Option<&str>) -> (r: Result<
    Vec<String>,
    ConstraintError,
>)
    ensures
        match r {
            Ok(parts) => {
                &&& country@ == "any"@ ==> city is None && hostname is None && parts@.len() == 0
                &&& country@ != "any"@ ==> {
                    &&& parts@.len() >= 1 && parts@[0]@ == lower_of(country@)
                    &&& match city {
                        Some(city_code) => parts@.len() >= 2 && parts@[1]@ == lower_of(
                            city_code@,
                        ),
                        None => parts@.len() == 1,
                    }
                    &&& match hostname {
                        Some(host) => parts@.len() == 3 && parts@[2]@ == lower_of(host@),
                        None => parts@.len() <= 2,
                    }
                }
            },
            Err(e) => match e {
                ConstraintError::CityWithAnyCountry => country@ == "any"@ && !(city is None
                    && hostname is None),
                ConstraintError::InvalidCombination => country@ != "any"@ && city is None
                    && hostname is Some,
            },
        },
{
    if country.eq("any") {
        match (city, hostname) {
            (None, None) => Ok(Vec::new()),
            _ => Err(ConstraintError::CityWithAnyCountry),
        }
    } else {
        match (city, hostname) {
            (None, None) => {
                let mut parts: Vec<String> = Vec::new();
                parts.push(to_lowercase(country));
                Ok(parts)
            },
            (Some(city_code), None) => {
                let mut parts: Vec<String> = Vec::new();
                parts.push(to_lowercase(country));
                parts.push(to_lowercase(city_code));
                Ok(parts)
            },
            (Some(city_code), Some(host)) => {
                let mut parts: Vec<String> = Vec::new();
                parts.push(to_lowercase(country));
                parts.push(to_lowercase(city_code));
                parts.push(to_lowercase(host));
                Ok(parts)
            },
            (None, Some(_)) => Err(ConstraintError::InvalidCombination),
        }
    }
}

/// Accepts a country code: two bytes, or the word 'any'.
pub fn country_code_validator(code: String) -> (r: Result<(), String>)
    ensures
        match r {
            Ok(()) => encode_utf8(code@).len() == 2 || code@ == "any"@,
            Err(message) => !(encode_utf8(code@).len() == 2 || code@ == "any"@)
                && message@ == "Country codes must be two letters, or 'any'."@,
        },
{
    if code.as_str().as_bytes().len() == 2 || code.as_str().eq("any") {
        Ok(())
    } else {
        Err("Country codes must be two letters, or 'any'.".to_owned())
    }
}

/// Accepts a city code: three bytes.
pub fn city_code_validator(code: String) -> (r: Result<(), String>)
    ensures
        match r {
            Ok(()) => encode_utf8(code@).len() == 3,
            Err(message) => encode_utf8(code@).len() != 3 && message@
                == "City codes must be three letters"@,
        },
{
    if code.as_str().as_bytes().len() == 3 {
        Ok(())
    } else {
        Err("City codes must be three letters".to_owned())
    }
}

} // verus!
