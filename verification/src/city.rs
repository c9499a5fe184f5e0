//! Cities as the engine sees them.
//!
//! The backend hands back loosely structured records whose population field
//! may be absent; the engine validates such a record once, up front, and
//! works with eligible cities from then on. Coordinates are carried as
//! integer microdegrees so that the extent arithmetic elsewhere is exact.

use vstd::prelude::*;

verus! {

use crate::error::GameError;

/// Southernmost latitude, in microdegrees.
pub const MIN_LAT_UDEG: i64 = -90_000_000;

/// Northernmost latitude, in microdegrees.
pub const MAX_LAT_UDEG: i64 = 90_000_000;

/// Westernmost longitude, in microdegrees.
pub const MIN_LNG_UDEG: i64 = -180_000_000;

/// Easternmost longitude, in microdegrees.
pub const MAX_LNG_UDEG: i64 = 180_000_000;

/// Whether a position lies inside the latitude and longitude ranges of the
/// datum.
pub open spec fn coords_valid(lat_udeg: int, lng_udeg: int) -> bool {
    &&& MIN_LAT_UDEG <= lat_udeg <= MAX_LAT_UDEG
    &&& MIN_LNG_UDEG <= lng_udeg <= MAX_LNG_UDEG
}

/// A city record as the backend reports it: the population may be absent,
/// and nothing has been validated yet.
#[derive(Debug)]
pub struct CityRecord {
    /// Stable integer feature identifier, unique within a dataset snapshot.
    pub fid: u32,
    /// Display name.
    pub name: String,
    /// Administrative region the city lies in.
    pub admin: String,
    /// Country the city lies in.
    pub country: String,
    /// Latitude in microdegrees.
    pub lat_udeg: i64,
    /// Longitude in microdegrees.
    pub lng_udeg: i64,
    /// Population; absence makes the record ineligible, it never counts as
    /// zero inhabitants.
    pub population: Option<u32>,
}

/// An eligible city: validated once, then immutable.
#[derive(Debug)]
pub struct City {
    /// Stable integer feature identifier, unique within a dataset snapshot.
    pub fid: u32,
    /// Display name.
    pub name: String,
    /// Administrative region the city lies in.
    pub admin: String,
    /// Country the city lies in.
    pub country: String,
    /// Latitude in microdegrees.
    pub lat_udeg: i64,
    /// Longitude in microdegrees.
    pub lng_udeg: i64,
    /// Population; always present on an eligible city.
    pub population: u32,
}

impl City {
    /// The city's position lies inside the ranges of the datum.
    pub open spec fn wf(&self) -> bool {
        coords_valid(self.lat_udeg as int, self.lng_udeg as int)
    }
}

/// Whether a raw record qualifies under a population threshold: population
/// present and at least the threshold, position inside the datum's ranges.
pub open spec fn record_qualifies(rec: CityRecord, threshold: u32) -> bool {
    &&& rec.population is Some
    &&& rec.population->0 >= threshold
    &&& coords_valid(rec.lat_udeg as int, rec.lng_udeg as int)
}

/// The city a qualifying record stands for.
pub open spec fn city_of_record(rec: CityRecord) -> City {
    City {
        fid: rec.fid,
        name: rec.name,
        admin: rec.admin,
        country: rec.country,
        lat_udeg: rec.lat_udeg,
        lng_udeg: rec.lng_udeg,
        population: rec.population->0,
    }
}

/// Validates a record against a threshold. A qualifying record becomes an
/// eligible [`City`]; anything else is a malformed or disqualified response.
pub fn validate_record(rec: CityRecord, threshold: u32) -> (r: Result<City, GameError>)
    ensures
        r is Ok <==> record_qualifies(rec, threshold),
        r is Ok ==> r->Ok_0 == city_of_record(rec),
        r is Err ==> r->Err_0 is BackendQuery,
{
    match rec.population {
        Some(p) => {
            if p >= threshold && MIN_LAT_UDEG <= rec.lat_udeg && rec.lat_udeg <= MAX_LAT_UDEG
                && MIN_LNG_UDEG <= rec.lng_udeg && rec.lng_udeg <= MAX_LNG_UDEG {
                Ok(
                    City {
                        fid: rec.fid,
                        name: rec.name,
                        admin: rec.admin,
                        country: rec.country,
                        lat_udeg: rec.lat_udeg,
                        lng_udeg: rec.lng_udeg,
                        population: p,
                    },
                )
            } else {
                Err(GameError::BackendQuery)
            }
        },
        None => Err(GameError::BackendQuery),
    }
}

} // verus!
