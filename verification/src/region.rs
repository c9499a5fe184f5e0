//! The directional search region for a move.
//!
//! A move in a cardinal direction restricts the backend's "find nearest"
//! search to a half-plane relative to the current city: a rectangle in
//! latitude and longitude whose corners stop just short of the poles and the
//! antimeridian, and whose longitude span wraps once around the antimeridian
//! for eastward and westward moves.

use vstd::prelude::*;

verus! {

use crate::city::City;
use crate::geodesy::Direction;
use crate::geodesy::FULL_TURN_UDEG;

/// Half a turn (180 degrees) in microdegrees: the longitude span of an
/// eastward or a westward search region.
pub const HALF_TURN_UDEG: i64 = 180_000_000;

/// Northernmost extent corner, just short of the pole, in microdegrees.
pub const EXTENT_MAX_LAT_UDEG: i64 = 89_999_990;

/// Southernmost extent corner, just short of the pole, in microdegrees.
pub const EXTENT_MIN_LAT_UDEG: i64 = -89_999_990;

/// Easternmost extent corner, just short of the antimeridian, in
/// microdegrees.
pub const EXTENT_MAX_LNG_UDEG: i64 = 179_999_990;

/// Westernmost extent corner, just short of the antimeridian, in
/// microdegrees.
pub const EXTENT_MIN_LNG_UDEG: i64 = -179_999_990;

/// Well-known identifier of the WGS84 geographic coordinate reference.
pub const WGS84_WKID: u32 = 4326;

/// An axis-aligned geographic rectangle used as a backend query filter,
/// in microdegrees, with its coordinate reference identifier.
#[derive(Clone, Copy, Debug, PartialEq, Eq, Structural)]
pub struct DirectionalExtent {
    /// Western edge.
    pub xmin_udeg: i64,
    /// Southern edge.
    pub ymin_udeg: i64,
    /// Eastern edge.
    pub xmax_udeg: i64,
    /// Northern edge.
    pub ymax_udeg: i64,
    /// Coordinate reference identifier; always WGS84 here.
    pub wkid: u32,
}

/// The search region for a move from a city in a direction.
///
/// North spans all longitudes from the city's latitude up to the pole;
/// south is its mirror image. East spans all latitudes and reaches half a
/// turn forward in longitude, subtracting a full turn once when the raw
/// maximum passes the antimeridian; west reaches half a turn backward and
/// applies the same subtraction once when the raw minimum passes it.
pub open spec fn extent_for(city: City, direction: Direction) -> DirectionalExtent {
    match direction {
        Direction::North => DirectionalExtent {
            xmin_udeg: EXTENT_MIN_LNG_UDEG,
            ymin_udeg: city.lat_udeg,
            xmax_udeg: EXTENT_MAX_LNG_UDEG,
            ymax_udeg: EXTENT_MAX_LAT_UDEG,
            wkid: WGS84_WKID,
        },
        Direction::South => DirectionalExtent {
            xmin_udeg: EXTENT_MIN_LNG_UDEG,
            ymin_udeg: EXTENT_MIN_LAT_UDEG,
            xmax_udeg: EXTENT_MAX_LNG_UDEG,
            ymax_udeg: city.lat_udeg,
            wkid: WGS84_WKID,
        },
        Direction::East => DirectionalExtent {
            xmin_udeg: city.lng_udeg,
            ymin_udeg: EXTENT_MIN_LAT_UDEG,
            xmax_udeg: wrapped_east_max(city.lng_udeg as int) as i64,
            ymax_udeg: EXTENT_MAX_LAT_UDEG,
            wkid: WGS84_WKID,
        },
        Direction::West => DirectionalExtent {
            xmin_udeg: wrapped_west_min(city.lng_udeg as int) as i64,
            ymin_udeg: EXTENT_MIN_LAT_UDEG,
            xmax_udeg: city.lng_udeg,
            ymax_udeg: EXTENT_MAX_LAT_UDEG,
            wkid: WGS84_WKID,
        },
    }
}

/// Eastern edge of an eastward region: half a turn forward, wrapped once.
pub open spec fn wrapped_east_max(lng_udeg: int) -> int {
    let raw = lng_udeg + HALF_TURN_UDEG;
    if raw > HALF_TURN_UDEG {
        raw - FULL_TURN_UDEG
    } else {
        raw
    }
}

/// Western edge of a westward region: half a turn backward, and a further
/// full turn down once the raw minimum passes the antimeridian.
pub open spec fn wrapped_west_min(lng_udeg: int) -> int {
    let raw = lng_udeg - HALF_TURN_UDEG;
    if raw < -HALF_TURN_UDEG {
        raw - FULL_TURN_UDEG
    } else {
        raw
    }
}

/// Builds the directional search region for a move from a city.
pub fn build_extent(city: &City, direction: Direction) -> (r: DirectionalExtent)
    requires
        city.wf(),
    ensures
        r == extent_for(*city, direction),
{
    match direction {
        Direction::North => DirectionalExtent {
            xmin_udeg: EXTENT_MIN_LNG_UDEG,
            ymin_udeg: city.lat_udeg,
            xmax_udeg: EXTENT_MAX_LNG_UDEG,
            ymax_udeg: EXTENT_MAX_LAT_UDEG,
            wkid: WGS84_WKID,
        },
        Direction::South => DirectionalExtent {
            xmin_udeg: EXTENT_MIN_LNG_UDEG,
            ymin_udeg: EXTENT_MIN_LAT_UDEG,
            xmax_udeg: EXTENT_MAX_LNG_UDEG,
            ymax_udeg: city.lat_udeg,
            wkid: WGS84_WKID,
        },
        Direction::East => {
            let mut xmax: i64 = city.lng_udeg + HALF_TURN_UDEG;
            if xmax > HALF_TURN_UDEG {
                xmax = xmax - FULL_TURN_UDEG;
            }
            DirectionalExtent {
                xmin_udeg: city.lng_udeg,
                ymin_udeg: EXTENT_MIN_LAT_UDEG,
                xmax_udeg: xmax,
                ymax_udeg: EXTENT_MAX_LAT_UDEG,
                wkid: WGS84_WKID,
            }
        },
        Direction::West => {
            let mut xmin: i64 = city.lng_udeg - HALF_TURN_UDEG;
            if xmin < -HALF_TURN_UDEG {
                xmin = xmin - FULL_TURN_UDEG;
            }
            DirectionalExtent {
                xmin_udeg: xmin,
                ymin_udeg: EXTENT_MIN_LAT_UDEG,
                xmax_udeg: city.lng_udeg,
                ymax_udeg: EXTENT_MAX_LAT_UDEG,
                wkid: WGS84_WKID,
            }
        },
    }
}

} // verus!
