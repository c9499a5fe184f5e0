//! The game session: the turn loop's state and every decision in it.
//!
//! A session is created once from a sampled pair and a first distance, then
//! alternates between awaiting a command and resolving a move. The host
//! performs the network calls; the session owns the state, validates every
//! city the backend hands back, and never mutates anything on a failed move
//! or an informational command.

use vstd::prelude::*;

verus! {

use crate::city::City;
use crate::city::CityRecord;
use crate::city::city_of_record;
use crate::city::record_qualifies;
use crate::city::validate_record;
use crate::error::GameError;
use crate::geodesy::Direction;
use crate::geodesy::FULL_TURN_UDEG;
use crate::geodesy::normalize_bearing;
use crate::region::DirectionalExtent;
use crate::region::build_extent;
use crate::region::extent_for;

/// A player command, already trimmed and lowercased by the host.
#[derive(Clone, Copy, Debug, PartialEq, Eq, Structural)]
pub enum Command {
    /// Travel one cardinal direction.
    Move(Direction),
    /// Report the current location, distance and bearing; changes nothing.
    Info,
    /// Anything else: a no-op signal, not an error.
    Unrecognized,
}

/// What each raw command string means.
pub open spec fn command_of(raw: Seq<char>) -> Command {
    if raw == "n"@ {
        Command::Move(Direction::North)
    } else if raw == "s"@ {
        Command::Move(Direction::South)
    } else if raw == "e"@ {
        Command::Move(Direction::East)
    } else if raw == "w"@ {
        Command::Move(Direction::West)
    } else if raw == "info"@ {
        Command::Info
    } else {
        Command::Unrecognized
    }
}

/// Reads a player command. Only the four directions and `info` are
/// recognized; everything else leaves the session untouched.
pub fn parse_command(raw: &str) -> (c: Command)
    ensures
        c == command_of(raw@),
{
    let s = raw.to_owned();
    if s == "n".to_owned() {
        Command::Move(Direction::North)
    } else if s == "s".to_owned() {
        Command::Move(Direction::South)
    } else if s == "e".to_owned() {
        Command::Move(Direction::East)
    } else if s == "w".to_owned() {
        Command::Move(Direction::West)
    } else if s == "info".to_owned() {
        Command::Info
    } else {
        Command::Unrecognized
    }
}

/// Everything the host needs to submit one "find nearest" job for a move:
/// the directional region, the filters' ingredients and the result cap.
#[derive(Clone, Copy, Debug, PartialEq, Eq, Structural)]
pub struct MoveQuery {
    /// The directional search region relative to the current city.
    pub extent: DirectionalExtent,
    /// The current city's identifier: excluded from the analysis layer and
    /// selected, alone, by the near layer.
    pub current_fid: u32,
    /// The population every candidate must reach.
    pub min_population: u32,
    /// The most results the job may return.
    pub max_count: u32,
}

/// What the info command reports: the current location's display fields,
/// the stored distance, and the normalized bearing toward the target.
pub struct InfoReport {
    /// The current city's display name.
    pub name: String,
    /// The current city's administrative region.
    pub admin: String,
    /// The current city's country.
    pub country: String,
    /// The distance to the target as of the last successful update.
    pub distance_km: u64,
    /// The bearing toward the target, normalized into [0, 360) degrees.
    pub bearing_udeg: i64,
}

/// The info report as a function of the session and the raw bearing alone.
pub open spec fn info_report_of(s: GameSession, raw_bearing_udeg: int) -> InfoReport {
    InfoReport {
        name: s.current.name,
        admin: s.current.admin,
        country: s.current.country,
        distance_km: s.distance_km,
        bearing_udeg: (raw_bearing_udeg % (FULL_TURN_UDEG as int)) as i64,
    }
}

/// One running game: the threshold fixed at setup, the current and the
/// hidden target city, the distance refreshed after every accepted move,
/// and the identifiers of every city visited, in order.
#[derive(Debug)]
pub struct GameSession {
    /// The population threshold, derived once per session.
    pub threshold: u32,
    /// Where the player is; replaced, never mutated, on each accepted move.
    pub current: City,
    /// Where the player is headed; immutable for the session's lifetime.
    pub target: City,
    /// Kilometers from the current city to the target as of the last
    /// successful update.
    pub distance_km: u64,
    /// Identifiers of the cities visited, in order; only ever appended to.
    pub visited: Vec<u32>,
}

impl GameSession {
    /// The session's invariant: both cities qualify under the threshold and
    /// lie inside the datum's ranges, and the visited list ends with the
    /// current city.
    pub open spec fn wf(&self) -> bool {
        &&& self.current.wf()
        &&& self.target.wf()
        &&& self.current.population >= self.threshold
        &&& self.target.population >= self.threshold
        &&& self.visited@.len() >= 1
        &&& self.visited@.last() == self.current.fid
    }

    /// Creates a session from a sampled pair and the first distance.
    /// The pair's invariants are checked here: distinct identifiers, both
    /// populations at the threshold, both positions valid. A pair that
    /// fails them aborts the setup; no partial session exists.
    pub fn new(threshold: u32, start: City, target: City, distance_km: u64) -> (r: Result<
        GameSession,
        GameError,
    >)
        ensures
            r is Ok <==> (start.fid != target.fid && start.population >= threshold
                && target.population >= threshold && start.wf() && target.wf()),
            r is Ok ==> (r->Ok_0).wf() && (r->Ok_0).threshold == threshold && (r->Ok_0).current
                == start && (r->Ok_0).target == target && (r->Ok_0).distance_km == distance_km && (
            r->Ok_0).visited@.len() == 1 && (r->Ok_0).visited@[0] == start.fid && (
            r->Ok_0).current.fid != (r->Ok_0).target.fid,
            r is Err ==> r->Err_0 is BackendQuery,
    {
        if start.fid != target.fid && start.population >= threshold && target.population
            >= threshold && check_city(&start) && check_city(&target) {
            let mut visited: Vec<u32> = Vec::new();
            visited.push(start.fid);
            Ok(GameSession { threshold, current: start, target, distance_km, visited })
        } else {
            Err(GameError::BackendQuery)
        }
    }

    /// The job query for one move from the current city: the directional
    /// region, the current city to exclude and to measure from, the
    /// session's threshold, and at most one result.
    pub fn move_query(&self, direction: Direction) -> (q: MoveQuery)
        requires
            self.wf(),
        ensures
            q.extent == extent_for(self.current, direction),
            q.current_fid == self.current.fid,
            q.min_population == self.threshold,
            q.max_count == 1,
    {
        MoveQuery {
            extent: build_extent(&self.current, direction),
            current_fid: self.current.fid,
            min_population: self.threshold,
            max_count: 1,
        }
    }

    /// Applies the city a successful move job found, with the freshly
    /// computed distance to the target. The record is validated here: it
    /// must qualify under the threshold and must not be the city the player
    /// already stands in. On success the current city is replaced, its
    /// identifier appended to the visited list and the distance refreshed;
    /// on failure nothing changes and the session keeps awaiting commands.
    pub fn apply_move(&mut self, found: CityRecord, new_distance_km: u64) -> (r: Result<
        (),
        GameError,
    >)
        requires
            old(self).wf(),
        ensures
            final(self).wf(),
            final(self).threshold == old(self).threshold,
            final(self).target == old(self).target,
            r is Ok <==> (record_qualifies(found, old(self).threshold) && found.fid != old(
                self,
            ).current.fid),
            r is Ok ==> final(self).current == city_of_record(found) && final(self).distance_km
                == new_distance_km && final(self).visited@ == old(self).visited@.push(found.fid),
            r is Err ==> *final(self) == *old(self) && r->Err_0 is BackendQuery,
    {
        let fid = found.fid;
        if fid == self.current.fid {
            return Err(GameError::BackendQuery);
        }
        match validate_record(found, self.threshold) {
            Ok(c) => {
                self.current = c;
                self.distance_km = new_distance_km;
                self.visited.push(fid);
                Ok(())
            },
            Err(_) => Err(GameError::BackendQuery),
        }
    }

    /// The info command: reports the current location, the stored distance
    /// and the normalized bearing toward the target. The raw bearing is the
    /// host's geodesic computation from the current city to the target. The
    /// session is borrowed immutably: info can change neither the current
    /// city nor the visited list.
    pub fn info(&self, raw_bearing_udeg: i64) -> (r: InfoReport)
        ensures
            r == info_report_of(*self, raw_bearing_udeg as int),
            0 <= r.bearing_udeg < FULL_TURN_UDEG,
    {
        InfoReport {
            name: self.current.name.clone(),
            admin: self.current.admin.clone(),
            country: self.current.country.clone(),
            distance_km: self.distance_km,
            bearing_udeg: normalize_bearing(raw_bearing_udeg),
        }
    }
}

/// Decides whether a city's position lies inside the datum's ranges.
fn check_city(c: &City) -> (r: bool)
    ensures
        r == c.wf(),
{
    crate::city::MIN_LAT_UDEG <= c.lat_udeg && c.lat_udeg <= crate::city::MAX_LAT_UDEG
        && crate::city::MIN_LNG_UDEG <= c.lng_udeg && c.lng_udeg <= crate::city::MAX_LNG_UDEG
}

/// Law: the info command is idempotent. Its report is a function of the
/// session and the raw bearing alone, so any two calls on the unchanged
/// session — which an immutable borrow cannot alter — report the same
/// values.
pub proof fn lemma_info_idempotent(s1: GameSession, s2: GameSession, raw_bearing_udeg: int)
    requires
        s1 == s2,
    ensures
        info_report_of(s1, raw_bearing_udeg) == info_report_of(s2, raw_bearing_udeg),
{
}

} // verus!
