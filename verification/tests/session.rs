use wanderer::city::City;
use wanderer::city::CityRecord;
use wanderer::error::GameError;
use wanderer::geodesy::Direction;
use wanderer::region::build_extent;
use wanderer::session::parse_command;
use wanderer::session::Command;
use wanderer::session::GameSession;

const DEG: i64 = wanderer::geodesy::MICRODEG_PER_DEG;

fn city(fid: u32, lat_deg: i64, lng_deg: i64, population: u32) -> City {
    City {
        fid,
        name: format!("City {fid}"),
        admin: String::from("Region"),
        country: String::from("Country"),
        lat_udeg: lat_deg * DEG,
        lng_udeg: lng_deg * DEG,
        population,
    }
}

fn record_of(c: &City) -> CityRecord {
    CityRecord {
        fid: c.fid,
        name: c.name.clone(),
        admin: c.admin.clone(),
        country: c.country.clone(),
        lat_udeg: c.lat_udeg,
        lng_udeg: c.lng_udeg,
        population: Some(c.population),
    }
}

fn session() -> GameSession {
    GameSession::new(1000, city(1, 10, 20, 5000), city(2, -30, 40, 3000), 777)
        .expect("a valid pair")
}

#[test]
fn commands_are_parsed() {
    assert_eq!(parse_command("n"), Command::Move(Direction::North));
    assert_eq!(parse_command("s"), Command::Move(Direction::South));
    assert_eq!(parse_command("e"), Command::Move(Direction::East));
    assert_eq!(parse_command("w"), Command::Move(Direction::West));
    assert_eq!(parse_command("info"), Command::Info);
    assert_eq!(parse_command("north"), Command::Unrecognized);
    assert_eq!(parse_command(""), Command::Unrecognized);
    assert_eq!(parse_command("N"), Command::Unrecognized);
}

#[test]
fn setup_records_pair_threshold_and_first_visit() {
    let s = session();
    assert_eq!(s.threshold, 1000);
    assert_eq!(s.current.fid, 1);
    assert_eq!(s.target.fid, 2);
    assert_eq!(s.distance_km, 777);
    assert_eq!(s.visited, vec![1]);
}

#[test]
fn setup_rejects_equal_identifiers() {
    let r = GameSession::new(1000, city(1, 10, 20, 5000), city(1, -30, 40, 3000), 777);
    assert_eq!(r.unwrap_err(), GameError::BackendQuery);
}

#[test]
fn setup_rejects_populations_below_threshold() {
    let r = GameSession::new(1000, city(1, 10, 20, 999), city(2, -30, 40, 3000), 777);
    assert_eq!(r.unwrap_err(), GameError::BackendQuery);
}

#[test]
fn setup_rejects_positions_off_the_datum() {
    let r = GameSession::new(1000, city(1, 95, 20, 5000), city(2, -30, 40, 3000), 777);
    assert_eq!(r.unwrap_err(), GameError::BackendQuery);
}

#[test]
fn move_query_carries_extent_filters_and_result_cap() {
    let s = session();
    let q = s.move_query(Direction::East);
    assert_eq!(q.extent, build_extent(&s.current, Direction::East));
    assert_eq!(q.current_fid, 1);
    assert_eq!(q.min_population, 1000);
    assert_eq!(q.max_count, 1);
}

#[test]
fn successful_move_replaces_current_city() {
    let mut s = session();
    let next = city(9, 50, 60, 8000);
    s.apply_move(record_of(&next), 123).expect("a qualifying move");
    assert_eq!(s.current.fid, 9);
    assert_eq!(s.current.name, "City 9");
    assert_eq!(s.distance_km, 123);
    assert_eq!(s.visited, vec![1, 9]);
    assert_eq!(s.target.fid, 2);
    assert_eq!(s.threshold, 1000);
}

#[test]
fn failed_move_changes_nothing() {
    let mut s = session();
    // Population below the threshold disqualifies the returned city.
    let low = record_of(&city(9, 50, 60, 999));
    assert_eq!(s.apply_move(low, 123).unwrap_err(), GameError::BackendQuery);
    assert_eq!(s.current.fid, 1);
    assert_eq!(s.distance_km, 777);
    assert_eq!(s.visited, vec![1]);
}

#[test]
fn move_to_the_city_already_occupied_is_rejected() {
    let mut s = session();
    let same = record_of(&city(1, 10, 20, 5000));
    assert_eq!(s.apply_move(same, 123).unwrap_err(), GameError::BackendQuery);
    assert_eq!(s.visited, vec![1]);
}

#[test]
fn move_with_absent_population_is_rejected() {
    let mut s = session();
    let mut rec = record_of(&city(9, 50, 60, 8000));
    rec.population = None;
    assert_eq!(s.apply_move(rec, 123).unwrap_err(), GameError::BackendQuery);
    assert_eq!(s.current.fid, 1);
}

#[test]
fn info_repeats_without_changing_the_session() {
    let s = session();
    let first = s.info(-10 * DEG);
    let second = s.info(-10 * DEG);
    assert_eq!(first.name, second.name);
    assert_eq!(first.admin, second.admin);
    assert_eq!(first.country, second.country);
    assert_eq!(first.distance_km, second.distance_km);
    assert_eq!(first.bearing_udeg, second.bearing_udeg);
    assert_eq!(first.bearing_udeg, 350 * DEG);
    assert_eq!(first.name, "City 1");
    assert_eq!(first.distance_km, 777);
    assert_eq!(s.current.fid, 1);
    assert_eq!(s.visited.len(), 1);
}
