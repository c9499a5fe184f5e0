use wanderer::geodesy::classify_direction;
use wanderer::geodesy::normalize_bearing;
use wanderer::geodesy::Direction;
use wanderer::geodesy::FULL_TURN_UDEG;

const DEG: i64 = wanderer::geodesy::MICRODEG_PER_DEG;

#[test]
fn normalize_negative_bearing() {
    assert_eq!(normalize_bearing(-10 * DEG), 350 * DEG);
}

#[test]
fn normalize_over_range_bearing() {
    assert_eq!(normalize_bearing(370 * DEG), 10 * DEG);
}

#[test]
fn normalize_keeps_in_range_value() {
    assert_eq!(normalize_bearing(0), 0);
    assert_eq!(normalize_bearing(359 * DEG), 359 * DEG);
}

#[test]
fn normalize_whole_turns() {
    assert_eq!(normalize_bearing(360 * DEG), 0);
    assert_eq!(normalize_bearing(720 * DEG), 0);
    assert_eq!(normalize_bearing(-360 * DEG), 0);
    assert_eq!(normalize_bearing(-370 * DEG), 350 * DEG);
}

#[test]
fn normalize_lands_in_range() {
    for raw in [-1234 * DEG, -1, 1, 999 * DEG, 360 * DEG + 1] {
        let n = normalize_bearing(raw);
        assert!(0 <= n && n < FULL_TURN_UDEG);
    }
}

#[test]
fn boundary_bearing_45_matches_north_and_east() {
    assert!(classify_direction(45 * DEG, Direction::North));
    assert!(classify_direction(45 * DEG, Direction::East));
    assert!(!classify_direction(45 * DEG, Direction::South));
    assert!(!classify_direction(45 * DEG, Direction::West));
}

#[test]
fn bearing_zero_matches_only_north() {
    assert!(classify_direction(0, Direction::North));
    assert!(!classify_direction(0, Direction::East));
    assert!(!classify_direction(0, Direction::South));
    assert!(!classify_direction(0, Direction::West));
}

#[test]
fn bearing_180_matches_only_south() {
    assert!(!classify_direction(180 * DEG, Direction::North));
    assert!(!classify_direction(180 * DEG, Direction::East));
    assert!(classify_direction(180 * DEG, Direction::South));
    assert!(!classify_direction(180 * DEG, Direction::West));
}

#[test]
fn remaining_boundaries_match_two_directions() {
    assert!(classify_direction(135 * DEG, Direction::East));
    assert!(classify_direction(135 * DEG, Direction::South));
    assert!(classify_direction(225 * DEG, Direction::South));
    assert!(classify_direction(225 * DEG, Direction::West));
    assert!(classify_direction(315 * DEG, Direction::West));
    assert!(classify_direction(315 * DEG, Direction::North));
}

#[test]
fn every_normalized_bearing_matches_some_direction() {
    for deg in 0..360 {
        let b = deg * DEG;
        let hit = classify_direction(b, Direction::North)
            || classify_direction(b, Direction::East)
            || classify_direction(b, Direction::South)
            || classify_direction(b, Direction::West);
        assert!(hit, "no direction matched bearing {deg}");
    }
}
