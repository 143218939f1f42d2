use near_node_config::duration::Duration;

#[test]
fn seconds_are_whole() {
    let d = Duration::seconds(600);
    assert_eq!(d.seconds, 600);
    assert_eq!(d.nanoseconds, 0);
}

#[test]
fn minutes_are_sixty_seconds() {
    assert_eq!(Duration::minutes(15), Duration::seconds(900));
    assert_eq!(Duration::minutes(-2).seconds, -120);
}

#[test]
fn hours_are_sixty_minutes() {
    assert_eq!(Duration::hours(3), Duration::minutes(180));
    assert_eq!(Duration::hours(3).seconds, 10800);
}

#[test]
fn from_parts_accepts_well_formed_parts() {
    assert_eq!(
        Duration::from_parts(1, 234_000_000),
        Some(Duration { seconds: 1, nanoseconds: 234_000_000 })
    );
    assert_eq!(
        Duration::from_parts(-1, -5),
        Some(Duration { seconds: -1, nanoseconds: -5 })
    );
    assert_eq!(
        Duration::from_parts(0, -999_999_999),
        Some(Duration { seconds: 0, nanoseconds: -999_999_999 })
    );
}

#[test]
fn from_parts_refuses_ill_formed_parts() {
    assert_eq!(Duration::from_parts(1, -1), None);
    assert_eq!(Duration::from_parts(-1, 1), None);
    assert_eq!(Duration::from_parts(0, 1_000_000_000), None);
    assert_eq!(Duration::from_parts(0, -1_000_000_000), None);
}

#[test]
fn span_parts_agree_with_time_crate() {
    let d = time::Duration::minutes(15);
    assert_eq!(
        Duration::from_parts(d.whole_seconds(), d.subsec_nanoseconds()),
        Some(Duration::minutes(15))
    );
}
