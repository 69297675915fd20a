use comparison_app::points::{inverter_point_batches, string_points, INVERTER_ACTIVE_POWER, MAX_POINTS_PER_REQUEST};

#[test]
fn every_string_has_unique_current_and_voltage_points() {
    let mut ids = std::collections::BTreeSet::new();
    for (index, point) in string_points().iter().enumerate() {
        assert_eq!(point.position, index + 1);
        assert!(ids.insert(point.current));
        assert!(ids.insert(point.voltage));
    }
}

#[test]
fn realtime_batches_stay_below_the_api_limit() {
    for batch in inverter_point_batches() {
        assert!(batch.len() <= 50);
    }
}

#[test]
fn batches_cover_every_string_point_once_in_position_order() {
    let [first, second] = inverter_point_batches();
    assert_eq!(first[0], INVERTER_ACTIVE_POWER);
    let mut expected = vec![INVERTER_ACTIVE_POWER.to_string()];
    for point in string_points() {
        expected.push(point.current.to_string());
        expected.push(point.voltage.to_string());
    }
    let joined: Vec<String> = first.iter().chain(second.iter()).cloned().collect();
    assert_eq!(joined, expected);
    assert!(first.len() <= MAX_POINTS_PER_REQUEST && second.len() <= MAX_POINTS_PER_REQUEST);
    assert_eq!(&first[1..3], &["70".to_string(), "96".to_string()]);
    assert_eq!(&second[0..2], &["315".to_string(), "7168".to_string()]);
}
