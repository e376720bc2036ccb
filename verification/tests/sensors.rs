use roborace2023::sensors::{distance_reading, OUT_OF_RANGE};

#[test]
fn out_of_range_is_no_distance() {
    assert_eq!(OUT_OF_RANGE, 255_000);
    assert_eq!(distance_reading(255_000), None);
    assert_eq!(distance_reading(254_900), Some(254_900));
    assert_eq!(distance_reading(255_100), Some(255_100));
    assert_eq!(distance_reading(0), Some(0));
    assert_eq!(distance_reading(18_200), Some(18_200));
}
