use billion::utils::{get_ring, get_unlocked_ring};

#[test]
fn test_get_ring_center() {
    // Center area (distance 0-4 from center) = Ring 10 (unlocks last)
    assert_eq!(get_ring(50, 50), 10);
    assert_eq!(get_ring(48, 52), 10);
    assert_eq!(get_ring(54, 46), 10);
}

#[test]
fn test_get_ring_edges() {
    // Corners/edges (distance 45-50 from center) = Ring 1 (unlocks first)
    assert_eq!(get_ring(0, 0), 1);
    assert_eq!(get_ring(99, 99), 1);
    assert_eq!(get_ring(0, 99), 1);
    assert_eq!(get_ring(99, 0), 1);
}

#[test]
fn test_get_ring_boundaries() {
    // Ring boundaries based on distance from center
    assert_eq!(get_ring(50, 54), 10); // distance 4 -> Ring 10
    assert_eq!(get_ring(50, 55), 9); // distance 5 -> Ring 9
    assert_eq!(get_ring(50, 59), 9); // distance 9 -> Ring 9
    assert_eq!(get_ring(50, 60), 8); // distance 10 -> Ring 8
}

#[test]
fn test_get_unlocked_ring() {
    let thresholds = vec![0, 100, 200, 300, 400, 500, 600, 700, 800, 900];
    assert_eq!(get_unlocked_ring(0, &thresholds), 1);
    assert_eq!(get_unlocked_ring(99, &thresholds), 1);
    assert_eq!(get_unlocked_ring(100, &thresholds), 2);
    assert_eq!(get_unlocked_ring(500, &thresholds), 6);
    assert_eq!(get_unlocked_ring(1000, &thresholds), 10);
}

#[test]
fn ring_of_every_band() {
    // One cell per band along the row through the center, walking outwards.
    let expected = [10u8, 9, 8, 7, 6, 5, 4, 3, 2, 1];
    for band in 0..10u8 {
        assert_eq!(get_ring(50 + band * 5, 50), expected[band as usize]);
        if band < 9 {
            assert_eq!(get_ring(50 + band * 5 + 4, 50), expected[band as usize]);
        }
    }
    // Distance 50 is a band of its own by the formula, and still ring 1.
    assert_eq!(get_ring(0, 50), 1);
    assert_eq!(get_ring(50, 0), 1);
}

#[test]
fn ring_uses_the_larger_axis_distance() {
    assert_eq!(get_ring(50, 20), 4);
    assert_eq!(get_ring(20, 50), 4);
    assert_eq!(get_ring(45, 20), 4);
    assert_eq!(get_ring(20, 45), 4);
    assert_eq!(get_ring(21, 21), 5);
}

#[test]
fn ring_is_mirrored_about_the_center_lines() {
    for x in 1..=99u8 {
        for y in 1..=99u8 {
            let ring = get_ring(x, y);
            assert_eq!(get_ring(100 - x, y), ring);
            assert_eq!(get_ring(x, 100 - y), ring);
            assert_eq!(get_ring(100 - x, 100 - y), ring);
            assert_eq!(get_ring(y, x), ring);
            assert!((1..=10).contains(&ring));
        }
    }
}

#[test]
fn ring_is_total_beyond_the_grid() {
    assert_eq!(get_ring(255, 255), 1);
    assert_eq!(get_ring(100, 50), 1);
    assert_eq!(get_ring(255, 50), 1);
}

#[test]
fn unlocked_ring_without_thresholds_is_one() {
    assert_eq!(get_unlocked_ring(0, &[]), 1);
    assert_eq!(get_unlocked_ring(u64::MAX, &[]), 1);
}

#[test]
fn unlocked_ring_when_no_threshold_is_met() {
    assert_eq!(get_unlocked_ring(4, &[5, 10, 20]), 1);
}

#[test]
fn unlocked_ring_scans_from_the_end() {
    // Not ascending: the last threshold that is met decides.
    assert_eq!(get_unlocked_ring(10, &[50, 5, 100, 7, 200]), 4);
    assert_eq!(get_unlocked_ring(6, &[50, 5, 100, 7, 200]), 2);
    assert_eq!(get_unlocked_ring(200, &[50, 5, 100, 7, 200]), 5);
}

#[test]
fn unlocked_ring_never_decreases_as_burn_grows() {
    let lists: [&[u64]; 4] = [
        &[0, 100, 200, 300, 400, 500, 600, 700, 800, 900],
        &[50, 5, 100, 7, 200],
        &[10],
        &[],
    ];
    for thresholds in lists {
        let mut last = 0u8;
        for burned in 0..1100u64 {
            let ring = get_unlocked_ring(burned, thresholds);
            assert!(ring >= last);
            last = ring;
        }
    }
}

#[test]
fn unlocked_ring_of_a_long_list_is_reduced_modulo_256() {
    let mut thresholds = vec![u64::MAX; 300];
    thresholds[0] = 0;
    thresholds[255] = 5;
    thresholds[256] = 6;
    assert_eq!(get_unlocked_ring(0, &thresholds), 1);
    assert_eq!(get_unlocked_ring(5, &thresholds), 0);
    assert_eq!(get_unlocked_ring(6, &thresholds), 1);
}
