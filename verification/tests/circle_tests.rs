use benchmark_rust::circle::{benchmark_circle, generate, CircleError, Point};

const TAU: f32 = std::f32::consts::PI * 2.0;

/// The floating-point realisation of a point of the layout, as a caller of
/// the library performs it: angle = index · (2π / count), coordinates
/// (radius · cos, radius · sin).
fn realize(p: &Point, radius: f32) -> (f32, f32) {
    let angle = TAU / (p.count as f32) * (p.index as f32);
    (angle.cos() * radius, angle.sin() * radius)
}

#[test]
fn zero_count_is_invalid_argument() {
    assert_eq!(generate(0), Err(CircleError::InvalidArgument));
    assert_eq!(generate(5), Ok(vec![
        Point { index: 0, count: 5 },
        Point { index: 1, count: 5 },
        Point { index: 2, count: 5 },
        Point { index: 3, count: 5 },
        Point { index: 4, count: 5 },
    ]));
}

#[test]
fn generates_exactly_count_points() {
    for count in [1u64, 2, 3, 10, 1000] {
        let points = generate(count).unwrap();
        assert_eq!(points.len() as u64, count);
        for (i, p) in points.iter().enumerate() {
            assert_eq!(p.index, i as u64);
            assert_eq!(p.count, count);
        }
    }
}

#[test]
fn points_lie_on_the_circle() {
    for radius in [5.0f32, -2.5, 12.3] {
        let points = generate(360).unwrap();
        for p in &points {
            let (x, y) = realize(p, radius);
            let dist = (x * x + y * y).sqrt();
            assert!((dist - radius.abs()).abs() < 1e-3, "distance {} for radius {}", dist, radius);
        }
    }
}

#[test]
fn angular_gap_is_constant() {
    let count = 8u64;
    let points = generate(count).unwrap();
    let gap = TAU / count as f32;
    for w in points.windows(2) {
        let (x0, y0) = realize(&w[0], 1.0);
        let (x1, y1) = realize(&w[1], 1.0);
        let diff = (y1.atan2(x1) - y0.atan2(x0)).rem_euclid(TAU);
        assert!((diff - gap).abs() < 1e-3, "gap {} instead of {}", diff, gap);
    }
    // The last point approaches the full turn; it does not wrap back onto the
    // first.
    let last = points.last().unwrap();
    assert_eq!(last.index, count - 1);
    let (x, y) = realize(last, 1.0);
    let last_angle = y.atan2(x).rem_euclid(TAU);
    assert!((last_angle - (TAU - gap)).abs() < 1e-3);
}

#[test]
fn benchmark_runs_to_completion() {
    benchmark_circle();
}
