use gachamodel::outcome::PROB_DENOM;
use gachamodel::radiance::CR_HALF;
use gachamodel::radiance::CR_QUARTER;
use gachamodel::radiance::CR_SIX_ELEVENTHS;
use gachamodel::radiance::CR_TENTH;
use gachamodel::radiance::CR_THREE_QUARTERS;
use gachamodel::CapturingRadianceModel;
use gachamodel::PullResult;
use gachamodel::RandomSource;

#[test]
fn test_probability_constants_are_exact() {
    // Every radiance rate is an exact rational over the common denominator.
    assert_eq!(2 * CR_HALF, PROB_DENOM);
    assert_eq!(10 * CR_TENTH, PROB_DENOM);
    assert_eq!(4 * CR_QUARTER, PROB_DENOM);
    assert_eq!(4 * CR_THREE_QUARTERS, 3 * PROB_DENOM);
    // 6/11 exactly, not a rounded decimal.
    assert_eq!(11 * CR_SIX_ELEVENTHS, 6 * PROB_DENOM);
}

#[test]
fn test_cr_state_stays_in_range() {
    for version in 0..=3 {
        for start in 0..=3 {
            let mut rs = RandomSource::new(1000 + version as u64 * 7 + start as u64);
            let mut m = CapturingRadianceModel::new(start, version);
            for _ in 0..500 {
                m.pull(&mut rs);
                assert!((0..=3).contains(&m.cr));
            }
        }
    }
}

#[test]
fn test_v0_v1_leave_cr_alone() {
    for version in 0..=1 {
        let mut rs = RandomSource::new(42);
        let mut m = CapturingRadianceModel::new(2, version);
        for _ in 0..500 {
            let r = m.pull(&mut rs);
            assert!(r == PullResult::Featured5Star || r == PullResult::Standard5Star);
            assert_eq!(m.cr, 2);
        }
    }
}

#[test]
fn test_v2_transition_table() {
    // Each (start state, outcome) pair determines the next state; both
    // outcomes show up from the three non-certain states.
    let mut seen_featured = [false; 3];
    let mut seen_standard = [false; 3];
    for seed in 0..200u64 {
        for start in 0..=3 {
            let mut rs = RandomSource::new(seed);
            let mut m = CapturingRadianceModel::new(start, 2);
            let r = m.pull(&mut rs);
            match (start, r) {
                (0, PullResult::Featured5Star) => assert_eq!(m.cr, 0),
                (0, PullResult::Standard5Star) => assert_eq!(m.cr, 1),
                (1, PullResult::Featured5Star) => assert_eq!(m.cr, 0),
                (1, PullResult::Standard5Star) => assert_eq!(m.cr, 2),
                (2, PullResult::Featured5Star) => assert_eq!(m.cr, 1),
                (2, PullResult::Standard5Star) => assert_eq!(m.cr, 3),
                (3, PullResult::Featured5Star) => assert_eq!(m.cr, 1),
                (3, _) => panic!("state 3 must resolve featured"),
                _ => panic!("unexpected outcome"),
            }
            if start < 3 {
                match r {
                    PullResult::Featured5Star => seen_featured[start as usize] = true,
                    _ => seen_standard[start as usize] = true,
                }
            }
        }
    }
    assert!(seen_featured.iter().all(|&b| b));
    assert!(seen_standard.iter().all(|&b| b));
}

#[test]
fn test_v3_transition_table() {
    for seed in 0..200u64 {
        for start in 0..=3 {
            let mut rs = RandomSource::new(seed);
            let mut m = CapturingRadianceModel::new(start, 3);
            let r = m.pull(&mut rs);
            match (start, r) {
                (0, PullResult::Featured5Star) => assert_eq!(m.cr, 0),
                (0, PullResult::Standard5Star) => assert_eq!(m.cr, 1),
                (1, PullResult::Featured5Star) => assert_eq!(m.cr, 0),
                (1, PullResult::Standard5Star) => assert_eq!(m.cr, 2),
                (2, PullResult::Featured5Star) => assert_eq!(m.cr, 1),
                (2, PullResult::Standard5Star) => assert_eq!(m.cr, 3),
                (3, PullResult::Featured5Star) => assert_eq!(m.cr, 2),
                (3, _) => panic!("state 3 must resolve featured"),
                _ => panic!("unexpected outcome"),
            }
        }
    }
}

#[test]
fn test_v2_stationary_distribution() {
    // The v2 chain from state 0 settles into the stationary distribution
    // implied by its transition table: (11/30, 11/30, 11/60, 1/12).
    let n: u64 = 300_000;
    let mut rs = RandomSource::new(7);
    let mut m = CapturingRadianceModel::new(0, 2);
    let mut counts = [0u64; 4];
    for _ in 0..n {
        m.pull(&mut rs);
        counts[m.cr as usize] += 1;
    }
    let expected = [
        n as f64 * 11.0 / 30.0,
        n as f64 * 11.0 / 30.0,
        n as f64 * 11.0 / 60.0,
        n as f64 / 12.0,
    ];
    let tolerance = n as f64 * 0.01;
    for state in 0..4 {
        let diff = (counts[state] as f64 - expected[state]).abs();
        assert!(
            diff <= tolerance,
            "state {} occupancy {} too far from {}",
            state,
            counts[state],
            expected[state]
        );
    }
}
