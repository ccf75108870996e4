use gachamodel::CapturingRadianceModel;
use gachamodel::GenshinImpactGachaModel;
use gachamodel::PullResult;

fn cr(state: i32, version: i32) -> CapturingRadianceModel {
    CapturingRadianceModel::new(state, version)
}

#[test]
fn test_v0_decision_threshold() {
    let mut m = cr(0, 0);
    assert_eq!(m.resolve_v0_with(0), PullResult::Featured5Star);
    assert_eq!(m.resolve_v0_with(5_499_999), PullResult::Featured5Star);
    assert_eq!(m.resolve_v0_with(5_500_000), PullResult::Standard5Star);
    assert_eq!(m.resolve_v0_with(10_999_999), PullResult::Standard5Star);
    assert_eq!(m.cr, 0);
}

#[test]
fn test_v1_rescue_decision_threshold() {
    let mut m = cr(0, 1);
    assert_eq!(m.resolve_v1_rescue_with(1_099_999), PullResult::Featured5Star);
    assert_eq!(m.resolve_v1_rescue_with(1_100_000), PullResult::Standard5Star);
    assert_eq!(m.cr, 0);
}

#[test]
fn test_v2_decision_thresholds() {
    // State 0 and 1: win below exactly one half.
    let mut m = cr(0, 2);
    assert_eq!(m.resolve_v2_with(5_499_999), PullResult::Featured5Star);
    assert_eq!(m.cr, 0);
    let mut m = cr(0, 2);
    assert_eq!(m.resolve_v2_with(5_500_000), PullResult::Standard5Star);
    assert_eq!(m.cr, 1);
    let mut m = cr(1, 2);
    assert_eq!(m.resolve_v2_with(5_499_999), PullResult::Featured5Star);
    assert_eq!(m.cr, 0);
    let mut m = cr(1, 2);
    assert_eq!(m.resolve_v2_with(5_500_000), PullResult::Standard5Star);
    assert_eq!(m.cr, 2);
    // State 2: win below exactly 6/11 of the denominator.
    let mut m = cr(2, 2);
    assert_eq!(m.resolve_v2_with(5_999_999), PullResult::Featured5Star);
    assert_eq!(m.cr, 1);
    let mut m = cr(2, 2);
    assert_eq!(m.resolve_v2_with(6_000_000), PullResult::Standard5Star);
    assert_eq!(m.cr, 3);
    // State 3: certain, whatever the draw.
    let mut m = cr(3, 2);
    assert_eq!(m.resolve_v2_with(10_999_999), PullResult::Featured5Star);
    assert_eq!(m.cr, 1);
}

#[test]
fn test_v3_decision_thresholds() {
    let mut m = cr(0, 3);
    assert_eq!(m.resolve_v3_with(2_749_999), PullResult::Featured5Star);
    assert_eq!(m.cr, 0);
    let mut m = cr(0, 3);
    assert_eq!(m.resolve_v3_with(2_750_000), PullResult::Standard5Star);
    assert_eq!(m.cr, 1);
    let mut m = cr(1, 3);
    assert_eq!(m.resolve_v3_with(5_499_999), PullResult::Featured5Star);
    assert_eq!(m.cr, 0);
    let mut m = cr(1, 3);
    assert_eq!(m.resolve_v3_with(5_500_000), PullResult::Standard5Star);
    assert_eq!(m.cr, 2);
    let mut m = cr(2, 3);
    assert_eq!(m.resolve_v3_with(8_249_999), PullResult::Featured5Star);
    assert_eq!(m.cr, 1);
    let mut m = cr(2, 3);
    assert_eq!(m.resolve_v3_with(8_250_000), PullResult::Standard5Star);
    assert_eq!(m.cr, 3);
    let mut m = cr(3, 3);
    assert_eq!(m.resolve_v3_with(10_999_999), PullResult::Featured5Star);
    assert_eq!(m.cr, 2);
}

#[test]
fn test_pull_with_tier_thresholds_at_base_rates() {
    // Pity 0 on both counters: the five-star window is [0, 66000), the
    // four-star window [66000, 627000), three-star the rest. The guarantee
    // makes the five-star case deterministic.
    let mut m = GenshinImpactGachaModel::new(0, true, cr(0, 2), 1);
    assert_eq!(m.pull_with(65_999), PullResult::Featured5Star);
    assert_eq!(m.counter5, 1);
    assert_eq!(m.counter4, 1);
    assert!(!m.g);

    let mut m = GenshinImpactGachaModel::new(0, true, cr(0, 2), 1);
    assert_eq!(m.pull_with(66_000), PullResult::Standard4Star);
    assert_eq!(m.counter4, 1);
    assert_eq!(m.counter5, 1);
    assert!(m.g);

    let mut m = GenshinImpactGachaModel::new(0, true, cr(0, 2), 1);
    assert_eq!(m.pull_with(626_999), PullResult::Standard4Star);

    let mut m = GenshinImpactGachaModel::new(0, true, cr(0, 2), 1);
    assert_eq!(m.pull_with(627_000), PullResult::Standard3Star);
    assert_eq!(m.counter5, 1);
    assert_eq!(m.counter4, 1);
}

#[test]
fn test_pull_with_tier_thresholds_on_the_ramp() {
    // Pity 74: the five-star window grows to [0, 726000), and the
    // four-star window shifts to [726000, 1287000).
    let mut m = GenshinImpactGachaModel::new(74, true, cr(0, 2), 1);
    assert_eq!(m.pull_with(725_999), PullResult::Featured5Star);

    let mut m = GenshinImpactGachaModel::new(74, true, cr(0, 2), 1);
    assert_eq!(m.pull_with(726_000), PullResult::Standard4Star);
    assert_eq!(m.counter5, 75);

    // Far past the ramp every draw lands in the five-star window.
    let mut m = GenshinImpactGachaModel::new(2_000, true, cr(0, 2), 1);
    assert_eq!(m.pull_with(10_999_999), PullResult::Featured5Star);
}
