use twitch_tools::routing::{with_default_output, RouteError, RoutePlan};

fn strings(v: &[&str]) -> Vec<String> {
    v.iter().map(|s| s.to_string()).collect()
}

#[test]
fn default_output_is_added_once() {
    assert_eq!(with_default_output(strings(&["speakers"])), strings(&["speakers", "default"]));
    assert_eq!(with_default_output(strings(&["default", "x"])), strings(&["default", "x"]));
    assert_eq!(with_default_output(vec![]), strings(&["default"]));
}

#[test]
fn sounds_route_to_named_or_default_outputs() {
    let known = with_default_output(strings(&["headset", "speakers"]));
    let mut plan = RoutePlan::new(known.len());
    assert_eq!(plan.add_sound(0, 48_000, &vec![], &known), Ok(()));
    assert_eq!(plan.add_sound(1, 48_000, &strings(&["speakers", "headset"]), &known), Ok(()));
    assert_eq!(plan.rate, Some(48_000));
    assert_eq!(plan.routes, vec![(0, 2), (1, 1), (1, 0)]);
    assert_eq!(plan.used, vec![true, true, true]);
}

#[test]
fn unused_outputs_stay_unused() {
    let known = with_default_output(strings(&["headset", "speakers"]));
    let mut plan = RoutePlan::new(known.len());
    assert_eq!(plan.add_sound(0, 44_100, &strings(&["headset"]), &known), Ok(()));
    assert_eq!(plan.used, vec![true, false, false]);
}

#[test]
fn sample_rates_must_agree() {
    let known = with_default_output(vec![]);
    let mut plan = RoutePlan::new(known.len());
    assert_eq!(plan.add_sound(0, 48_000, &vec![], &known), Ok(()));
    assert_eq!(
        plan.add_sound(1, 44_100, &vec![], &known),
        Err(RouteError::SampleRateMismatch { expected: 48_000, found: 44_100 })
    );
    assert_eq!(plan.routes, vec![(0, 0)]);
}

#[test]
fn unknown_output_is_named() {
    let known = with_default_output(strings(&["speakers"]));
    let mut plan = RoutePlan::new(known.len());
    assert_eq!(
        plan.add_sound(0, 48_000, &strings(&["speakers", "phone", "tv"]), &known),
        Err(RouteError::UnknownOutput("phone".to_string()))
    );
    assert!(plan.routes.is_empty());
    assert_eq!(plan.rate, None);
    assert_eq!(plan.used, vec![false, false]);
}
