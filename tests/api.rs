use overland_client::api::{
    decimal_string, filter_results, intern_battery, intern_wifi, BatteryState, Motion, ResultType,
    TimePeriod,
};
use overland_client::identity::CurrentUser;
use overland_client::settings::default_dev;

#[test]
fn admin_sees_every_row() {
    let u = CurrentUser { user_id: 3, is_admin: true };
    assert_eq!(filter_results(u, true), "");
    assert_eq!(filter_results(u, false), "");
}

#[test]
fn user_sees_own_rows() {
    let u = CurrentUser { user_id: 42, is_admin: false };
    assert_eq!(filter_results(u, true), "WHERE user_identifier=42");
    assert_eq!(filter_results(u, false), "AND user_identifier=42");
}

#[test]
fn decimal_text_of_extremes() {
    assert_eq!(decimal_string(0), "0");
    assert_eq!(decimal_string(-7), "-7");
    assert_eq!(decimal_string(1234567890), "1234567890");
    assert_eq!(decimal_string(i32::MAX), i32::MAX.to_string());
    assert_eq!(decimal_string(i32::MIN), i32::MIN.to_string());
}

#[test]
fn defaults() {
    assert_eq!(BatteryState::default(), BatteryState::Unknown);
    assert_eq!(TimePeriod::default(), TimePeriod::Day);
    assert_eq!(ResultType::default(), ResultType::Json);
    assert!(!default_dev());
}

#[test]
fn interning_keeps_first_seen_order() {
    let mut wifis: Vec<String> = vec![];
    assert_eq!(intern_wifi(&mut wifis, "home"), 0);
    assert_eq!(intern_wifi(&mut wifis, "work"), 1);
    assert_eq!(intern_wifi(&mut wifis, "home"), 0);
    assert_eq!(intern_wifi(&mut wifis, ""), 2);
    assert_eq!(wifis, vec!["home".to_string(), "work".to_string(), "".to_string()]);
    let mut states = vec![];
    assert_eq!(intern_battery(&mut states, BatteryState::Full), 0);
    assert_eq!(intern_battery(&mut states, BatteryState::Unknown), 1);
    assert_eq!(intern_battery(&mut states, BatteryState::Full), 0);
    assert_eq!(states, vec![BatteryState::Full, BatteryState::Unknown]);
}

#[test]
fn motion_names() {
    assert_eq!(Motion::from_name("driving"), Some(Motion::Driving));
    assert_eq!(Motion::from_name("stationary"), Some(Motion::Stationary));
    assert_eq!(Motion::from_name("walking"), Some(Motion::Walking));
    assert_eq!(Motion::from_name("running"), Some(Motion::Running));
    assert_eq!(Motion::from_name("cycling"), Some(Motion::Cycling));
    assert_eq!(Motion::from_name("Driving"), None);
    assert_eq!(Motion::from_name(""), None);
}

#[test]
fn period_spans() {
    assert_eq!(TimePeriod::Day.span_days(), 0);
    assert_eq!(TimePeriod::Week.span_days(), 7);
    assert_eq!(TimePeriod::Month.span_days(), 30);
}
