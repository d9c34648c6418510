use focus_service::logging::drop_rocket;
use focus_service::logging::starts_with;

#[test]
fn records_of_the_web_framework_are_dropped() {
    assert!(!drop_rocket("rocket"));
    assert!(!drop_rocket("rocket::server"));
    assert!(!drop_rocket("rocket_http::uri"));
    assert!(!drop_rocket("rocketeer"));
    assert!(!drop_rocket("_"));
}

#[test]
fn other_records_are_kept() {
    assert!(drop_rocket("focus_service::service"));
    assert!(drop_rocket("sea_orm::driver"));
    assert!(drop_rocket(""));
    assert!(drop_rocket("rocke"));
    assert!(drop_rocket("Rocket"));
    assert!(drop_rocket(" rocket"));
    assert!(drop_rocket("my::rocket"));
    assert!(drop_rocket("__"));
    assert!(drop_rocket("_rocket"));
    assert!(drop_rocket("-"));
    assert!(drop_rocket("röcket"));
}

#[test]
fn filter_goes_by_the_target_of_a_record() {
    let kept = log::Metadata::builder().target("focus_service").level(log::Level::Info).build();
    let dropped = log::Metadata::builder().target("rocket::launch").level(log::Level::Info).build();
    let anonymous = log::Metadata::builder().target("_").level(log::Level::Warn).build();
    assert!(drop_rocket(kept.target()));
    assert!(!drop_rocket(dropped.target()));
    assert!(!drop_rocket(anonymous.target()));
}

#[test]
fn prefix_is_compared_character_by_character() {
    assert!(starts_with("rocket", ""));
    assert!(starts_with("", ""));
    assert!(!starts_with("", "r"));
    assert!(starts_with("größer", "größ"));
    assert!(!starts_with("großer", "größ"));
    assert!(starts_with("😀 ok", "😀"));
    assert!(!starts_with("ab", "abc"));
    assert!(starts_with("abc", "abc"));
    for (text, prefix) in [("rocket::x", "rocket"), ("é", "e"), ("e\u{301}", "e"), ("abc", "b")] {
        assert_eq!(starts_with(text, prefix), text.starts_with(prefix));
    }
}
