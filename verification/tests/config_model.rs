//! Tests for the configuration model: token parsing and descriptor
//! validation.

use farust::config::{build_icon, parse_icon_type, parse_style, IconStyle, IconType, PathSource};
use farust::errors::GenError;

#[test]
fn parse_style_accepts_the_six_tokens() {
    assert_eq!(parse_style("solid"), Some(IconStyle::Solid));
    assert_eq!(parse_style("regular"), Some(IconStyle::Regular));
    assert_eq!(parse_style("light"), Some(IconStyle::Light));
    assert_eq!(parse_style("thin"), Some(IconStyle::Thin));
    assert_eq!(parse_style("duotone"), Some(IconStyle::Duotone));
    assert_eq!(parse_style("brands"), Some(IconStyle::Brands));
}

#[test]
fn parse_style_rejects_other_tokens() {
    assert_eq!(parse_style(""), None);
    assert_eq!(parse_style("Solid"), None);
    assert_eq!(parse_style("bold"), None);
}

#[test]
fn parse_icon_type_accepts_pro_and_free() {
    assert_eq!(parse_icon_type("pro"), Some(IconType::Pro));
    assert_eq!(parse_icon_type("free"), Some(IconType::Free));
}

#[test]
fn parse_icon_type_rejects_other_tokens() {
    assert_eq!(parse_icon_type(""), None);
    assert_eq!(parse_icon_type("Free"), None);
    assert_eq!(parse_icon_type("paid"), None);
}

#[test]
fn build_icon_explicit_path() {
    let r = build_icon(
        "faGithub".to_string(),
        "Github".to_string(),
        Some("@fortawesome/free-brands-svg-icons".to_string()),
        None,
        None,
    );
    let icon = r.unwrap();
    assert_eq!(icon.name, "faGithub");
    assert_eq!(icon.component_name, "Github");
    assert!(matches!(
        icon.path_source,
        PathSource::Explicit(p) if p == "@fortawesome/free-brands-svg-icons"
    ));
}

#[test]
fn build_icon_derived_pair() {
    let r = build_icon(
        "faGithub".to_string(),
        "Github".to_string(),
        None,
        Some("brands".to_string()),
        Some("free".to_string()),
    );
    let icon = r.unwrap();
    assert!(matches!(
        icon.path_source,
        PathSource::Derived(IconStyle::Brands, IconType::Free)
    ));
}

#[test]
fn build_icon_missing_field_is_an_error() {
    let r = build_icon(
        "faGithub".to_string(),
        "Github".to_string(),
        None,
        Some("brands".to_string()),
        None,
    );
    assert!(matches!(r, Err(GenError::MissingField)));

    let r = build_icon("faGithub".to_string(), "Github".to_string(), None, None, None);
    assert!(matches!(r, Err(GenError::MissingField)));
}

#[test]
fn build_icon_conflicting_fields_is_an_error() {
    let r = build_icon(
        "faGithub".to_string(),
        "Github".to_string(),
        Some("some/path".to_string()),
        Some("brands".to_string()),
        Some("free".to_string()),
    );
    assert!(matches!(r, Err(GenError::ConflictingFields)));
}

#[test]
fn build_icon_unknown_style_is_an_error() {
    let r = build_icon(
        "faGithub".to_string(),
        "Github".to_string(),
        None,
        Some("bold".to_string()),
        Some("free".to_string()),
    );
    assert!(matches!(r, Err(GenError::UnknownStyle)));
}

#[test]
fn build_icon_unknown_icon_type_is_an_error() {
    let r = build_icon(
        "faGithub".to_string(),
        "Github".to_string(),
        None,
        Some("brands".to_string()),
        Some("paid".to_string()),
    );
    assert!(matches!(r, Err(GenError::UnknownIconType)));
}

#[test]
fn describe_names_the_failed_validation() {
    assert_eq!(
        GenError::MissingField.describe(),
        "Config parsing failed: icon is missing a required field"
    );
    assert_eq!(
        GenError::UnknownStyle.describe(),
        "Config parsing failed: unrecognized icon style"
    );
}
