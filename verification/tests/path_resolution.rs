//! Tests for the path resolver: identity on explicit paths, determinism
//! and injectivity over the derived (style, tier) domain.

use farust::config::{IconStyle, IconType, PathSource};
use farust::paths::{build_icon_path, resolve};

fn all_styles() -> [IconStyle; 6] {
    [
        IconStyle::Solid,
        IconStyle::Regular,
        IconStyle::Light,
        IconStyle::Thin,
        IconStyle::Duotone,
        IconStyle::Brands,
    ]
}

fn all_tiers() -> [IconType; 2] {
    [IconType::Pro, IconType::Free]
}

#[test]
fn resolve_explicit_is_identity() {
    let p = PathSource::Explicit("my/own/path".to_string());
    assert_eq!(resolve(&p), "my/own/path");
    let q = PathSource::Explicit("".to_string());
    assert_eq!(resolve(&q), "");
}

#[test]
fn derived_paths_follow_the_convention() {
    assert_eq!(
        build_icon_path(&IconStyle::Brands, &IconType::Free),
        "@fortawesome/free-brands-svg-icons"
    );
    assert_eq!(
        build_icon_path(&IconStyle::Solid, &IconType::Pro),
        "@fortawesome/pro-solid-svg-icons"
    );
    assert_eq!(
        build_icon_path(&IconStyle::Duotone, &IconType::Pro),
        "@fortawesome/pro-duotone-svg-icons"
    );
}

#[test]
fn resolve_derived_matches_build_icon_path() {
    let p = PathSource::Derived(IconStyle::Thin, IconType::Free);
    assert_eq!(resolve(&p), build_icon_path(&IconStyle::Thin, &IconType::Free));
}

#[test]
fn derived_paths_are_deterministic() {
    for style in all_styles() {
        for tier in all_tiers() {
            assert_eq!(build_icon_path(&style, &tier), build_icon_path(&style, &tier));
        }
    }
}

#[test]
fn derived_paths_are_injective() {
    let mut seen: Vec<String> = Vec::new();
    for style in all_styles() {
        for tier in all_tiers() {
            let path = build_icon_path(&style, &tier);
            assert!(!seen.contains(&path), "duplicate path {}", path);
            seen.push(path);
        }
    }
    assert_eq!(seen.len(), 12);
}
