//! The configuration model: icon descriptors, the enumerated style and
//! license-tier values, and validation of raw descriptor fields.

use vstd::prelude::*;

use crate::errors::GenError;

verus! {

/// The visual style of an icon family.
#[derive(Clone, Copy, Debug, PartialEq, Eq, Structural)]
pub enum IconStyle {
    Solid,
    Regular,
    Light,
    Thin,
    Duotone,
    Brands,
}

/// The license tier of an icon set.
#[derive(Clone, Copy, Debug, PartialEq, Eq, Structural)]
pub enum IconType {
    Pro,
    Free,
}

/// Where an icon's import path comes from: supplied directly, or derived
/// from a style and a license tier.
#[derive(Debug, Clone)]
pub enum PathSource {
    Explicit(String),
    Derived(IconStyle, IconType),
}

/// The configuration for an individual icon.
#[derive(Debug, Clone)]
pub struct Icon {
    /// The icon name substituted into the template: ex. "faGithub".
    pub name: String,
    /// The name of the component to be generated: ex. "Github".
    pub component_name: String,
    /// How the icon's import path is obtained.
    pub path_source: PathSource,
}

/// The configuration file for the application.
#[derive(Debug, Clone)]
pub struct Config {
    /// The list of icons to generate components for.
    pub icons: Vec<Icon>,
    /// The path to the directory to output the generated components.
    pub output: String,
}

/// The lowercase token that names a style in a configuration file.
pub open spec fn style_token(s: IconStyle) -> Seq<char> {
    match s {
        IconStyle::Solid => "solid"@,
        IconStyle::Regular => "regular"@,
        IconStyle::Light => "light"@,
        IconStyle::Thin => "thin"@,
        IconStyle::Duotone => "duotone"@,
        IconStyle::Brands => "brands"@,
    }
}

/// The lowercase token that names a license tier in a configuration file.
pub open spec fn tier_token(t: IconType) -> Seq<char> {
    match t {
        IconType::Pro => "pro"@,
        IconType::Free => "free"@,
    }
}

/// Which style, if any, a token denotes.
pub open spec fn spec_parse_style(s: Seq<char>) -> Option<IconStyle> {
    if s == style_token(IconStyle::Solid) {
        Some(IconStyle::Solid)
    } else if s == style_token(IconStyle::Regular) {
        Some(IconStyle::Regular)
    } else if s == style_token(IconStyle::Light) {
        Some(IconStyle::Light)
    } else if s == style_token(IconStyle::Thin) {
        Some(IconStyle::Thin)
    } else if s == style_token(IconStyle::Duotone) {
        Some(IconStyle::Duotone)
    } else if s == style_token(IconStyle::Brands) {
        Some(IconStyle::Brands)
    } else {
        None
    }
}

/// Which license tier, if any, a token denotes.
pub open spec fn spec_parse_icon_type(s: Seq<char>) -> Option<IconType> {
    if s == tier_token(IconType::Pro) {
        Some(IconType::Pro)
    } else if s == tier_token(IconType::Free) {
        Some(IconType::Free)
    } else {
        None
    }
}

/// Parses a style token; only the six lowercase style tokens are accepted.
pub fn parse_style(s: &str) -> (r: Option<IconStyle>)
    ensures
        r == spec_parse_style(s@),
{
    let t = s.to_owned();
    if t == "solid".to_owned() {
        Some(IconStyle::Solid)
    } else if t == "regular".to_owned() {
        Some(IconStyle::Regular)
    } else if t == "light".to_owned() {
        Some(IconStyle::Light)
    } else if t == "thin".to_owned() {
        Some(IconStyle::Thin)
    } else if t == "duotone".to_owned() {
        Some(IconStyle::Duotone)
    } else if t == "brands".to_owned() {
        Some(IconStyle::Brands)
    } else {
        None
    }
}

/// Parses a license-tier token; only `pro` and `free` are accepted.
pub fn parse_icon_type(s: &str) -> (r: Option<IconType>)
    ensures
        r == spec_parse_icon_type(s@),
{
    let t = s.to_owned();
    if t == "pro".to_owned() {
        Some(IconType::Pro)
    } else if t == "free".to_owned() {
        Some(IconType::Free)
    } else {
        None
    }
}

/// Token parsing inverts token naming: the token of a style parses back
/// to exactly that style.
pub proof fn lemma_style_token_roundtrip(s: IconStyle)
    ensures
        spec_parse_style(style_token(s)) == Some(s),
{
    reveal_strlit("solid");
    reveal_strlit("regular");
    reveal_strlit("light");
    reveal_strlit("thin");
    reveal_strlit("duotone");
    reveal_strlit("brands");
    assert("solid"@[0] == 's');
    assert("regular"@[0] == 'r');
    assert("light"@[0] == 'l');
    assert("thin"@[0] == 't');
    assert("duotone"@[0] == 'd');
    assert("brands"@[0] == 'b');
}

/// Token parsing inverts token naming: the token of a license tier parses
/// back to exactly that tier.
pub proof fn lemma_tier_token_roundtrip(t: IconType)
    ensures
        spec_parse_icon_type(tier_token(t)) == Some(t),
{
    reveal_strlit("pro");
    reveal_strlit("free");
    assert("pro"@[0] == 'p');
    assert("free"@[0] == 'f');
}

/// Builds an [`Icon`] from the raw fields of one configuration entry.
/// Exactly one of the two schema variants must be present: an explicit
/// `path`, or a `style` together with an `icon_type`; a missing field is
/// an error, not a default, and an unrecognized enumerated token is an
/// error.
pub fn build_icon(
    name: String,
    component_name: String,
    path: Option<String>,
    style: Option<String>,
    icon_type: Option<String>,
) -> (r: Result<Icon, GenError>)
    ensures
        r is Ok <==> ((path is Some && style is None && icon_type is None) || (path is None
            && style is Some && icon_type is Some && spec_parse_style(style->0@) is Some
            && spec_parse_icon_type(icon_type->0@) is Some)),
        r matches Ok(i) ==> i.name@ == name@ && i.component_name@ == component_name@,
        (r is Ok && path is Some) ==> r->Ok_0.path_source is Explicit
            && r->Ok_0.path_source->Explicit_0@ == path->0@,
        (r is Ok && path is None) ==> r->Ok_0.path_source is Derived && Some(
            r->Ok_0.path_source->Derived_0,
        ) == spec_parse_style(style->0@) && Some(r->Ok_0.path_source->Derived_1)
            == spec_parse_icon_type(icon_type->0@),
        (path is Some && (style is Some || icon_type is Some)) ==> (r matches Err(e) && e
            is ConflictingFields),
        (path is None && (style is None || icon_type is None)) ==> (r matches Err(e) && e
            is MissingField),
        (path is None && style is Some && icon_type is Some && spec_parse_style(style->0@)
            is None) ==> (r matches Err(e) && e is UnknownStyle),
        (path is None && style is Some && icon_type is Some && spec_parse_style(style->0@)
            is Some && spec_parse_icon_type(icon_type->0@) is None) ==> (r matches Err(e) && e
            is UnknownIconType),
{
    match (path, style, icon_type) {
        (Some(p), None, None) => Ok(
            Icon { name, component_name, path_source: PathSource::Explicit(p) },
        ),
        (Some(_), _, _) => Err(GenError::ConflictingFields),
        (None, Some(s), Some(t)) => match parse_style(s.as_str()) {
            Some(st) => match parse_icon_type(t.as_str()) {
                Some(ti) => Ok(
                    Icon { name, component_name, path_source: PathSource::Derived(st, ti) },
                ),
                None => Err(GenError::UnknownIconType),
            },
            None => Err(GenError::UnknownStyle),
        },
        (None, _, _) => Err(GenError::MissingField),
    }
}

} // verus!
