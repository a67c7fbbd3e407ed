//! The path resolver: derives an icon's import path from its descriptor,
//! either verbatim from an explicit path or from a (style, tier) pair.

use vstd::prelude::*;

use crate::config::{style_token, tier_token, IconStyle, IconType, PathSource};

verus! {

/// The import path derived from a style and a license tier:
/// `@fortawesome/<tier>-<style>-svg-icons`.
pub open spec fn icon_path_spec(style: IconStyle, tier: IconType) -> Seq<char> {
    "@fortawesome/"@ + tier_token(tier) + "-"@ + style_token(style) + "-svg-icons"@
}

/// The import path of a descriptor: an explicit path is returned unchanged,
/// a derived one follows [`icon_path_spec`].
pub open spec fn resolve_spec(p: PathSource) -> Seq<char> {
    match p {
        PathSource::Explicit(s) => s@,
        PathSource::Derived(style, tier) => icon_path_spec(style, tier),
    }
}

/// Builds the path to the icon package based on the icon style and type.
pub fn build_icon_path(icon_style: &IconStyle, icon_type: &IconType) -> (r: String)
    ensures
        r@ == icon_path_spec(*icon_style, *icon_type),
{
    proof {
        reveal_strlit("@fortawesome/");
        reveal_strlit("-");
        reveal_strlit("-svg-icons");
        reveal_strlit("solid");
        reveal_strlit("regular");
        reveal_strlit("light");
        reveal_strlit("thin");
        reveal_strlit("duotone");
        reveal_strlit("brands");
        reveal_strlit("pro");
        reveal_strlit("free");
        reveal_strlit("@fortawesome/pro-solid-svg-icons");
        reveal_strlit("@fortawesome/pro-regular-svg-icons");
        reveal_strlit("@fortawesome/pro-light-svg-icons");
        reveal_strlit("@fortawesome/pro-thin-svg-icons");
        reveal_strlit("@fortawesome/pro-duotone-svg-icons");
        reveal_strlit("@fortawesome/pro-brands-svg-icons");
        reveal_strlit("@fortawesome/free-solid-svg-icons");
        reveal_strlit("@fortawesome/free-regular-svg-icons");
        reveal_strlit("@fortawesome/free-light-svg-icons");
        reveal_strlit("@fortawesome/free-thin-svg-icons");
        reveal_strlit("@fortawesome/free-duotone-svg-icons");
        reveal_strlit("@fortawesome/free-brands-svg-icons");
    }
    let r = match (icon_style, icon_type) {
        (IconStyle::Solid, IconType::Pro) => "@fortawesome/pro-solid-svg-icons".to_owned(),
        (IconStyle::Regular, IconType::Pro) => "@fortawesome/pro-regular-svg-icons".to_owned(),
        (IconStyle::Light, IconType::Pro) => "@fortawesome/pro-light-svg-icons".to_owned(),
        (IconStyle::Thin, IconType::Pro) => "@fortawesome/pro-thin-svg-icons".to_owned(),
        (IconStyle::Duotone, IconType::Pro) => "@fortawesome/pro-duotone-svg-icons".to_owned(),
        (IconStyle::Brands, IconType::Pro) => "@fortawesome/pro-brands-svg-icons".to_owned(),
        (IconStyle::Solid, IconType::Free) => "@fortawesome/free-solid-svg-icons".to_owned(),
        (IconStyle::Regular, IconType::Free) => "@fortawesome/free-regular-svg-icons".to_owned(),
        (IconStyle::Light, IconType::Free) => "@fortawesome/free-light-svg-icons".to_owned(),
        (IconStyle::Thin, IconType::Free) => "@fortawesome/free-thin-svg-icons".to_owned(),
        (IconStyle::Duotone, IconType::Free) => "@fortawesome/free-duotone-svg-icons".to_owned(),
        (IconStyle::Brands, IconType::Free) => "@fortawesome/free-brands-svg-icons".to_owned(),
    };
    proof {
        assert(r@ =~= icon_path_spec(*icon_style, *icon_type));
    }
    r
}

/// Produces the import path of a descriptor: an explicit path is the
/// identity, a derived one is built from its style and tier.
pub fn resolve(p: &PathSource) -> (r: String)
    ensures
        r@ == resolve_spec(*p),
{
    match p {
        PathSource::Explicit(s) => s.clone(),
        PathSource::Derived(style, tier) => build_icon_path(style, tier),
    }
}

/// Resolving an explicit path is the identity: the configured path comes
/// back unchanged.
pub proof fn lemma_resolve_explicit(p: PathSource)
    requires
        p is Explicit,
    ensures
        resolve_spec(p) == p->Explicit_0@,
{
}

/// Path resolution is deterministic: equal descriptors resolve to equal
/// paths.
pub proof fn lemma_resolve_deterministic(p1: PathSource, p2: PathSource)
    requires
        p1 == p2,
    ensures
        resolve_spec(p1) == resolve_spec(p2),
{
}

/// The twelve derived paths, written out in full.
spec fn path_literal(style: IconStyle, tier: IconType) -> Seq<char> {
    match (style, tier) {
        (IconStyle::Solid, IconType::Pro) => "@fortawesome/pro-solid-svg-icons"@,
        (IconStyle::Regular, IconType::Pro) => "@fortawesome/pro-regular-svg-icons"@,
        (IconStyle::Light, IconType::Pro) => "@fortawesome/pro-light-svg-icons"@,
        (IconStyle::Thin, IconType::Pro) => "@fortawesome/pro-thin-svg-icons"@,
        (IconStyle::Duotone, IconType::Pro) => "@fortawesome/pro-duotone-svg-icons"@,
        (IconStyle::Brands, IconType::Pro) => "@fortawesome/pro-brands-svg-icons"@,
        (IconStyle::Solid, IconType::Free) => "@fortawesome/free-solid-svg-icons"@,
        (IconStyle::Regular, IconType::Free) => "@fortawesome/free-regular-svg-icons"@,
        (IconStyle::Light, IconType::Free) => "@fortawesome/free-light-svg-icons"@,
        (IconStyle::Thin, IconType::Free) => "@fortawesome/free-thin-svg-icons"@,
        (IconStyle::Duotone, IconType::Free) => "@fortawesome/free-duotone-svg-icons"@,
        (IconStyle::Brands, IconType::Free) => "@fortawesome/free-brands-svg-icons"@,
    }
}

proof fn lemma_path_is_literal(style: IconStyle, tier: IconType)
    ensures
        icon_path_spec(style, tier) == path_literal(style, tier),
{
    reveal_strlit("@fortawesome/");
    reveal_strlit("-");
    reveal_strlit("-svg-icons");
    reveal_strlit("solid");
    reveal_strlit("regular");
    reveal_strlit("light");
    reveal_strlit("thin");
    reveal_strlit("duotone");
    reveal_strlit("brands");
    reveal_strlit("pro");
    reveal_strlit("free");
    reveal_strlit("@fortawesome/pro-solid-svg-icons");
    reveal_strlit("@fortawesome/pro-regular-svg-icons");
    reveal_strlit("@fortawesome/pro-light-svg-icons");
    reveal_strlit("@fortawesome/pro-thin-svg-icons");
    reveal_strlit("@fortawesome/pro-duotone-svg-icons");
    reveal_strlit("@fortawesome/pro-brands-svg-icons");
    reveal_strlit("@fortawesome/free-solid-svg-icons");
    reveal_strlit("@fortawesome/free-regular-svg-icons");
    reveal_strlit("@fortawesome/free-light-svg-icons");
    reveal_strlit("@fortawesome/free-thin-svg-icons");
    reveal_strlit("@fortawesome/free-duotone-svg-icons");
    reveal_strlit("@fortawesome/free-brands-svg-icons");
    match (style, tier) {
        (IconStyle::Solid, IconType::Pro) => {
            assert(icon_path_spec(style, tier) =~= path_literal(style, tier));
        },
        (IconStyle::Regular, IconType::Pro) => {
            assert(icon_path_spec(style, tier) =~= path_literal(style, tier));
        },
        (IconStyle::Light, IconType::Pro) => {
            assert(icon_path_spec(style, tier) =~= path_literal(style, tier));
        },
        (IconStyle::Thin, IconType::Pro) => {
            assert(icon_path_spec(style, tier) =~= path_literal(style, tier));
        },
        (IconStyle::Duotone, IconType::Pro) => {
            assert(icon_path_spec(style, tier) =~= path_literal(style, tier));
        },
        (IconStyle::Brands, IconType::Pro) => {
            assert(icon_path_spec(style, tier) =~= path_literal(style, tier));
        },
        (IconStyle::Solid, IconType::Free) => {
            assert(icon_path_spec(style, tier) =~= path_literal(style, tier));
        },
        (IconStyle::Regular, IconType::Free) => {
            assert(icon_path_spec(style, tier) =~= path_literal(style, tier));
        },
        (IconStyle::Light, IconType::Free) => {
            assert(icon_path_spec(style, tier) =~= path_literal(style, tier));
        },
        (IconStyle::Thin, IconType::Free) => {
            assert(icon_path_spec(style, tier) =~= path_literal(style, tier));
        },
        (IconStyle::Duotone, IconType::Free) => {
            assert(icon_path_spec(style, tier) =~= path_literal(style, tier));
        },
        (IconStyle::Brands, IconType::Free) => {
            assert(icon_path_spec(style, tier) =~= path_literal(style, tier));
        },
    }
}

/// The character that distinguishes the tier inside a derived path.
spec fn tier_first(tier: IconType) -> char {
    match tier {
        IconType::Pro => 'p',
        IconType::Free => 'f',
    }
}

/// The character that distinguishes the style inside a derived path.
spec fn style_first(style: IconStyle) -> char {
    match style {
        IconStyle::Solid => 's',
        IconStyle::Regular => 'r',
        IconStyle::Light => 'l',
        IconStyle::Thin => 't',
        IconStyle::Duotone => 'd',
        IconStyle::Brands => 'b',
    }
}

/// Where the style token starts inside a derived path.
spec fn style_pos(tier: IconType) -> int {
    match tier {
        IconType::Pro => 17,
        IconType::Free => 18,
    }
}

proof fn lemma_path_chars(style: IconStyle, tier: IconType)
    ensures
        path_literal(style, tier)[13] == tier_first(tier),
        path_literal(style, tier)[style_pos(tier)] == style_first(style),
{
    reveal_strlit("@fortawesome/pro-solid-svg-icons");
    reveal_strlit("@fortawesome/pro-regular-svg-icons");
    reveal_strlit("@fortawesome/pro-light-svg-icons");
    reveal_strlit("@fortawesome/pro-thin-svg-icons");
    reveal_strlit("@fortawesome/pro-duotone-svg-icons");
    reveal_strlit("@fortawesome/pro-brands-svg-icons");
    reveal_strlit("@fortawesome/free-solid-svg-icons");
    reveal_strlit("@fortawesome/free-regular-svg-icons");
    reveal_strlit("@fortawesome/free-light-svg-icons");
    reveal_strlit("@fortawesome/free-thin-svg-icons");
    reveal_strlit("@fortawesome/free-duotone-svg-icons");
    reveal_strlit("@fortawesome/free-brands-svg-icons");
    match (style, tier) {
        (IconStyle::Solid, IconType::Pro) => {
            assert(path_literal(style, tier)[13] == tier_first(tier));
            assert(path_literal(style, tier)[style_pos(tier)] == style_first(style));
        },
        (IconStyle::Regular, IconType::Pro) => {
            assert(path_literal(style, tier)[13] == tier_first(tier));
            assert(path_literal(style, tier)[style_pos(tier)] == style_first(style));
        },
        (IconStyle::Light, IconType::Pro) => {
            assert(path_literal(style, tier)[13] == tier_first(tier));
            assert(path_literal(style, tier)[style_pos(tier)] == style_first(style));
        },
        (IconStyle::Thin, IconType::Pro) => {
            assert(path_literal(style, tier)[13] == tier_first(tier));
            assert(path_literal(style, tier)[style_pos(tier)] == style_first(style));
        },
        (IconStyle::Duotone, IconType::Pro) => {
            assert(path_literal(style, tier)[13] == tier_first(tier));
            assert(path_literal(style, tier)[style_pos(tier)] == style_first(style));
        },
        (IconStyle::Brands, IconType::Pro) => {
            assert(path_literal(style, tier)[13] == tier_first(tier));
            assert(path_literal(style, tier)[style_pos(tier)] == style_first(style));
        },
        (IconStyle::Solid, IconType::Free) => {
            assert(path_literal(style, tier)[13] == tier_first(tier));
            assert(path_literal(style, tier)[style_pos(tier)] == style_first(style));
        },
        (IconStyle::Regular, IconType::Free) => {
            assert(path_literal(style, tier)[13] == tier_first(tier));
            assert(path_literal(style, tier)[style_pos(tier)] == style_first(style));
        },
        (IconStyle::Light, IconType::Free) => {
            assert(path_literal(style, tier)[13] == tier_first(tier));
            assert(path_literal(style, tier)[style_pos(tier)] == style_first(style));
        },
        (IconStyle::Thin, IconType::Free) => {
            assert(path_literal(style, tier)[13] == tier_first(tier));
            assert(path_literal(style, tier)[style_pos(tier)] == style_first(style));
        },
        (IconStyle::Duotone, IconType::Free) => {
            assert(path_literal(style, tier)[13] == tier_first(tier));
            assert(path_literal(style, tier)[style_pos(tier)] == style_first(style));
        },
        (IconStyle::Brands, IconType::Free) => {
            assert(path_literal(style, tier)[13] == tier_first(tier));
            assert(path_literal(style, tier)[style_pos(tier)] == style_first(style));
        },
    }
}

/// Derived paths are injective: distinct (style, tier) pairs yield
/// distinct path strings.
pub proof fn lemma_derived_path_injective(
    s1: IconStyle,
    t1: IconType,
    s2: IconStyle,
    t2: IconType,
)
    ensures
        icon_path_spec(s1, t1) == icon_path_spec(s2, t2) ==> (s1 == s2 && t1 == t2),
{
    lemma_path_is_literal(s1, t1);
    lemma_path_is_literal(s2, t2);
    lemma_path_chars(s1, t1);
    lemma_path_chars(s2, t2);
    if icon_path_spec(s1, t1) == icon_path_spec(s2, t2) {
        assert(tier_first(t1) == tier_first(t2));
        assert(t1 == t2);
        assert(style_first(s1) == style_first(s2));
        assert(s1 == s2);
    }
}

} // verus!
