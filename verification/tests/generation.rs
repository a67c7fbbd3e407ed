//! Tests for template compilation, rendering and the batch run, with the
//! real template engine linked in.

use farust::config::{build_icon, Config, Icon, IconStyle, IconType, PathSource};
use farust::errors::GenError;
use farust::generate::{generate_component, run_batch};
use farust::template::{template_supported, Template};

fn icon(name: &str, component_name: &str, source: PathSource) -> Icon {
    Icon {
        name: name.to_string(),
        component_name: component_name.to_string(),
        path_source: source,
    }
}

#[test]
fn template_supported_accepts_plain_substitution() {
    assert!(template_supported("export const {{component_name}}Icon = 1;"));
    assert!(template_supported(""));
    assert!(template_supported("{{ icon_name }} and {{ icon_path }}"));
    // Parentheses and digits in raw text are harmless; only expressions
    // may not hold them.
    assert!(template_supported("export const X = () => 1;"));
    // Comments may hold anything up to the closing marker.
    assert!(template_supported("{# a (note) with {{ and 1.5 #}{{ icon_name }}"));
}

#[test]
fn template_supported_rejects_statements_and_calls() {
    assert!(!template_supported("{% if x %}y{% endif %}"));
    assert!(!template_supported("{{ get_env(name=HOME) }}"));
    assert!(!template_supported("{{ \"literal\" }}"));
    // A statement hidden behind a comment that swallows a `{{` is still
    // seen: the comment ends at the first `#}`.
    assert!(!template_supported("{# {{ #}{% set x = 1 %}{{ x }}"));
    // Numeric literals inside expressions are refused: an out-of-range
    // float literal would make the engine's evaluation panic.
    assert!(!template_supported("{{ 99.9 }}"));
    assert!(!template_supported("{{ 1 }}"));
}

#[test]
fn template_supported_rejects_filter_pipes() {
    // A filter can turn a substitution value into a number, which the
    // engine's arithmetic and logic positions then consume with unchecked
    // expectations: out of the fragment.
    assert!(!template_supported("{{ icon_name | upper }}"));
    assert!(!template_supported("{{ icon_name | float + icon_path | float }}"));
    assert!(!template_supported("{{ icon_name ~ icon_path | length and icon_name }}"));
}

#[test]
fn compile_rejects_numeric_literal_template() {
    let r = Template::compile("{{ 99999999999999999999999999999999999999999999.0 }}");
    assert!(matches!(r, Err(GenError::TemplateUnsupported)));
}

#[test]
fn compile_rejects_malformed_template() {
    let r = Template::compile("{{ unclosed");
    assert!(matches!(r, Err(GenError::TemplateLoad(_))));
}

#[test]
fn compile_rejects_unsupported_template() {
    let r = Template::compile("{% for i in x %}{{ i }}{% endfor %}");
    assert!(matches!(r, Err(GenError::TemplateUnsupported)));
}

#[test]
fn rendering_is_deterministic() {
    let t = Template::compile("Hello {{ icon_name }} at {{ icon_path }}!").unwrap();
    let a = t.render("faGithub", "some/path", "Github").unwrap();
    let b = t.render("faGithub", "some/path", "Github").unwrap();
    assert_eq!(a, b);
    assert_eq!(a, "Hello faGithub at some/path!");
}

#[test]
fn render_fails_on_missing_placeholder() {
    let t = Template::compile("{{ some_other_value }}").unwrap();
    let r = t.render("faGithub", "some/path", "Github");
    assert!(matches!(r, Err(GenError::TemplateRender(_))));
}

#[test]
fn generate_component_names_the_file_after_the_component() {
    let t = Template::compile("body of {{ component_name }}").unwrap();
    let i = icon("faGithub", "Github", PathSource::Explicit("p".to_string()));
    let f = generate_component(&i, &t).unwrap();
    assert_eq!(f.file_name, "GithubIcon.tsx");
    assert_eq!(f.content, "body of Github");
}

#[test]
fn generate_component_substitutes_the_resolved_path() {
    let t = Template::compile("import {{ icon_name }} from \"{{ icon_path }}\";").unwrap();
    let i = icon(
        "faGithub",
        "Github",
        PathSource::Derived(IconStyle::Brands, IconType::Free),
    );
    let f = generate_component(&i, &t).unwrap();
    assert_eq!(
        f.content,
        "import faGithub from \"@fortawesome/free-brands-svg-icons\";"
    );
}

#[test]
fn concrete_scenario_free_brands_github() {
    let built = build_icon(
        "faGithub".to_string(),
        "Github".to_string(),
        None,
        Some("brands".to_string()),
        Some("free".to_string()),
    )
    .unwrap();
    let config = Config { icons: vec![built], output: "out/".to_string() };
    let template_src =
        "export const {{component_name}}Icon = () => <FontAwesomeIcon icon={ {{icon_name}} } />;";
    let template = Template::compile(template_src).unwrap();
    let files = run_batch(&config, &template).unwrap();
    assert_eq!(files.len(), 1);
    assert_eq!(files[0].file_name, "GithubIcon.tsx");
    assert_eq!(
        files[0].content,
        "export const GithubIcon = () => <FontAwesomeIcon icon={ faGithub } />;"
    );
    match &config.icons[0].path_source {
        PathSource::Derived(style, tier) => {
            assert_eq!(
                farust::paths::build_icon_path(style, tier),
                "@fortawesome/free-brands-svg-icons"
            );
        }
        PathSource::Explicit(_) => panic!("expected a derived path"),
    }
}

#[test]
fn empty_icon_list_produces_no_files() {
    let config = Config { icons: Vec::new(), output: "out/".to_string() };
    let template = Template::compile("{{ component_name }}").unwrap();
    let files = run_batch(&config, &template).unwrap();
    assert_eq!(files.len(), 0);
}

#[test]
fn batch_run_is_idempotent() {
    let config = Config {
        icons: vec![
            icon("faGithub", "Github", PathSource::Derived(IconStyle::Brands, IconType::Free)),
            icon("faUser", "User", PathSource::Derived(IconStyle::Solid, IconType::Pro)),
            icon("faStar", "Star", PathSource::Explicit("stars/pkg".to_string())),
        ],
        output: "out/".to_string(),
    };
    let template =
        Template::compile("{{ icon_name }}:{{ icon_path }}:{{ component_name }}").unwrap();
    let first = run_batch(&config, &template).unwrap();
    let second = run_batch(&config, &template).unwrap();
    assert_eq!(first.len(), second.len());
    for (a, b) in first.iter().zip(second.iter()) {
        assert_eq!(a.file_name, b.file_name);
        assert_eq!(a.content, b.content);
    }
}

#[test]
fn batch_run_fails_as_a_whole_when_one_icon_fails() {
    let config = Config {
        icons: vec![icon("faGithub", "Github", PathSource::Explicit("p".to_string()))],
        output: "out/".to_string(),
    };
    // The template references a value outside the three-key contract, so
    // every render of it fails; the batch reports the error and hands back
    // no files at all.
    let template = Template::compile("{{ not_supplied }}").unwrap();
    let r = run_batch(&config, &template);
    assert!(matches!(r, Err(GenError::TemplateRender(_))));
}

#[test]
fn render_error_message_names_the_failed_operation() {
    let t = Template::compile("{{ not_supplied }}").unwrap();
    let e = t.render("a", "b", "c").unwrap_err();
    assert!(e.describe().starts_with("Template rendering failed: "));
}
