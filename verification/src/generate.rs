//! The per-icon generation step and the batch run: resolve the import
//! path, render the template, and package the result as a file name and
//! its content, ready for the caller to write out.

use vstd::prelude::*;
use vstd::string::StringExecFns;

use crate::config::{Config, Icon};
use crate::errors::GenError;
use crate::paths::{resolve, resolve_spec};
use crate::template::{rendered_of, Template};

verus! {

/// The output artifact for one icon: the file it should be written to,
/// named after the component, and the rendered content.
#[derive(Debug, Clone)]
pub struct GeneratedFile {
    /// The bare file name, `<component_name>Icon.tsx`.
    pub file_name: String,
    /// The rendered component source.
    pub content: String,
}

/// Whether the template renders for this icon: the engine's substitution
/// of the icon's name, its resolved import path and its component name
/// succeeds.
pub open spec fn icon_renders(template: Seq<char>, icon: Icon) -> bool {
    rendered_of(template, icon.name@, resolve_spec(icon.path_source), icon.component_name@)
        is Some
}

/// What a successful generation for one icon looks like: the file is named
/// `<component_name>Icon.tsx` and its content is the template rendered
/// with the icon's name, its resolved import path, and its component name.
pub open spec fn generated_ok(icon: Icon, template: Seq<char>, f: GeneratedFile) -> bool {
    &&& f.file_name@ == icon.component_name@ + "Icon.tsx"@
    &&& Some(f.content@) == rendered_of(
        template,
        icon.name@,
        resolve_spec(icon.path_source),
        icon.component_name@,
    )
}

/// Generates a component for the given icon: resolves its import path,
/// renders the template with the three substitution values, and returns
/// the file name and content to write. It succeeds exactly when the
/// render does.
pub fn generate_component(icon: &Icon, template: &Template) -> (r: Result<
    GeneratedFile,
    GenError,
>)
    ensures
        r is Ok <==> icon_renders(template@, *icon),
        r matches Ok(f) ==> generated_ok(*icon, template@, f),
        r matches Err(e) ==> e is TemplateRender,
{
    let icon_path = resolve(&icon.path_source);
    match template.render(
        icon.name.as_str(),
        icon_path.as_str(),
        icon.component_name.as_str(),
    ) {
        Ok(content) => {
            let file_name = icon.component_name.clone().concat("Icon.tsx");
            Ok(GeneratedFile { file_name, content })
        },
        Err(e) => Err(e),
    }
}

/// Runs the whole batch: generates one file per icon, in configuration
/// order, and stops at the first icon whose render fails. The batch
/// succeeds exactly when every icon's render does (an empty icon list
/// succeeds with no output); on failure the error is the first failing
/// icon's, and no file of any icon is handed back.
pub fn run_batch(config: &Config, template: &Template) -> (r: Result<
    Vec<GeneratedFile>,
    GenError,
>)
    ensures
        r is Ok <==> (forall|i: int|
            0 <= i < config.icons@.len() ==> icon_renders(template@, #[trigger] config.icons@[i])),
        r matches Ok(files) ==> files@.len() == config.icons@.len() && (forall|i: int|
            0 <= i < files@.len() ==> generated_ok(config.icons@[i], template@, files@[i])),
        r matches Err(e) ==> e is TemplateRender,
        r is Err ==> (exists|k: int|
            0 <= k < config.icons@.len() && !icon_renders(template@, #[trigger] config.icons@[k])
                && (forall|i: int|
                0 <= i < k ==> icon_renders(template@, #[trigger] config.icons@[i]))),
{
    let mut files: Vec<GeneratedFile> = Vec::new();
    let n = config.icons.len();
    let mut idx: usize = 0;
    while idx < n
        invariant
            0 <= idx <= n,
            n == config.icons@.len(),
            files@.len() == idx,
            forall|i: int|
                0 <= i < idx ==> generated_ok(config.icons@[i], template@, files@[i]),
            forall|i: int|
                0 <= i < idx ==> icon_renders(template@, #[trigger] config.icons@[i]),
        decreases n - idx,
    {
        match generate_component(&config.icons[idx], template) {
            Ok(f) => files.push(f),
            Err(e) => {
                return Err(e);
            },
        }
        idx += 1;
    }
    Ok(files)
}

/// Generation is idempotent: two outputs for the same icon and the same
/// template are byte-identical, so a rerun only overwrites files with the
/// same bytes.
pub proof fn lemma_generate_idempotent(
    icon: Icon,
    template: Seq<char>,
    f1: GeneratedFile,
    f2: GeneratedFile,
)
    requires
        generated_ok(icon, template, f1),
        generated_ok(icon, template, f2),
    ensures
        f1.file_name@ == f2.file_name@,
        f1.content@ == f2.content@,
{
}

} // verus!
