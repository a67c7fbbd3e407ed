//! The error taxonomy of the generation pipeline, and the bridge to the
//! template engine's own error type.

use vstd::prelude::*;
use vstd::string::StringExecFns;

verus! {

/// Declares the template engine's error type so that it can be carried
/// inside [`GenError`]; the value is opaque to the verifier.
#[verifier::external_type_specification]
#[verifier::external_body]
pub struct ExTeraError(tera::Error);

/// An error of the generation pipeline. Configuration errors come from
/// descriptor validation; template errors carry the engine's error.
#[derive(Debug)]
pub enum GenError {
    /// A descriptor names neither an explicit path nor a (style, tier) pair,
    /// or names one of them only in part.
    MissingField,
    /// A descriptor names both an explicit path and a (style, tier) pair.
    ConflictingFields,
    /// The style token is not one of the six enumerated styles.
    UnknownStyle,
    /// The icon-type token is neither `pro` nor `free`.
    UnknownIconType,
    /// The template uses a construct outside plain substitution.
    TemplateUnsupported,
    /// The engine could not parse the template source.
    TemplateLoad(tera::Error),
    /// The engine could not render the template.
    TemplateRender(tera::Error),
}

/// Relies on the `Display` impl of `tera::Error` for the engine's own
/// message text.
#[verifier::external_body]
fn tera_error_message(e: &tera::Error) -> String {
    format!("{}", e)
}

impl GenError {
    /// A human-readable description of the error, for the caller to print.
    pub fn describe(&self) -> (r: String)
        ensures
            self is MissingField ==> r@ == "Config parsing failed: icon is missing a required field"@,
            self is ConflictingFields ==> r@
                == "Config parsing failed: icon gives both an explicit path and a style/type pair"@,
            self is UnknownStyle ==> r@ == "Config parsing failed: unrecognized icon style"@,
            self is UnknownIconType ==> r@ == "Config parsing failed: unrecognized icon type"@,
            self is TemplateUnsupported ==> r@
                == "Template loading failed: the template uses a construct outside plain substitution"@,
            self is TemplateLoad ==> r@.len() >= "Template loading failed: "@.len() && r@.subrange(
                0,
                "Template loading failed: "@.len() as int,
            ) == "Template loading failed: "@,
            self is TemplateRender ==> r@.len() >= "Template rendering failed: "@.len()
                && r@.subrange(0, "Template rendering failed: "@.len() as int)
                == "Template rendering failed: "@,
    {
        match self {
            GenError::MissingField => "Config parsing failed: icon is missing a required field".to_owned(),
            GenError::ConflictingFields => "Config parsing failed: icon gives both an explicit path and a style/type pair".to_owned(),
            GenError::UnknownStyle => "Config parsing failed: unrecognized icon style".to_owned(),
            GenError::UnknownIconType => "Config parsing failed: unrecognized icon type".to_owned(),
            GenError::TemplateUnsupported => "Template loading failed: the template uses a construct outside plain substitution".to_owned(),
            GenError::TemplateLoad(e) => {
                let r = "Template loading failed: ".to_owned().concat(
                    tera_error_message(e).as_str(),
                );
                proof {
                    assert(r@.subrange(0, "Template loading failed: "@.len() as int)
                        =~= "Template loading failed: "@);
                }
                r
            },
            GenError::TemplateRender(e) => {
                let r = "Template rendering failed: ".to_owned().concat(
                    tera_error_message(e).as_str(),
                );
                proof {
                    assert(r@.subrange(0, "Template rendering failed: "@.len() as int)
                        =~= "Template rendering failed: "@);
                }
                r
            },
        }
    }
}

} // verus!
