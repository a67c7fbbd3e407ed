//! The template renderer: compiles a plain substitution template once
//! through the tera engine and renders it with the three per-icon values.
//!
//! Only plain templates are accepted: raw text, comments, and
//! substitution expressions holding no parenthesis, no string or numeric
//! literal, and no filter pipe -- which leaves the substitution
//! variables themselves, dotted and bracketed access to them, string
//! concatenation, and logic, membership and argument-less tests over
//! them. Within that fragment every engine construct is a pure function
//! of the template text and the supplied values, and none makes the
//! engine fail abruptly, so both the success and the output of a render
//! can be named as such functions. Constructs that could reach the
//! environment or other outside state (the engine's `get_env` function,
//! statement blocks) and those on which the engine's evaluation can fail
//! abruptly rather than return an error (a float literal beyond the
//! largest finite float; a filter that turns an unrestricted substitution
//! value into a number, which arithmetic or a logic position then
//! consumes with a fixed expectation) are excluded at load time.

use vstd::prelude::*;
use vstd::string::StrSliceExecFns;

use crate::errors::GenError;

verus! {

/// Where a scan of the template text stands: in raw text, inside a
/// `{{ ... }}` substitution expression, or inside a `{# ... #}` comment.
#[derive(Clone, Copy, Debug)]
pub enum ScanState {
    Raw,
    Expr,
    Comment,
}

/// A character that may not stand inside a substitution expression: a
/// parenthesis (no function or macro call, such as the engine's
/// environment lookup), a string quote of any of the engine's three kinds
/// (so the first `}}` really closes the expression), the filter pipe (a
/// filter can turn an unrestricted substitution value into a number,
/// which the engine's arithmetic and logic positions then consume with
/// unchecked expectations that can fail abruptly), or a digit (no numeric
/// literal: an out-of-range float literal would make the engine's
/// evaluation fail abruptly rather than return an error).
pub open spec fn forbidden_in_expr(c: char) -> bool {
    ||| c == '('
    ||| c == '"'
    ||| c == '\''
    ||| c == '`'
    ||| c == '|'
    ||| c == '0'
    ||| c == '1'
    ||| c == '2'
    ||| c == '3'
    ||| c == '4'
    ||| c == '5'
    ||| c == '6'
    ||| c == '7'
    ||| c == '8'
    ||| c == '9'
}

/// Scans the template from position `i` in the given state, mirroring how
/// the engine's lexer divides the text. Raw text may hold anything except
/// the opening of a statement block, `{%`; a comment runs to the first
/// `#}` and may hold anything; an expression may hold no character that
/// [`forbidden_in_expr`] names and runs to the first `}}`.
pub open spec fn plain_from(s: Seq<char>, i: int, state: ScanState) -> bool
    decreases s.len() - i,
{
    if i < 0 || i >= s.len() {
        true
    } else {
        match state {
            ScanState::Raw => {
                if s[i] == '{' && i + 1 < s.len() && s[i + 1] == '%' {
                    false
                } else if s[i] == '{' && i + 1 < s.len() && s[i + 1] == '{' {
                    plain_from(s, i + 2, ScanState::Expr)
                } else if s[i] == '{' && i + 1 < s.len() && s[i + 1] == '#' {
                    plain_from(s, i + 2, ScanState::Comment)
                } else {
                    plain_from(s, i + 1, ScanState::Raw)
                }
            },
            ScanState::Expr => {
                if forbidden_in_expr(s[i]) {
                    false
                } else if s[i] == '}' && i + 1 < s.len() && s[i + 1] == '}' {
                    plain_from(s, i + 2, ScanState::Raw)
                } else {
                    plain_from(s, i + 1, ScanState::Expr)
                }
            },
            ScanState::Comment => {
                if s[i] == '#' && i + 1 < s.len() && s[i + 1] == '}' {
                    plain_from(s, i + 2, ScanState::Raw)
                } else {
                    plain_from(s, i + 1, ScanState::Comment)
                }
            },
        }
    }
}

/// A template is plain when it cannot reach any construct whose output
/// depends on more than the template text and the substitution values,
/// and none on which the engine's evaluation would fail abruptly: no `{%`
/// statement block outside a comment, and inside each `{{ ... }}`
/// expression no parenthesis, no string or numeric literal and no filter
/// pipe.
pub open spec fn plain_template(s: Seq<char>) -> bool {
    plain_from(s, 0, ScanState::Raw)
}

fn expr_char_forbidden(c: char) -> (r: bool)
    ensures
        r == forbidden_in_expr(c),
{
    c == '(' || c == '"' || c == '\'' || c == '`' || c == '|' || c == '0' || c == '1' || c == '2'
        || c == '3' || c == '4' || c == '5' || c == '6' || c == '7' || c == '8' || c == '9'
}

/// Decides whether a template source is plain in the sense of
/// [`plain_template`].
pub fn template_supported(s: &str) -> (r: bool)
    ensures
        r == plain_template(s@),
{
    let n = s.unicode_len();
    let mut i: usize = 0;
    let mut state = ScanState::Raw;
    while i < n
        invariant
            0 <= i <= n,
            n == s@.len(),
            plain_template(s@) == plain_from(s@, i as int, state),
        decreases n - i,
    {
        let c = s.get_char(i);
        match state {
            ScanState::Raw => {
                if c == '{' && i + 1 < n {
                    let d = s.get_char(i + 1);
                    if d == '%' {
                        return false;
                    }
                    if d == '{' {
                        i += 2;
                        state = ScanState::Expr;
                        continue;
                    }
                    if d == '#' {
                        i += 2;
                        state = ScanState::Comment;
                        continue;
                    }
                }
                i += 1;
            },
            ScanState::Expr => {
                if expr_char_forbidden(c) {
                    return false;
                }
                if c == '}' && i + 1 < n && s.get_char(i + 1) == '}' {
                    i += 2;
                    state = ScanState::Raw;
                } else {
                    i += 1;
                }
            },
            ScanState::Comment => {
                if c == '#' && i + 1 < n && s.get_char(i + 1) == '}' {
                    i += 2;
                    state = ScanState::Raw;
                } else {
                    i += 1;
                }
            },
        }
    }
    true
}

/// What rendering a plain template produces: `Some` output, or `None`
/// when the engine rejects the render (an undefined variable, a filter
/// applied to the wrong kind of value) -- either way a function of the
/// template source and the three substitution values alone. The function
/// itself is the engine's substitution semantics and is not written out
/// here; the contracts of this module relate every render to it.
pub uninterp spec fn rendered_of(
    template: Seq<char>,
    icon_name: Seq<char>,
    icon_path: Seq<char>,
    component_name: Seq<char>,
) -> Option<Seq<char>>;

/// Whether the engine accepts a template source: parsing is a pure
/// function of the source text alone.
pub uninterp spec fn compiles_of(source: Seq<char>) -> bool;

/// Declares the template engine's compiled-template store so that a
/// [`Template`] can hold one; the value is opaque to the verifier.
#[verifier::external_type_specification]
#[verifier::external_body]
pub struct ExTera(tera::Tera);

/// A compiled template together with the source it was compiled from.
/// It is compiled once and then shared read-only by every render call.
/// The fields are private to this module and every value is built by
/// [`Template::compile`], so the stored engine is always the one compiled
/// from the stored source; the render contract below rests on that
/// coupling.
pub struct Template {
    engine: tera::Tera,
    source: String,
}

impl View for Template {
    type V = Seq<char>;

    /// A template is viewed as the source text it was compiled from.
    closed spec fn view(&self) -> Seq<char> {
        self.source@
    }
}

/// Relies on `tera::Tera::default` and `tera::Tera::add_raw_template`:
/// parses the template source and stores it under a fixed name (one that
/// triggers no automatic escaping), returning the engine's error when the
/// source does not parse. Whether the parse succeeds depends on the
/// source text alone, named [`compiles_of`].
#[verifier::external_body]
fn compile_raw(source: &str) -> (r: Result<tera::Tera, tera::Error>)
    ensures
        r is Ok <==> compiles_of(source@),
{
    let mut engine = tera::Tera::default();
    engine.add_raw_template("icon", source)?;
    Ok(engine)
}

/// Relies on `tera::Tera::render` with a context holding exactly the keys
/// `icon_name`, `icon_path` and `component_name`: for a template admitted
/// by [`plain_template`] (no statement blocks; no parentheses, string or
/// numeric literals or filter pipes inside expressions, so no function
/// can be called, the environment and all other outside state are out of
/// reach, and no number -- whose arithmetic, comparison and logic
/// handling in the engine can fail abruptly -- can form from the
/// unrestricted substitution values; no automatic escaping under the
/// fixed template name), whether the render succeeds and what it produces
/// are together a function of the template source and the three values
/// alone, named [`rendered_of`].
#[verifier::external_body]
fn render_raw(t: &Template, icon_name: &str, icon_path: &str, component_name: &str) -> (r: Result<
    String,
    tera::Error,
>)
    requires
        plain_template(t@),
    ensures
        r is Ok <==> rendered_of(t@, icon_name@, icon_path@, component_name@) is Some,
        r matches Ok(s) ==> Some(s@) == rendered_of(t@, icon_name@, icon_path@, component_name@),
{
    let mut context = tera::Context::new();
    context.insert("icon_name", icon_name);
    context.insert("icon_path", icon_path);
    context.insert("component_name", component_name);
    t.engine.render("icon", &context)
}

impl Template {
    /// Every template the library hands out is plain: the constructor
    /// rejects any other source.
    #[verifier::type_invariant]
    spec fn plain(self) -> bool {
        plain_template(self@)
    }

    /// Compiles a template source. A source outside the plain fragment is
    /// rejected as unsupported; a plain source is accepted exactly when
    /// the engine parses it, and rejected with the engine's load error
    /// otherwise.
    pub fn compile(source: &str) -> (r: Result<Template, GenError>)
        ensures
            r matches Ok(t) ==> t@ == source@ && plain_template(source@),
            plain_template(source@) ==> (r is Ok <==> compiles_of(source@)),
            !plain_template(source@) ==> (r matches Err(e) && e is TemplateUnsupported),
            (plain_template(source@) && r is Err) ==> r->Err_0 is TemplateLoad,
    {
        if !template_supported(source) {
            return Err(GenError::TemplateUnsupported);
        }
        match compile_raw(source) {
            Ok(engine) => Ok(Template { engine, source: source.to_owned() }),
            Err(e) => Err(GenError::TemplateLoad(e)),
        }
    }

    /// Renders the template with the three per-icon substitution values.
    /// The render succeeds exactly when the engine's substitution of the
    /// three values into this template's source does, and then returns
    /// exactly that substitution.
    pub fn render(&self, icon_name: &str, icon_path: &str, component_name: &str) -> (r: Result<
        String,
        GenError,
    >)
        ensures
            r is Ok <==> rendered_of(self@, icon_name@, icon_path@, component_name@) is Some,
            r matches Ok(s) ==> Some(s@) == rendered_of(
                self@,
                icon_name@,
                icon_path@,
                component_name@,
            ),
            r matches Err(e) ==> e is TemplateRender,
    {
        proof {
            use_type_invariant(&*self);
        }
        match render_raw(self, icon_name, icon_path, component_name) {
            Ok(s) => Ok(s),
            Err(e) => Err(GenError::TemplateRender(e)),
        }
    }
}

/// Rendering is deterministic: the same template source and the same three
/// substitution values always succeed or fail alike and yield the same
/// output.
pub proof fn lemma_render_deterministic(
    template1: Seq<char>,
    icon_name1: Seq<char>,
    icon_path1: Seq<char>,
    component_name1: Seq<char>,
    template2: Seq<char>,
    icon_name2: Seq<char>,
    icon_path2: Seq<char>,
    component_name2: Seq<char>,
)
    requires
        template1 == template2,
        icon_name1 == icon_name2,
        icon_path1 == icon_path2,
        component_name1 == component_name2,
    ensures
        rendered_of(template1, icon_name1, icon_path1, component_name1) == rendered_of(
            template2,
            icon_name2,
            icon_path2,
            component_name2,
        ),
{
}

} // verus!
