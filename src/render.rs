//! Rendering a template's text against the settings.
use vstd::prelude::*;
use crate::settings::{table_contents, Settings};

verus! {

#[verifier::external_type_specification]
#[verifier::external_body]
pub struct ExRenderError(minijinja::Error);

/// What a template renders to with the given variables, or `None` where it
/// does not parse or fails while rendering.
pub uninterp spec fn rendered_of(
    source: Seq<char>,
    settings: Map<Seq<char>, toml::Value>,
) -> Option<Seq<char>>;

/// Whether `s` opens no directive: nowhere does `{` stand before `{`, `%` or
/// `#`.
pub open spec fn is_literal_text(s: Seq<char>) -> bool {
    forall|i: int|
        0 <= i < s.len() - 1 ==> !(#[trigger] s[i] == '{' && (s[i + 1] == '{' || s[i + 1] == '%'
            || s[i + 1] == '#'))
}

/// Relies on minijinja::Environment::render_str in an environment that keeps
/// a trailing newline: the result depends on the text and the variables
/// alone, and text that opens no directive comes out as it went in.
#[verifier::external_body]
fn render_str_with(source: &str, settings: &toml::Table) -> (r: Result<String, minijinja::Error>)
    ensures
        r is Ok <==> rendered_of(source@, table_contents(*settings)) is Some,
        r matches Ok(out) ==> rendered_of(source@, table_contents(*settings)) == Some(out@),
        is_literal_text(source@) ==> (r is Ok && r->Ok_0@ == source@),
{
    let mut env = minijinja::Environment::new();
    env.set_keep_trailing_newline(true);
    env.render_str(source, settings)
}

/// Relies on the Display impl of minijinja::Error: the error's message.
#[verifier::external_body]
fn render_error_message(e: &minijinja::Error) -> (r: String) {
    e.to_string()
}

/// Renders `source` with the settings as its variables. Each call stands on
/// its own: nothing is kept between renders. A template that does not parse or
/// that fails while rendering gives its message as the error; text that opens
/// no directive is returned as it is.
pub fn render_template(source: &str, settings: &Settings) -> (r: Result<String, String>)
    ensures
        r is Ok <==> rendered_of(source@, settings@) is Some,
        r matches Ok(out) ==> rendered_of(source@, settings@) == Some(out@),
        is_literal_text(source@) ==> (r is Ok && r->Ok_0@ == source@),
{
    match render_str_with(source, &settings.table) {
        Ok(out) => Ok(out),
        Err(e) => Err(render_error_message(&e)),
    }
}

} // verus!
