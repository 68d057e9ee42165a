//! Trusted layer over the `tera` crate, which renders the URL templates of
//! the configured remote-fetch commands.

use vstd::prelude::*;

verus! {

/// Whether `tera::Tera::add_raw_template` accepts a template text.
pub uninterp spec fn template_parses(tmpl: Seq<char>) -> bool;

/// Relies on `tera::Tera::add_raw_template`: acceptance of a template added
/// to a fresh instance is a pure function of the template text.
#[verifier::external_body]
pub(crate) fn template_parse_ok(tmpl: &str) -> (r: bool)
    ensures
        r == template_parses(tmpl@),
{
    tera::Tera::default().add_raw_template("cmd", tmpl).is_ok()
}

/// Relies on `tera::Tera::render` over a context holding the argument text as
/// `arg` and its whitespace-split words as `args`. A template can build map
/// values of its own and iterate them, and tera walks such maps in std hash
/// map order, which is seeded per process — so the rendered text is not a
/// function of the template and the context alone, and nothing is assumed of
/// what comes back. A success still implies that the template parsed (a
/// template that is not accepted is never rendered).
#[verifier::external_body]
pub(crate) fn render_url_template(tmpl: &str, arg: &str, args: &Vec<String>) -> (r: Option<
    String,
>)
    ensures
        r is Some ==> template_parses(tmpl@),
{
    let mut tera = tera::Tera::default();
    if tera.add_raw_template("cmd", tmpl).is_err() {
        return None;
    }
    let mut ctx = tera::Context::new();
    ctx.insert("arg", arg);
    ctx.insert("args", args);
    tera.render("cmd", &ctx).ok()
}

} // verus!
