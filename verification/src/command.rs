//! Preparing the command that a host's command template describes.

use vstd::prelude::*;
use crate::host::{HOST_FIELD_COUNT, Host, field_name, field_name_at};
use crate::config_host::opt_view;
use crate::text::strings_view;
use vstd::string::StringExecFns;

verus! {

/// What Handlebars renders for a template over a context object whose
/// fields are the given names with string or null values: the rendered
/// text, or the message of the render error when rendering fails.
pub uninterp spec fn handlebars_render(
    template: Seq<char>,
    context: Seq<(Seq<char>, Option<Seq<char>>)>,
) -> Result<Seq<char>, Seq<char>>;

/// The words that `shlex::split` makes of a command line; `None` when the
/// line cannot be split (an unterminated quote or escape).
pub uninterp spec fn shell_words(line: Seq<char>) -> Option<Seq<Seq<char>>>;

/// The view of a rendering context.
pub open spec fn context_view(c: Seq<(String, Option<String>)>) -> Seq<(Seq<char>, Option<Seq<char>>)> {
    c.map_values(|p: (String, Option<String>)| (p.0@, opt_view(p.1)))
}

/// Renders `template` with a fresh `handlebars::Handlebars` registry over an
/// object holding the given fields (`None` as null).
///
/// Trusted: `Handlebars::render_template` returns the rendered text or a
/// render error, depending only on the template and the data; the error
/// becomes its message (`to_string`).
#[verifier::external_body]
fn render_with_handlebars(template: &str, context: &Vec<(String, Option<String>)>) -> (r: Result<String, String>)
    ensures
        match r {
            Ok(s) => handlebars_render(template@, context_view(context@)) == Ok::<Seq<char>, Seq<char>>(s@),
            Err(m) => handlebars_render(template@, context_view(context@)) == Err::<Seq<char>, Seq<char>>(m@),
        },
{
    let data: std::collections::BTreeMap<String, Option<String>> = context.iter().cloned().collect();
    match handlebars::Handlebars::new().render_template(template, &data) {
        Ok(s) => Ok(s),
        Err(e) => Err(e.to_string()),
    }
}

/// Splits a command line into words as a POSIX shell would.
///
/// Trusted: `shlex::split` returns the words, or `None` on malformed input,
/// depending only on the line.
#[verifier::external_body]
fn split_shell_words(line: &str) -> (r: Option<Vec<String>>)
    ensures
        r is Some <==> shell_words(line@) is Some,
        r matches Some(v) ==> shell_words(line@) == Some(strings_view(v@)),
{
    shlex::split(line)
}

/// The fields of a host record as a rendering context: every field name
/// with its value, `None` for options that are not set.
pub open spec fn host_context(h: Host) -> Seq<(Seq<char>, Option<Seq<char>>)> {
    Seq::new(HOST_FIELD_COUNT as nat, |i: int| (field_name(i), h.field_value(i)))
}

/// The rendering context of a host record.
pub fn host_context_fields(host: &Host) -> (r: Vec<(String, Option<String>)>)
    ensures
        context_view(r@) == host_context(*host),
{
    let mut r: Vec<(String, Option<String>)> = Vec::new();
    let mut i: usize = 0;
    while i < HOST_FIELD_COUNT
        invariant
            i <= HOST_FIELD_COUNT,
            context_view(r@) == host_context(*host).take(i as int),
        decreases HOST_FIELD_COUNT - i,
    {
        let ghost before = context_view(r@);
        let name = String::from_str(field_name_at(i));
        let value = host.field_value_at(i);
        r.push((name, value));
        assert(context_view(r@) =~= before.push((field_name(i as int), host.field_value(i as int))));
        assert(context_view(r@) =~= host_context(*host).take(i + 1));
        i = i + 1;
    }
    assert(host_context(*host).take(HOST_FIELD_COUNT as int) =~= host_context(*host));
    r
}

/// Uses the provided Handlebars template to render the command line for a
/// host; the error is the renderer's message.
pub fn render_command(host: &Host, template: &str) -> (r: Result<String, String>)
    ensures
        match r {
            Ok(s) => handlebars_render(template@, host_context(*host)) == Ok::<Seq<char>, Seq<char>>(s@),
            Err(m) => handlebars_render(template@, host_context(*host)) == Err::<Seq<char>, Seq<char>>(m@),
        },
{
    let context = host_context_fields(host);
    render_with_handlebars(template, &context)
}

/// Why a rendered command line cannot be run.
#[derive(Clone, Debug, PartialEq, Eq)]
pub enum CommandError {
    /// The line could not be split into words; it holds the line.
    Unparsable(String),
    /// The line holds no word, so there is no program to run.
    NoProgram,
}

/// Splits a rendered command line into the program and its arguments.
pub fn split_command(line: &str) -> (r: Result<(String, Vec<String>), CommandError>)
    ensures
        match shell_words(line@) {
            None => r matches Err(CommandError::Unparsable(l)) && l@ == line@,
            Some(ws) => if ws.len() == 0 {
                r matches Err(CommandError::NoProgram)
            } else {
                r matches Ok((p, args)) && p@ == ws[0] && strings_view(args@) == ws.drop_first()
            },
        },
{
    match split_shell_words(line) {
        None => Err(CommandError::Unparsable(String::from_str(line))),
        Some(words) => {
            if words.len() == 0 {
                Err(CommandError::NoProgram)
            } else {
                let program = words[0].clone();
                let mut args: Vec<String> = Vec::new();
                let mut i: usize = 1;
                while i < words.len()
                    invariant
                        1 <= i <= words@.len(),
                        strings_view(args@) == strings_view(words@).subrange(1, i as int),
                    decreases words@.len() - i,
                {
                    let ghost before = strings_view(args@);
                    args.push(words[i].clone());
                    assert(strings_view(args@) =~= before.push(words@[i as int]@));
                    assert(strings_view(args@) =~= strings_view(words@).subrange(1, i + 1));
                    i = i + 1;
                }
                assert(strings_view(words@).drop_first() =~= strings_view(words@).subrange(
                    1,
                    words@.len() as int,
                ));
                Ok((program, args))
            }
        },
    }
}

} // verus!
