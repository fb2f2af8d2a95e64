use vstd::prelude::*;
use vstd::string::*;
use crate::Display;
use crate::errors::CaptureError;
use crate::strutil::{
    dec_rep, i64_to_string, occurs_in, replace_all, replace_str, tokenize, tokens_of, views_of,
    lemma_replace_absent,
};

verus! {

/// A fully-built external command line: the program to run and its
/// arguments, in order. Running it is the caller's business; this library
/// only decides what is run.
#[derive(Debug)]
pub struct CommandLine {
    pub program: String,
    pub args: Vec<String>,
}

impl CommandLine {
    /// The argument views, in order.
    pub open spec fn args_view(self) -> Seq<Seq<char>> {
        views_of(self.args@)
    }
}

/// The screenshot tool's region argument: `"x,y wxh"` with the offset of the
/// display and its width and height.
pub open spec fn geometry_spec(d: Display) -> Seq<char> {
    dec_rep(d.x_min as int) + seq![','] + dec_rep(d.y_min as int) + seq![' '] + dec_rep(
        d.x_max - d.x_min,
    ) + seq!['x'] + dec_rep(d.y_max - d.y_min)
}

/// Build the region argument for one display.
pub fn geometry_arg(d: &Display) -> (g: String)
    requires
        d.wf(),
    ensures
        g@ == geometry_spec(*d),
{
    let mut g = i64_to_string(d.x_min);
    g.append(",");
    let y = i64_to_string(d.y_min);
    g.append(y.as_str());
    g.append(" ");
    let w = i64_to_string(d.x_max - d.x_min);
    g.append(w.as_str());
    g.append("x");
    let h = i64_to_string(d.y_max - d.y_min);
    g.append(h.as_str());
    proof {
        reveal_strlit(",");
        reveal_strlit(" ");
        reveal_strlit("x");
        assert(","@ =~= seq![',']);
        assert(" "@ =~= seq![' ']);
        assert("x"@ =~= seq!['x']);
        assert(g@ =~= geometry_spec(*d));
    }
    g
}

/// The screenshot invocation for one display: the fixed tool, its region
/// flag, the region, and the output path.
pub open spec fn screenshot_argv(d: Display, path: Seq<char>) -> Seq<Seq<char>> {
    seq!["-g"@, geometry_spec(d), path]
}

/// Plan the screenshot tool invocation that captures `d` into the file at
/// `path`.
pub fn screenshot_command(d: &Display, path: &str) -> (c: CommandLine)
    requires
        d.wf(),
    ensures
        c.program@ == "grim"@,
        c.args_view() == screenshot_argv(*d, path@),
{
    let mut args: Vec<String> = Vec::new();
    args.push(String::from_str("-g"));
    args.push(geometry_arg(d));
    args.push(String::from_str(path));
    let c = CommandLine { program: String::from_str("grim"), args };
    proof {
        assert(c.args_view() =~= screenshot_argv(*d, path@));
    }
    c
}

/// The filter command template with every `$IN` and then every `$OUT`
/// occurrence replaced by the same path.
pub open spec fn subst_spec(template: Seq<char>, path: Seq<char>) -> Seq<char> {
    replace_all(replace_all(template, "$IN"@, path), "$OUT"@, path)
}

/// Substitute the temp-file path for both placeholder tokens of the filter
/// template. Both point at the same file: the filter mutates it in place.
pub fn substitute_template(template: &str, path: &str) -> (r: String)
    ensures
        r@ == subst_spec(template@, path@),
{
    let first = replace_str(template, "$IN", path);
    replace_str(first.as_str(), "$OUT", path)
}

/// A template that mentions neither `$IN` nor `$OUT` is used unmodified.
pub proof fn lemma_substitution_without_tokens(template: Seq<char>, path: Seq<char>)
    requires
        !occurs_in(template, "$IN"@),
        !occurs_in(template, "$OUT"@),
    ensures
        subst_spec(template, path) == template,
{
    lemma_replace_absent(template, "$IN"@, path);
    lemma_replace_absent(template, "$OUT"@, path);
}

/// Plan the filter invocation for one captured image: substitute the path
/// into the template, tokenize on whitespace, and take the first token as
/// the program. A template with no token at all leaves nothing to run.
pub fn modifier_command(template: &str, path: &str) -> (r: Result<CommandLine, CaptureError>)
    ensures
        ({
            let toks = tokens_of(subst_spec(template@, path@));
            match r {
                Ok(c) => toks.len() > 0 && c.program@ == toks[0] && c.args_view()
                    == toks.drop_first(),
                Err(e) => toks.len() == 0 && e == CaptureError::EmptyFilterCommand,
            }
        }),
{
    let substituted = substitute_template(template, path);
    let mut toks = tokenize(substituted.as_str());
    if toks.len() == 0 {
        return Err(CaptureError::EmptyFilterCommand);
    }
    let ghost toks0 = toks@;
    let program = toks.remove(0);
    let c = CommandLine { program, args: toks };
    proof {
        assert(views_of(toks0)[0] == c.program@);
        assert(c.args_view() =~= views_of(toks0).drop_first());
    }
    Ok(c)
}

} // verus!
