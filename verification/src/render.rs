//! Rendering of a successful translation, terse or verbose.

use vstd::prelude::*;

use crate::lang::display_name;
use crate::lang::display_name_of;
use crate::lang::Lang;

verus! {

/// A completed translation. `source` is always concrete: when the request
/// asked for detection, the backend has already resolved it.
#[derive(Clone, Debug)]
pub struct Translation {
    pub source: Lang,
    pub target: Lang,
    pub input: String,
    pub output: String,
}

/// One verbose output line: a language's display name, then the quoted
/// text it labels.
pub open spec fn labeled_line(l: Lang, text: Seq<char>) -> Seq<char> {
    display_name_of(l) + ": \""@ + text + "\""@
}

/// What `render` returns: the bare output text, or, verbosely, a line
/// labeling the input with the resolved source language and a line
/// labeling the output with the target language.
pub open spec fn render_of(t: Translation, verbose: bool) -> Seq<char> {
    if verbose {
        labeled_line(t.source, t.input@) + "\n"@ + labeled_line(t.target, t.output@)
    } else {
        t.output@
    }
}

/// Format a translation for the user. Total: rendering never fails.
pub fn render(t: &Translation, verbose: bool) -> (r: String)
    ensures
        r@ == render_of(*t, verbose),
{
    if verbose {
        let mut out = String::new();
        out.append(display_name(t.source));
        out.append(": \"");
        out.append(t.input.as_str());
        out.append("\"");
        out.append("\n");
        out.append(display_name(t.target));
        out.append(": \"");
        out.append(t.output.as_str());
        out.append("\"");
        proof {
            assert(out@ =~= render_of(*t, true));
        }
        out
    } else {
        t.output.clone()
    }
}

/// Law: the verbose rendering carries both display names and both texts
/// at fixed offsets — the source name opens the first line, the input
/// text follows it inside quotes, and past the newline the target name
/// opens the second line with the output text quoted after it.
pub proof fn lemma_verbose_render_parts(t: Translation)
    ensures
        ({
            let r = render_of(t, true);
            let n1 = display_name_of(t.source).len() as int;
            let n2 = display_name_of(t.target).len() as int;
            let line2 = n1 + 3 + t.input@.len() + 2;
            &&& r.subrange(0, n1) == display_name_of(t.source)
            &&& r.subrange(n1 + 3, n1 + 3 + t.input@.len()) == t.input@
            &&& r.subrange(line2, line2 + n2) == display_name_of(t.target)
            &&& r.subrange(line2 + n2 + 3, line2 + n2 + 3 + t.output@.len()) == t.output@
            &&& r[n1 + 3 + t.input@.len() + 1] == '\n'
        }),
{
    reveal_strlit(": \"");
    reveal_strlit("\"");
    reveal_strlit("\n");
    let r = render_of(t, true);
    let n1 = display_name_of(t.source).len() as int;
    let n2 = display_name_of(t.target).len() as int;
    let line2 = n1 + 3 + t.input@.len() + 2;
    assert(r.subrange(0, n1) =~= display_name_of(t.source));
    assert(r.subrange(n1 + 3, n1 + 3 + t.input@.len()) =~= t.input@);
    assert(r.subrange(line2, line2 + n2) =~= display_name_of(t.target));
    assert(r.subrange(line2 + n2 + 3, line2 + n2 + 3 + t.output@.len()) =~= t.output@);
}

} // verus!
