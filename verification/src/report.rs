//! Uniform diagnostics for every failure: a headline behind an `error:`
//! marker, the detail text, a usage reminder and a pointer to the help
//! flag. Emitting the text and terminating the process are left to the
//! thin outer entry point; here the diagnostic is a value with an exact
//! textual form and a mandated nonzero exit code.

use vstd::prelude::*;

verus! {

/// A failure diagnostic, ready to be formatted.
#[derive(Clone, Debug)]
pub struct Report {
    /// What went wrong, shown after the `error:` marker.
    pub headline: String,
    /// The failure's own text: a backend message relayed unmodified, or
    /// a hint such as the list of supported codes.
    pub detail: String,
    /// True when `detail` is a short enumerable hint, which the outer
    /// layer emphasizes visually; false for a longer descriptive
    /// sentence.
    pub detail_is_hint: bool,
}

/// Everything the diagnostic prints before the detail text.
pub open spec fn report_prefix(headline: Seq<char>, detail_is_hint: bool) -> Seq<char> {
    "error: "@ + headline + "\n"@ + (if detail_is_hint {
        "    "@
    } else {
        "\n"@
    })
}

/// Everything the diagnostic prints after the detail text.
pub open spec fn report_suffix(verbose: bool) -> Seq<char> {
    "\n\n"@ + "\nTip: You can format languages like \":<OUTPUT>\" to detect the input language.\n\n"@
        + (if verbose {
        "USAGE:\n    libretrans <INPUT>:<OUTPUT> <TEXT> --verbose\n\n"@
    } else {
        "USAGE:\n    libretrans [FLAGS] <INPUT>:<OUTPUT> <TEXT>\n\n"@
    }) + "For more information try --help\n"@
}

/// The full diagnostic text: prefix, then the detail verbatim, then the
/// usage reminder and help pointer.
pub open spec fn report_of(
    headline: Seq<char>,
    detail: Seq<char>,
    detail_is_hint: bool,
    verbose: bool,
) -> Seq<char> {
    report_prefix(headline, detail_is_hint) + detail + report_suffix(verbose)
}

impl Report {
    /// Format the diagnostic as it is shown to the user, without the
    /// terminal styling the outer layer may add.
    pub fn text(&self, verbose: bool) -> (out: String)
        ensures
            out@ == report_of(self.headline@, self.detail@, self.detail_is_hint, verbose),
    {
        let mut out = String::new();
        out.append("error: ");
        out.append(self.headline.as_str());
        out.append("\n");
        if self.detail_is_hint {
            out.append("    ");
        } else {
            out.append("\n");
        }
        out.append(self.detail.as_str());
        out.append("\n\n");
        out.append("\nTip: You can format languages like \":<OUTPUT>\" to detect the input language.\n\n");
        if verbose {
            out.append("USAGE:\n    libretrans <INPUT>:<OUTPUT> <TEXT> --verbose\n\n");
        } else {
            out.append("USAGE:\n    libretrans [FLAGS] <INPUT>:<OUTPUT> <TEXT>\n\n");
        }
        out.append("For more information try --help\n");
        proof {
            assert(out@ =~= report_of(
                self.headline@,
                self.detail@,
                self.detail_is_hint,
                verbose,
            ));
        }
        out
    }

    /// The process status every reported failure must exit with: always
    /// nonzero, and this is the sole exit path for a failure.
    pub fn exit_code(&self) -> (c: i32)
        ensures
            c == 1i32,
    {
        1
    }
}

/// Law: the diagnostic text contains the detail verbatim — at the fixed
/// offset right after the prefix — whatever the headline, emphasis choice
/// and verbosity. A backend message relayed as the detail therefore
/// reaches the user unmodified.
pub proof fn lemma_report_contains_detail(
    headline: Seq<char>,
    detail: Seq<char>,
    detail_is_hint: bool,
    verbose: bool,
)
    ensures
        ({
            let out = report_of(headline, detail, detail_is_hint, verbose);
            let i = report_prefix(headline, detail_is_hint).len() as int;
            &&& 0 <= i
            &&& i + detail.len() <= out.len()
            &&& out.subrange(i, i + detail.len()) == detail
        }),
{
    let out = report_of(headline, detail, detail_is_hint, verbose);
    let i = report_prefix(headline, detail_is_hint).len() as int;
    assert(out.subrange(i, i + detail.len()) =~= detail);
}

} // verus!
