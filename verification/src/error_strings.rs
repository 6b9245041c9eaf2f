use vstd::prelude::*;

verus! {

/// The short form of a causal chain of error messages, outermost first:
/// the outermost message in bold markup, then the root cause.
pub open spec fn spec_error_string(chain: Seq<String>) -> Seq<char> {
    "<b>"@ + chain[0]@ + "</>\nCaused by:\n    "@ + chain[chain.len() - 1]@
}

/// The verbose form of one chain entry: the first is a bold header line,
/// every later one continues on a line of its own.
pub open spec fn spec_verbose_entry(message: String, first: bool) -> Seq<char> {
    if first {
        "<b>[*] "@ + message@ + "</>"@
    } else {
        "\n[+] "@ + message@
    }
}

/// The verbose form of a causal chain of error messages, outermost first.
pub open spec fn spec_verbose_error_string(chain: Seq<String>) -> Seq<char>
    decreases chain.len(),
{
    if chain.len() == 0 {
        Seq::empty()
    } else if chain.len() == 1 {
        spec_verbose_entry(chain[0], true)
    } else {
        spec_verbose_error_string(chain.drop_last()) + spec_verbose_entry(chain.last(), false)
    }
}

/// Render a causal chain of error messages, outermost first, in the short
/// form: the outermost message, then the root cause.
pub fn error_string(chain: &Vec<String>) -> (r: String)
    requires
        chain@.len() >= 1,
    ensures
        r@ == spec_error_string(chain@),
{
    let mut out = String::new();
    out.append("<b>");
    out.append(chain[0].as_str());
    out.append("</>\nCaused by:\n    ");
    out.append(chain[chain.len() - 1].as_str());
    out
}

/// Render a causal chain of error messages, outermost first, in the
/// verbose form: every link on a line of its own.
pub fn verbose_error_string(chain: &Vec<String>) -> (r: String)
    ensures
        r@ == spec_verbose_error_string(chain@),
{
    let mut out = String::new();
    let mut i: usize = 0;
    while i < chain.len()
        invariant
            i <= chain@.len(),
            out@ == spec_verbose_error_string(chain@.take(i as int)),
        decreases chain@.len() - i,
    {
        if i == 0 {
            out.append("<b>[*] ");
            out.append(chain[0].as_str());
            out.append("</>");
        } else {
            out.append("\n[+] ");
            out.append(chain[i].as_str());
        }
        proof {
            assert(chain@.take(i + 1).drop_last() =~= chain@.take(i as int));
            assert(chain@.take(i + 1).last() == chain@[i as int]);
            assert(chain@.take(i + 1)[0] == chain@[0]);
        }
        i = i + 1;
    }
    proof {
        assert(chain@.take(i as int) =~= chain@);
    }
    out
}

/// Render a causal chain for the log: verbose when verbose diagnostics are
/// switched on, short otherwise.
pub fn log_string(verbose: bool, chain: &Vec<String>) -> (r: String)
    requires
        chain@.len() >= 1,
    ensures
        verbose ==> r@ == spec_verbose_error_string(chain@),
        !verbose ==> r@ == spec_error_string(chain@),
{
    if verbose {
        verbose_error_string(chain)
    } else {
        error_string(chain)
    }
}

} // verus!
