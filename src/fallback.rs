use vstd::prelude::*;
use vstd::string::StringExecFns;
use crate::text::{contains, is_substring};
use crate::address::{Address, address_text};
use crate::adapter::{ToolCommand, command_of, lemma_words};

verus! {

/// Marker that the pairing tool prints when an attempt does not go through.
pub const FAILED_MARKER: &'static str = "failed";

/// Marker that the pairing tool prints when the peer refuses authentication.
pub const AUTH_FAILED_MARKER: &'static str = "status 0x05 (Authentication Failed)";

/// The target answered a pairing attempt made by address alone, judged from the
/// tool's text: neither failure marker occurs in it.
pub open spec fn reachable_output(output: Seq<char>) -> bool {
    !is_substring(FAILED_MARKER@, output) && !is_substring(AUTH_FAILED_MARKER@, output)
}

/// Classifies the combined text of a fallback pairing attempt: `true` (reachable)
/// unless it holds `"failed"` or `"status 0x05 (Authentication Failed)"`.
pub fn classify_fallback_output(output: &str) -> (reachable: bool)
    ensures
        reachable == reachable_output(output@),
{
    !contains(output, FAILED_MARKER) && !contains(output, AUTH_FAILED_MARKER)
}

/// Classifies a fallback pairing attempt from its standard output and its error
/// output, read as one text in that order.
pub fn classify_pair_streams(stdout: &str, stderr: &str) -> (reachable: bool)
    ensures
        reachable == reachable_output(stdout@ + stderr@),
{
    let combined = String::from_str(stdout).concat(stderr);
    classify_fallback_output(combined.as_str())
}

/// Any text that holds one of the two failure markers is classified unreachable;
/// a text that holds neither is reachable.
pub proof fn lemma_fallback_classification(output: Seq<char>)
    ensures
        is_substring(FAILED_MARKER@, output) ==> !reachable_output(output),
        is_substring(AUTH_FAILED_MARKER@, output) ==> !reachable_output(output),
        !is_substring(FAILED_MARKER@, output) && !is_substring(AUTH_FAILED_MARKER@, output)
            ==> reachable_output(output),
{
}

/// I/O capability code for "no input, no output".
pub const NO_INPUT_NO_OUTPUT: &'static str = "3";

/// `btmgmt pair -c 3 <address>`: pairs with the target by address alone,
/// announcing no input and no output.
pub fn fallback_pair_command(target: &Address) -> (r: ToolCommand)
    ensures
        r.words() == seq!["btmgmt"@, "pair"@, "-c"@, NO_INPUT_NO_OUTPUT@, address_text(
            target.octets@,
            ':',
        )],
{
    let text = target.to_text();
    let t = text.as_str();
    let r = command_of("btmgmt", &["pair", "-c", NO_INPUT_NO_OUTPUT, t]);
    proof {
        lemma_words(r, "btmgmt", seq!["pair", "-c", NO_INPUT_NO_OUTPUT, t]);
        assert(crate::adapter::words_of("btmgmt", seq!["pair", "-c", NO_INPUT_NO_OUTPUT, t])
            =~= seq!["btmgmt"@, "pair"@, "-c"@, NO_INPUT_NO_OUTPUT@, t@]);
    }
    r
}

} // verus!
