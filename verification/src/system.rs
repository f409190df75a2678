//! The outcome of probing for the GPU, WSL and Docker tools.

use vstd::prelude::*;
use vstd::string::StringExecFns;
use vstd::utf8::{decode_utf8, valid_utf8};
use crate::text::{trim, trimmed};

verus! {

broadcast use vstd::string::group_string_axioms;

/// One probe of an outside tool: whether it succeeded, and what it said.
#[derive(Debug, Clone)]
pub struct Check {
    pub ok: bool,
    pub detail: String,
}

impl Default for Check {
    fn default() -> (r: Self)
        ensures
            !r.ok,
            r.detail@ == Seq::<char>::empty(),
    {
        Check { ok: false, detail: String::new() }
    }
}

/// The probes of the system check.
#[derive(Debug, Clone)]
pub struct SystemReport {
    pub gpu: Check,
    pub wsl: Check,
    pub docker: Check,
}

impl Default for SystemReport {
    fn default() -> (r: Self)
        ensures
            !r.gpu.ok && r.gpu.detail@.len() == 0,
            !r.wsl.ok && r.wsl.detail@.len() == 0,
            !r.docker.ok && r.docker.detail@.len() == 0,
    {
        SystemReport { gpu: Check::default(), wsl: Check::default(), docker: Check::default() }
    }
}

/// The text that `String::from_utf8_lossy` makes of some bytes.
pub uninterp spec fn utf8_lossy_text(bytes: Seq<u8>) -> Seq<char>;

/// Calls `String::from_utf8_lossy`: its result is named by `utf8_lossy_text`,
/// and bytes that are valid UTF-8 come back decoded as they are.
#[verifier::external_body]
fn utf8_lossy(bytes: &[u8]) -> (r: String)
    ensures
        r@ == utf8_lossy_text(bytes@),
        valid_utf8(bytes@) ==> r@ == decode_utf8(bytes@),
{
    String::from_utf8_lossy(bytes).into_owned()
}

/// What a probe reports when the tool ran: its trimmed standard output, or,
/// when that is empty, its trimmed standard error, or, when both are
/// empty, that it returned no output.
pub open spec fn output_detail(program: Seq<char>, stdout: Seq<u8>, stderr: Seq<u8>) -> Seq<char> {
    let out = trimmed(utf8_lossy_text(stdout));
    let err = trimmed(utf8_lossy_text(stderr));
    let said = if out.len() == 0 { err } else { out };
    if said.len() == 0 {
        program + " returned no output"@
    } else {
        said
    }
}

/// What a probe reports when the tool could not be started.
pub open spec fn unavailable_detail(program: Seq<char>, error: Seq<char>) -> Seq<char> {
    program + " not available: "@ + error
}

impl Check {
    /// The check for a tool that ran and exited, successfully or not, with
    /// the given output.
    pub fn from_output(program: &str, success: bool, stdout: &[u8], stderr: &[u8]) -> (r: Check)
        ensures
            r.ok == success,
            r.detail@ == output_detail(program@, stdout@, stderr@),
            valid_utf8(stdout@) && trimmed(decode_utf8(stdout@)).len() > 0 ==> r.detail@
                == trimmed(decode_utf8(stdout@)),
            valid_utf8(stdout@) && trimmed(decode_utf8(stdout@)).len() == 0 && valid_utf8(stderr@)
                && trimmed(decode_utf8(stderr@)).len() > 0 ==> r.detail@ == trimmed(
                decode_utf8(stderr@),
            ),
            valid_utf8(stdout@) && trimmed(decode_utf8(stdout@)).len() == 0 && valid_utf8(stderr@)
                && trimmed(decode_utf8(stderr@)).len() == 0 ==> r.detail@ == program@
                + " returned no output"@,
    {
        let out_text = utf8_lossy(stdout);
        let err_text = utf8_lossy(stderr);
        let out = trim(out_text.as_str());
        let err = trim(err_text.as_str());
        let said = if out.is_empty() {
            err
        } else {
            out
        };
        let detail = if said.is_empty() {
            proof {
                reveal_strlit(" returned no output");
            }
            String::from_str(program).concat(" returned no output")
        } else {
            said.to_owned()
        };
        Check { ok: success, detail }
    }

    /// The check for a tool that could not be started; `error` is the
    /// reason the system gave.
    pub fn unavailable(program: &str, error: &str) -> (r: Check)
        ensures
            !r.ok,
            r.detail@ == unavailable_detail(program@, error@),
    {
        let mut detail = String::from_str(program);
        detail.append(" not available: ");
        detail.append(error);
        Check { ok: false, detail }
    }
}

/// A probe always says something: its detail is never empty.
pub proof fn lemma_detail_never_empty(program: Seq<char>, stdout: Seq<u8>, stderr: Seq<u8>, error: Seq<char>)
    ensures
        output_detail(program, stdout, stderr).len() > 0,
        unavailable_detail(program, error).len() > 0,
{
    reveal_strlit(" returned no output");
    reveal_strlit(" not available: ");
}

/// A probe reports its trimmed standard output when that says anything;
/// otherwise its trimmed standard error when that says anything, however
/// empty the standard output was; and that the tool returned no output
/// only when both say nothing.
pub proof fn lemma_output_detail_choice(program: Seq<char>, stdout: Seq<u8>, stderr: Seq<u8>)
    ensures
        trimmed(utf8_lossy_text(stdout)).len() > 0 ==> output_detail(program, stdout, stderr)
            == trimmed(utf8_lossy_text(stdout)),
        trimmed(utf8_lossy_text(stdout)).len() == 0 && trimmed(utf8_lossy_text(stderr)).len() > 0
            ==> output_detail(program, stdout, stderr) == trimmed(utf8_lossy_text(stderr)),
        trimmed(utf8_lossy_text(stdout)).len() == 0 && trimmed(utf8_lossy_text(stderr)).len() == 0
            ==> output_detail(program, stdout, stderr) == program + " returned no output"@,
{
}

} // verus!
