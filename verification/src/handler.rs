//! The entrypoint handler: the one component of this program.
//!
//! An invocation is the triple (program identity, account references,
//! instruction payload). The handler composes the diagnostic line for the
//! host's logging channel — a fixed prefix followed by the identity's base58
//! rendering — and succeeds. It never reads the account references or the
//! payload, and it carries no state from one invocation to the next.

use vstd::prelude::*;
use vstd::string::StringExecFns;

use crate::identity::{base58_of, render_identity, ProgramId};

verus! {

/// The error side of the handler's result. The handler defines no failure
/// kinds and never produces a value of this type: its postcondition promises
/// success on every input.
#[derive(Debug)]
pub struct HandlerError;

/// The fixed prefix of the diagnostic line.
pub open spec fn spec_log_prefix() -> Seq<char> {
    "Sparky Sentinel initialized from: "@
}

/// The whole diagnostic line for a given identity: the fixed prefix, then
/// the identity's base58 rendering. No other input appears in it.
pub open spec fn spec_log_line(id: Seq<u8>) -> Seq<char> {
    spec_log_prefix() + base58_of(id)
}

/// The exec twin of `spec_log_prefix`.
fn log_prefix() -> (r: &'static str)
    ensures
        r@ == spec_log_prefix(),
{
    "Sparky Sentinel initialized from: "
}

/// Handles one invocation from the host runtime.
///
/// Returns success for every input, with the diagnostic line to hand to the
/// host's logging channel. The account references (of any host-chosen type)
/// and the instruction payload are accepted unconditionally and left unread:
/// the line depends on the program identity alone.
pub fn process_instruction<A>(
    program_id: &ProgramId,
    _accounts: &[A],
    _instruction_data: &[u8],
) -> (r: Result<String, HandlerError>)
    ensures
        r is Ok,
        r->Ok_0@ == spec_log_line(program_id@),
{
    let rendered = render_identity(program_id);
    let mut line = String::from_str(log_prefix());
    line.append(rendered.as_str());
    Ok(line)
}

/// The diagnostic line opens with the fixed prefix, and what follows the
/// prefix is exactly the identity's rendering: embedded whole, neither
/// truncated nor reworked.
pub proof fn lemma_log_line_shape(id: Seq<u8>)
    ensures
        spec_log_line(id).take(spec_log_prefix().len() as int) == spec_log_prefix(),
        spec_log_line(id).skip(spec_log_prefix().len() as int) == base58_of(id),
{
    assert(spec_log_line(id).take(spec_log_prefix().len() as int) =~= spec_log_prefix());
    assert(spec_log_line(id).skip(spec_log_prefix().len() as int) =~= base58_of(id));
}

/// Invocation is idempotent in its observable outcome: two calls whose
/// identities agree emit the same line, each with its own success — the
/// handler has no state to carry between them.
pub proof fn lemma_invocation_idempotent(id: Seq<u8>, first: Seq<char>, second: Seq<char>)
    requires
        first == spec_log_line(id),
        second == spec_log_line(id),
    ensures
        first == second,
{
}

/// The line depends on the program identity alone. Together with the
/// handler's postcondition — which names neither the account references nor
/// the payload — two invocations that agree on the identity emit the same
/// line, whatever their account lists and payloads were, empty or not.
pub proof fn lemma_line_depends_on_identity_alone(id1: Seq<u8>, id2: Seq<u8>)
    requires
        id1 == id2,
    ensures
        spec_log_line(id1) == spec_log_line(id2),
{
}

} // verus!
