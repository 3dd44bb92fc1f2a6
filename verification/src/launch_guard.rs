use vstd::prelude::*;

use crate::text::str_eq;

verus! {

/// Error reported when the legacy restricted-token sandbox cannot launch from the
/// current logon session and the elevated setup has not been completed.
pub const LEGACY_SANDBOX_SETUP_REQUIRED_ERROR: &'static str =
    "Windows restricted-token sandbox cannot launch reliably from this non-interactive or network-logon session until elevated Windows sandbox setup has completed. Run Codex once from an interactive administrator session to finish elevated setup, or configure windows.sandbox = \"elevated\".";

/// Well-known SID of the INTERACTIVE logon group.
pub const SID_INTERACTIVE: &'static str = "S-1-5-4";

/// Well-known SID of the NETWORK logon group.
pub const SID_NETWORK: &'static str = "S-1-5-2";

/// Well-known SID of the REMOTE INTERACTIVE LOGON group.
pub const SID_REMOTE_INTERACTIVE: &'static str = "S-1-5-14";

/// What the launch guard knows of the token of the current process.
#[derive(Debug, Clone, Copy, PartialEq, Eq, Structural)]
pub struct ProcessTokenContext {
    pub session_id: u32,
    pub has_interactive_sid: bool,
    pub has_remote_interactive_sid: bool,
    pub has_network_sid: bool,
}

/// A token needs the elevated runner when it belongs to a network logon, or when it
/// lives in session 0 without any interactive (local or remote) logon group.
pub open spec fn spec_needs_elevated_runner_fallback(ctx: ProcessTokenContext) -> bool {
    ctx.has_network_sid || (ctx.session_id == 0 && !(ctx.has_interactive_sid
        || ctx.has_remote_interactive_sid))
}

/// The group SID strings of a token contain `sid`.
pub open spec fn groups_contain(group_sids: Seq<String>, sid: Seq<char>) -> bool {
    exists|i: int| 0 <= i < group_sids.len() && (#[trigger] group_sids[i])@ == sid
}

impl ProcessTokenContext {
    /// Whether the legacy restricted-token runner must hand over to the elevated runner.
    pub fn needs_elevated_runner_fallback(self) -> (res: bool)
        ensures
            res == spec_needs_elevated_runner_fallback(self),
    {
        let has_interactive_logon = self.has_interactive_sid || self.has_remote_interactive_sid;
        self.has_network_sid || (self.session_id == 0 && !has_interactive_logon)
    }
}

/// Whether one of `group_sids` is `sid`.
pub fn contains_sid(group_sids: &Vec<String>, sid: &str) -> (res: bool)
    ensures
        res == groups_contain(group_sids@, sid@),
{
    let mut i: usize = 0;
    while i < group_sids.len()
        invariant
            i <= group_sids.len(),
            forall|j: int| 0 <= j < i ==> (#[trigger] group_sids@[j])@ != sid@,
        decreases group_sids.len() - i,
    {
        if str_eq(group_sids[i].as_str(), sid) {
            return true;
        }
        i = i + 1;
    }
    false
}

/// Builds the token context from the session id and the group SID strings read
/// from the token of the current process.
pub fn token_context_from_groups(session_id: u32, group_sids: &Vec<String>) -> (res:
    ProcessTokenContext)
    ensures
        res.session_id == session_id,
        res.has_interactive_sid == groups_contain(group_sids@, SID_INTERACTIVE@),
        res.has_remote_interactive_sid == groups_contain(group_sids@, SID_REMOTE_INTERACTIVE@),
        res.has_network_sid == groups_contain(group_sids@, SID_NETWORK@),
{
    ProcessTokenContext {
        session_id,
        has_interactive_sid: contains_sid(group_sids, SID_INTERACTIVE),
        has_remote_interactive_sid: contains_sid(group_sids, SID_REMOTE_INTERACTIVE),
        has_network_sid: contains_sid(group_sids, SID_NETWORK),
    }
}

/// Which tokens hand over to the elevated runner: every network-logon token; a
/// token in session 0 that belongs to neither interactive group; and no other token
/// (one outside session 0, or one with a local or remote interactive group, that is
/// not a network logon, stays on the legacy runner).
pub proof fn law_elevated_runner_fallback(ctx: ProcessTokenContext)
    ensures
        ctx.has_network_sid ==> spec_needs_elevated_runner_fallback(ctx),
        ctx.session_id == 0 && !ctx.has_interactive_sid && !ctx.has_remote_interactive_sid
            ==> spec_needs_elevated_runner_fallback(ctx),
        !ctx.has_network_sid && ctx.session_id != 0 ==> !spec_needs_elevated_runner_fallback(ctx),
        !ctx.has_network_sid && (ctx.has_interactive_sid || ctx.has_remote_interactive_sid)
            ==> !spec_needs_elevated_runner_fallback(ctx),
{
}

/// A group list that holds a well-known SID sets its flag, and one that lacks it
/// clears it, whatever other groups the token has.
pub proof fn law_token_flags_follow_groups(group_sids: Seq<String>, i: int)
    requires
        0 <= i < group_sids.len(),
    ensures
        group_sids[i]@ == SID_NETWORK@ ==> groups_contain(group_sids, SID_NETWORK@),
        group_sids[i]@ == SID_INTERACTIVE@ ==> groups_contain(group_sids, SID_INTERACTIVE@),
        group_sids[i]@ == SID_REMOTE_INTERACTIVE@ ==> groups_contain(
            group_sids,
            SID_REMOTE_INTERACTIVE@,
        ),
        (forall|j: int| 0 <= j < group_sids.len() ==> (#[trigger] group_sids[j])@ != SID_NETWORK@)
            ==> !groups_contain(group_sids, SID_NETWORK@),
{
}

} // verus!
