//! How the subprocess tree is stopped.

use vstd::prelude::*;

verus! {

/// A signal that ends a process.
#[derive(Debug, Clone, Copy, PartialEq, Eq, Structural)]
pub enum KillSignal {
    /// `SIGTERM`: asks for an orderly exit.
    Terminate,
    /// `SIGKILL`: cannot be ignored.
    Kill,
}

/// The signals to send to a process group, and the time between them.
#[derive(Debug, Clone, Copy, PartialEq, Eq, Structural)]
pub struct KillPlan {
    /// The process group.
    pub pgid: i32,
    /// Sent at once.
    pub first: KillSignal,
    /// Seconds to wait before the second signal.
    pub grace_secs: u64,
    /// Sent after the wait, whether or not the group is still there.
    pub last: KillSignal,
}

/// The group id for a leader's process id: the same 32 bits, read as a signed number.
pub open spec fn group_of(pid: u32) -> int {
    if pid < 0x8000_0000 {
        pid as int
    } else {
        pid - 0x1_0000_0000
    }
}

/// Stop the autoloop subprocess tree: terminate the whole process group, then escalate
/// after a short grace, so that autoloop and its backend agent can exit cleanly first.
/// `pid` is the group leader's process id.
pub fn kill_autoloop_group(pid: u32) -> (plan: KillPlan)
    ensures
        plan.pgid == group_of(pid),
        plan.first == KillSignal::Terminate,
        plan.grace_secs == 2,
        plan.last == KillSignal::Kill,
{
    let pgid: i32 = if pid < 0x8000_0000 {
        pid as i32
    } else {
        (pid as i64 - 0x1_0000_0000) as i32
    };
    KillPlan { pgid, first: KillSignal::Terminate, grace_secs: 2, last: KillSignal::Kill }
}

/// Two leaders never share a group id.
pub proof fn law_groups_are_distinct(pid: u32, other: u32)
    requires
        pid != other,
    ensures
        group_of(pid) != group_of(other),
{
}

/// A group id is the leader's process id, up to a multiple of two to the power of 32, and
/// fits in a signed number of 32 bits. An id that fits as it is stays as it is.
pub proof fn law_group_is_the_leaders(pid: u32)
    ensures
        i32::MIN <= group_of(pid) <= i32::MAX,
        (pid - group_of(pid)) % 0x1_0000_0000 == 0,
        pid <= i32::MAX ==> group_of(pid) == pid,
{
}

} // verus!
