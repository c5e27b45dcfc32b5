//! How a process is ended: it is asked to end, given some time, and killed
//! where it does not.

use vstd::prelude::*;

verus! {

/// How many milliseconds a process has to end by itself.
pub const GRACE_MILLIS: u64 = 5500;

/// How many milliseconds lie between two looks at it.
pub const POLL_MILLIS: u64 = 100;

/// What a look at the process shows.
#[derive(Clone, Copy, Debug, PartialEq, Eq, Structural)]
pub enum ChildPoll {
    Exited,
    Alive,
    Unreadable,
}

/// What is to be done.
#[derive(Clone, Copy, Debug, PartialEq, Eq, Structural)]
pub enum TerminationAction {
    /// Nothing: the process has ended.
    Done,
    /// Look again after a while.
    Wait,
    /// Kill the process.
    Kill,
}

/// What is to be done after a look at a process that has been asked to end
/// this long ago.
pub open spec fn next(elapsed_millis: u64, poll: ChildPoll) -> TerminationAction {
    if elapsed_millis >= GRACE_MILLIS {
        TerminationAction::Kill
    } else {
        match poll {
            ChildPoll::Exited => TerminationAction::Done,
            ChildPoll::Unreadable => TerminationAction::Kill,
            ChildPoll::Alive => TerminationAction::Wait,
        }
    }
}

/// What is to be done after a look at a process that has been asked to end
/// this long ago.
pub fn termination_step(elapsed_millis: u64, poll: ChildPoll) -> (r: TerminationAction)
    ensures
        r == next(elapsed_millis, poll),
{
    if elapsed_millis >= GRACE_MILLIS {
        return TerminationAction::Kill;
    }
    match poll {
        ChildPoll::Exited => TerminationAction::Done,
        ChildPoll::Unreadable => TerminationAction::Kill,
        ChildPoll::Alive => TerminationAction::Wait,
    }
}

/// Nobody waits for a process once its time is over, and only a process that
/// is seen alive within its time is waited for.
pub proof fn waiting_ends(elapsed_millis: u64, poll: ChildPoll)
    ensures
        next(elapsed_millis, poll) == TerminationAction::Wait <==> elapsed_millis < GRACE_MILLIS
            && poll == ChildPoll::Alive,
        next(elapsed_millis, poll) == TerminationAction::Done ==> poll == ChildPoll::Exited,
{
}

/// A process has five and a half seconds: until then it is waited for while it
/// lives, and it is killed afterwards or where it cannot be seen.
pub proof fn a_process_has_its_time(elapsed_millis: u64)
    ensures
        elapsed_millis < 5500 ==> next(elapsed_millis, ChildPoll::Alive) == TerminationAction::Wait,
        elapsed_millis < 5500 ==> next(elapsed_millis, ChildPoll::Exited)
            == TerminationAction::Done,
        elapsed_millis >= 5500 ==> next(elapsed_millis, ChildPoll::Alive)
            == TerminationAction::Kill,
        elapsed_millis >= 5500 ==> next(elapsed_millis, ChildPoll::Exited)
            == TerminationAction::Kill,
        next(elapsed_millis, ChildPoll::Unreadable) == TerminationAction::Kill,
{
}

} // verus!
