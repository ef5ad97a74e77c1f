//! A predicate for processes that sleep.

use vstd::prelude::*;
use crate::process::{EventPoll, Process};
use crate::model::polls_keep_ids;

verus! {

/// Lets a process sleep through a number of selections: asked, it answers
/// "not yet" `remaining` times and "ready" from then on. It leaves the
/// process as it is.
#[derive(Debug, PartialEq, Eq, Copy, Clone)]
pub struct Countdown {
    /// How many more times the answer is "not yet".
    pub remaining: u64,
}

impl EventPoll for Countdown {
    open spec fn polled(
        &self,
        process: Process<Countdown>,
        next: Countdown,
        seen: Process<Countdown>,
        ready: bool,
    ) -> bool {
        &&& ready == (self.remaining == 0)
        &&& next.remaining == if self.remaining == 0 {
            0
        } else {
            self.remaining - 1
        }
        &&& seen == process
    }

    fn poll(&mut self, process: &mut Process<Countdown>) -> (ready: bool) {
        if self.remaining == 0 {
            true
        } else {
            self.remaining = self.remaining - 1;
            false
        }
    }
}

/// A countdown keeps the ID of the process it is asked about.
pub proof fn lemma_countdown_keeps_ids()
    ensures
        polls_keep_ids::<Countdown>(),
{
}

} // verus!
