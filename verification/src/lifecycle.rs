//! The life of a handle as a state machine: which operation is defined in
//! which state, and what holds of every history that the machine admits.

use vstd::prelude::*;

verus! {

/// Where an instance stands in its life.
#[derive(Clone, Copy, Debug, PartialEq, Eq)]
pub enum State {
    /// No session has been acquired.
    Uninitialized,
    /// The instance owns an open session.
    Open,
    /// The session has been released. Nothing follows.
    Closed,
}

/// One operation on an instance. Each makes one native call.
#[derive(Clone, Copy, Debug, PartialEq, Eq)]
pub enum Operation {
    /// Construction, with the handle that the native open returned.
    Construct { handle: usize },
    /// Moving the read position.
    Seek,
    /// Reading blocks.
    Read,
    /// Asking whether the disc is scrambled.
    IsScrambled,
    /// Asking for the text of the latest error.
    LatestError,
    /// Destruction, which makes the native close.
    Destroy,
}

impl State {
    /// Whether `op` is defined in this state: construction only before a
    /// session is acquired, everything else only while it is open.
    pub open spec fn admits(self, op: Operation) -> bool {
        match self {
            State::Uninitialized => op is Construct,
            State::Open => !(op is Construct),
            State::Closed => false,
        }
    }

    /// The state that `op` leads to. A construction that got a null handle
    /// acquires nothing and leaves the state as it was.
    pub open spec fn after(self, op: Operation) -> State
        recommends
            self.admits(op),
    {
        match op {
            Operation::Construct { handle } => if handle != 0 {
                State::Open
            } else {
                State::Uninitialized
            },
            Operation::Destroy => State::Closed,
            _ => self,
        }
    }

    /// The state that `op` leads to, or `None` where `op` is not defined in
    /// this state.
    pub fn step(self, op: Operation) -> (next: Option<State>)
        ensures
            next == (if self.admits(op) {
                Some(self.after(op))
            } else {
                None
            }),
    {
        match self {
            State::Uninitialized => match op {
                Operation::Construct { handle } => if handle != 0 {
                    Some(State::Open)
                } else {
                    Some(State::Uninitialized)
                },
                _ => None,
            },
            State::Open => match op {
                Operation::Construct { .. } => None,
                Operation::Destroy => Some(State::Closed),
                _ => Some(State::Open),
            },
            State::Closed => None,
        }
    }
}

/// The state that a history of operations, applied in order from
/// `Uninitialized`, ends in, or `None` where one of them was not defined when
/// its turn came.
pub open spec fn run(ops: Seq<Operation>) -> Option<State>
    decreases ops.len(),
{
    if ops.len() == 0 {
        Some(State::Uninitialized)
    } else {
        match run(ops.drop_last()) {
            Some(s) => if s.admits(ops.last()) {
                Some(s.after(ops.last()))
            } else {
                None
            },
            None => None,
        }
    }
}

/// The number of destructions in a history, and so of native closes.
pub open spec fn teardowns(ops: Seq<Operation>) -> nat
    decreases ops.len(),
{
    if ops.len() == 0 {
        0
    } else {
        teardowns(ops.drop_last()) + (if ops.last() is Destroy {
            1nat
        } else {
            0nat
        })
    }
}

/// Applies a history of operations in order, from `Uninitialized`.
pub fn replay(ops: &Vec<Operation>) -> (end: Option<State>)
    ensures
        end == run(ops@),
{
    let mut state = State::Uninitialized;
    let mut i: usize = 0;
    while i < ops.len()
        invariant
            i <= ops.len(),
            run(ops@.take(i as int)) == Some(state),
        decreases ops.len() - i,
    {
        proof {
            assert(ops@.take(i + 1).drop_last() =~= ops@.take(i as int));
        }
        match state.step(ops[i]) {
            Some(next) => {
                state = next;
            },
            None => {
                proof {
                    if run(ops@) is Some {
                        lemma_run_prefix(ops@, i + 1);
                    }
                }
                return None;
            },
        }
        i += 1;
    }
    proof {
        assert(ops@.take(i as int) =~= ops@);
    }
    Some(state)
}

/// Every prefix of a history that the machine admits is admitted too.
pub proof fn lemma_run_prefix(ops: Seq<Operation>, k: int)
    requires
        0 <= k <= ops.len(),
        run(ops) is Some,
    ensures
        run(ops.take(k)) is Some,
    decreases ops.len(),
{
    if k < ops.len() {
        lemma_run_prefix(ops.drop_last(), k);
        assert(ops.drop_last().take(k) =~= ops.take(k));
    } else {
        assert(ops.take(k) =~= ops);
    }
}

/// A history that the machine admits holds exactly one destruction if it ends
/// in `Closed`, and none otherwise: every session that was acquired and
/// released was released once, and where no session was acquired there is
/// nothing to release.
pub proof fn lemma_teardown_once(ops: Seq<Operation>)
    requires
        run(ops) is Some,
    ensures
        teardowns(ops) == (if run(ops) == Some(State::Closed) {
            1nat
        } else {
            0nat
        }),
        run(ops) == Some(State::Closed) ==> ops.len() > 0 && ops.last() is Destroy,
    decreases ops.len(),
{
    if ops.len() > 0 {
        lemma_teardown_once(ops.drop_last());
    }
}

/// In a history that the machine admits, a destruction is the last
/// operation: nothing is observed after teardown.
pub proof fn lemma_nothing_after_teardown(ops: Seq<Operation>, i: int)
    requires
        run(ops) is Some,
        0 <= i < ops.len(),
        ops[i] is Destroy,
    ensures
        i == ops.len() - 1,
{
    if i < ops.len() - 1 {
        lemma_run_prefix(ops, i + 2);
        let upto = ops.take(i + 2);
        let before = upto.drop_last();
        assert(before.drop_last() =~= ops.take(i));
        assert(before.last() == ops[i]);
        assert(run(before) == Some(State::Closed));
    }
}

} // verus!
