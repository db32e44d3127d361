//! The wait/poll engine: decides which spawned processes are queried for a
//! status change and folds the answers into their process states.

use vstd::prelude::*;

use crate::data::{ProcessModel, ProcessState};

verus! {

/// The errors of executing a chain; each carries the `errno` of the failed call.
#[derive(Debug, Clone, Copy, PartialEq, Eq, Structural)]
pub enum ChainError {
    /// A pipe could not be created.
    PipeCreateFailed(i32),
    /// A process could not be created.
    ForkFailed(i32),
    /// A descriptor could not be duplicated onto a standard slot.
    DupFailed(i32),
    /// A descriptor could not be closed.
    CloseFailed(i32),
    /// A redirect path could not be opened.
    RedirectOpenFailed(i32),
    /// The process image could not be replaced.
    ExecFailed(i32),
    /// Querying a process's status failed.
    WaitFailed(i32),
}

/// What a status query of one process answered.
#[derive(Debug, Clone, Copy, PartialEq, Eq, Structural)]
pub enum WaitOutcome {
    /// A non-blocking query found no status change yet.
    NoStatusYet,
    /// The process terminated with this raw status word.
    Status(i32),
    /// The query failed with this `errno`.
    Failed(i32),
}

/// Whether a raw status word says that the process terminated normally.
pub open spec fn status_exited_normally(status: i32) -> bool {
    (status & 0x7f) == 0
}

/// The exit code held in a raw status word.
pub open spec fn status_exit_code(status: i32) -> i32 {
    (status >> 8) & 0xff
}

/// Relies on libc::WIFEXITED, which tests the low seven bits of the status word.
#[verifier::external_body]
fn wifexited(status: i32) -> (r: bool)
    ensures
        r == status_exited_normally(status),
{
    libc::WIFEXITED(status)
}

/// Relies on libc::WEXITSTATUS, which takes the second byte of the status word.
#[verifier::external_body]
fn wexitstatus(status: i32) -> (r: i32)
    ensures
        r == status_exit_code(status),
{
    libc::WEXITSTATUS(status)
}

/// Whether a raw status word says that the process exited normally (and not,
/// say, by a signal); a process that did not is still finished, with the code
/// that its status word holds, and is worth a diagnostic.
pub fn exited_normally(status: i32) -> (r: bool)
    ensures
        r == status_exited_normally(status),
{
    wifexited(status)
}

/// The entries that a poll queries: exactly the unfinished ones, in order.
pub open spec fn is_pending_list(states: Seq<ProcessModel>, r: Seq<usize>) -> bool {
    &&& forall|j: int| 0 <= j < r.len() ==> r[j] < states.len() && !states[r[j] as int].finished
    &&& forall|j: int, k: int| 0 <= j < k < r.len() ==> r[j] < r[k]
    &&& forall|i: int|
        0 <= i < states.len() && !(#[trigger] states[i]).finished ==> exists|j: int|
            0 <= j < r.len() && r[j] == i
}

/// The views of a sequence of process states.
pub open spec fn states_view(v: Seq<ProcessState>) -> Seq<ProcessModel> {
    v.map_values(|s: ProcessState| s@)
}

/// Whether every process is finished.
pub open spec fn all_finished(states: Seq<ProcessModel>) -> bool {
    forall|i: int| 0 <= i < states.len() ==> (#[trigger] states[i]).finished
}

/// Whether the query of an entry failed; a finished entry is never queried.
pub open spec fn query_failed(s: ProcessModel, o: WaitOutcome) -> bool {
    !s.finished && o is Failed
}

/// One entry after a poll that got `o` for it: an unfinished entry with a
/// status becomes finished with the status's exit code; everything else stays.
pub open spec fn polled(s: ProcessModel, o: WaitOutcome) -> ProcessModel {
    if s.finished {
        s
    } else {
        match o {
            WaitOutcome::Status(w) => ProcessModel {
                finished: true,
                exit_code: status_exit_code(w),
                ..s
            },
            _ => s,
        }
    }
}

/// Whether every process is finished.
fn every_finished(states: &Vec<ProcessState>) -> (r: bool)
    ensures
        r == all_finished(states_view(states@)),
{
    let mut i: usize = 0;
    while i < states.len()
        invariant
            i <= states.len(),
            forall|j: int| 0 <= j < i ==> (#[trigger] states@[j])@.finished,
        decreases states.len() - i,
    {
        if !states[i].finished() {
            assert(states_view(states@)[i as int] == states@[i as int]@);
            return false;
        }
        i = i + 1;
    }
    assert(forall|j: int|
        0 <= j < states.len() ==> (#[trigger] states_view(states@)[j]) == states@[j]@);
    true
}

/// Polling entries that are all finished queries none of them, fails on none
/// and changes none, whatever the outcomes handed in; and the poll reports
/// that all are finished.
pub proof fn lemma_poll_after_all_finished(
    states: Seq<ProcessModel>,
    pending: Seq<usize>,
    outcomes: Seq<WaitOutcome>,
)
    requires
        all_finished(states),
        is_pending_list(states, pending),
        outcomes.len() == states.len(),
    ensures
        pending.len() == 0,
        forall|i: int| 0 <= i < states.len() ==> !query_failed(states[i], outcomes[i]),
        forall|i: int| 0 <= i < states.len() ==> polled(states[i], outcomes[i]) == states[i],
        all_finished(Seq::new(states.len(), |i: int| polled(states[i], outcomes[i]))),
{
    if pending.len() > 0 {
        assert(!states[pending[0] as int].finished);
    }
}

/// The indices of the entries that a poll must query: exactly the unfinished
/// ones, in order. A finished entry is never queried again, since its process
/// id may already belong to another process.
pub fn pending_indices(states: &Vec<ProcessState>) -> (r: Vec<usize>)
    ensures
        is_pending_list(states_view(states@), r@),
{
    let ghost sv = states_view(states@);
    let mut r: Vec<usize> = Vec::new();
    let mut i: usize = 0;
    while i < states.len()
        invariant
            sv == states_view(states@),
            i <= states.len(),
            forall|j: int| 0 <= j < r@.len() ==> r@[j] < i && !sv[r@[j] as int].finished,
            forall|j: int, k: int| 0 <= j < k < r@.len() ==> r@[j] < r@[k],
            forall|m: int|
                0 <= m < i && !(#[trigger] sv[m]).finished ==> exists|j: int|
                    0 <= j < r@.len() && r@[j] == m,
        decreases states.len() - i,
    {
        if !states[i].finished() {
            let ghost old_r = r@;
            r.push(i);
            assert forall|m: int|
                0 <= m < i + 1 && !(#[trigger] sv[m]).finished implies exists|j: int|
                    0 <= j < r@.len() && r@[j] == m by {
                if m < i {
                    let j = choose|j: int| 0 <= j < old_r.len() && old_r[j] == m;
                    assert(r@[j] == m);
                } else {
                    assert(r@[r@.len() - 1] == m);
                }
            }
        }
        i = i + 1;
    }
    r
}

/// Folds the answers of one poll into the process states; `outcomes[i]` is
/// what the query of entry `i` answered, and is ignored for a finished entry,
/// which is never queried. If a query failed, the first such failure is
/// returned and no entry changes. Otherwise every unfinished entry with a
/// status becomes finished with its exit code, and the result says whether
/// every entry is finished now.
pub fn update_process_states(states: &mut Vec<ProcessState>, outcomes: &Vec<WaitOutcome>) -> (r:
    Result<bool, ChainError>)
    requires
        old(states).len() == outcomes.len(),
    ensures
        match r {
            Err(e) => {
                &&& final(states)@ == old(states)@
                &&& exists|k: int|
                    {
                        &&& 0 <= k < outcomes.len()
                        &&& query_failed(old(states)@[k]@, outcomes@[k])
                        &&& (forall|j: int|
                            0 <= j < k ==> !query_failed(old(states)@[j]@, outcomes@[j]))
                        &&& e == ChainError::WaitFailed(outcomes@[k]->Failed_0)
                    }
            },
            Ok(done) => {
                &&& forall|j: int|
                    0 <= j < outcomes.len() ==> !query_failed(old(states)@[j]@, outcomes@[j])
                &&& final(states).len() == old(states).len()
                &&& forall|j: int|
                    0 <= j < outcomes.len() ==> (#[trigger] final(states)@[j])@ == polled(
                        old(states)@[j]@,
                        outcomes@[j],
                    )
                &&& done == all_finished(states_view(final(states)@))
            },
        },
{
    let mut k: usize = 0;
    while k < outcomes.len()
        invariant
            k <= outcomes.len(),
            states.len() == outcomes.len(),
            forall|j: int| 0 <= j < k ==> !query_failed(states@[j]@, outcomes@[j]),
        decreases outcomes.len() - k,
    {
        if !states[k].finished() {
            match outcomes[k] {
                WaitOutcome::Failed(errno) => {
                    return Err(ChainError::WaitFailed(errno));
                },
                _ => {},
            }
        }
        k = k + 1;
    }
    let ghost before = states@;
    let mut i: usize = 0;
    while i < states.len()
        invariant
            i <= states.len(),
            states.len() == outcomes.len(),
            before.len() == outcomes.len(),
            forall|j: int| 0 <= j < i ==> (#[trigger] states@[j])@ == polled(before[j]@, outcomes@[j]),
            forall|j: int| i <= j < states.len() ==> states@[j] == before[j],
        decreases states.len() - i,
    {
        if !states[i].finished() {
            match outcomes[i] {
                WaitOutcome::Status(w) => {
                    let code = wexitstatus(w);
                    states[i].finish(code);
                },
                _ => {},
            }
        }
        i = i + 1;
    }
    let done = every_finished(states);
    Ok(done)
}

} // verus!
