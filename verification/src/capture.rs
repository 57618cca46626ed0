//! Capture of a secret with confirmation: the secret is asked for twice, and
//! again from the start whenever the two entries differ.

use crate::account::StoreError;
use crate::text::texts;
use vstd::prelude::*;

verus! {

/// Where a capture stands.
#[derive(Debug, PartialEq, Eq)]
pub enum CaptureState {
    /// The secret is awaited.
    Prompt,
    /// The secret was entered and its confirmation is awaited.
    Confirm(String),
    /// Both entries agreed; the capture is over.
    Accepted(String),
    /// The input ended before two entries agreed; the capture is over.
    Failed,
}

/// What the input delivered.
#[derive(Debug, PartialEq, Eq)]
pub enum CaptureEvent {
    /// A line was entered.
    Entered(String),
    /// The input ended or could not be read.
    Ended,
}

/// What the caller does next.
#[derive(Debug, PartialEq, Eq, Clone, Copy, Structural)]
pub enum CaptureAction {
    /// Ask for the secret.
    AskSecret,
    /// Ask for the secret a second time.
    AskConfirmation,
    /// Tell the operator that the entries differ, then ask for the secret.
    ReportMismatch,
    /// Stop: the state holds the outcome.
    Finish,
}

/// A capture state, with the text it holds as a sequence of characters.
pub ghost enum Phase {
    Prompt,
    Confirm(Seq<char>),
    Accepted(Seq<char>),
    Failed,
}

/// A capture event, with the text it holds as a sequence of characters.
pub ghost enum Input {
    Entered(Seq<char>),
    Ended,
}

impl View for CaptureState {
    type V = Phase;

    open spec fn view(&self) -> Phase {
        match self {
            CaptureState::Prompt => Phase::Prompt,
            CaptureState::Confirm(s) => Phase::Confirm(s@),
            CaptureState::Accepted(s) => Phase::Accepted(s@),
            CaptureState::Failed => Phase::Failed,
        }
    }
}

impl View for CaptureEvent {
    type V = Input;

    open spec fn view(&self) -> Input {
        match self {
            CaptureEvent::Entered(s) => Input::Entered(s@),
            CaptureEvent::Ended => Input::Ended,
        }
    }
}

/// The state that follows `p` on the input `e`.
pub open spec fn next_phase(p: Phase, e: Input) -> Phase {
    match (p, e) {
        (Phase::Prompt, Input::Entered(s)) => Phase::Confirm(s),
        (Phase::Confirm(first), Input::Entered(second)) => if first == second {
            Phase::Accepted(first)
        } else {
            Phase::Prompt
        },
        (Phase::Prompt, Input::Ended) => Phase::Failed,
        (Phase::Confirm(_), Input::Ended) => Phase::Failed,
        (Phase::Accepted(s), _) => Phase::Accepted(s),
        (Phase::Failed, _) => Phase::Failed,
    }
}

/// What the caller does after the input `e` arrived in state `p`.
pub open spec fn next_action(p: Phase, e: Input) -> CaptureAction {
    match (p, e) {
        (Phase::Prompt, Input::Entered(_)) => CaptureAction::AskConfirmation,
        (Phase::Confirm(first), Input::Entered(second)) => if first == second {
            CaptureAction::Finish
        } else {
            CaptureAction::ReportMismatch
        },
        _ => CaptureAction::Finish,
    }
}

/// The state and the first action of a capture.
pub fn start() -> (r: (CaptureState, CaptureAction))
    ensures
        r.0@ == Phase::Prompt,
        r.1 == CaptureAction::AskSecret,
{
    (CaptureState::Prompt, CaptureAction::AskSecret)
}

/// One move of the capture: from a state and what the input delivered to the
/// next state and what to do next.
pub fn step(state: CaptureState, event: CaptureEvent) -> (r: (CaptureState, CaptureAction))
    ensures
        r.0@ == next_phase(state@, event@),
        r.1 == next_action(state@, event@),
{
    match state {
        CaptureState::Prompt => match event {
            CaptureEvent::Entered(s) => (CaptureState::Confirm(s), CaptureAction::AskConfirmation),
            CaptureEvent::Ended => (CaptureState::Failed, CaptureAction::Finish),
        },
        CaptureState::Confirm(first) => match event {
            CaptureEvent::Entered(second) => {
                if first == second {
                    (CaptureState::Accepted(first), CaptureAction::Finish)
                } else {
                    (CaptureState::Prompt, CaptureAction::ReportMismatch)
                }
            },
            CaptureEvent::Ended => (CaptureState::Failed, CaptureAction::Finish),
        },
        CaptureState::Accepted(s) => (CaptureState::Accepted(s), CaptureAction::Finish),
        CaptureState::Failed => (CaptureState::Failed, CaptureAction::Finish),
    }
}

/// The state that a capture is in after the lines of `entries` were entered
/// one after another, starting from `p`.
pub open spec fn run(p: Phase, entries: Seq<Seq<char>>) -> Phase
    decreases entries.len(),
{
    if entries.len() == 0 {
        p
    } else {
        next_phase(run(p, entries.drop_last()), Input::Entered(entries.last()))
    }
}

/// A capture that has accepted a secret stays as it is, whatever is entered
/// after that.
pub proof fn accepted_stays(p: Phase, entries: Seq<Seq<char>>, n: int)
    requires
        0 <= n <= entries.len(),
        run(p, entries.take(n)) is Accepted,
    ensures
        run(p, entries) == run(p, entries.take(n)),
    decreases entries.len() - n,
{
    if n == entries.len() {
        assert(entries.take(n) =~= entries);
    } else {
        assert(entries.take(n + 1).drop_last() =~= entries.take(n));
        accepted_stays(p, entries, n + 1);
    }
}

/// What a capture came to: the accepted secret and the number of times the
/// two entries differed before it.
#[derive(Debug, PartialEq, Eq)]
pub struct Captured {
    pub secret: String,
    pub retries: usize,
}

/// The entries `2 * k` and `2 * k + 1` of `entries` are there and agree.
pub open spec fn pair_agrees(entries: Seq<String>, k: int) -> bool {
    0 <= k && 2 * k + 1 < entries.len() && entries[2 * k]@ == entries[2 * k + 1]@
}

/// The pair `k` is the first pair of `entries` that agrees.
pub open spec fn first_agreeing(entries: Seq<String>, k: int) -> bool {
    pair_agrees(entries, k) && forall|j: int| 0 <= j < k ==> !pair_agrees(entries, j)
}

/// Runs a capture on entries given in advance, taken in turn as secret and
/// confirmation. The first pair that agrees is accepted; where no pair does,
/// the input has ended without a secret.
pub fn capture(entries: &Vec<String>) -> (r: Result<Captured, StoreError>)
    ensures
        r is Ok <==> exists|j: int| pair_agrees(entries@, j),
        r matches Ok(c) ==> first_agreeing(entries@, c.retries as int),
        r matches Ok(c) ==> c.secret@ == entries@[2 * c.retries]@,
        r matches Ok(c) ==> run(Phase::Prompt, texts(entries@)) == Phase::Accepted(c.secret@),
        r matches Err(e) ==> e == StoreError::InputError,
        r is Err ==> next_phase(run(Phase::Prompt, texts(entries@)), Input::Ended)
            == Phase::Failed,
{
    let ghost lines = texts(entries@);
    let mut state = CaptureState::Prompt;
    let mut retries: usize = 0;
    let mut k: usize = 0;
    while k < entries.len()
        invariant
            k <= entries.len(),
            state@ is Prompt || state@ is Confirm,
            state@ is Prompt ==> k == 2 * retries,
            state@ matches Phase::Confirm(first) ==> k == 2 * retries + 1 && first == entries@[k
                - 1]@,
            forall|j: int| 0 <= j < retries ==> !pair_agrees(entries@, j),
            lines == texts(entries@),
            state@ == run(Phase::Prompt, lines.take(k as int)),
        decreases entries.len() - k,
    {
        let moved = step(state, CaptureEvent::Entered(entries[k].clone()));
        proof {
            assert(lines.take(k + 1).drop_last() =~= lines.take(k as int));
            assert(lines.take(k + 1).last() == entries@[k as int]@);
        }
        k += 1;
        match moved.0 {
            CaptureState::Accepted(secret) => {
                proof {
                    accepted_stays(Phase::Prompt, lines, k as int);
                    assert(pair_agrees(entries@, retries as int));
                }
                return Ok(Captured { secret, retries });
            },
            other => {
                state = other;
            },
        }
        if moved.1 == CaptureAction::ReportMismatch {
            retries += 1;
        }
    }
    proof {
        assert(lines.take(k as int) =~= lines);
        assert forall|j: int| !pair_agrees(entries@, j) by {
            if pair_agrees(entries@, j) {
                assert(j < retries);
            }
        }
    }
    Err(StoreError::InputError)
}

} // verus!
