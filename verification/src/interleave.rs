//! Controller connection in turn with driver dispatch.

use vstd::prelude::*;
use crate::efi::EfiError;

verus! {

/// The rounds after which the drivers are left as they are.
pub const MAX_ROUNDS: usize = 10;

/// A call to make.
#[derive(Clone, Copy, Debug, PartialEq, Eq)]
pub enum InterleaveAction {
    /// Connect all controllers.
    ConnectAll,
    /// Dispatch the drivers that can be.
    Dispatch,
    /// Nothing is left to do; this is the result.
    Finished(Result<(), EfiError>),
}

/// The answer to a call.
#[derive(Clone, Copy, Debug, PartialEq, Eq)]
pub enum InterleaveAnswer {
    /// How connecting the controllers ended.
    Connected(Result<(), EfiError>),
    /// Whether some driver was dispatched.
    Dispatched(Result<bool, EfiError>),
}

/// Whether `answer` is one that `action` can have.
pub open spec fn answers_interleave_action(
    action: InterleaveAction,
    answer: InterleaveAnswer,
) -> bool {
    match action {
        InterleaveAction::ConnectAll => answer is Connected,
        InterleaveAction::Dispatch => answer is Dispatched,
        InterleaveAction::Finished(_) => false,
    }
}

/// Rounds of connecting controllers and dispatching drivers.
#[derive(Clone, Copy, Debug, PartialEq, Eq)]
pub enum Interleave {
    /// The controllers are to be connected; holds the rounds made before.
    Connect { round: usize },
    /// The drivers are to be dispatched; holds the rounds made before.
    Dispatch { round: usize },
    /// Nothing is left to do; holds the result.
    Finished(Result<(), EfiError>),
}

/// Starts to connect controllers and dispatch drivers in turn until no more
/// drivers are dispatched.
pub fn interleave_connect_and_dispatch() -> (run: InterleaveRun)
    ensures
        run@ == (Interleave::Connect { round: 0 }),
{
    InterleaveRun { state: Interleave::Connect { round: 0 } }
}

impl Interleave {
    /// What every step keeps: a round that is under way is one of the
    /// permitted ones.
    pub open spec fn wf(self) -> bool {
        match self {
            Interleave::Connect { round } => round < MAX_ROUNDS,
            Interleave::Dispatch { round } => round < MAX_ROUNDS,
            Interleave::Finished(_) => true,
        }
    }

    /// The call to make next.
    pub open spec fn spec_action(self) -> InterleaveAction {
        match self {
            Interleave::Connect { round } => InterleaveAction::ConnectAll,
            Interleave::Dispatch { round } => InterleaveAction::Dispatch,
            Interleave::Finished(result) => InterleaveAction::Finished(result),
        }
    }

    /// What follows from the answer to that call.
    pub open spec fn spec_next(self, answer: InterleaveAnswer) -> Interleave {
        match (self, answer) {
            (
                Interleave::Connect { round },
                InterleaveAnswer::Connected(connected),
            ) => match connected {
                Ok(_) => Interleave::Dispatch { round },
                Err(error) => Interleave::Finished(Err(error)),
            },
            (
                Interleave::Dispatch { round },
                InterleaveAnswer::Dispatched(dispatched),
            ) => match dispatched {
                Ok(some) => if some && round + 1 < MAX_ROUNDS {
                    Interleave::Connect { round: (round + 1) as usize }
                } else {
                    Interleave::Finished(Ok(()))
                },
                Err(error) => Interleave::Finished(Err(error)),
            },
            _ => self,
        }
    }

    /// The state after one more round in which the controllers were connected
    /// and the dispatch answered `dispatched`.
    pub open spec fn after_round(self, dispatched: Result<bool, EfiError>) -> Interleave {
        self.spec_next(InterleaveAnswer::Connected(Ok(()))).spec_next(
            InterleaveAnswer::Dispatched(dispatched),
        )
    }

    /// The state after `count` more rounds, in each of which the controllers
    /// were connected and some driver was dispatched.
    pub open spec fn after_busy_rounds(self, count: nat) -> Interleave
        decreases count,
    {
        if count == 0 {
            self
        } else {
            self.after_busy_rounds((count - 1) as nat).after_round(Ok(true))
        }
    }
}

/// The rounds under way.
#[derive(Debug)]
pub struct InterleaveRun {
    state: Interleave,
}

impl View for InterleaveRun {
    type V = Interleave;

    closed spec fn view(&self) -> Interleave {
        self.state
    }
}

impl InterleaveRun {
    /// A round that is under way is one of the permitted ones.
    #[verifier::type_invariant]
    closed spec fn well_formed(self) -> bool {
        self.state.wf()
    }

    /// The call to make next.
    pub fn action(&self) -> (action: InterleaveAction)
        ensures
            action == self@.spec_action(),
    {
        match self.state {
            Interleave::Connect { .. } => InterleaveAction::ConnectAll,
            Interleave::Dispatch { .. } => InterleaveAction::Dispatch,
            Interleave::Finished(result) => InterleaveAction::Finished(result),
        }
    }

    /// Takes the answer to the call.
    pub fn advance(self, answer: InterleaveAnswer) -> (next: InterleaveRun)
        requires
            answers_interleave_action(self@.spec_action(), answer),
        ensures
            next@ == self@.spec_next(answer),
    {
        proof {
            use_type_invariant(&self);
        }
        let state = match (self.state, answer) {
            (
                Interleave::Connect { round },
                InterleaveAnswer::Connected(connected),
            ) => match connected {
                Ok(_) => Interleave::Dispatch { round },
                Err(error) => Interleave::Finished(Err(error)),
            },
            (
                Interleave::Dispatch { round },
                InterleaveAnswer::Dispatched(dispatched),
            ) => match dispatched {
                Ok(some) => if some && round + 1 < MAX_ROUNDS {
                    Interleave::Connect { round: round + 1 }
                } else {
                    Interleave::Finished(Ok(()))
                },
                Err(error) => Interleave::Finished(Err(error)),
            },
            (state, _) => state,
        };
        InterleaveRun { state }
    }
}

/// As long as drivers are dispatched the rounds go on, up to the permitted
/// number, after which the result is success without a further call.
pub proof fn busy_rounds_are_bounded(count: nat)
    ensures
        count < MAX_ROUNDS ==> (Interleave::Connect { round: 0 }).after_busy_rounds(count) == (
        Interleave::Connect { round: count as usize }),
        count >= MAX_ROUNDS ==> (Interleave::Connect { round: 0 }).after_busy_rounds(count)
            == Interleave::Finished(Ok(())),
    decreases count,
{
    if count > 0 {
        busy_rounds_are_bounded((count - 1) as nat);
    }
}

/// The first round that dispatches no driver is the last one, with success;
/// the first error ends the rounds and is their result.
pub proof fn quiet_round_or_error_ends_rounds(round: usize, error: EfiError)
    requires
        round < MAX_ROUNDS,
    ensures
        (Interleave::Connect { round }).after_round(Ok(false)) == Interleave::Finished(Ok(())),
        (Interleave::Connect { round }).after_round(Err(error)) == Interleave::Finished(Err(error)),
        (Interleave::Connect { round }).spec_next(InterleaveAnswer::Connected(Err(error)))
            == Interleave::Finished(Err(error)),
{
}

/// What the rounds come to from `state` on: how often the controllers were
/// connected and the drivers dispatched, and the result. The outcome of each
/// call is given by how many calls of its kind were made before it.
pub open spec fn rounds_made(
    state: Interleave,
    connects: nat,
    dispatches: nat,
    connected: spec_fn(nat) -> Result<(), EfiError>,
    dispatched: spec_fn(nat) -> Result<bool, EfiError>,
) -> (nat, nat, Result<(), EfiError>)
    decreases
        (match state {
            Interleave::Connect { round } => 2 * (10 - round) + 1,
            Interleave::Dispatch { round } => 2 * (10 - round),
            Interleave::Finished(_) => 0,
        }),
    when state.wf()
{
    match state.spec_action() {
        InterleaveAction::ConnectAll => rounds_made(
            state.spec_next(InterleaveAnswer::Connected(connected(connects))),
            connects + 1,
            dispatches,
            connected,
            dispatched,
        ),
        InterleaveAction::Dispatch => rounds_made(
            state.spec_next(InterleaveAnswer::Dispatched(dispatched(dispatches))),
            connects,
            dispatches + 1,
            connected,
            dispatched,
        ),
        InterleaveAction::Finished(result) => (connects, dispatches, result),
    }
}

/// From the start of a round on.
proof fn lemma_rounds_from(
    round: nat,
    connected: spec_fn(nat) -> Result<(), EfiError>,
    dispatched: spec_fn(nat) -> Result<bool, EfiError>,
)
    requires
        round < 10,
    ensures
        ({
            let (connects, dispatches, result) = rounds_made(
                Interleave::Connect { round: round as usize },
                round,
                round,
                connected,
                dispatched,
            );
            &&& round < connects <= 10
            &&& connects == dispatches || connects == dispatches + 1
            &&& forall|i: nat| round <= i < connects - 1 ==> #[trigger] connected(i) is Ok
            &&& forall|i: nat| round <= i < connects - 1 ==> #[trigger] dispatched(i) == Ok::<
                bool,
                EfiError,
            >(true)
            &&& connects > dispatches ==> connected((connects - 1) as nat) is Err && result
                == connected((connects - 1) as nat)
            &&& connects == dispatches ==> {
                let last = dispatched((connects - 1) as nat);
                &&& connected((connects - 1) as nat) is Ok
                &&& last matches Err(error) ==> result == Err::<(), EfiError>(error)
                &&& last matches Ok(some) ==> result == Ok::<(), EfiError>(()) && (some ==> connects
                    == 10)
            }
        }),
    decreases 10 - round,
{
    reveal_with_fuel(rounds_made, 3);
    if connected(round) is Ok && dispatched(round) == Ok::<bool, EfiError>(true) && round < 9 {
        lemma_rounds_from(round + 1, connected, dispatched);
    }
}

/// Controllers are connected and drivers dispatched in turn, up to ten times
/// each, for as long as drivers are dispatched: every round but the last one
/// connects in success and dispatches some driver. The last round ends with the
/// error of its connection or of its dispatch, which is the result, or in
/// success when it dispatches no driver or is the tenth.
pub proof fn rounds_go_on_while_drivers_are_dispatched(
    connected: spec_fn(nat) -> Result<(), EfiError>,
    dispatched: spec_fn(nat) -> Result<bool, EfiError>,
)
    ensures
        ({
            let (connects, dispatches, result) = rounds_made(
                Interleave::Connect { round: 0 },
                0,
                0,
                connected,
                dispatched,
            );
            &&& 1 <= connects <= 10
            &&& connects == dispatches || connects == dispatches + 1
            &&& forall|i: nat| i < connects - 1 ==> #[trigger] connected(i) is Ok
            &&& forall|i: nat| i < connects - 1 ==> #[trigger] dispatched(i) == Ok::<
                bool,
                EfiError,
            >(true)
            &&& connects > dispatches ==> connected((connects - 1) as nat) is Err && result
                == connected((connects - 1) as nat)
            &&& connects == dispatches ==> {
                let last = dispatched((connects - 1) as nat);
                &&& connected((connects - 1) as nat) is Ok
                &&& last matches Err(error) ==> result == Err::<(), EfiError>(error)
                &&& last matches Ok(some) ==> result == Ok::<(), EfiError>(()) && (some ==> connects
                    == 10)
            }
        }),
{
    lemma_rounds_from(0, connected, dispatched);
}

} // verus!
