//! Per-connection session state and the request/outcome state machine.
//!
//! A session owns the value arena for one connection and moves through
//! `Running → Closing → Closed`. The loop that reads requests, drives the
//! engine and writes responses lives outside this crate; it feeds each
//! decoded request into [`IsolateState::step`], reports what the engine did
//! with a script via [`IsolateState::on_run_outcome`], and drains the arena
//! through [`IsolateState::close`] before the execution scope is torn down.
//! Script-level exceptions are expected and recoverable: they become
//! `JsException` responses and the session keeps running, while protocol
//! errors end it.

use vstd::prelude::*;

use crate::arena::{occupied_seq_of, ArenaView, ValueArena};
use crate::codec::PythonEvent;
use crate::handle::ObscuredGlobal;

verus! {

/// Lifecycle of a session.
#[derive(Debug, PartialEq, Eq, Structural)]
pub enum Phase {
    /// Requests are being served.
    Running,
    /// The final response is on its way out; only draining remains.
    Closing,
    /// Terminal: the arena is drained and the worker may exit.
    Closed,
}

/// Exception fields read off a thrown value. A field is absent when the
/// value lacks the property or the property is null or undefined.
#[derive(Debug, PartialEq, Eq)]
pub struct ExceptionInfo {
    pub name: Option<String>,
    pub message: Option<String>,
    pub stack: Option<String>,
}

/// What running a script came to: a persistent reference to its value, or
/// the exception it threw.
#[derive(Debug, PartialEq, Eq)]
pub enum ScriptOutcome {
    Value(ObscuredGlobal),
    Exception(ExceptionInfo),
}

/// Content of a response frame to the peer.
#[derive(Debug, PartialEq, Eq)]
pub enum Response {
    /// A non-recoverable error, with a human-readable reason.
    Error(String),
    /// The session is ending; final message.
    Closing,
    /// A script threw: exception name, message, and stack (empty when the
    /// thrown value had none).
    JsException(String, String, String),
    /// A script produced a value, now held under this identifier.
    JsValue(u64),
}

/// Mathematical content of a [`Response`].
pub ghost enum RespModel {
    Error { reason: Seq<char> },
    Closing,
    JsException { name: Seq<char>, message: Seq<char>, stack: Seq<char> },
    JsValue { id: u64 },
}

impl View for Response {
    type V = RespModel;

    open spec fn view(&self) -> RespModel {
        match self {
            Response::Error(reason) => RespModel::Error { reason: reason@ },
            Response::Closing => RespModel::Closing,
            Response::JsException(name, message, stack) => RespModel::JsException {
                name: name@,
                message: message@,
                stack: stack@,
            },
            Response::JsValue(id) => RespModel::JsValue { id: *id },
        }
    }
}

/// The `JsException` response a thrown value is reported as: absent fields
/// fall back to a generic name, a generic message, and an empty stack.
pub open spec fn spec_exception_response(e: ExceptionInfo) -> RespModel {
    RespModel::JsException {
        name: match e.name {
            Some(s) => s@,
            None => "Error"@,
        },
        message: match e.message {
            Some(s) => s@,
            None => "unknown message"@,
        },
        stack: match e.stack {
            Some(s) => s@,
            None => Seq::<char>::empty(),
        },
    }
}

/// State change and response produced by handling one script outcome: a
/// value is placed in the arena and answered with its fresh identifier; an
/// exception leaves the arena alone and is answered as `JsException`.
pub open spec fn spec_outcome_step(a: ArenaView, outcome: ScriptOutcome) -> (ArenaView, RespModel) {
    match outcome {
        ScriptOutcome::Value(g) => {
            let (a2, id) = a.spec_alloc(g);
            (a2, RespModel::JsValue { id: id as u64 })
        },
        ScriptOutcome::Exception(e) => (a, spec_exception_response(e)),
    }
}

/// The arena state and responses after handling a sequence of script
/// outcomes one at a time, in order.
pub open spec fn spec_outcomes_run(a: ArenaView, outcomes: Seq<ScriptOutcome>) -> (
    ArenaView,
    Seq<RespModel>,
)
    decreases outcomes.len(),
{
    if outcomes.len() == 0 {
        (a, Seq::empty())
    } else {
        let (a1, r1) = spec_outcome_step(a, outcomes.first());
        let (a2, rest) = spec_outcomes_run(a1, outcomes.drop_first());
        (a2, seq![r1] + rest)
    }
}

/// Each outcome in a handled sequence yields exactly one response.
pub proof fn lemma_outcomes_run_len(a: ArenaView, outcomes: Seq<ScriptOutcome>)
    ensures
        spec_outcomes_run(a, outcomes).1.len() == outcomes.len(),
    decreases outcomes.len(),
{
    if outcomes.len() > 0 {
        let (a1, r1) = spec_outcome_step(a, outcomes.first());
        lemma_outcomes_run_len(a1, outcomes.drop_first());
    }
}

/// Ordering: requests on one connection are processed strictly in arrival
/// order. For two script requests handled back to back, the first response
/// is determined entirely by the state before the second request is
/// considered, and it stands before the second response in the outgoing
/// sequence.
pub proof fn lemma_responses_in_request_order(a: ArenaView, o1: ScriptOutcome, o2: ScriptOutcome)
    ensures
        ({
            let (a1, r1) = spec_outcome_step(a, o1);
            let (a2, r2) = spec_outcome_step(a1, o2);
            &&& spec_outcomes_run(a, seq![o1, o2]).1 =~= seq![r1, r2]
            &&& spec_outcomes_run(a, seq![o1, o2]).0 == a2
        }),
{
    let s = seq![o1, o2];
    let (a1, r1) = spec_outcome_step(a, o1);
    let (a2, r2) = spec_outcome_step(a1, o2);
    assert(s.first() == o1);
    assert(s.drop_first() =~= seq![o2]);
    assert(seq![o2].first() == o2);
    assert(seq![o2].drop_first() =~= Seq::<ScriptOutcome>::empty());
    assert(spec_outcomes_run(a2, Seq::<ScriptOutcome>::empty()).1 =~= Seq::<RespModel>::empty());
    assert(spec_outcomes_run(a1, seq![o2]).1 =~= seq![r2]);
    assert(spec_outcomes_run(a1, seq![o2]).0 == a2);
    assert(spec_outcomes_run(a, s).1 =~= seq![r1] + seq![r2]);
    assert(seq![r1] + seq![r2] =~= seq![r1, r2]);
}

/// Build the `JsException` response for a thrown value's marshaled fields,
/// filling in the documented fallbacks. A thrown value lacking a stack is
/// reported with an empty third string — it is not an error.
pub fn exception_response(e: ExceptionInfo) -> (r: Response)
    ensures
        r@ == spec_exception_response(e),
        e.stack is None ==> (r matches Response::JsException(_name, _message, stack)
            && stack@ == Seq::<char>::empty()),
{
    let name = match e.name {
        Some(s) => s,
        None => "Error".to_owned(),
    };
    let message = match e.message {
        Some(s) => s,
        None => "unknown message".to_owned(),
    };
    let stack = match e.stack {
        Some(s) => s,
        None => String::new(),
    };
    Response::JsException(name, message, stack)
}

/// What the unverified loop must do next after feeding a request in.
#[derive(Debug, PartialEq, Eq)]
pub enum Action {
    /// Run this source in the engine and report back via `on_run_outcome`.
    Run(String),
    /// Release this engine reference if one is handed back; send no
    /// response either way.
    Release(Option<ObscuredGlobal>),
    /// Send this final response best-effort, then drain via `close`; the
    /// session is over.
    CloseUp(Response),
}

/// Per-connection session state: the value arena and the lifecycle phase.
pub struct IsolateState {
    pub arena: ValueArena,
    pub phase: Phase,
}

impl IsolateState {
    /// The arena's free list is truthful.
    pub open spec fn wf(self) -> bool {
        self.arena@.wf()
    }

    /// A fresh session: running, with an empty arena.
    pub fn new() -> (st: IsolateState)
        ensures
            st.wf(),
            st.phase == Phase::Running,
            st.arena@.slots.len() == 0,
            st.arena@.free.len() == 0,
    {
        IsolateState { arena: ValueArena::new(), phase: Phase::Running }
    }

    /// Handle one decoded request while running. `None` is the close
    /// request: the session moves to `Closing` and the peer is owed exactly
    /// one `Closing` response. A protocol error also ends the session, with
    /// an `Error` response instead. A script request leaves all state as it
    /// is and hands the source back to be run. A drop request releases the
    /// identifier if it is live, is silently ignored otherwise, and is owed
    /// no response.
    pub fn step(&mut self, event: Option<PythonEvent>) -> (a: Action)
        requires
            old(self).wf(),
            old(self).phase == Phase::Running,
        ensures
            final(self).wf(),
            match event {
                None => {
                    &&& final(self).phase == Phase::Closing
                    &&& final(self).arena@ == old(self).arena@
                    &&& a matches Action::CloseUp(resp) && resp == Response::Closing
                },
                Some(PythonEvent::Errored(_e)) => {
                    &&& final(self).phase == Phase::Closing
                    &&& final(self).arena@ == old(self).arena@
                    &&& a matches Action::CloseUp(resp) && resp matches Response::Error(msg)
                        && msg@ == "unknown event type"@
                },
                Some(PythonEvent::RunScript(src)) => {
                    &&& final(self).phase == Phase::Running
                    &&& final(self).arena@ == old(self).arena@
                    &&& a matches Action::Run(s) && s == src
                },
                Some(PythonEvent::DropValue(id)) => {
                    &&& final(self).phase == Phase::Running
                    &&& a matches Action::Release(taken) && {
                        if id <= usize::MAX {
                            (final(self).arena@, taken) == old(self).arena@.spec_dealloc(
                                id as usize,
                            )
                        } else {
                            taken is None && final(self).arena@ == old(self).arena@
                        }
                    }
                },
            },
    {
        match event {
            None => {
                self.phase = Phase::Closing;
                Action::CloseUp(Response::Closing)
            },
            Some(PythonEvent::Errored(e)) => {
                self.phase = Phase::Closing;
                Action::CloseUp(Response::Error(e.message()))
            },
            Some(PythonEvent::RunScript(src)) => Action::Run(src),
            Some(PythonEvent::DropValue(id)) => {
                if id <= usize::MAX as u64 {
                    Action::Release(self.arena.dealloc(id as usize))
                } else {
                    Action::Release(None)
                }
            },
        }
    }

    /// Record what the engine did with a script. A produced value goes into
    /// the arena and the peer is answered with its fresh identifier; a
    /// thrown exception is answered as a `JsException` with the documented
    /// fallbacks and changes nothing. Either way the session keeps running:
    /// script failures are business as usual.
    pub fn on_run_outcome(&mut self, outcome: ScriptOutcome) -> (r: Response)
        requires
            old(self).wf(),
            old(self).phase == Phase::Running,
        ensures
            final(self).wf(),
            final(self).phase == Phase::Running,
            (final(self).arena@, r@) == spec_outcome_step(old(self).arena@, outcome),
            outcome matches ScriptOutcome::Value(g) ==> (r matches Response::JsValue(id)
                && id == old(self).arena@.spec_alloc(g).1 && final(self).arena@.spec_with(
                id as usize,
            ) == Some(g@)),
            outcome matches ScriptOutcome::Exception(e) ==> (final(self).arena@
                == old(self).arena@ && r@ == spec_exception_response(e)),
    {
        match outcome {
            ScriptOutcome::Value(g) => {
                let id = self.arena.allocate(g);
                Response::JsValue(id as u64)
            },
            ScriptOutcome::Exception(e) => exception_response(e),
        }
    }

    /// Shutdown: drain every live handle from the arena — each exactly once,
    /// so the loop can release them against the execution scope before that
    /// scope is torn down — and become `Closed`. Handles that the peer never
    /// released are swept up here, so closing a session with live values
    /// completes all the same.
    pub fn close(&mut self) -> (drained: Vec<ObscuredGlobal>)
        requires
            old(self).wf(),
        ensures
            final(self).wf(),
            final(self).phase == Phase::Closed,
            final(self).arena@.slots.len() == 0,
            final(self).arena@.free.len() == 0,
            drained@ == occupied_seq_of(old(self).arena@.slots),
            drained@.len() == old(self).arena@.occupied_count(),
    {
        self.phase = Phase::Closed;
        self.arena.close_all()
    }
}

} // verus!
