use vstd::prelude::*;
use vstd::string::*;
use crate::config::RETRY_DELAY_MS;
use crate::request::{
    is_hyphenated_uuid_v4, lemma_plain_json_str, needs_json_escape, new_request_id, quoted, request_payload, request_text,
    InvokeError,
};

verus! {

/// What `String::from_utf8_lossy` makes of a byte sequence.
pub uninterp spec fn lossy_utf8(b: Seq<u8>) -> Seq<char>;

/// Bytes below 0x80 each decode to the character of the same code.
pub open spec fn decodes_as_ascii(b: Seq<u8>, s: Seq<char>) -> bool {
    &&& forall|i: int| 0 <= i < b.len() ==> #[trigger] b[i] < 0x80
    &&& s.len() == b.len()
    &&& forall|i: int| 0 <= i < b.len() ==> (#[trigger] s[i]) as u32 == b[i] as u32
}

/// Relies on std's String::from_utf8_lossy: valid UTF-8 (plain ASCII among it)
/// decodes to its own characters, anything else gets replacement characters.
#[verifier::external_body]
fn lossy_text(b: &[u8]) -> (r: String)
    ensures
        r@ == lossy_utf8(b@),
        (forall|i: int| 0 <= i < b@.len() ==> #[trigger] b@[i] < 0x80) ==> decodes_as_ascii(b@, r@),
{
    String::from_utf8_lossy(b).into_owned()
}

/// The text of a successful response: empty without a payload.
pub open spec fn response_text(payload: Option<Vec<u8>>) -> Seq<char> {
    match payload {
        Some(b) => lossy_utf8(b@),
        None => Seq::empty(),
    }
}

/// Decodes the payload of a successful response, permissively.
pub fn payload_text(payload: Option<Vec<u8>>) -> (r: String)
    ensures
        r@ == response_text(payload),
{
    match payload {
        Some(b) => lossy_text(b.as_slice()),
        None => String::new(),
    }
}

/// How one invocation of the remote function ended.
#[derive(Debug, PartialEq, Eq)]
pub enum InvokeOutcome {
    /// The function ran and answered, with the response payload if there is one.
    Completed(Option<Vec<u8>>),
    /// The function ran but reported a failure of its own.
    FunctionError,
    /// The call could not be completed; the text describes why.
    TransportError(String),
}

/// What the driver of a [`Retrier`] reports back.
#[derive(Debug, PartialEq, Eq)]
pub enum Event {
    /// An invocation that was asked for has ended.
    Invoked(InvokeOutcome),
    /// A pause that was asked for is over.
    WaitElapsed,
}

/// What the driver of a [`Retrier`] is to do next.
#[derive(Debug, PartialEq, Eq)]
pub enum Action {
    /// Invoke the remote function named by the first field, in blocking
    /// request/response mode, with the request body in the second.
    Invoke(String, String),
    /// Pause for this many milliseconds.
    Wait(u64),
    /// Stop and hand this response text to the caller.
    Finish(String),
}

pub enum ActionModel {
    Invoke(Seq<char>, Seq<char>),
    Wait(nat),
    Finish(Seq<char>),
}

impl View for Action {
    type V = ActionModel;

    open spec fn view(&self) -> ActionModel {
        match self {
            Action::Invoke(t, r) => ActionModel::Invoke(t@, r@),
            Action::Wait(ms) => ActionModel::Wait(*ms as nat),
            Action::Finish(t) => ActionModel::Finish(t@),
        }
    }
}

/// Where an invocation stands.
#[derive(Debug, PartialEq, Eq)]
pub enum Phase {
    Attempting,
    Waiting,
    Succeeded(String),
}

pub enum PhaseModel {
    Attempting,
    Waiting,
    Succeeded(Seq<char>),
}

impl View for Phase {
    type V = PhaseModel;

    open spec fn view(&self) -> PhaseModel {
        match self {
            Phase::Attempting => PhaseModel::Attempting,
            Phase::Waiting => PhaseModel::Waiting,
            Phase::Succeeded(t) => PhaseModel::Succeeded(t@),
        }
    }
}

/// The state of one invocation, as a mathematical value.
pub struct RetrierModel {
    pub target: Seq<char>,
    pub request_id: Seq<char>,
    pub request: Seq<char>,
    pub phase: PhaseModel,
    /// Invocations that have ended so far.
    pub attempts: nat,
    /// Milliseconds spent pausing so far.
    pub waited_ms: nat,
}

/// A fresh invocation: nothing tried yet.
pub open spec fn fresh(target: Seq<char>, request_id: Seq<char>, request: Seq<char>) -> RetrierModel {
    RetrierModel { target, request_id, request, phase: PhaseModel::Attempting, attempts: 0, waited_ms: 0 }
}

/// The action that the state `m` waits on.
pub open spec fn pending(m: RetrierModel) -> ActionModel {
    match m.phase {
        PhaseModel::Attempting => ActionModel::Invoke(m.target, m.request),
        PhaseModel::Waiting => ActionModel::Wait(RETRY_DELAY_MS as nat),
        PhaseModel::Succeeded(t) => ActionModel::Finish(t),
    }
}

/// The state after `e`. A completed invocation ends the protocol; any failure,
/// of the function or of the transport, leads to a pause and then to another
/// attempt with the same request. An event that the state does not wait on
/// changes nothing.
pub open spec fn next(m: RetrierModel, e: Event) -> RetrierModel {
    match m.phase {
        PhaseModel::Attempting => match e {
            Event::Invoked(InvokeOutcome::Completed(p)) => RetrierModel {
                phase: PhaseModel::Succeeded(response_text(p)),
                attempts: (m.attempts + 1) as nat,
                ..m
            },
            Event::Invoked(_) => RetrierModel {
                phase: PhaseModel::Waiting,
                attempts: (m.attempts + 1) as nat,
                ..m
            },
            Event::WaitElapsed => m,
        },
        PhaseModel::Waiting => match e {
            Event::WaitElapsed => RetrierModel {
                phase: PhaseModel::Attempting,
                waited_ms: (m.waited_ms + RETRY_DELAY_MS) as nat,
                ..m
            },
            Event::Invoked(_) => m,
        },
        PhaseModel::Succeeded(_) => m,
    }
}

/// Decides, one event at a time, how to keep invoking a remote function until
/// it answers: the retry loop itself, without the calls and the pauses.
pub struct Retrier {
    target: String,
    request_id: String,
    request: String,
    phase: Phase,
    attempts: Ghost<nat>,
    waited_ms: Ghost<nat>,
}

impl View for Retrier {
    type V = RetrierModel;

    closed spec fn view(&self) -> RetrierModel {
        RetrierModel {
            target: self.target@,
            request_id: self.request_id@,
            request: self.request@,
            phase: self.phase@,
            attempts: self.attempts@,
            waited_ms: self.waited_ms@,
        }
    }
}

impl Retrier {
    /// A fresh invocation of the function `target` that will send `request`,
    /// which carries `request_id`.
    pub fn new(target: String, request_id: String, request: String) -> (r: Retrier)
        ensures
            r@ == fresh(target@, request_id@, request@),
    {
        Retrier {
            target,
            request_id,
            request,
            phase: Phase::Attempting,
            attempts: Ghost(0),
            waited_ms: Ghost(0),
        }
    }

    /// The identifier that every attempt of this invocation carries.
    pub fn request_id(&self) -> (r: &str)
        ensures
            r@ == self@.request_id,
    {
        self.request_id.as_str()
    }

    /// The action that this invocation waits on; the first action of a fresh one.
    pub fn pending_action(&self) -> (a: Action)
        ensures
            a@ == pending(self@),
    {
        match &self.phase {
            Phase::Attempting => Action::Invoke(self.target.clone(), self.request.clone()),
            Phase::Waiting => Action::Wait(RETRY_DELAY_MS),
            Phase::Succeeded(t) => Action::Finish(t.clone()),
        }
    }

    /// Takes in what the driver reports and says what it is to do next.
    pub fn step(&mut self, e: Event) -> (a: Action)
        ensures
            final(self)@ == next(old(self)@, e),
            a@ == pending(final(self)@),
    {
        match e {
            Event::Invoked(outcome) => {
                if matches!(self.phase, Phase::Attempting) {
                    self.attempts = Ghost((self.attempts@ + 1) as nat);
                    match outcome {
                        InvokeOutcome::Completed(p) => {
                            self.phase = Phase::Succeeded(payload_text(p));
                        },
                        _ => {
                            self.phase = Phase::Waiting;
                        },
                    }
                }
            },
            Event::WaitElapsed => {
                if matches!(self.phase, Phase::Waiting) {
                    self.waited_ms = Ghost((self.waited_ms@ + RETRY_DELAY_MS) as nat);
                    self.phase = Phase::Attempting;
                }
            },
        }
        self.pending_action()
    }
}

/// The state after the events `es`, taken in order from `m`.
pub open spec fn run(m: RetrierModel, es: Seq<Event>) -> RetrierModel
    decreases es.len(),
{
    if es.len() == 0 {
        m
    } else {
        run(next(m, es[0]), es.drop_first())
    }
}

/// An invocation that failed, at the level of the function or of the transport.
pub open spec fn is_failure(e: Event) -> bool {
    ||| e matches Event::Invoked(InvokeOutcome::FunctionError)
    ||| e matches Event::Invoked(InvokeOutcome::TransportError(_))
}

/// The `i`-th attempt of `es` failed, and the pause after it ran out.
pub open spec fn failed_round(es: Seq<Event>, i: int) -> bool {
    &&& is_failure(es[2 * i])
    &&& es[2 * i + 1] matches Event::WaitElapsed
}

/// `es` is `n` failed attempts, each followed by its pause, and then an
/// attempt that completes with `payload`.
pub open spec fn fails_then_completes(es: Seq<Event>, n: nat, payload: Option<Vec<u8>>) -> bool {
    &&& es.len() == 2 * n + 1
    &&& forall|i: int| 0 <= i < n ==> #[trigger] failed_round(es, i)
    &&& es[2 * n as int] == Event::Invoked(InvokeOutcome::Completed(payload))
}

proof fn lemma_run_from_attempting(m: RetrierModel, es: Seq<Event>, n: nat, payload: Option<Vec<u8>>)
    requires
        m.phase == PhaseModel::Attempting,
        fails_then_completes(es, n, payload),
    ensures
        run(m, es).phase == PhaseModel::Succeeded(response_text(payload)),
        run(m, es).attempts == m.attempts + n + 1,
        run(m, es).waited_ms == m.waited_ms + n * RETRY_DELAY_MS,
        run(m, es).target == m.target,
        run(m, es).request == m.request,
        run(m, es).request_id == m.request_id,
    decreases n,
{
    if n == 0 {
        assert(es.drop_first().len() == 0);
        assert(run(next(m, es[0]), es.drop_first()) == next(m, es[0]));
        assert(run(m, es) == next(m, es[0]));
    } else {
        assert(failed_round(es, 0));
        let m1 = next(m, es[0]);
        let m2 = next(m1, es[1]);
        assert(m1.phase == PhaseModel::Waiting);
        assert(m2.phase == PhaseModel::Attempting);
        let rest = es.subrange(2, es.len() as int);
        assert forall|i: int| 0 <= i < n - 1 implies #[trigger] failed_round(rest, i) by {
            assert(failed_round(es, i + 1));
            assert(rest[2 * i] == es[2 * (i + 1)]);
            assert(rest[2 * i + 1] == es[2 * (i + 1) + 1]);
        }
        assert(rest[2 * (n - 1)] == es[2 * n as int]);
        lemma_run_from_attempting(m2, rest, (n - 1) as nat, payload);
        assert(es.drop_first().drop_first() =~= rest);
        assert(es.drop_first()[0] == es[1]);
        assert(run(m, es) == run(m1, es.drop_first()));
        assert(run(m1, es.drop_first()) == run(m2, rest));
        assert((n - 1) * RETRY_DELAY_MS + RETRY_DELAY_MS == n * RETRY_DELAY_MS) by (nonlinear_arith);
    }
}

/// A target that fails its first `n` invocations and completes the next one:
/// the protocol ends with that answer's text after exactly `n + 1` attempts
/// and `n` pauses of the fixed delay.
pub proof fn lemma_eventual_success(
    target: Seq<char>,
    request_id: Seq<char>,
    request: Seq<char>,
    es: Seq<Event>,
    n: nat,
    payload: Option<Vec<u8>>,
)
    requires
        fails_then_completes(es, n, payload),
    ensures
        run(fresh(target, request_id, request), es).phase == PhaseModel::Succeeded(response_text(payload)),
        run(fresh(target, request_id, request), es).attempts == n + 1,
        run(fresh(target, request_id, request), es).waited_ms == n * RETRY_DELAY_MS,
{
    lemma_run_from_attempting(fresh(target, request_id, request), es, n, payload);
}

/// Once an answer is in, no further event changes anything: no attempt
/// follows the first one that completes.
pub proof fn lemma_success_is_final(m: RetrierModel, es: Seq<Event>)
    requires
        m.phase matches PhaseModel::Succeeded(_),
    ensures
        run(m, es) == m,
    decreases es.len(),
{
    if es.len() > 0 {
        lemma_success_is_final(next(m, es[0]), es.drop_first());
    }
}

/// A failure of the transport is handled exactly as a failure reported by the
/// function: same next state, hence same next action.
pub proof fn lemma_failures_alike(m: RetrierModel, reason: String)
    ensures
        next(m, Event::Invoked(InvokeOutcome::FunctionError)) == next(
            m,
            Event::Invoked(InvokeOutcome::TransportError(reason)),
        ),
{
}

proof fn lemma_run_keeps_request(m: RetrierModel, es: Seq<Event>)
    ensures
        run(m, es).target == m.target,
        run(m, es).request == m.request,
        run(m, es).request_id == m.request_id,
    decreases es.len(),
{
    if es.len() > 0 {
        lemma_run_keeps_request(next(m, es[0]), es.drop_first());
    }
}

/// Whatever the events, an invocation keeps its identifier, and every attempt
/// it asks for goes to the same function with the very request it started with.
pub proof fn lemma_request_kept(m: RetrierModel, es: Seq<Event>)
    ensures
        run(m, es).request_id == m.request_id,
        forall|k: int|
            0 <= k <= es.len() ==> ((#[trigger] pending(run(m, es.take(k)))) matches ActionModel::Invoke(t, r)
                ==> t == m.target && r == m.request),
{
    lemma_run_keeps_request(m, es);
    assert forall|k: int|
        0 <= k <= es.len() implies ((#[trigger] pending(run(m, es.take(k)))) matches ActionModel::Invoke(t, r)
            ==> t == m.target && r == m.request) by {
        lemma_run_keeps_request(m, es.take(k));
    }
}

/// Starts an invocation of the function `target`: draws a fresh request
/// identifier and serialises the request body that carries it.
pub fn start_invocation(target: String) -> (r: Result<Retrier, InvokeError>)
    ensures
        r is Ok,
        r matches Ok(rt) ==> {
            &&& is_hyphenated_uuid_v4(rt@.request_id)
            &&& rt@ == fresh(target@, rt@.request_id, request_text(quoted(rt@.request_id)))
        },
{
    let id = new_request_id();
    match request_payload(id.as_str()) {
        Ok(body) => {
            proof {
                assert forall|i: int| 0 <= i < id@.len() implies !needs_json_escape(
                    #[trigger] id@[i],
                ) by {
                    if i == 8 || i == 13 || i == 18 || i == 23 {
                        assert(id@[i] == '-');
                    }
                }
                lemma_plain_json_str(id@);
            }
            Ok(Retrier::new(target, id, body))
        },
        Err(e) => Err(e),
    }
}

} // verus!
