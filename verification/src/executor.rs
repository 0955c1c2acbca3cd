//! The authenticated executor as a state machine. The caller performs the
//! work that each action names (asking the token provider, a round trip over
//! the transport, decoding) and reports how it ended; the machine decides
//! what comes next. Nothing is ever retried.

use vstd::prelude::*;

verus! {

/// Where an execution stands.
#[derive(Clone, Copy, Debug, PartialEq, Eq, Structural)]
pub enum Phase {
    /// The token provider has been asked for a token.
    AcquireToken,
    /// A token request is on its way to the token endpoint.
    MintToken,
    /// The token endpoint's response is with the token provider.
    RegisterToken,
    /// The token is being put into the request's authorization header.
    Attach,
    /// The authenticated request is on its way to the object store.
    Dispatch,
    /// The object store's response is being decoded.
    Decode,
    /// The execution has produced its result.
    Done,
    /// The execution has failed.
    Failed,
}

/// The part of a round trip over the transport that failed.
#[derive(Clone, Copy, Debug, PartialEq, Eq, Structural)]
pub enum Stage {
    /// The request could not be made ready for the transport.
    Create,
    /// The transport could not deliver the request.
    Send,
    /// The response could not be gathered.
    Convert,
}

/// Why an execution failed.
#[derive(Clone, Copy, Debug, PartialEq, Eq, Structural)]
pub enum ExecError {
    /// The token provider could not answer.
    Provider,
    /// The round trip to the token endpoint failed.
    Mint(Stage),
    /// The token endpoint's response holds no token.
    TokenResponse,
    /// The token does not fit into an authorization header.
    Attach,
    /// The round trip to the object store failed.
    Transport(Stage),
    /// The object store answered with an error, or with something else than
    /// the caller expects.
    Api,
    /// The caller reported something that the execution was not waiting for.
    OutOfOrder,
}

/// How the work named by the last action ended.
#[derive(Clone, Copy, Debug, PartialEq, Eq, Structural)]
pub enum Event {
    /// The token provider holds a token that has not expired.
    TokenCached,
    /// The token provider needs a fresh token. It has described the request to
    /// send and given the hash under which it registers the response.
    TokenPending { scope_hash: u64 },
    /// The token provider failed.
    ProviderFailed,
    /// The token endpoint has answered.
    TokenResponseArrived,
    /// The round trip to the token endpoint failed.
    TokenRoundTripFailed(Stage),
    /// The token provider has taken a token from the response.
    TokenAccepted,
    /// The token provider found no token in the response.
    TokenRejected,
    /// The request carries the token.
    TokenAttached,
    /// The token cannot be written as a header value.
    TokenNotAttachable,
    /// The object store has answered.
    ResponseArrived,
    /// The round trip to the object store failed.
    RoundTripFailed(Stage),
    /// The response was decoded into the expected result.
    ResponseDecoded,
    /// The response is an error of the object store, or not of the expected
    /// shape.
    ResponseRejected,
}

/// What the caller has to do next.
#[derive(Clone, Copy, Debug, PartialEq, Eq, Structural)]
pub enum Action {
    /// Ask the token provider for a token.
    AskProvider,
    /// Send the token request that the provider described, without
    /// authorization.
    SendTokenRequest,
    /// Hand the token endpoint's response to the provider, under this hash.
    ParseTokenResponse { scope_hash: u64 },
    /// Put the token into the request's authorization header.
    AttachToken,
    /// Send the authenticated request.
    SendRequest,
    /// Decode the response.
    DecodeResponse,
    /// Return the decoded result.
    Succeed,
    /// Return this error.
    Fail(ExecError),
    /// Nothing: the execution had ended before.
    Halt,
}

/// One execution of one request.
#[derive(Clone, Copy, Debug, PartialEq, Eq, Structural)]
pub struct Execution {
    /// Where the execution stands.
    pub phase: Phase,
    /// The hash that came with the pending token request, once there is one.
    pub scope_hash: Option<u64>,
}

/// What an execution in state `s` does when `event` is reported: its next
/// state and the action it asks for. An event that the state was not waiting
/// for fails the execution; an execution that has ended stays as it is.
pub open spec fn next(s: Execution, event: Event) -> (Execution, Action) {
    let failed = Execution { phase: Phase::Failed, scope_hash: s.scope_hash };
    match (s.phase, event) {
        (Phase::Done, _) => (s, Action::Halt),
        (Phase::Failed, _) => (s, Action::Halt),
        (Phase::AcquireToken, Event::TokenCached) => (
            Execution { phase: Phase::Attach, scope_hash: s.scope_hash },
            Action::AttachToken,
        ),
        (Phase::AcquireToken, Event::TokenPending { scope_hash }) => (
            Execution { phase: Phase::MintToken, scope_hash: Some(scope_hash) },
            Action::SendTokenRequest,
        ),
        (Phase::AcquireToken, Event::ProviderFailed) => (failed, Action::Fail(ExecError::Provider)),
        (Phase::MintToken, Event::TokenResponseArrived) => match s.scope_hash {
            Some(scope_hash) => (
                Execution { phase: Phase::RegisterToken, scope_hash: s.scope_hash },
                Action::ParseTokenResponse { scope_hash },
            ),
            None => (failed, Action::Fail(ExecError::OutOfOrder)),
        },
        (Phase::MintToken, Event::TokenRoundTripFailed(stage)) => (
            failed,
            Action::Fail(ExecError::Mint(stage)),
        ),
        (Phase::RegisterToken, Event::TokenAccepted) => (
            Execution { phase: Phase::Attach, scope_hash: s.scope_hash },
            Action::AttachToken,
        ),
        (Phase::RegisterToken, Event::TokenRejected) => (
            failed,
            Action::Fail(ExecError::TokenResponse),
        ),
        (Phase::Attach, Event::TokenAttached) => (
            Execution { phase: Phase::Dispatch, scope_hash: s.scope_hash },
            Action::SendRequest,
        ),
        (Phase::Attach, Event::TokenNotAttachable) => (failed, Action::Fail(ExecError::Attach)),
        (Phase::Dispatch, Event::ResponseArrived) => (
            Execution { phase: Phase::Decode, scope_hash: s.scope_hash },
            Action::DecodeResponse,
        ),
        (Phase::Dispatch, Event::RoundTripFailed(stage)) => (
            failed,
            Action::Fail(ExecError::Transport(stage)),
        ),
        (Phase::Decode, Event::ResponseDecoded) => (
            Execution { phase: Phase::Done, scope_hash: s.scope_hash },
            Action::Succeed,
        ),
        (Phase::Decode, Event::ResponseRejected) => (failed, Action::Fail(ExecError::Api)),
        _ => (failed, Action::Fail(ExecError::OutOfOrder)),
    }
}

/// The state in which every execution starts: the provider is being asked.
pub open spec fn initial() -> Execution {
    Execution { phase: Phase::AcquireToken, scope_hash: None }
}

impl Execution {
    /// Starts an execution. Its first action is `Action::AskProvider`.
    pub fn start() -> (r: (Execution, Action))
        ensures
            r == (initial(), Action::AskProvider),
    {
        (Execution { phase: Phase::AcquireToken, scope_hash: None }, Action::AskProvider)
    }

    /// Whether the execution has ended, in success or in failure.
    pub fn ended(&self) -> (r: bool)
        ensures
            r == (self.phase == Phase::Done || self.phase == Phase::Failed),
    {
        match self.phase {
            Phase::Done => true,
            Phase::Failed => true,
            _ => false,
        }
    }

    fn fail(&mut self, error: ExecError) -> (a: Action)
        ensures
            *final(self) == (Execution { phase: Phase::Failed, scope_hash: old(self).scope_hash }),
            a == Action::Fail(error),
    {
        self.phase = Phase::Failed;
        Action::Fail(error)
    }

    fn advance(&mut self, phase: Phase, action: Action) -> (a: Action)
        ensures
            *final(self) == (Execution { phase, scope_hash: old(self).scope_hash }),
            a == action,
    {
        self.phase = phase;
        action
    }

    /// Takes the report of how the last action ended and says what to do
    /// next.
    pub fn step(&mut self, event: Event) -> (a: Action)
        ensures
            (*final(self), a) == next(*old(self), event),
    {
        match self.phase {
            Phase::Done => Action::Halt,
            Phase::Failed => Action::Halt,
            Phase::AcquireToken => match event {
                Event::TokenCached => self.advance(Phase::Attach, Action::AttachToken),
                Event::TokenPending { scope_hash } => {
                    self.scope_hash = Some(scope_hash);
                    self.advance(Phase::MintToken, Action::SendTokenRequest)
                },
                Event::ProviderFailed => self.fail(ExecError::Provider),
                _ => self.fail(ExecError::OutOfOrder),
            },
            Phase::MintToken => match event {
                Event::TokenResponseArrived => match self.scope_hash {
                    Some(scope_hash) => self.advance(
                        Phase::RegisterToken,
                        Action::ParseTokenResponse { scope_hash },
                    ),
                    None => self.fail(ExecError::OutOfOrder),
                },
                Event::TokenRoundTripFailed(stage) => self.fail(ExecError::Mint(stage)),
                _ => self.fail(ExecError::OutOfOrder),
            },
            Phase::RegisterToken => match event {
                Event::TokenAccepted => self.advance(Phase::Attach, Action::AttachToken),
                Event::TokenRejected => self.fail(ExecError::TokenResponse),
                _ => self.fail(ExecError::OutOfOrder),
            },
            Phase::Attach => match event {
                Event::TokenAttached => self.advance(Phase::Dispatch, Action::SendRequest),
                Event::TokenNotAttachable => self.fail(ExecError::Attach),
                _ => self.fail(ExecError::OutOfOrder),
            },
            Phase::Dispatch => match event {
                Event::ResponseArrived => self.advance(Phase::Decode, Action::DecodeResponse),
                Event::RoundTripFailed(stage) => self.fail(ExecError::Transport(stage)),
                _ => self.fail(ExecError::OutOfOrder),
            },
            Phase::Decode => match event {
                Event::ResponseDecoded => self.advance(Phase::Done, Action::Succeed),
                Event::ResponseRejected => self.fail(ExecError::Api),
                _ => self.fail(ExecError::OutOfOrder),
            },
        }
    }
}

/// The state that an execution reaches and the actions that it asks for, in
/// order, when it is started and the events are then reported one by one.
/// The first action is the one that `Execution::start` gives; the action at
/// position `i + 1` answers the event at position `i`.
pub open spec fn run(events: Seq<Event>) -> (Execution, Seq<Action>)
    decreases events.len(),
{
    if events.len() == 0 {
        (initial(), seq![Action::AskProvider])
    } else {
        let before = run(events.drop_last());
        let after = next(before.0, events.last());
        (after.0, before.1.push(after.1))
    }
}

/// How far a phase lies along the way from asking the provider to the end.
pub open spec fn rank(phase: Phase) -> nat {
    match phase {
        Phase::AcquireToken => 0,
        Phase::MintToken => 1,
        Phase::RegisterToken => 2,
        Phase::Attach => 3,
        Phase::Dispatch => 4,
        Phase::Decode => 5,
        Phase::Done => 6,
        Phase::Failed => 6,
    }
}

/// The place of an action in the order in which an execution asks for work.
/// The two ways to end share the last place.
pub open spec fn order(action: Action) -> nat {
    match action {
        Action::AskProvider => 0,
        Action::SendTokenRequest => 1,
        Action::ParseTokenResponse { .. } => 2,
        Action::AttachToken => 3,
        Action::SendRequest => 4,
        Action::DecodeResponse => 5,
        Action::Succeed => 6,
        Action::Fail(_) => 6,
        Action::Halt => 7,
    }
}

/// The actions of a successful execution: with `minted` the hash of the
/// token request where a token had to be minted, and `None` where the
/// provider held one.
pub open spec fn success_actions(minted: Option<u64>) -> Seq<Action> {
    match minted {
        Some(scope_hash) => seq![
            Action::AskProvider,
            Action::SendTokenRequest,
            Action::ParseTokenResponse { scope_hash },
            Action::AttachToken,
            Action::SendRequest,
            Action::DecodeResponse,
            Action::Succeed,
        ],
        None => seq![
            Action::AskProvider,
            Action::AttachToken,
            Action::SendRequest,
            Action::DecodeResponse,
            Action::Succeed,
        ],
    }
}

/// The hash that the first event brings, where it reports a pending token
/// request.
pub open spec fn pending_hash(events: Seq<Event>) -> Option<u64> {
    if events.len() > 0 {
        match events[0] {
            Event::TokenPending { scope_hash } => Some(scope_hash),
            _ => None,
        }
    } else {
        None
    }
}

proof fn lemma_run_order(events: Seq<Event>)
    ensures
        run(events).1.len() == events.len() + 1,
        forall|i: int|
            0 <= i < run(events).1.len() && #[trigger] run(events).1[i] != Action::Halt ==> order(
                run(events).1[i],
            ) <= rank(run(events).0.phase),
        forall|i: int, j: int|
            0 <= i < j < run(events).1.len() && #[trigger] run(events).1[i] != Action::Halt
                && #[trigger] run(events).1[j] != Action::Halt ==> order(run(events).1[i]) < order(
                run(events).1[j],
            ),
    decreases events.len(),
{
    if events.len() > 0 {
        lemma_run_order(events.drop_last());
        let before = run(events.drop_last());
        let after = next(before.0, events.last());
        let actions = run(events).1;
        assert(actions == before.1.push(after.1));
        assert(after.1 != Action::Halt ==> order(after.1) == rank(after.0.phase) && rank(
            before.0.phase,
        ) < rank(after.0.phase));
        assert(after.1 == Action::Halt ==> after.0 == before.0);
        assert(rank(before.0.phase) <= rank(after.0.phase));
        assert forall|i: int| 0 <= i < actions.len() && #[trigger] actions[i] != Action::Halt implies order(
            actions[i],
        ) <= rank(after.0.phase) by {
            if i < before.1.len() {
                assert(actions[i] == before.1[i]);
            }
        }
        assert forall|i: int, j: int|
            0 <= i < j < actions.len() && #[trigger] actions[i] != Action::Halt
                && #[trigger] actions[j] != Action::Halt implies order(actions[i]) < order(
            actions[j],
        ) by {
            assert(actions[i] == before.1[i]);
            if j < before.1.len() {
                assert(actions[j] == before.1[j]);
            }
        }
    }
}

/// An execution asks for its work in one fixed order and for nothing twice:
/// of two actions that are not `Halt`, the earlier one has the earlier place.
/// So the provider is asked first; at most one token request is sent, and
/// before the authenticated request; at most one response is handed to the
/// provider; at most one authenticated request is sent; and once the
/// execution has succeeded or failed it asks for nothing more.
pub proof fn law_actions_in_order(events: Seq<Event>, i: int, j: int)
    requires
        0 <= i < j <= events.len(),
        run(events).1[i] != Action::Halt,
        run(events).1[j] != Action::Halt,
    ensures
        order(run(events).1[i]) < order(run(events).1[j]),
{
    lemma_run_order(events);
}

/// An execution that has ended stays as it is, whatever is reported to it,
/// and asks for nothing more.
pub proof fn law_ended_stays_ended(events: Seq<Event>, event: Event)
    requires
        run(events).0.phase == Phase::Done || run(events).0.phase == Phase::Failed,
    ensures
        run(events.push(event)) == (run(events).0, run(events).1.push(Action::Halt)),
{
    assert(events.push(event).drop_last() =~= events);
}

proof fn lemma_run_history(events: Seq<Event>)
    ensures
        ({
            let s = run(events).0;
            let actions = run(events).1;
            let full = success_actions(s.scope_hash);
            &&& actions.len() == events.len() + 1
            &&& s.scope_hash == pending_hash(events)
            &&& (s.phase == Phase::AcquireToken ==> actions == full.take(1))
            &&& (s.phase == Phase::MintToken ==> s.scope_hash is Some && actions == full.take(2))
            &&& (s.phase == Phase::RegisterToken ==> s.scope_hash is Some && actions == full.take(3))
            &&& (s.phase == Phase::Attach ==> actions == full.take(full.len() - 3))
            &&& (s.phase == Phase::Dispatch ==> actions == full.take(full.len() - 2))
            &&& (s.phase == Phase::Decode ==> actions == full.take(full.len() - 1))
            &&& (s.phase == Phase::Done ==> full.len() <= actions.len() && actions.take(
                full.len() as int,
            ) == full)
        }),
    decreases events.len(),
{
    if events.len() > 0 {
        let prefix = events.drop_last();
        lemma_run_history(prefix);
        let before = run(prefix);
        let after = next(before.0, events.last());
        let actions = run(events).1;
        assert(actions == before.1.push(after.1));
        if prefix.len() > 0 {
            assert(prefix[0] == events[0]);
        }
        let full = success_actions(after.0.scope_hash);
        if after.0.phase == Phase::Done {
            if before.0.phase == Phase::Done {
                assert(actions.take(full.len() as int) =~= before.1.take(full.len() as int));
            } else {
                assert(actions.take(full.len() as int) =~= full);
            }
        } else if after.0.phase != Phase::Failed {
            assert(before.0.scope_hash == after.0.scope_hash || before.0.phase
                == Phase::AcquireToken);
            assert(actions =~= full.take(actions.len() as int));
        }
    } else {
        assert(run(events).1 =~= success_actions(None).take(1));
    }
}

/// A token that the provider holds is never minted again: where the provider
/// answers with a cached token, the execution sends no token request and
/// hands the provider no response, whatever happens afterwards.
pub proof fn law_cached_token_is_not_reminted(events: Seq<Event>, i: int)
    requires
        events.len() > 0,
        events[0] == Event::TokenCached,
        0 <= i <= events.len(),
    ensures
        run(events).1[i] != Action::SendTokenRequest,
        !(run(events).1[i] is ParseTokenResponse),
{
    lemma_run_order(events);
    lemma_first_answer(events);
    let actions = run(events).1;
    if i > 1 && actions[i] != Action::Halt {
        assert(order(actions[1]) < order(actions[i]));
    }
}

/// A token that the provider does not hold, or holds expired, is minted
/// before anything else is done: where the provider answers with a pending
/// token request, the next action sends that request, and the response is
/// handed to the provider under the hash that came with the request.
pub proof fn law_pending_token_is_minted(events: Seq<Event>, scope_hash: u64, i: int)
    requires
        events.len() > 0,
        events[0] == (Event::TokenPending { scope_hash }),
        0 <= i <= events.len(),
    ensures
        run(events).1[1] == Action::SendTokenRequest,
        run(events).1[i] is ParseTokenResponse ==> run(events).1[i] == (Action::ParseTokenResponse {
            scope_hash,
        }),
        run(events).1[i] == Action::AttachToken ==> i >= 3 && run(events).1[2] == (
        Action::ParseTokenResponse { scope_hash }),
{
    lemma_first_answer(events);
    lemma_parse_hash(events, i);
    lemma_attach_follows_parse(events, i);
}

proof fn lemma_first_answer(events: Seq<Event>)
    requires
        events.len() > 0,
    ensures
        run(events).1.len() == events.len() + 1,
        run(events).1[0] == Action::AskProvider,
        run(events).1[1] == next(initial(), events[0]).1,
    decreases events.len(),
{
    if events.len() == 1 {
        assert(events.drop_last() =~= Seq::<Event>::empty());
        assert(run(events.drop_last()).1 =~= seq![Action::AskProvider]);
    } else {
        lemma_first_answer(events.drop_last());
        assert(events.drop_last()[0] == events[0]);
    }
}

proof fn lemma_parse_hash(events: Seq<Event>, i: int)
    requires
        0 <= i <= events.len(),
    ensures
        run(events).1.len() == events.len() + 1,
        run(events).1[i] is ParseTokenResponse ==> pending_hash(events) is Some && run(events).1[i]
            == (Action::ParseTokenResponse { scope_hash: pending_hash(events).unwrap() }),
    decreases events.len(),
{
    lemma_run_history(events);
    if events.len() > 0 {
        let prefix = events.drop_last();
        lemma_run_history(prefix);
        if prefix.len() > 0 {
            assert(prefix[0] == events[0]);
        }
        if i < events.len() {
            lemma_parse_hash(prefix, i);
        }
    }
}

proof fn lemma_attach_follows_parse(events: Seq<Event>, i: int)
    requires
        0 <= i <= events.len(),
        pending_hash(events) is Some,
    ensures
        run(events).1[i] == Action::AttachToken ==> i >= 3 && run(events).1[2] == (
        Action::ParseTokenResponse { scope_hash: pending_hash(events).unwrap() }),
    decreases events.len(),
{
    lemma_run_history(events);
    if events.len() > 0 {
        let prefix = events.drop_last();
        lemma_run_history(prefix);
        if prefix.len() > 0 {
            assert(prefix[0] == events[0]);
            if i < events.len() {
                lemma_attach_follows_parse(prefix, i);
            } else {
                let before = run(prefix);
                if run(events).1[i] == Action::AttachToken {
                    assert(before.0.phase == Phase::RegisterToken);
                    assert(before.1 == success_actions(before.0.scope_hash).take(3));
                    assert(run(events).1[2] == before.1[2]);
                }
            }
        } else {
            assert(run(prefix).1 =~= seq![Action::AskProvider]);
        }
    }
}

/// A successful execution has done exactly this: asked the provider; where
/// no token was held, sent one token request and handed its response to the
/// provider under the request's hash; attached the token; sent one
/// authenticated request; decoded its response; and succeeded. Whatever is
/// reported afterwards is answered with `Halt`.
pub proof fn law_success_path(events: Seq<Event>)
    requires
        run(events).0.phase == Phase::Done,
    ensures
        ({
            let full = success_actions(pending_hash(events));
            &&& full.len() <= run(events).1.len()
            &&& run(events).1.take(full.len() as int) == full
            &&& forall|i: int|
                full.len() <= i < run(events).1.len() ==> #[trigger] run(events).1[i]
                    == Action::Halt
        }),
{
    lemma_run_history(events);
    lemma_run_order(events);
    let actions = run(events).1;
    let full = success_actions(pending_hash(events));
    let last = full.len() - 1;
    assert(actions.take(full.len() as int)[last] == actions[last]);
    assert(actions[last] == Action::Succeed);
    assert forall|i: int| full.len() <= i < actions.len() implies #[trigger] actions[i]
        == Action::Halt by {
        if actions[i] != Action::Halt {
            assert(order(actions[last]) < order(actions[i]));
        }
    }
}

impl ExecError {
    /// What was being done when the execution failed, for the failures that
    /// are reported with it.
    pub open spec fn spec_context(self) -> Option<Seq<char>> {
        match self {
            ExecError::Mint(Stage::Create) => Some("failed to create token request"@),
            ExecError::Mint(Stage::Send) => Some("failed to send token request"@),
            ExecError::Mint(Stage::Convert) => Some("failed to convert token response"@),
            ExecError::TokenResponse => Some("failed to parse token response"@),
            ExecError::Transport(Stage::Convert) => Some("failed to convert response"@),
            _ => None,
        }
    }

    pub fn context(self) -> (r: Option<&'static str>)
        ensures
            match r {
                Some(text) => self.spec_context() == Some(text@),
                None => self.spec_context() is None,
            },
    {
        match self {
            ExecError::Mint(Stage::Create) => Some("failed to create token request"),
            ExecError::Mint(Stage::Send) => Some("failed to send token request"),
            ExecError::Mint(Stage::Convert) => Some("failed to convert token response"),
            ExecError::TokenResponse => Some("failed to parse token response"),
            ExecError::Transport(Stage::Convert) => Some("failed to convert response"),
            _ => None,
        }
    }
}

} // verus!
