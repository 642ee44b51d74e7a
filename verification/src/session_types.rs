//! Session-typed communication between workflow participants: sessions
//! with a typed protocol and state, a session manager, validated
//! session workflows, and per-session metrics.

use vstd::prelude::*;
use vstd::string::StringExecFns;
use crate::digits::{spec_decimal, u128_to_decimal};
use crate::vecmap::{Keyed, KeyedVec, NamedEntry};

verus! {

/// Where a session stands in its lifecycle.
#[derive(Debug, Clone, Copy, PartialEq, Eq, Structural)]
pub enum SessionState {
    /// Created, not yet started.
    Initial,
    /// Exchanging messages.
    Active,
    /// Blocked on a peer.
    Waiting,
    /// Finished successfully.
    Completed,
    /// Finished in failure.
    Failed,
}

/// A participant's role in a session.
#[derive(Debug, Clone, Copy, PartialEq, Eq, Structural)]
pub enum ParticipantRole {
    /// Opens the session.
    Initiator,
    /// Answers the initiator.
    Responder,
    /// Listens without sending.
    Observer,
    /// Mediates between the others.
    Coordinator,
}

/// The communication pattern a session follows.
#[derive(Debug, Clone, Copy, PartialEq, Eq, Structural)]
pub enum SessionProtocol {
    /// One request, one response.
    RequestResponse,
    /// Fan-out to subscribers.
    PublishSubscribe,
    /// A continuous flow of messages.
    Stream,
    /// Back-and-forth until agreement.
    Negotiation,
}

/// One party to a session.
#[derive(Debug)]
pub struct Participant {
    /// The participant's id.
    pub id: String,
    /// Its role in the session.
    pub role: ParticipantRole,
    /// Where it can be reached.
    pub endpoint: String,
}

impl Clone for Participant {
    fn clone(&self) -> (r: Self)
        ensures
            r == *self,
    {
        Participant { id: self.id.clone(), role: self.role, endpoint: self.endpoint.clone() }
    }
}

/// One session: its id, lifecycle state, parties and protocol.
#[derive(Debug)]
pub struct WorkflowSession {
    /// The session's id; the table key.
    pub id: String,
    /// Where the session stands.
    pub state: SessionState,
    /// The parties to the session.
    pub participants: Vec<Participant>,
    /// The pattern the session follows.
    pub protocol: SessionProtocol,
}

impl Clone for WorkflowSession {
    fn clone(&self) -> (r: Self)
        ensures
            r.id == self.id,
            r.state == self.state,
            r.participants@ == self.participants@,
            r.protocol == self.protocol,
    {
        let participants = self.participants.clone();
        proof {
            assert forall|i: int| 0 <= i < participants@.len()
                implies participants@[i] == self.participants@[i] by {
                assert(vstd::pervasive::cloned::<Participant>(
                    self.participants@[i],
                    participants@[i],
                ));
            }
            assert(participants@ =~= self.participants@);
        }
        WorkflowSession {
            id: self.id.clone(),
            state: self.state,
            participants,
            protocol: self.protocol,
        }
    }
}

impl Keyed for WorkflowSession {
    open spec fn key(&self) -> Seq<char> {
        self.id@
    }

    fn matches_key(&self, k: &String) -> (r: bool) {
        self.id == *k
    }
}

/// What a session message carries.  Structured payloads are carried as
/// opaque encoded text.
#[derive(Debug, Clone)]
pub enum MessageContent {
    /// Plain text.
    Text(String),
    /// An encoded data payload.
    Data(String),
    /// A command to the peer.
    Command(String),
    /// An encoded response payload.
    Response(String),
    /// An error report.
    Error(String),
}

/// A message within a session.
#[derive(Debug, Clone)]
pub struct SessionMessage {
    /// The message's id.
    pub id: String,
    /// The sending participant.
    pub sender: String,
    /// The receiving participant.
    pub receiver: String,
    /// What the message carries.
    pub content: MessageContent,
    /// Milliseconds since the Unix epoch when it was sent.
    pub timestamp_ms: i64,
}

/// Hands out consecutive session ids.
pub struct SessionFactory {
    next_id: u64,
}

impl SessionFactory {
    /// The next number to hand out.
    pub closed spec fn spec_next_id(&self) -> u64 {
        self.next_id
    }

    /// A factory whose first id is `session_1`.
    pub fn new() -> (r: Self)
        ensures
            r.spec_next_id() == 1,
    {
        SessionFactory { next_id: 1 }
    }

    /// The next id, of the form `session_<n>`; the counter advances
    /// (saturating at the type's maximum).
    pub fn generate_id(&mut self) -> (r: String)
        ensures
            r@ == "session_"@ + spec_decimal(old(self).spec_next_id() as int),
            final(self).spec_next_id() == (if old(self).spec_next_id() < u64::MAX {
                old(self).spec_next_id() + 1
            } else {
                u64::MAX as int
            }),
    {
        let id = ("session_".to_owned()).concat(u128_to_decimal(self.next_id as u128).as_str());
        if self.next_id < u64::MAX {
            self.next_id = self.next_id + 1;
        }
        id
    }
}

/// Owns the table of active sessions and hands out ids.
pub struct SessionManager {
    active_sessions: KeyedVec<WorkflowSession>,
    session_factory: SessionFactory,
}

impl SessionManager {
    /// The managed sessions, by id.
    pub closed spec fn sessions_view(&self) -> Map<Seq<char>, WorkflowSession> {
        self.active_sessions.view()
    }

    /// The id factory's counter.
    pub closed spec fn spec_next_id(&self) -> u64 {
        self.session_factory.spec_next_id()
    }

    /// Session ids are unique.
    pub closed spec fn wf(&self) -> bool {
        self.active_sessions.well_formed()
    }

    /// A manager with no sessions.
    pub fn new() -> (r: Self)
        ensures
            r.wf(),
            r.sessions_view() == Map::<Seq<char>, WorkflowSession>::empty(),
            r.spec_next_id() == 1,
    {
        SessionManager { active_sessions: KeyedVec::new(), session_factory: SessionFactory::new() }
    }

    /// The next session id, of the form `session_<n>`.
    pub fn generate_session_id(&mut self) -> (r: String)
        requires
            old(self).wf(),
        ensures
            final(self).wf(),
            final(self).sessions_view() == old(self).sessions_view(),
            r@ == "session_"@ + spec_decimal(old(self).spec_next_id() as int),
    {
        self.session_factory.generate_id()
    }

    /// Store `session` under its id, replacing a previous one.
    pub fn add_session(&mut self, session: WorkflowSession) -> (r: Result<(), String>)
        requires
            old(self).wf(),
        ensures
            final(self).wf(),
            r is Ok,
            final(self).sessions_view() == old(self).sessions_view().insert(session.id@, session),
    {
        let key = session.id.clone();
        self.active_sessions.insert(&key, session);
        Ok(())
    }

    /// Store the session's new state under its id.
    pub fn update_session(&mut self, session: WorkflowSession) -> (r: Result<(), String>)
        requires
            old(self).wf(),
        ensures
            final(self).wf(),
            r is Ok,
            final(self).sessions_view() == old(self).sessions_view().insert(session.id@, session),
    {
        let key = session.id.clone();
        self.active_sessions.insert(&key, session);
        Ok(())
    }

    /// Hand `message` to the transport bound to `session_id`.
    pub fn send_message(&self, session_id: &str, message: SessionMessage) -> (r: Result<(), String>)
        ensures
            r is Ok,
    {
        let _ = session_id;
        let _ = message;
        Ok(())
    }

    /// Poll the transport bound to `session_id`; no transport is
    /// bound, so there is never a message.
    pub fn receive_message(&self, session_id: &str) -> (r: Result<Option<SessionMessage>, String>)
        ensures
            r matches Ok(m) && m is None,
    {
        let _ = session_id;
        Ok(None)
    }
}

/// Drives sessions: creates, starts, completes them, and routes
/// messages.
pub struct SessionTypesWorkflowEngine {
    sessions: KeyedVec<WorkflowSession>,
    session_manager: SessionManager,
}

impl SessionTypesWorkflowEngine {
    /// The engine's sessions, by id.
    pub closed spec fn sessions_view(&self) -> Map<Seq<char>, WorkflowSession> {
        self.sessions.view()
    }

    /// Session ids are unique in both tables.
    pub closed spec fn wf(&self) -> bool {
        self.sessions.well_formed() && self.session_manager.wf()
    }

    /// An engine with no sessions.
    pub fn new() -> (r: Self)
        ensures
            r.wf(),
            r.sessions_view() == Map::<Seq<char>, WorkflowSession>::empty(),
    {
        SessionTypesWorkflowEngine { sessions: KeyedVec::new(), session_manager: SessionManager::new() }
    }

    /// Create a session over `protocol` between `participants`: a
    /// fresh id is handed out and the session starts in the
    /// `Initial` state.
    pub fn create_session(
        &mut self,
        protocol: SessionProtocol,
        participants: Vec<Participant>,
    ) -> (r: Result<String, String>)
        requires
            old(self).wf(),
        ensures
            final(self).wf(),
            r matches Ok(id) && ({
                &&& final(self).sessions_view().contains_key(id@)
                &&& final(self).sessions_view()[id@].id@ == id@
                &&& final(self).sessions_view()[id@].state is Initial
                &&& final(self).sessions_view()[id@].protocol == protocol
                &&& final(self).sessions_view()[id@].participants@ == participants@
                &&& final(self).sessions_view().remove(id@)
                    == old(self).sessions_view().remove(id@)
            }),
    {
        let session_id = self.session_manager.generate_session_id();
        let session = WorkflowSession {
            id: session_id.clone(),
            state: SessionState::Initial,
            participants,
            protocol,
        };
        let res = self.session_manager.add_session(session.clone());
        proof {
            assert(res is Ok);
        }
        let key = session_id.clone();
        self.sessions.insert(&key, session);
        proof {
            assert(final(self).sessions_view().remove(key@)
                =~= old(self).sessions_view().remove(key@));
        }
        Ok(session_id)
    }

    /// Mark the session active.  A session id that is not known is
    /// ignored, as the delivery is fire-and-forget.
    pub fn start_session(&mut self, session_id: &str) -> (r: Result<(), String>)
        requires
            old(self).wf(),
        ensures
            final(self).wf(),
            r is Ok,
            old(self).sessions_view().contains_key(session_id@)
                ==> final(self).sessions_view().contains_key(session_id@)
                    && final(self).sessions_view()[session_id@].state is Active
                    && final(self).sessions_view()[session_id@].id
                        == old(self).sessions_view()[session_id@].id
                    && final(self).sessions_view().remove(session_id@)
                        == old(self).sessions_view().remove(session_id@),
            !old(self).sessions_view().contains_key(session_id@)
                ==> final(self).sessions_view() == old(self).sessions_view(),
    {
        self.set_session_state(session_id, SessionState::Active)
    }

    /// Mark the session completed.  A session id that is not known is
    /// ignored.
    pub fn complete_session(&mut self, session_id: &str) -> (r: Result<(), String>)
        requires
            old(self).wf(),
        ensures
            final(self).wf(),
            r is Ok,
            old(self).sessions_view().contains_key(session_id@)
                ==> final(self).sessions_view().contains_key(session_id@)
                    && final(self).sessions_view()[session_id@].state is Completed
                    && final(self).sessions_view()[session_id@].id
                        == old(self).sessions_view()[session_id@].id
                    && final(self).sessions_view().remove(session_id@)
                        == old(self).sessions_view().remove(session_id@),
            !old(self).sessions_view().contains_key(session_id@)
                ==> final(self).sessions_view() == old(self).sessions_view(),
    {
        self.set_session_state(session_id, SessionState::Completed)
    }

    /// Put the session into `state`, if it is known.
    fn set_session_state(&mut self, session_id: &str, state: SessionState) -> (r: Result<(), String>)
        requires
            old(self).wf(),
        ensures
            final(self).wf(),
            r is Ok,
            old(self).sessions_view().contains_key(session_id@)
                ==> final(self).sessions_view().contains_key(session_id@)
                    && final(self).sessions_view()[session_id@].state == state
                    && final(self).sessions_view()[session_id@].id
                        == old(self).sessions_view()[session_id@].id
                    && final(self).sessions_view().remove(session_id@)
                        == old(self).sessions_view().remove(session_id@),
            !old(self).sessions_view().contains_key(session_id@)
                ==> final(self).sessions_view() == old(self).sessions_view(),
    {
        let key = session_id.to_owned();
        let updated: WorkflowSession = match self.sessions.get(&key) {
            Some(session) => {
                let mut s = session.clone();
                s.state = state;
                s
            },
            None => {
                return Ok(());
            },
        };
        let res = self.session_manager.update_session(updated.clone());
        proof {
            assert(res is Ok);
        }
        self.sessions.insert(&key, updated);
        proof {
            assert(final(self).sessions_view().remove(key@)
                =~= old(self).sessions_view().remove(key@));
        }
        Ok(())
    }

    /// Hand `message` to the transport bound to `session_id`.
    pub fn send_message(&self, session_id: &str, message: SessionMessage) -> (r: Result<(), String>)
        ensures
            r is Ok,
    {
        self.session_manager.send_message(session_id, message)
    }

    /// Poll the transport bound to `session_id`.
    pub fn receive_message(&self, session_id: &str) -> (r: Result<Option<SessionMessage>, String>)
        ensures
            r matches Ok(m) && m is None,
    {
        self.session_manager.receive_message(session_id)
    }

    /// The lifecycle state of `session_id`, if known.
    pub fn get_session_state(&self, session_id: &str) -> (r: Option<&SessionState>)
        requires
            self.wf(),
        ensures
            r is Some <==> self.sessions_view().contains_key(session_id@),
            r matches Some(st) ==> *st == self.sessions_view()[session_id@].state,
    {
        let key = session_id.to_owned();
        match self.sessions.get(&key) {
            Some(session) => Some(&session.state),
            None => None,
        }
    }

    /// All sessions, by id.
    pub fn get_all_sessions(&self) -> (r: &KeyedVec<WorkflowSession>)
        ensures
            r.view() == self.sessions_view(),
    {
        &self.sessions
    }
}

/// How a session workflow's steps relate.
#[derive(Debug, Clone, Copy, PartialEq, Eq, Structural)]
pub enum WorkflowProtocol {
    /// Steps run one after another.
    Sequential,
    /// Steps run side by side.
    Parallel,
    /// Steps run when their conditions hold.
    Conditional,
    /// Steps repeat until a condition holds.
    Loop,
}

/// One step of a session workflow.
#[derive(Debug, Clone)]
pub struct WorkflowStep {
    /// Step name; must be non-empty for the workflow to validate.
    pub name: String,
    /// Action the step performs.
    pub action: String,
    /// Name of the step's input type.
    pub input_type: String,
    /// Name of the step's output type.
    pub output_type: String,
    /// Per-step timeout in milliseconds.
    pub timeout_ms: u64,
}

/// A workflow whose communication follows session types.
pub struct SessionTypesWorkflow {
    /// The workflow's name.
    pub name: String,
    /// How its steps relate.
    pub protocol: WorkflowProtocol,
    /// Its steps, in order.
    pub steps: Vec<WorkflowStep>,
    /// Its parties.
    pub participants: Vec<Participant>,
}

impl SessionTypesWorkflow {
    /// A workflow with no steps or participants yet.
    pub fn new(name: String, protocol: WorkflowProtocol) -> (r: Self)
        ensures
            r.name@ == name@,
            r.protocol == protocol,
            r.steps@.len() == 0,
            r.participants@.len() == 0,
    {
        SessionTypesWorkflow { name, protocol, steps: Vec::new(), participants: Vec::new() }
    }

    /// Append a step.
    pub fn add_step(&mut self, step: WorkflowStep)
        ensures
            final(self).steps@ == old(self).steps@.push(step),
            final(self).participants@ == old(self).participants@,
            final(self).name == old(self).name,
            final(self).protocol == old(self).protocol,
    {
        self.steps.push(step);
    }

    /// Add a participant.
    pub fn add_participant(&mut self, participant: Participant)
        ensures
            final(self).participants@ == old(self).participants@.push(participant),
            final(self).steps@ == old(self).steps@,
            final(self).name == old(self).name,
            final(self).protocol == old(self).protocol,
    {
        self.participants.push(participant);
    }

    /// Validate the workflow: it needs at least one step, at least
    /// one participant, and a name on every step.  The error names
    /// the first check that failed, with the position of the first
    /// unnamed step.
    pub fn validate(&self) -> (r: Result<(), String>)
        ensures
            r is Ok <==> (self.steps@.len() > 0
                && self.participants@.len() > 0
                && forall|i: int| 0 <= i < self.steps@.len()
                    ==> (#[trigger] self.steps@[i]).name@.len() > 0),
            self.steps@.len() == 0
                ==> (r matches Err(m) && m@ == "Workflow must have at least one step"@),
            self.steps@.len() > 0 && self.participants@.len() == 0
                ==> (r matches Err(m) && m@ == "Workflow must have at least one participant"@),
            ({
                &&& self.steps@.len() > 0
                &&& self.participants@.len() > 0
                &&& exists|i: int| 0 <= i < self.steps@.len()
                    && (#[trigger] self.steps@[i]).name@.len() == 0
            }) ==> (r matches Err(m) && ({
                let first = choose|i: int| 0 <= i < self.steps@.len()
                    && (#[trigger] self.steps@[i]).name@.len() == 0
                    && forall|j: int| 0 <= j < i ==> (#[trigger] self.steps@[j]).name@.len() > 0;
                m@ == "Step "@ + spec_decimal(first) + " must have a name"@
            })),
    {
        if self.steps.len() == 0 {
            return Err("Workflow must have at least one step".to_owned());
        }
        if self.participants.len() == 0 {
            return Err("Workflow must have at least one participant".to_owned());
        }
        let n = self.steps.len();
        let mut i: usize = 0;
        while i < n
            invariant
                n == self.steps@.len(),
                n > 0,
                self.participants@.len() > 0,
                i <= n,
                forall|j: int| 0 <= j < i ==> (#[trigger] self.steps@[j]).name@.len() > 0,
            decreases n - i,
        {
            if self.steps[i].name.as_str().is_empty() {
                proof {
                    let first = choose|k: int| 0 <= k < self.steps@.len()
                        && (#[trigger] self.steps@[k]).name@.len() == 0
                        && forall|j: int| 0 <= j < k
                            ==> (#[trigger] self.steps@[j]).name@.len() > 0;
                    assert(0 <= first < self.steps@.len()
                        && self.steps@[first].name@.len() == 0
                        && forall|j: int| 0 <= j < first
                            ==> (#[trigger] self.steps@[j]).name@.len() > 0) by {
                        assert(0 <= i < self.steps@.len()
                            && self.steps@[i as int].name@.len() == 0
                            && forall|j: int| 0 <= j < i
                                ==> (#[trigger] self.steps@[j]).name@.len() > 0);
                    }
                    assert(first == i as int) by {
                        if first < i as int {
                            assert(self.steps@[first].name@.len() > 0);
                        }
                        if first > i as int {
                            assert(self.steps@[i as int].name@.len() > 0);
                        }
                    }
                }
                let msg = ("Step ".to_owned())
                    .concat(u128_to_decimal(i as u128).as_str())
                    .concat(" must have a name");
                return Err(msg);
            }
            i = i + 1;
        }
        Ok(())
    }
}

/// Per-session communication metrics.
#[derive(Debug, Clone)]
pub struct SessionMetrics {
    /// The session measured.
    pub session_id: String,
    /// Messages the session sent.
    pub messages_sent: u64,
    /// Messages the session received.
    pub messages_received: u64,
    /// Errors the session hit.
    pub errors: u64,
    /// How long the session ran, in milliseconds.
    pub duration_ms: u64,
    /// Lifecycle state changes observed.
    pub state_transitions: u64,
}

/// Keeps metrics per session.
pub struct SessionTypesMonitor {
    metrics: KeyedVec<NamedEntry<SessionMetrics>>,
}

impl SessionTypesMonitor {
    /// The recorded metrics, by recording key.
    pub closed spec fn metrics_view(&self) -> Map<Seq<char>, NamedEntry<SessionMetrics>> {
        self.metrics.view()
    }

    /// Recording keys are unique.
    pub closed spec fn wf(&self) -> bool {
        self.metrics.well_formed()
    }

    /// A monitor with nothing recorded.
    pub fn new() -> (r: Self)
        ensures
            r.wf(),
            r.metrics_view() == Map::<Seq<char>, NamedEntry<SessionMetrics>>::empty(),
    {
        SessionTypesMonitor { metrics: KeyedVec::new() }
    }

    /// Record (or replace) the metrics stored under `session_id`.
    pub fn record_metrics(&mut self, session_id: String, metrics: SessionMetrics)
        requires
            old(self).wf(),
        ensures
            final(self).wf(),
            final(self).metrics_view().contains_key(session_id@),
            final(self).metrics_view()[session_id@].value == metrics,
            final(self).metrics_view().remove(session_id@)
                == old(self).metrics_view().remove(session_id@),
    {
        let key = session_id.clone();
        self.metrics.insert(&key, NamedEntry { name: session_id, value: metrics });
        proof {
            assert(final(self).metrics_view().remove(key@)
                =~= old(self).metrics_view().remove(key@));
        }
    }

    /// The metrics stored under `session_id`, if any.
    pub fn get_metrics(&self, session_id: &str) -> (r: Option<&SessionMetrics>)
        requires
            self.wf(),
        ensures
            r is Some <==> self.metrics_view().contains_key(session_id@),
            r matches Some(m) ==> *m == self.metrics_view()[session_id@].value,
    {
        let key = session_id.to_owned();
        match self.metrics.get(&key) {
            Some(entry) => Some(&entry.value),
            None => None,
        }
    }

    /// All recorded metrics entries.
    pub fn get_all_metrics(&self) -> (r: &KeyedVec<NamedEntry<SessionMetrics>>)
        ensures
            r.view() == self.metrics_view(),
    {
        &self.metrics
    }
}

} // verus!
