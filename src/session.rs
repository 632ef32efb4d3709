use vstd::prelude::*;
use vstd::string::*;
use std::sync::Arc;
use crate::error::{HtMcpError, is_not_found};
use crate::tunnel::{TunnelInfo, TunnelManager, new_uuid, now, uuid_text};
use crate::ports::{PORT_RANGE_START, PORT_RANGE_END};
use crate::types::{CreateSessionResult, SessionPlan, preview_url_of, created_msg};

verus! {

/// tokio's bounded channel sender, the handle on a session's command queue.
#[verifier::external_type_specification]
#[verifier::external_body]
#[verifier::reject_recursive_types(T)]
pub struct ExCommandSender<T>(tokio::sync::mpsc::Sender<T>);

/// tokio's single-use channel sender that carries a snapshot back.
#[verifier::external_type_specification]
#[verifier::external_body]
#[verifier::reject_recursive_types(T)]
pub struct ExReplySender<T>(tokio::sync::oneshot::Sender<T>);

/// The text that lossy UTF-8 decoding makes of `bytes`.
pub uninterp spec fn utf8_lossy(bytes: Seq<u8>) -> Seq<char>;

/// Relies on String::from_utf8_lossy: decodes `bytes`, putting U+FFFD in place
/// of each invalid sequence.
#[verifier::external_body]
fn decode_lossy(bytes: &Vec<u8>) -> (r: String)
    ensures
        r@ == utf8_lossy(bytes@),
{
    String::from_utf8_lossy(bytes.as_slice()).into_owned()
}

/// A request to a session's actor.
#[derive(Debug)]
pub enum SessionCommand {
    /// Keys and text to type into the process, as key names.
    Input(Vec<String>),
    /// A request for the current screen text, answered once on the channel.
    Snapshot(tokio::sync::oneshot::Sender<String>),
    /// New terminal dimensions: columns, rows.
    Resize(usize, usize),
}

/// What a session actor observed on one of its three sources.
#[derive(Debug)]
pub enum ActorEvent {
    /// Bytes written by the attached process.
    Output(Vec<u8>),
    /// The process exited: its output channel is closed.
    OutputClosed,
    /// A request arrived on the command queue.
    Command(SessionCommand),
    /// Every sender of the command queue is gone.
    CommandsClosed,
    /// A live viewer connected.
    Viewer,
    /// The viewer channel is closed.
    ViewersClosed,
}

/// What the actor's owner performs on the terminal state in answer to an event.
#[derive(Debug)]
pub enum ActorAction {
    /// Append this text to the terminal.
    ApplyOutput(String),
    /// Encode these keys in the terminal's current mode and write them to the process.
    ForwardInput(Vec<String>),
    /// Send the current screen text on this channel; a closed channel is ignored.
    ReplySnapshot(tokio::sync::oneshot::Sender<String>),
    /// Change the terminal's dimensions: columns, rows.
    ResizeTerminal(usize, usize),
    /// Hand the new viewer a live subscription.
    AcceptViewer,
    /// Accept no further viewers; the actor goes on.
    StopServing,
    /// Leave the loop: the actor ends.
    Exit,
}

/// The decisions of one session's actor: it is still running, and it still
/// accepts viewers while `serving`.
pub struct SessionActor {
    pub running: bool,
    pub serving: bool,
}

impl SessionActor {
    pub fn new() -> (r: SessionActor)
        ensures
            r.running,
            r.serving,
    {
        SessionActor { running: true, serving: true }
    }

    /// Whether the viewer channel is still to be watched.
    pub fn accepts_viewers(&self) -> (r: bool)
        ensures
            r == (self.running && self.serving),
    {
        self.running && self.serving
    }

    /// Handles exactly one event.
    pub fn step(&mut self, event: ActorEvent) -> (r: ActorAction)
        requires
            old(self).running,
            event is Viewer || event is ViewersClosed ==> old(self).serving,
        ensures
            final(self).running == !(event is OutputClosed || event is CommandsClosed),
            final(self).serving == (old(self).serving && !(event is ViewersClosed)),
            match event {
                ActorEvent::Output(b) => r matches ActorAction::ApplyOutput(t) && t@ == utf8_lossy(b@),
                ActorEvent::OutputClosed => r is Exit,
                ActorEvent::Command(SessionCommand::Input(keys)) => r == ActorAction::ForwardInput(keys),
                ActorEvent::Command(SessionCommand::Snapshot(tx)) => r == ActorAction::ReplySnapshot(tx),
                ActorEvent::Command(SessionCommand::Resize(c, w)) => r == ActorAction::ResizeTerminal(c, w),
                ActorEvent::CommandsClosed => r is Exit,
                ActorEvent::Viewer => r is AcceptViewer,
                ActorEvent::ViewersClosed => r is StopServing,
            },
    {
        match event {
            ActorEvent::Output(b) => ActorAction::ApplyOutput(decode_lossy(&b)),
            ActorEvent::OutputClosed => {
                self.running = false;
                ActorAction::Exit
            },
            ActorEvent::Command(SessionCommand::Input(keys)) => ActorAction::ForwardInput(keys),
            ActorEvent::Command(SessionCommand::Snapshot(tx)) => ActorAction::ReplySnapshot(tx),
            ActorEvent::Command(SessionCommand::Resize(c, w)) => ActorAction::ResizeTerminal(c, w),
            ActorEvent::CommandsClosed => {
                self.running = false;
                ActorAction::Exit
            },
            ActorEvent::Viewer => ActorAction::AcceptViewer,
            ActorEvent::ViewersClosed => {
                self.serving = false;
                ActorAction::StopServing
            },
        }
    }
}

/// Bookkeeping for one session.
#[derive(Debug)]
pub struct SessionInfo {
    pub id: String,
    pub internal_id: uuid::Uuid,
    pub created_at: std::time::SystemTime,
    pub web_server_url: Option<String>,
    pub tunnel_url: Option<String>,
    pub is_alive: bool,
    pub command: Vec<String>,
    pub command_tx: Arc<tokio::sync::mpsc::Sender<SessionCommand>>,
}

fn copy_text(o: &Option<String>) -> (r: Option<String>)
    ensures
        r == *o,
{
    match o {
        Some(u) => Some(u.clone()),
        None => None,
    }
}

pub open spec fn has_session(s: Seq<SessionInfo>, id: Seq<char>) -> bool {
    exists|i: int| 0 <= i < s.len() && (#[trigger] s[i]).id@ == id
}

/// The address of the tunnel a session asked for: a failed tunnel start
/// leaves the session without one.
pub fn tunnel_url_of(outcome: Result<TunnelInfo, HtMcpError>) -> (r: Option<String>)
    ensures
        match outcome {
            Ok(info) => r == Some(info.url),
            Err(_) => r is None,
        },
{
    match outcome {
        Ok(info) => Some(info.url),
        Err(_) => None,
    }
}

/// `after` is `before` with `s` stored: in place of the session under the same
/// id, or added at the end.
pub open spec fn stored_as(before: Seq<SessionInfo>, after: Seq<SessionInfo>, s: SessionInfo) -> bool {
    &&& has_session(before, s.id@) ==> exists|i: int| 0 <= i < before.len()
        && before[i].id@ == s.id@ && after == before.update(i, s)
    &&& !has_session(before, s.id@) ==> after == before.push(s)
}

pub open spec fn unique_sessions(s: Seq<SessionInfo>) -> bool {
    forall|i: int, j: int| 0 <= i < j < s.len() ==> (#[trigger] s[i]).id@ != (#[trigger] s[j]).id@
}

/// The registry of live sessions, keyed by their public id, and the tunnels
/// started for them.
pub struct SessionManager {
    sessions: Vec<SessionInfo>,
    pub tunnel_manager: TunnelManager,
}

impl SessionManager {
    pub closed spec fn view(&self) -> Seq<SessionInfo> {
        self.sessions@
    }

    /// The tunnels held for the sessions.
    pub closed spec fn tunnels(&self) -> Seq<crate::tunnel::TunnelView> {
        self.tunnel_manager@
    }

    /// Each id names at most one session.
    pub open spec fn wf(&self) -> bool {
        &&& unique_sessions(self@)
        &&& self.tunnels_wf()
    }

    /// The tunnel registry's own invariant.
    pub closed spec fn tunnels_wf(&self) -> bool {
        self.tunnel_manager.wf()
    }

    pub fn new() -> (r: Self)
        ensures
            r.wf(),
            r@ == Seq::<SessionInfo>::empty(),
            r.tunnels().len() == 0,
    {
        SessionManager { sessions: Vec::new(), tunnel_manager: TunnelManager::new() }
    }

    fn position(&self, id: &str) -> (r: Option<usize>)
        ensures
            match r {
                Some(i) => i < self@.len() && self@[i as int].id@ == id@,
                None => !has_session(self@, id@),
            },
    {
        let key = String::from_str(id);
        let mut i: usize = 0;
        while i < self.sessions.len()
            invariant
                i <= self.sessions.len(),
                key@ == id@,
                forall|k: int| 0 <= k < i ==> (#[trigger] self@[k]).id@ != id@,
            decreases self.sessions.len() - i,
        {
            if self.sessions[i].id == key {
                return Some(i);
            }
            i = i + 1;
        }
        None
    }

    /// Holds `info` under its id, in place of a session held under that id before.
    pub fn insert_session(&mut self, info: SessionInfo)
        requires
            old(self).wf(),
        ensures
            final(self).wf(),
            final(self).tunnels() == old(self).tunnels(),
            stored_as(old(self)@, final(self)@, info),
    {
        let ghost v = info;
        match self.position(info.id.as_str()) {
            Some(i) => {
                self.sessions.set(i, info);
                assert(self@ =~= old(self)@.update(i as int, v));
            },
            None => {
                self.sessions.push(info);
                assert(self@ =~= old(self)@.push(v));
            },
        }
    }

    /// Holds a newly started session under a fresh id and reports it. The
    /// preview address comes from `web_port` and the tunnel address from
    /// `tunnel_url`, each only where the plan asks for it.
    pub fn register_session(
        &mut self,
        plan: SessionPlan,
        web_port: Option<u16>,
        tunnel_url: Option<String>,
        command_tx: tokio::sync::mpsc::Sender<SessionCommand>,
    ) -> (r: CreateSessionResult)
        requires
            old(self).wf(),
            plan.web_server ==> web_port is Some,
            web_port matches Some(p) ==> PORT_RANGE_START <= p < PORT_RANGE_END,
        ensures
            final(self).wf(),
            final(self).tunnels() == old(self).tunnels(),
            r.session_id@.len() == 36,
            has_session(final(self)@, r.session_id@),
            r.message@ == created_msg(),
            r.web_server_enabled == plan.web_server,
            r.web_server_url is Some <==> plan.web_server,
            r.web_server_url matches Some(u) ==> exists|p: u16| web_port == Some(p)
                && PORT_RANGE_START <= p < PORT_RANGE_END && u@ == preview_url_of(p),
            r.tunnel_enabled == plan.tunnel,
            r.tunnel_url == (if plan.web_server && plan.tunnel { tunnel_url } else { None }),
            exists|s: SessionInfo| #[trigger] stored_as(old(self)@, final(self)@, s) && {
                &&& s.id@ == r.session_id@
                &&& s.command == plan.command
                &&& s.is_alive
                &&& s.web_server_url == r.web_server_url
                &&& s.tunnel_url == r.tunnel_url
            },
    {
        let web_port = if plan.web_server { web_port } else { None };
        let tunnel_url = if plan.starts_tunnel() { tunnel_url } else { None };
        let session_id = uuid_text(&new_uuid());
        let result = CreateSessionResult::created(
            session_id.clone(),
            plan.web_server,
            web_port,
            plan.tunnel,
            tunnel_url,
        );
        let web_server_url = copy_text(&result.web_server_url);
        let tunnel_copy = copy_text(&result.tunnel_url);
        let info = SessionInfo {
            id: session_id,
            internal_id: new_uuid(),
            created_at: now(),
            web_server_url,
            tunnel_url: tunnel_copy,
            is_alive: true,
            command: plan.command,
            command_tx: Arc::new(command_tx),
        };
        let ghost v = info;
        self.insert_session(info);
        proof {
            if has_session(old(self)@, v.id@) {
                let i = choose|i: int| 0 <= i < old(self)@.len()
                    && old(self)@[i].id@ == v.id@ && self@ == old(self)@.update(i, v);
                assert(self@[i].id@ == result.session_id@);
            } else {
                assert(self@[self@.len() - 1].id@ == result.session_id@);
            }
        }
        assert(stored_as(old(self)@, self@, v));
        result
    }

    /// The session held under `session_id`.
    pub fn find_session(&self, session_id: &str) -> (r: Result<&SessionInfo, HtMcpError>)
        ensures
            r is Ok <==> has_session(self@, session_id@),
            r matches Ok(s) ==> s.id@ == session_id@ && self@.contains(*s),
            r matches Err(e) ==> is_not_found(e, session_id@),
    {
        match self.position(session_id) {
            Some(i) => Ok(&self.sessions[i]),
            None => Err(HtMcpError::SessionNotFound(String::from_str(session_id))),
        }
    }

    /// Removes the session held under `session_id`. Dropping what is returned
    /// drops the registry's handle on the session's command queue.
    pub fn remove_session(&mut self, session_id: &str) -> (r: Result<SessionInfo, HtMcpError>)
        requires
            old(self).wf(),
        ensures
            final(self).wf(),
            final(self).tunnels() == old(self).tunnels(),
            r is Ok <==> has_session(old(self)@, session_id@),
            r matches Ok(s) ==> exists|i: int| 0 <= i < old(self)@.len()
                && old(self)@[i] == s && s.id@ == session_id@
                && final(self)@ == old(self)@.remove(i),
            r matches Err(e) ==> is_not_found(e, session_id@) && final(self)@ == old(self)@,
    {
        match self.position(session_id) {
            Some(i) => {
                let s = self.sessions.remove(i);
                Ok(s)
            },
            None => Err(HtMcpError::SessionNotFound(String::from_str(session_id))),
        }
    }

    /// The held sessions, in the registry's order.
    pub fn sessions(&self) -> (r: &Vec<SessionInfo>)
        ensures
            r@ == self@,
            self.wf() ==> unique_sessions(r@),
    {
        &self.sessions
    }

    pub fn session_count(&self) -> (r: usize)
        ensures
            r == self@.len(),
    {
        self.sessions.len()
    }
}

} // verus!
