use vstd::prelude::*;
use vstd::string::*;
use crate::error::HtMcpError;
use crate::text::{decimal, with_port};

verus! {

/// Arguments of session creation; every field may be left out.
#[derive(Debug)]
pub struct CreateSessionArgs {
    pub command: Option<Vec<String>>,
    pub enable_web_server: Option<bool>,
    pub enable_tunnel: Option<bool>,
}

/// What session creation reports.
#[derive(Debug)]
pub struct CreateSessionResult {
    pub session_id: String,
    pub message: String,
    pub web_server_enabled: bool,
    pub web_server_url: Option<String>,
    pub tunnel_enabled: bool,
    pub tunnel_url: Option<String>,
}

#[derive(Debug)]
pub struct SendKeysArgs {
    pub session_id: String,
    pub keys: Vec<String>,
}

#[derive(Debug)]
pub struct TakeSnapshotArgs {
    pub session_id: String,
}

#[derive(Debug)]
pub struct SnapshotResult {
    pub session_id: String,
    pub snapshot: String,
}

#[derive(Debug)]
pub struct ExecuteCommandArgs {
    pub session_id: String,
    pub command: String,
}

#[derive(Debug)]
pub struct CloseSessionArgs {
    pub session_id: String,
}

/// Session creation with its defaults filled in.
#[derive(Debug)]
pub struct SessionPlan {
    pub command: Vec<String>,
    pub web_server: bool,
    pub tunnel: bool,
}

pub open spec fn default_command() -> Seq<Seq<char>> {
    seq!["bash"@]
}

pub open spec fn strings_view(v: Seq<String>) -> Seq<Seq<char>> {
    v.map_values(|s: String| s@)
}

pub open spec fn preview_url_of(port: u16) -> Seq<char> {
    "http://127.0.0.1:"@ + decimal(port as nat)
}

pub open spec fn created_msg() -> Seq<char> {
    "HT session created successfully"@
}

impl CreateSessionArgs {
    /// Fills in the defaults: the command `bash`, no web server, no tunnel.
    pub fn plan(self) -> (r: SessionPlan)
        ensures
            strings_view(r.command@) == match self.command {
                Some(c) => strings_view(c@),
                None => default_command(),
            },
            r.web_server == match self.enable_web_server { Some(b) => b, None => false },
            r.tunnel == match self.enable_tunnel { Some(b) => b, None => false },
    {
        let command = match self.command {
            Some(c) => c,
            None => {
                let mut c: Vec<String> = Vec::new();
                c.push("bash".to_string());
                assert(strings_view(c@) =~= default_command());
                c
            },
        };
        let web_server = match self.enable_web_server {
            Some(b) => b,
            None => false,
        };
        let tunnel = match self.enable_tunnel {
            Some(b) => b,
            None => false,
        };
        SessionPlan { command, web_server, tunnel }
    }
}

impl SessionPlan {
    /// A tunnel is started only for a session that serves a live preview.
    pub fn starts_tunnel(&self) -> (r: bool)
        ensures
            r == (self.web_server && self.tunnel),
    {
        self.web_server && self.tunnel
    }

    /// The command line handed to the terminal: the words joined by single spaces.
    pub fn command_line(&self) -> (r: String)
        ensures
            r@ == joined(strings_view(self.command@)),
    {
        let mut r = String::new();
        let mut i: usize = 0;
        while i < self.command.len()
            invariant
                i <= self.command@.len(),
                r@ == joined(strings_view(self.command@).take(i as int)),
            decreases self.command.len() - i,
        {
            proof {
                reveal_strlit(" ");
                let w = strings_view(self.command@);
                assert(w.take(i + 1).drop_last() =~= w.take(i as int));
            }
            if i > 0 {
                r.append(" ");
            }
            r.append(self.command[i].as_str());
            i = i + 1;
        }
        proof {
            assert(strings_view(self.command@).take(self.command@.len() as int) =~= strings_view(self.command@));
        }
        r
    }
}

/// The words of `w` joined by single spaces.
pub open spec fn joined(w: Seq<Seq<char>>) -> Seq<char>
    decreases w.len(),
{
    if w.len() == 0 {
        Seq::empty()
    } else if w.len() == 1 {
        w[0]
    } else {
        joined(w.drop_last()) + " "@ + w.last()
    }
}

/// The address of a session's live preview on `port`.
pub fn preview_url(port: u16) -> (r: String)
    ensures
        r@ == preview_url_of(port),
{
    with_port("http://127.0.0.1:", port)
}

impl CreateSessionResult {
    /// The report of a created session: the preview address follows from the
    /// preview port, if one was allocated.
    pub fn created(
        session_id: String,
        web_server_enabled: bool,
        web_port: Option<u16>,
        tunnel_enabled: bool,
        tunnel_url: Option<String>,
    ) -> (r: CreateSessionResult)
        ensures
            r.session_id == session_id,
            r.message@ == created_msg(),
            r.web_server_enabled == web_server_enabled,
            match web_port {
                Some(p) => r.web_server_url matches Some(u) && u@ == preview_url_of(p),
                None => r.web_server_url is None,
            },
            r.tunnel_enabled == tunnel_enabled,
            r.tunnel_url == tunnel_url,
    {
        let web_server_url = match web_port {
            Some(p) => Some(preview_url(p)),
            None => None,
        };
        CreateSessionResult {
            session_id,
            message: "HT session created successfully".to_string(),
            web_server_enabled,
            web_server_url,
            tunnel_enabled,
            tunnel_url,
        }
    }
}

impl ExecuteCommandArgs {
    /// The two key batches a command is typed as: its text, then `Enter`.
    pub fn key_batches(&self) -> (r: (SendKeysArgs, SendKeysArgs))
        ensures
            r.0.session_id@ == self.session_id@,
            strings_view(r.0.keys@) == seq![self.command@],
            r.1.session_id@ == self.session_id@,
            strings_view(r.1.keys@) == seq!["Enter"@],
    {
        let mut first: Vec<String> = Vec::new();
        first.push(self.command.clone());
        let mut second: Vec<String> = Vec::new();
        second.push("Enter".to_string());
        assert(strings_view(first@) =~= seq![self.command@]);
        assert(strings_view(second@) =~= seq!["Enter"@]);
        (
            SendKeysArgs { session_id: self.session_id.clone(), keys: first },
            SendKeysArgs { session_id: self.session_id.clone(), keys: second },
        )
    }
}

/// How waiting for a snapshot ended.
#[derive(Debug)]
pub enum SnapshotReply {
    /// The actor answered with the screen text.
    Text(String),
    /// The actor dropped the reply channel; the receiver's message.
    Dropped(String),
    /// No answer came before the deadline.
    TimedOut,
}

pub open spec fn snapshot_timeout_msg() -> Seq<char> {
    "Snapshot request timed out"@
}

pub open spec fn snapshot_dropped_msg(detail: Seq<char>) -> Seq<char> {
    "Failed to receive snapshot: "@ + detail
}

/// The result of a snapshot request from the way the wait for it ended.
pub fn snapshot_outcome(session_id: String, reply: SnapshotReply) -> (r: Result<SnapshotResult, HtMcpError>)
    ensures
        match reply {
            SnapshotReply::Text(t) => r matches Ok(s) && s.session_id == session_id && s.snapshot == t,
            SnapshotReply::Dropped(d) => r matches Err(HtMcpError::Internal(m)) && m@ == snapshot_dropped_msg(d@),
            SnapshotReply::TimedOut => r matches Err(HtMcpError::Internal(m)) && m@ == snapshot_timeout_msg(),
        },
{
    match reply {
        SnapshotReply::Text(t) => Ok(SnapshotResult { session_id, snapshot: t }),
        SnapshotReply::Dropped(d) => {
            let m = String::from_str("Failed to receive snapshot: ");
            Err(HtMcpError::Internal(m.concat(d.as_str())))
        },
        SnapshotReply::TimedOut => Err(HtMcpError::Internal("Snapshot request timed out".to_string())),
    }
}

} // verus!
