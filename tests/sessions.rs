use ht_mcp::error::HtMcpError;
use ht_mcp::session::{tunnel_url_of, ActorAction, ActorEvent, SessionActor, SessionCommand, SessionManager};
use ht_mcp::tunnel::TunnelInfo;
use ht_mcp::types::{
    preview_url, snapshot_outcome, CreateSessionArgs, CreateSessionResult, ExecuteCommandArgs,
    SnapshotReply,
};

fn plain_plan() -> ht_mcp::types::SessionPlan {
    CreateSessionArgs { command: Some(vec!["bash".to_string()]), enable_web_server: Some(false), enable_tunnel: Some(false) }.plan()
}

#[test]
fn create_plain_shell_session_reports_no_urls() {
    let mut manager = SessionManager::new();
    let plan = plain_plan();
    assert_eq!(plan.command, vec!["bash".to_string()]);
    assert!(!plan.starts_tunnel());
    let (tx, _rx) = tokio::sync::mpsc::channel::<SessionCommand>(8);
    let result = manager.register_session(plan, None, None, tx);
    assert!(!result.session_id.is_empty());
    assert_eq!(result.session_id.len(), 36);
    assert!(!result.web_server_enabled);
    assert_eq!(result.web_server_url, None);
    assert!(!result.tunnel_enabled);
    assert_eq!(result.tunnel_url, None);
    assert_eq!(result.message, "HT session created successfully");
    let info = manager.find_session(&result.session_id).unwrap();
    assert_eq!(info.command, vec!["bash".to_string()]);
    assert!(info.is_alive);
}

#[test]
fn plan_fills_in_defaults() {
    let plan = CreateSessionArgs { command: None, enable_web_server: None, enable_tunnel: None }.plan();
    assert_eq!(plan.command, vec!["bash".to_string()]);
    assert!(!plan.web_server);
    assert!(!plan.tunnel);
    let plan = CreateSessionArgs { command: None, enable_web_server: None, enable_tunnel: Some(true) }.plan();
    assert!(plan.tunnel);
    assert!(!plan.starts_tunnel());
    let plan = CreateSessionArgs { command: None, enable_web_server: Some(true), enable_tunnel: Some(true) }.plan();
    assert!(plan.starts_tunnel());
}

#[test]
fn command_line_joins_words() {
    let plan = CreateSessionArgs {
        command: Some(vec!["python3".to_string(), "-i".to_string(), "-q".to_string()]),
        enable_web_server: None,
        enable_tunnel: None,
    }
    .plan();
    assert_eq!(plan.command_line(), "python3 -i -q");
    let plan = CreateSessionArgs { command: Some(vec![]), enable_web_server: None, enable_tunnel: None }.plan();
    assert_eq!(plan.command_line(), "");
}

#[test]
fn web_server_session_reports_preview_url() {
    let mut manager = SessionManager::new();
    let plan = CreateSessionArgs { command: None, enable_web_server: Some(true), enable_tunnel: Some(true) }.plan();
    let (tx, _rx) = tokio::sync::mpsc::channel::<SessionCommand>(8);
    let result = manager.register_session(plan, Some(3618), Some("https://t.trycloudflare.com".to_string()), tx);
    assert!(result.web_server_enabled);
    assert_eq!(result.web_server_url, Some("http://127.0.0.1:3618".to_string()));
    assert!(result.tunnel_enabled);
    assert_eq!(result.tunnel_url, Some("https://t.trycloudflare.com".to_string()));
    assert_eq!(preview_url(3999), "http://127.0.0.1:3999");
}

#[test]
fn created_result_fields() {
    let r = CreateSessionResult::created("s".to_string(), true, Some(4000), false, None);
    assert_eq!(r.session_id, "s");
    assert_eq!(r.web_server_url, Some("http://127.0.0.1:4000".to_string()));
    assert_eq!(r.tunnel_url, None);
}

#[test]
fn unknown_session_fails_without_side_effects() {
    let mut manager = SessionManager::new();
    let (tx, _rx) = tokio::sync::mpsc::channel::<SessionCommand>(8);
    manager.register_session(plain_plan(), None, None, tx);
    match manager.find_session("nope") {
        Err(e) => assert_eq!(e, HtMcpError::SessionNotFound("nope".to_string())),
        Ok(_) => panic!("found an unknown session"),
    }
    match manager.remove_session("nope") {
        Err(e) => assert_eq!(e, HtMcpError::SessionNotFound("nope".to_string())),
        Ok(_) => panic!("removed an unknown session"),
    }
    assert_eq!(manager.session_count(), 1);
}

#[test]
fn closing_a_session_closes_its_command_queue() {
    let mut manager = SessionManager::new();
    let (tx, mut rx) = tokio::sync::mpsc::channel::<SessionCommand>(8);
    let result = manager.register_session(plain_plan(), None, None, tx);
    assert!(matches!(rx.try_recv(), Err(tokio::sync::mpsc::error::TryRecvError::Empty)));
    let removed = manager.remove_session(&result.session_id).unwrap();
    assert_eq!(removed.id, result.session_id);
    drop(removed);
    assert_eq!(manager.session_count(), 0);
    assert!(matches!(rx.try_recv(), Err(tokio::sync::mpsc::error::TryRecvError::Disconnected)));
    let mut actor = SessionActor::new();
    assert!(matches!(actor.step(ActorEvent::CommandsClosed), ActorAction::Exit));
    assert!(!actor.running);
}

#[test]
fn actor_decodes_output_lossily() {
    let mut actor = SessionActor::new();
    match actor.step(ActorEvent::Output(b"hi\n".to_vec())) {
        ActorAction::ApplyOutput(t) => assert_eq!(t, "hi\n"),
        other => panic!("unexpected {:?}", other),
    }
    match actor.step(ActorEvent::Output(vec![b'a', 0xff, b'b'])) {
        ActorAction::ApplyOutput(t) => assert_eq!(t, "a\u{FFFD}b"),
        other => panic!("unexpected {:?}", other),
    }
    assert!(actor.running);
}

#[test]
fn actor_dispatches_commands() {
    let mut actor = SessionActor::new();
    match actor.step(ActorEvent::Command(SessionCommand::Input(vec!["ls".to_string(), "Enter".to_string()]))) {
        ActorAction::ForwardInput(k) => assert_eq!(k, vec!["ls".to_string(), "Enter".to_string()]),
        other => panic!("unexpected {:?}", other),
    }
    assert!(matches!(
        actor.step(ActorEvent::Command(SessionCommand::Resize(80, 24))),
        ActorAction::ResizeTerminal(80, 24)
    ));
    let (reply, mut answer) = tokio::sync::oneshot::channel::<String>();
    match actor.step(ActorEvent::Command(SessionCommand::Snapshot(reply))) {
        ActorAction::ReplySnapshot(tx) => tx.send("screen".to_string()).unwrap(),
        other => panic!("unexpected {:?}", other),
    }
    assert_eq!(answer.try_recv().unwrap(), "screen");
    assert!(actor.running);
}

#[test]
fn actor_viewers_and_process_exit() {
    let mut actor = SessionActor::new();
    assert!(actor.accepts_viewers());
    assert!(matches!(actor.step(ActorEvent::Viewer), ActorAction::AcceptViewer));
    assert!(matches!(actor.step(ActorEvent::ViewersClosed), ActorAction::StopServing));
    assert!(!actor.accepts_viewers());
    assert!(actor.running);
    assert!(matches!(actor.step(ActorEvent::OutputClosed), ActorAction::Exit));
    assert!(!actor.running);
}

#[test]
fn execute_command_types_text_then_enter() {
    let args = ExecuteCommandArgs { session_id: "s1".to_string(), command: "echo hi".to_string() };
    let (first, second) = args.key_batches();
    assert_eq!(first.session_id, "s1");
    assert_eq!(first.keys, vec!["echo hi".to_string()]);
    assert_eq!(second.session_id, "s1");
    assert_eq!(second.keys, vec!["Enter".to_string()]);
}

#[test]
fn snapshot_outcomes() {
    let ok = snapshot_outcome("s".to_string(), SnapshotReply::Text("$ echo hi\nhi".to_string())).unwrap();
    assert_eq!(ok.session_id, "s");
    assert!(ok.snapshot.contains("hi"));
    match snapshot_outcome("s".to_string(), SnapshotReply::TimedOut) {
        Err(e) => assert_eq!(e, HtMcpError::Internal("Snapshot request timed out".to_string())),
        Ok(_) => panic!("a timed out snapshot succeeded"),
    }
    match snapshot_outcome("s".to_string(), SnapshotReply::Dropped("channel closed".to_string())) {
        Err(e) => assert_eq!(e, HtMcpError::Internal("Failed to receive snapshot: channel closed".to_string())),
        Ok(_) => panic!("a dropped snapshot succeeded"),
    }
}

#[test]
fn error_messages() {
    assert_eq!(HtMcpError::SessionNotFound("x".to_string()).message(), "Session not found: x");
    assert_eq!(HtMcpError::Internal("boom".to_string()).message(), "Internal error: boom");
}

#[test]
fn decimal_text() {
    assert_eq!(ht_mcp::text::decimal_string(0), "0");
    assert_eq!(ht_mcp::text::decimal_string(7), "7");
    assert_eq!(ht_mcp::text::decimal_string(3618), "3618");
    assert_eq!(ht_mcp::text::decimal_string(65535), "65535");
    assert_eq!(ht_mcp::text::with_port("p:", 10), "p:10");
}

#[test]
fn default_arguments_create_a_plain_session() {
    let mut manager = SessionManager::new();
    let plan = CreateSessionArgs { command: None, enable_web_server: None, enable_tunnel: None }.plan();
    let (tx, _rx) = tokio::sync::mpsc::channel::<SessionCommand>(8);
    let result = manager.register_session(plan, None, None, tx);
    assert!(!result.web_server_enabled);
    assert_eq!(result.web_server_url, None);
    assert!(!result.tunnel_enabled);
    assert_eq!(result.tunnel_url, None);
    assert_eq!(manager.find_session(&result.session_id).unwrap().command, vec!["bash".to_string()]);
}

#[test]
fn addresses_follow_the_plan() {
    let mut manager = SessionManager::new();
    let plan = CreateSessionArgs { command: None, enable_web_server: Some(false), enable_tunnel: Some(true) }.plan();
    let (tx, _rx) = tokio::sync::mpsc::channel::<SessionCommand>(8);
    let result = manager.register_session(plan, Some(3620), Some("https://t.trycloudflare.com".to_string()), tx);
    assert!(!result.web_server_enabled);
    assert_eq!(result.web_server_url, None);
    assert!(result.tunnel_enabled);
    assert_eq!(result.tunnel_url, None);

    let plan = CreateSessionArgs { command: None, enable_web_server: Some(true), enable_tunnel: Some(false) }.plan();
    let (tx, _rx) = tokio::sync::mpsc::channel::<SessionCommand>(8);
    let result = manager.register_session(plan, Some(3620), Some("https://t.trycloudflare.com".to_string()), tx);
    assert_eq!(result.web_server_url, Some("http://127.0.0.1:3620".to_string()));
    assert_eq!(result.tunnel_url, None);
    assert_eq!(manager.session_count(), 2);
    let ids: Vec<&String> = manager.sessions().iter().map(|s| &s.id).collect();
    assert_ne!(ids[0], ids[1]);
}

#[test]
fn failed_tunnel_gives_no_address() {
    let info = TunnelInfo {
        id: "t".to_string(),
        url: "https://t.trycloudflare.com".to_string(),
        local_port: 3618,
        provider: "cloudflare".to_string(),
        created_at: std::time::SystemTime::now(),
        is_active: true,
    };
    assert_eq!(tunnel_url_of(Ok(info)), Some("https://t.trycloudflare.com".to_string()));
    assert_eq!(tunnel_url_of(Err(HtMcpError::Internal("Failed to spawn cloudflared: x".to_string()))), None);
}
