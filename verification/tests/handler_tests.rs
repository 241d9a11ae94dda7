use git_ssh_server::handler::{
    DataAction, DrainEvent, DrainStep, EofAction, ExecAction, HandlerSSH, Mode,
};
use git_ssh_server::protocol::{AuthMethod, AuthReply, DisconnectReason, ProcessCommand, Refusal};

fn push_cmd(program: &str, args: &[&str]) -> ProcessCommand {
    ProcessCommand {
        program: program.to_string(),
        args: args.iter().map(|a| a.to_string()).collect(),
    }
}

#[test]
fn new_handler_is_empty() {
    let h = HandlerSSH::new();
    assert_eq!(h.mode, None);
    assert_eq!(h.buffer, None);
    assert!(!h.has_stdin && !h.has_stdout && !h.has_child);
}

#[test]
fn authentication_offers_public_key_and_accepts_every_key() {
    let h = HandlerSSH::new();
    assert_eq!(
        h.auth_none(),
        AuthReply::Reject { proceed_with_methods: Some(vec![AuthMethod::PublicKey]), partial_success: false }
    );
    assert_eq!(h.auth_publickey_offered(), AuthReply::Accept);
    assert_eq!(h.auth_publickey(), AuthReply::Accept);
}

#[test]
fn data_before_exec_is_denied() {
    let h = HandlerSSH::new();
    assert_eq!(h.on_data(), DataAction::Deny);
}

#[test]
fn refused_exec_keeps_state() {
    let mut h = HandlerSSH::new();
    assert_eq!(
        h.on_exec_request(b"ls"),
        Some(ExecAction::Disconnect(DisconnectReason::HostNotAllowedToConnect, Refusal::WrongOperation))
    );
    assert_eq!(
        h.on_exec_request(b"echo something long enough"),
        Some(ExecAction::Disconnect(DisconnectReason::ServiceNotAvailable, Refusal::WrongOperation))
    );
    assert_eq!(h.mode, None);
    assert_eq!(h.on_data(), DataAction::Deny);
}

#[test]
fn fetch_advertises_then_serves_each_request() {
    let mut h = HandlerSSH::new();
    let a = h.on_exec_request(b"git-upload-pack '/srv/repo.git'");
    assert_eq!(
        a,
        Some(ExecAction::AdvertiseUploadPack(push_cmd("git-upload-pack", &["--timeout=2", "/srv/repo.git"])))
    );
    assert_eq!(h.mode, Some(Mode::UploadPack("/srv/repo.git".to_string())));
    assert_eq!(
        h.on_data(),
        DataAction::RunUploadPack(push_cmd("git-upload-pack", &["--stateless-rpc", "/srv/repo.git"]))
    );
    // a fetch holds no process between requests
    assert_eq!(
        h.on_channel_eof(),
        EofAction { close_stdin: false, close_stdout: false, reap_child: false, exit_status: 0 }
    );
}

#[test]
fn push_flow_sends_initial_output_then_drained_output() {
    let mut h = HandlerSSH::new();
    let a = h.on_exec_request(b"git-receive-pack '/srv/repo.git'");
    assert_eq!(a, Some(ExecAction::StartReceivePack(push_cmd("git-receive-pack", &["/srv/repo.git"]))));
    assert_eq!(h.mode, Some(Mode::ReceivePack));
    h.on_receive_pack_started();
    assert_eq!(h.buffer, Some(vec![]));
    let first = h.on_initial_output(b"0000refs");
    assert_eq!(first, b"0000refs".to_vec());
    h.on_initial_output_sent();
    assert_eq!(h.buffer, Some(vec![]));

    assert_eq!(h.on_data(), DataAction::ForwardToReceivePack);
    assert_eq!(h.on_drain_event(DrainEvent::Read(b"unpack ".to_vec())), DrainStep::Continue);
    assert_eq!(h.on_drain_event(DrainEvent::Read(b"ok".to_vec())), DrainStep::Continue);
    assert_eq!(h.on_drain_event(DrainEvent::Read(vec![])), DrainStep::SendAndStop(b"unpack ok".to_vec()));

    let eof = h.on_channel_eof();
    assert_eq!(eof, EofAction { close_stdin: true, close_stdout: true, reap_child: true, exit_status: 0 });
    assert!(!h.has_stdin && !h.has_stdout && !h.has_child);
    assert_eq!(h.mode, Some(Mode::ReceivePack));
    // a second end of input releases nothing
    assert_eq!(
        h.on_channel_eof(),
        EofAction { close_stdin: false, close_stdout: false, reap_child: false, exit_status: 0 }
    );
}

#[test]
fn drain_stops_on_failure_or_timeout_without_sending() {
    let mut h = HandlerSSH::new();
    h.on_exec_request(b"git-receive-pack '/srv/repo.git'");
    h.on_receive_pack_started();
    assert_eq!(h.on_drain_event(DrainEvent::Read(b"abc".to_vec())), DrainStep::Continue);
    assert_eq!(h.on_drain_event(DrainEvent::TimedOut), DrainStep::Stop);
    assert_eq!(h.on_drain_event(DrainEvent::ReadFailed), DrainStep::Stop);
    // what was read stays in the buffer
    assert_eq!(h.buffer, Some(b"abc".to_vec()));
    assert_eq!(h.on_drain_event(DrainEvent::Read(vec![])), DrainStep::SendAndStop(b"abc".to_vec()));
}

#[test]
fn unsent_initial_output_stays_in_the_buffer() {
    let mut h = HandlerSSH::new();
    h.on_exec_request(b"git-receive-pack '/srv/repo.git'");
    h.on_receive_pack_started();
    h.on_initial_output(b"refs");
    // sending failed, so the buffer was not emptied
    assert_eq!(h.on_drain_event(DrainEvent::Read(vec![])), DrainStep::SendAndStop(b"refs".to_vec()));
}

#[test]
fn push_exec_without_cuttable_path_is_not_served() {
    let mut h = HandlerSSH::new();
    assert_eq!(h.on_exec_request(b"git-receive-pack''"), None);
    assert_eq!(h.mode, None);
}

#[test]
fn later_exec_replaces_the_mode() {
    let mut h = HandlerSSH::new();
    h.on_exec_request(b"git-receive-pack '/a.git'");
    h.on_exec_request(b"git-upload-pack '/b.git'");
    assert_eq!(h.mode, Some(Mode::UploadPack("/b.git".to_string())));
}
