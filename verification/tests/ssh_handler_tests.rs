use git_ssh_server::protocol::{
    DisconnectReason,
    disconnect_language, AuthMethod, AuthReply, ProcessCommand, Refusal,
};
use git_ssh_server::ssh_handler::{
    push_reply_bytes, DataAction, Denial, EofAction, ExecAction, HandlerSSH, Mode,
};

fn repo_cmd(program: &str, args: &[&str]) -> ProcessCommand {
    ProcessCommand {
        program: program.to_string(),
        args: args.iter().map(|a| a.to_string()).collect(),
    }
}

#[test]
fn new_handler_starts_unauthenticated() {
    let h = HandlerSSH::new();
    assert_eq!(h.mode, None);
    assert_eq!(h.remove_packet_length, 0);
    assert!(!h.has_stdin && !h.has_child);
}

#[test]
fn public_key_opens_push_to_the_authorized_repository() {
    let mut h = HandlerSSH::new();
    assert_eq!(
        h.auth_none(),
        AuthReply::Reject { proceed_with_methods: Some(vec![AuthMethod::PublicKey]), partial_success: false }
    );
    assert_eq!(h.auth_publickey_offered(), AuthReply::Accept);
    assert_eq!(h.mode, Some(Mode::ReceivePack("/home/amanfreecs/hello.git".to_string())));
    assert_eq!(h.auth_publickey(), AuthReply::Accept);
}

#[test]
fn exec_answers_before_authentication() {
    let h = HandlerSSH::new();
    assert_eq!(h.on_exec_request(b"git-receive-pack"), Some(ExecAction::Deny(Denial::RequestDenied)));
    assert_eq!(
        h.on_exec_request(b"git-receive-pack '/home/amanfreecs/hello.git'"),
        Some(ExecAction::Deny(Denial::NotAuthenticated))
    );
}

#[test]
fn push_exec_checks_service_and_repository() {
    let mut h = HandlerSSH::new();
    h.auth_publickey_offered();
    assert_eq!(
        h.on_exec_request(b"git-receive-pack '/home/amanfreecs/hello.git'"),
        Some(ExecAction::AdvertiseReceivePack(repo_cmd(
            "git-receive-pack",
            &["--advertise-refs", "/home/amanfreecs/hello.git"]
        )))
    );
    assert_eq!(
        h.on_exec_request(b"git-receive-pack '/home/other/repo.git'"),
        Some(ExecAction::Disconnect(DisconnectReason::ServiceNotAvailable, Refusal::WrongRepoPath))
    );
    assert_eq!(
        h.on_exec_request(b"git-upload-pack '/home/amanfreecs/hello.git'"),
        Some(ExecAction::Disconnect(DisconnectReason::ServiceNotAvailable, Refusal::WrongOperation))
    );
    assert_eq!(h.on_exec_request(b"git-receive-pack''"), None);
}

#[test]
fn fetch_exec_checks_service_and_repository() {
    let mut h = HandlerSSH::new();
    h.mode = Some(Mode::UploadPack("/srv/repo.git".to_string()));
    assert_eq!(
        h.on_exec_request(b"git-upload-pack '/srv/repo.git'"),
        Some(ExecAction::AdvertiseUploadPack(repo_cmd("git-upload-pack", &["--timeout=5", "/srv/repo.git"])))
    );
    assert_eq!(
        h.on_exec_request(b"git-upload-pack '/srv/other.git'"),
        Some(ExecAction::Disconnect(DisconnectReason::ServiceNotAvailable, Refusal::WrongRepoPath))
    );
    assert_eq!(
        h.on_exec_request(b"git-receive-pack '/srv/repo.git'"),
        Some(ExecAction::Disconnect(DisconnectReason::ServiceNotAvailable, Refusal::WrongOperation))
    );
    assert_eq!(
        h.on_data(),
        DataAction::RunUploadPack(repo_cmd("git-upload-pack", &["--stateless-rpc", "/srv/repo.git"]))
    );
}

#[test]
fn push_data_starts_the_process_once() {
    let mut h = HandlerSSH::new();
    assert_eq!(h.on_data(), DataAction::Deny);
    h.auth_publickey_offered();
    h.on_refs_advertised(42);
    assert_eq!(
        h.on_data(),
        DataAction::StartReceivePack {
            command: repo_cmd("git-receive-pack", &["/home/amanfreecs/hello.git"]),
            skip: 42
        }
    );
    h.on_receive_pack_started();
    assert_eq!(h.on_data(), DataAction::WriteToReceivePack);
    assert_eq!(h.on_channel_eof(), EofAction { close_stdin: true, reap_child: true, exit_status: 0 });
    assert!(!h.has_stdin && !h.has_child);
}

#[test]
fn push_reply_leaves_out_the_advertisement() {
    assert_eq!(push_reply_bytes(b"ADVERTISEDreport", 10), b"report".to_vec());
    assert_eq!(push_reply_bytes(b"abc", 3), Vec::<u8>::new());
    assert_eq!(push_reply_bytes(b"abc", 0), b"abc".to_vec());
}

#[test]
fn refusal_texts() {
    assert_eq!(Refusal::WrongOperation.description(), "wrong operation");
    assert_eq!(Refusal::WrongRepoPath.description(), "wrong repo path");
    assert_eq!(disconnect_language(), "en-US");
}
