use git_ssh_server::command::{plan_exec, plan_exec_request, exec_plan_is_defined, ExecPlan, MIN_COMMAND_LEN};
use git_ssh_server::pattern::Pattern;
use git_ssh_server::protocol::DisconnectReason;
use git_ssh_server::text::{starts_with, substring};

#[test]
fn receive_pack_command_names_the_repository() {
    let plan = plan_exec_request(b"git-receive-pack '/srv/git/project.git'");
    assert_eq!(plan, Some(ExecPlan::ReceivePack("/srv/git/project.git".to_string())));
}

#[test]
fn upload_pack_command_names_the_repository() {
    let plan = plan_exec_request(b"git-upload-pack '/srv/git/project.git'");
    assert_eq!(plan, Some(ExecPlan::UploadPack("/srv/git/project.git".to_string())));
}

#[test]
fn short_command_is_refused_as_host_not_allowed() {
    assert_eq!(MIN_COMMAND_LEN, 18);
    assert_eq!(
        plan_exec_request(b"git-upload-pack"),
        Some(ExecPlan::Refuse(DisconnectReason::HostNotAllowedToConnect))
    );
    // 17 bytes, even though it names a service
    assert_eq!(
        plan_exec_request(b"git-upload-pack '"),
        Some(ExecPlan::Refuse(DisconnectReason::HostNotAllowedToConnect))
    );
    assert_eq!(
        plan_exec_request(b""),
        Some(ExecPlan::Refuse(DisconnectReason::HostNotAllowedToConnect))
    );
}

#[test]
fn unknown_service_is_refused_as_not_available() {
    assert_eq!(
        plan_exec_request(b"git-upload-archive '/srv/repo.git'"),
        Some(ExecPlan::Refuse(DisconnectReason::ServiceNotAvailable))
    );
    assert_eq!(
        plan_exec_request(b"rm -rf /srv/git/project.git"),
        Some(ExecPlan::Refuse(DisconnectReason::ServiceNotAvailable))
    );
    // the service must stand at the very start
    assert_eq!(
        plan_exec_request(b" git-upload-pack '/srv/repo.git'"),
        Some(ExecPlan::Refuse(DisconnectReason::ServiceNotAvailable))
    );
}

#[test]
fn path_is_cut_by_position_not_by_quotes() {
    // the two bytes after the service name and the last byte are dropped, whatever they are
    assert_eq!(
        plan_exec_request(b"git-upload-packXYrepoZ"),
        Some(ExecPlan::UploadPack("repo".to_string()))
    );
    assert_eq!(
        plan_exec_request(b"git-receive-packXYrepoZ"),
        Some(ExecPlan::ReceivePack("repo".to_string()))
    );
    // an 18-byte fetch names an empty path
    assert_eq!(
        plan_exec_request(b"git-upload-pack ''"),
        Some(ExecPlan::UploadPack(String::new()))
    );
}

#[test]
fn eighteen_byte_push_cannot_be_cut() {
    // byte 18 lies past the last byte: the request is not served
    assert_eq!(plan_exec_request(b"git-receive-pack''"), None);
    assert!(!exec_plan_is_defined("git-receive-pack''", true));
    assert!(exec_plan_is_defined("git-receive-pack'x'", true));
}

#[test]
fn multibyte_path_is_kept_whole() {
    let plan = plan_exec_request("git-upload-pack '/srv/dépôt.git'".as_bytes());
    assert_eq!(plan, Some(ExecPlan::UploadPack("/srv/dépôt.git".to_string())));
}

#[test]
fn cut_inside_a_character_is_not_served() {
    // the last character takes two bytes: cutting off the last byte splits it
    assert_eq!(plan_exec_request("git-upload-pack '/srv/repé".as_bytes()), None);
    // byte 16 falls inside a two-byte character
    assert_eq!(plan_exec_request("git-upload-packé/srv/repo.git'".as_bytes()), None);
}

#[test]
fn invalid_utf8_is_replaced_before_planning() {
    // 0xff becomes U+FFFD, three bytes long
    let plan = plan_exec_request(b"git-upload-pack '\xff/repo'");
    assert_eq!(plan, Some(ExecPlan::UploadPack("\u{fffd}/repo".to_string())));
}

#[test]
fn plan_exec_follows_the_given_match() {
    assert_eq!(
        plan_exec("git-upload-pack '/srv/repo.git'", false),
        ExecPlan::Refuse(DisconnectReason::ServiceNotAvailable)
    );
    assert_eq!(
        plan_exec("something-else-entirely'", true),
        ExecPlan::UploadPack("tirely".to_string())
    );
    assert_eq!(plan_exec("short", true), ExecPlan::Refuse(DisconnectReason::HostNotAllowedToConnect));
}

#[test]
fn pattern_compiles_and_matches() {
    assert!(Pattern::new("(").is_none());
    let p = Pattern::new("^(git-receive-pack)|^(git-upload-pack)").unwrap();
    assert!(p.is_match("git-receive-pack 'x'"));
    assert!(p.is_match("git-upload-pack 'x'"));
    assert!(!p.is_match("xgit-upload-pack"));
}

#[test]
fn byte_prefix_and_substring() {
    assert!(starts_with(b"git-upload-pack", b"git-"));
    assert!(!starts_with(b"git", b"git-"));
    assert!(starts_with(b"abc", b""));
    assert!(!starts_with(b"abd", b"abc"));
    assert_eq!(substring("héllo", 1, 3), "é");
    assert_eq!(substring("hello", 2, 2), "");
}
