//! A second handler, bound to one repository: public-key authentication opens
//! a push to that repository, and an `exec` request must name the service and
//! the repository the connection was opened for.
use vstd::prelude::*;
use vstd::utf8::*;
use vstd::string::StringSliceAdditionalSpecFns;
use crate::command::{
    MIN_COMMAND_LEN, lemma_framed_path, receive_pack_bytes, receive_pack_name, upload_pack_bytes,
    upload_pack_name,
};
use crate::protocol::{
    AuthReply, AuthReplyView, DisconnectReason, ProcessCommand, Refusal, command1, command2, public_key_only,
    reject_offering_public_key,
};
use crate::text::{decode_lossy, starts_with, substring, utf8_lossy};

verus! {

broadcast use vstd::utf8::group_utf8_lib;

/// Which git service the connection serves, and on which repository.
#[derive(Debug, PartialEq, Eq)]
pub enum Mode {
    UploadPack(String),
    ReceivePack(String),
}

pub enum ModeView {
    UploadPack(Seq<char>),
    ReceivePack(Seq<char>),
}

impl View for Mode {
    type V = ModeView;

    open spec fn view(&self) -> ModeView {
        match self {
            Mode::UploadPack(p) => ModeView::UploadPack(p@),
            Mode::ReceivePack(p) => ModeView::ReceivePack(p@),
        }
    }
}

/// The repository that public-key authentication opens for pushing.
pub open spec fn authorized_repository() -> Seq<char> {
    "/home/amanfreecs/hello.git"@
}

/// The state of one connection.
#[derive(Debug)]
pub struct HandlerSSH {
    pub mode: Option<Mode>,
    /// Whether the caller holds the standard input of `git-receive-pack`.
    pub has_stdin: bool,
    /// Whether the caller holds the `git-receive-pack` process.
    pub has_child: bool,
    /// How many bytes of the reference advertisement were already sent; the
    /// output of the push leaves them out.
    pub remove_packet_length: usize,
}

pub struct HandlerView {
    pub mode: Option<ModeView>,
    pub has_stdin: bool,
    pub has_child: bool,
    pub remove_packet_length: nat,
}

impl View for HandlerSSH {
    type V = HandlerView;

    open spec fn view(&self) -> HandlerView {
        HandlerView {
            mode: match self.mode {
                Some(m) => Some(m@),
                None => None,
            },
            has_stdin: self.has_stdin,
            has_child: self.has_child,
            remove_packet_length: self.remove_packet_length as nat,
        }
    }
}

pub open spec fn initial_handler() -> HandlerView {
    HandlerView { mode: None, has_stdin: false, has_child: false, remove_packet_length: 0 }
}

/// After a public key was offered the connection pushes to the authorized
/// repository.
pub open spec fn after_publickey_offered(s: HandlerView) -> HandlerView {
    HandlerView { mode: Some(ModeView::ReceivePack(authorized_repository())), ..s }
}

// ---------------------------------------------------------------- exec ------

/// The error an `exec` request is answered with.
#[derive(Clone, Copy, Debug, PartialEq, Eq, Structural)]
pub enum Denial {
    RequestDenied,
    NotAuthenticated,
}

/// What the caller does for an `exec` request.
#[derive(Debug, PartialEq, Eq)]
pub enum ExecAction {
    /// Answer with this error.
    Deny(Denial),
    /// Disconnect with this reason and text, in language "en-US".
    Disconnect(DisconnectReason, Refusal),
    /// Run this command to completion, report the length of its output with
    /// `on_refs_advertised` and send the output.
    AdvertiseReceivePack(ProcessCommand),
    /// Run this command to completion and send its output.
    AdvertiseUploadPack(ProcessCommand),
}

pub enum ExecActionView {
    Deny(Denial),
    Disconnect(DisconnectReason, Refusal),
    AdvertiseReceivePack(Seq<char>, Seq<Seq<char>>),
    AdvertiseUploadPack(Seq<char>, Seq<Seq<char>>),
}

impl View for ExecAction {
    type V = ExecActionView;

    open spec fn view(&self) -> ExecActionView {
        match self {
            ExecAction::Deny(d) => ExecActionView::Deny(*d),
            ExecAction::Disconnect(d, r) => ExecActionView::Disconnect(*d, *r),
            ExecAction::AdvertiseReceivePack(c) => ExecActionView::AdvertiseReceivePack(
                c.program_view(),
                c.args_view(),
            ),
            ExecAction::AdvertiseUploadPack(c) => ExecActionView::AdvertiseUploadPack(
                c.program_view(),
                c.args_view(),
            ),
        }
    }
}

/// The answer to the command whose UTF-8 bytes are `cmd`: short commands are
/// denied, commands before authentication too; the command must begin with the
/// connection's service and name its repository, or the connection is closed as
/// `ServiceNotAvailable` (bytes 18, or 17 for a fetch,
/// up to the last byte exclusive).
pub open spec fn exec_action(s: HandlerView, cmd: Seq<u8>) -> ExecActionView {
    if cmd.len() < MIN_COMMAND_LEN {
        ExecActionView::Deny(Denial::RequestDenied)
    } else {
        match s.mode {
            None => ExecActionView::Deny(Denial::NotAuthenticated),
            Some(ModeView::ReceivePack(path)) => if cmd.subrange(0, 16) != receive_pack_name() {
                ExecActionView::Disconnect(DisconnectReason::ServiceNotAvailable, Refusal::WrongOperation)
            } else if decode_utf8(cmd.subrange(18, cmd.len() - 1)) != path {
                ExecActionView::Disconnect(DisconnectReason::ServiceNotAvailable, Refusal::WrongRepoPath)
            } else {
                ExecActionView::AdvertiseReceivePack("git-receive-pack"@, seq!["--advertise-refs"@, path])
            },
            Some(ModeView::UploadPack(path)) => if cmd.subrange(0, 15) != upload_pack_name() {
                ExecActionView::Disconnect(DisconnectReason::ServiceNotAvailable, Refusal::WrongOperation)
            } else if decode_utf8(cmd.subrange(17, cmd.len() - 1)) != path {
                ExecActionView::Disconnect(DisconnectReason::ServiceNotAvailable, Refusal::WrongRepoPath)
            } else {
                ExecActionView::AdvertiseUploadPack("git-upload-pack"@, seq!["--timeout=5"@, path])
            },
        }
    }
}

/// The commands on which cutting out the service name and the path stays
/// within the text and on character boundaries.
pub open spec fn exec_defined(s: HandlerView, cmd: Seq<u8>) -> bool {
    ||| cmd.len() < MIN_COMMAND_LEN
    ||| s.mode is None
    ||| s.mode matches Some(ModeView::ReceivePack(_)) && is_char_boundary(cmd, 16) && (cmd.subrange(0, 16)
        != receive_pack_name() || (19 <= cmd.len() && is_char_boundary(cmd, 18) && is_char_boundary(
        cmd,
        cmd.len() - 1,
    )))
    ||| s.mode matches Some(ModeView::UploadPack(_)) && is_char_boundary(cmd, 15) && (cmd.subrange(0, 15)
        != upload_pack_name() || (is_char_boundary(cmd, 17) && is_char_boundary(cmd, cmd.len() - 1)))
}

/// The answer to the raw bytes of an `exec` request; `None` where the request
/// cannot be served.
pub open spec fn exec_request_action(s: HandlerView, data: Seq<u8>) -> Option<ExecActionView> {
    let cmd = encode_utf8(utf8_lossy(data));
    if exec_defined(s, cmd) {
        Some(exec_action(s, cmd))
    } else {
        None
    }
}

/// After the reference advertisement of length `len` was produced.
pub open spec fn after_refs_advertised(s: HandlerView, len: nat) -> HandlerView {
    HandlerView { remove_packet_length: len, ..s }
}

// ---------------------------------------------------------------- data ------

/// What the caller does with data that arrives on the channel.
#[derive(Debug, PartialEq, Eq)]
pub enum DataAction {
    /// Answer with the error "request denied".
    Deny,
    /// Write the data to the running `git-receive-pack`.
    WriteToReceivePack,
    /// Start `command` with piped input and output, write the data to it,
    /// report the start with `on_receive_pack_started`, and send its whole
    /// output, without its first `skip` bytes, once it ends.
    StartReceivePack { command: ProcessCommand, skip: usize },
    /// Start this command with piped input and output, write the data to it,
    /// read its output to the end and send it.
    RunUploadPack(ProcessCommand),
}

pub enum DataActionView {
    Deny,
    WriteToReceivePack,
    StartReceivePack(Seq<char>, Seq<Seq<char>>, nat),
    RunUploadPack(Seq<char>, Seq<Seq<char>>),
}

impl View for DataAction {
    type V = DataActionView;

    open spec fn view(&self) -> DataActionView {
        match self {
            DataAction::Deny => DataActionView::Deny,
            DataAction::WriteToReceivePack => DataActionView::WriteToReceivePack,
            DataAction::StartReceivePack { command, skip } => DataActionView::StartReceivePack(
                command.program_view(),
                command.args_view(),
                *skip as nat,
            ),
            DataAction::RunUploadPack(c) => DataActionView::RunUploadPack(
                c.program_view(),
                c.args_view(),
            ),
        }
    }
}

/// Data is denied before a service is chosen; for a push it goes to the running
/// `git-receive-pack`, which is started on the first data; for a fetch it goes
/// to a new `git-upload-pack --stateless-rpc`.
pub open spec fn data_action(s: HandlerView) -> DataActionView {
    match s.mode {
        None => DataActionView::Deny,
        Some(ModeView::ReceivePack(path)) => if s.has_stdin && s.has_child {
            DataActionView::WriteToReceivePack
        } else {
            DataActionView::StartReceivePack("git-receive-pack"@, seq![path], s.remove_packet_length)
        },
        Some(ModeView::UploadPack(path)) => DataActionView::RunUploadPack(
            "git-upload-pack"@,
            seq!["--stateless-rpc"@, path],
        ),
    }
}

pub open spec fn after_receive_pack_started(s: HandlerView) -> HandlerView {
    HandlerView { has_stdin: true, has_child: true, ..s }
}

/// What of the output of a push is sent: all but the first `skip` bytes.
pub open spec fn push_reply(output: Seq<u8>, skip: nat) -> Seq<u8> {
    output.subrange(skip as int, output.len() as int)
}

// ---------------------------------------------------------------- eof -------

/// Sending the end of input and closing need the `git-receive-pack` process.
pub open spec fn eof_defined(s: HandlerView) -> bool {
    s.has_child
}

pub open spec fn after_channel_eof(s: HandlerView) -> HandlerView {
    HandlerView { has_stdin: false, has_child: false, ..s }
}

/// What the caller does at the end of the channel's input, after it reported
/// exit status `exit_status` and sent its own end of input.
#[derive(Debug, PartialEq, Eq)]
pub struct EofAction {
    /// Drop the standard input of `git-receive-pack`.
    pub close_stdin: bool,
    /// Wait in the background for `git-receive-pack` to exit.
    pub reap_child: bool,
    pub exit_status: u32,
}

impl HandlerSSH {
    pub fn new() -> (h: Self)
        ensures
            h@ == initial_handler(),
    {
        HandlerSSH { mode: None, has_stdin: false, has_child: false, remove_packet_length: 0 }
    }

    /// Authentication without credentials is refused; the client is invited
    /// to use a public key.
    pub fn auth_none(&self) -> (r: AuthReply)
        ensures
            r@ == public_key_only(),
    {
        reject_offering_public_key()
    }

    /// An offered public key is accepted and opens a push to the authorized
    /// repository.
    pub fn auth_publickey_offered(&mut self) -> (r: AuthReply)
        ensures
            r@ == AuthReplyView::Accept,
            final(self)@ == after_publickey_offered(old(self)@),
    {
        self.mode = Some(Mode::ReceivePack("/home/amanfreecs/hello.git".to_owned()));
        AuthReply::Accept
    }

    /// Every public key is accepted.
    pub fn auth_publickey(&self) -> (r: AuthReply)
        ensures
            r@ == AuthReplyView::Accept,
    {
        AuthReply::Accept
    }

    /// Answers an `exec` request with the raw command `data`; `None` where the
    /// command cannot be cut into service and path.
    pub fn on_exec_request(&self, data: &[u8]) -> (r: Option<ExecAction>)
        ensures
            match exec_request_action(self@, data@) {
                Some(a) => r matches Some(x) && x@ == a,
                None => r is None,
            },
    {
        let text = decode_lossy(data);
        let cmd = text.as_str();
        let bytes = cmd.as_bytes();
        let len = bytes.len();
        if len < MIN_COMMAND_LEN {
            return Some(ExecAction::Deny(Denial::RequestDenied));
        }
        match &self.mode {
            None => Some(ExecAction::Deny(Denial::NotAuthenticated)),
            Some(Mode::ReceivePack(path)) => {
                if !cmd.is_char_boundary(16) {
                    return None;
                }
                let name = receive_pack_bytes();
                if !starts_with(bytes, name.as_slice()) {
                    return Some(ExecAction::Disconnect(DisconnectReason::ServiceNotAvailable, Refusal::WrongOperation));
                }
                if !(19 <= len && cmd.is_char_boundary(18) && cmd.is_char_boundary(len - 1)) {
                    return None;
                }
                let requested = substring(cmd, 18, len - 1);
                if requested != *path {
                    Some(ExecAction::Disconnect(DisconnectReason::ServiceNotAvailable, Refusal::WrongRepoPath))
                } else {
                    Some(
                        ExecAction::AdvertiseReceivePack(
                            command2("git-receive-pack", "--advertise-refs", path.as_str()),
                        ),
                    )
                }
            },
            Some(Mode::UploadPack(path)) => {
                if !cmd.is_char_boundary(15) {
                    return None;
                }
                let name = upload_pack_bytes();
                if !starts_with(bytes, name.as_slice()) {
                    return Some(ExecAction::Disconnect(DisconnectReason::ServiceNotAvailable, Refusal::WrongOperation));
                }
                if !(cmd.is_char_boundary(17) && cmd.is_char_boundary(len - 1)) {
                    return None;
                }
                let requested = substring(cmd, 17, len - 1);
                if requested != *path {
                    Some(ExecAction::Disconnect(DisconnectReason::ServiceNotAvailable, Refusal::WrongRepoPath))
                } else {
                    Some(
                        ExecAction::AdvertiseUploadPack(
                            command2("git-upload-pack", "--timeout=5", path.as_str()),
                        ),
                    )
                }
            },
        }
    }

    /// The reference advertisement of a push had `len` bytes.
    pub fn on_refs_advertised(&mut self, len: usize)
        ensures
            final(self)@ == after_refs_advertised(old(self)@, len as nat),
    {
        self.remove_packet_length = len;
    }

    /// Data arrived on the channel.
    pub fn on_data(&self) -> (r: DataAction)
        ensures
            r@ == data_action(self@),
    {
        match &self.mode {
            None => DataAction::Deny,
            Some(Mode::ReceivePack(path)) => {
                if self.has_stdin && self.has_child {
                    DataAction::WriteToReceivePack
                } else {
                    DataAction::StartReceivePack {
                        command: command1("git-receive-pack", path.as_str()),
                        skip: self.remove_packet_length,
                    }
                }
            },
            Some(Mode::UploadPack(path)) => DataAction::RunUploadPack(
                command2("git-upload-pack", "--stateless-rpc", path.as_str()),
            ),
        }
    }

    /// `git-receive-pack` runs and the caller holds its input and the process.
    pub fn on_receive_pack_started(&mut self)
        ensures
            final(self)@ == after_receive_pack_started(old(self)@),
    {
        self.has_stdin = true;
        self.has_child = true;
    }

    /// The channel's input ended: the handles held are released.
    pub fn on_channel_eof(&mut self) -> (r: EofAction)
        requires
            eof_defined(old(self)@),
        ensures
            r.close_stdin == old(self).has_stdin,
            r.reap_child,
            r.exit_status == 0,
            final(self)@ == after_channel_eof(old(self)@),
    {
        let r = EofAction { close_stdin: self.has_stdin, reap_child: true, exit_status: 0 };
        self.has_stdin = false;
        self.has_child = false;
        r
    }
}

/// The part of the output of a push that is sent: all of it but the first
/// `skip` bytes, which the reference advertisement already carried.
pub fn push_reply_bytes(output: &[u8], skip: usize) -> (r: Vec<u8>)
    requires
        skip <= output@.len(),
    ensures
        r@ == push_reply(output@, skip as nat),
{
    let mut r: Vec<u8> = Vec::new();
    let mut i: usize = skip;
    while i < output.len()
        invariant
            skip <= i <= output@.len(),
            r@ == output@.subrange(skip as int, i as int),
        decreases output@.len() - i,
    {
        r.push(output[i]);
        i = i + 1;
        assert(r@ =~= output@.subrange(skip as int, i as int));
    }
    r
}

// ---------------------------------------------------------------- laws ------

/// Through the raw request bytes: on a push connection for `path`, a request
/// `git-receive-pack '<requested>'` is answered with the reference
/// advertisement of `path` when it names `path`, and otherwise closed as
/// `ServiceNotAvailable` with "wrong repo path".
pub proof fn lemma_push_request_checks_repository(
    s: HandlerView,
    data: Seq<u8>,
    sep: u8,
    open: u8,
    requested: Seq<u8>,
    close: u8,
    path: Seq<char>,
)
    requires
        s.mode == Some(ModeView::ReceivePack(path)),
        sep < 128,
        open < 128,
        close < 128,
        valid_utf8(requested),
        encode_utf8(utf8_lossy(data)) == receive_pack_name() + seq![sep, open] + requested + seq![close],
    ensures
        exec_request_action(s, data) == Some(
            if decode_utf8(requested) == path {
                ExecActionView::AdvertiseReceivePack("git-receive-pack"@, seq!["--advertise-refs"@, path])
            } else {
                ExecActionView::Disconnect(DisconnectReason::ServiceNotAvailable, Refusal::WrongRepoPath)
            },
        ),
{
    lemma_push_command(s, sep, open, requested, close, path);
}

/// Through the raw request bytes: on a fetch connection for `path`, a request
/// `git-upload-pack '<requested>'` is answered with `git-upload-pack
/// --timeout=5 <path>` when it names `path`, and otherwise closed as
/// `ServiceNotAvailable` with "wrong repo path".
pub proof fn lemma_fetch_request_checks_repository(
    s: HandlerView,
    data: Seq<u8>,
    sep: u8,
    open: u8,
    requested: Seq<u8>,
    close: u8,
    path: Seq<char>,
)
    requires
        s.mode == Some(ModeView::UploadPack(path)),
        sep < 128,
        open < 128,
        close < 128,
        valid_utf8(requested),
        encode_utf8(utf8_lossy(data)) == upload_pack_name() + seq![sep, open] + requested + seq![close],
    ensures
        exec_request_action(s, data) == Some(
            if decode_utf8(requested) == path {
                ExecActionView::AdvertiseUploadPack("git-upload-pack"@, seq!["--timeout=5"@, path])
            } else {
                ExecActionView::Disconnect(DisconnectReason::ServiceNotAvailable, Refusal::WrongRepoPath)
            },
        ),
{
    lemma_fetch_command(s, sep, open, requested, close, path);
}

/// Through the raw request bytes: a request that decodes to fewer than
/// `MIN_COMMAND_LEN` bytes is denied as "request denied" in every state, and a
/// longer one before authentication as "not authenticated".
pub proof fn lemma_request_denials(s: HandlerView, data: Seq<u8>)
    ensures
        encode_utf8(utf8_lossy(data)).len() < MIN_COMMAND_LEN ==> exec_request_action(s, data) == Some(
            ExecActionView::Deny(Denial::RequestDenied),
        ),
        encode_utf8(utf8_lossy(data)).len() >= MIN_COMMAND_LEN && s.mode is None ==> exec_request_action(
            s,
            data,
        ) == Some(ExecActionView::Deny(Denial::NotAuthenticated)),
{
}

/// Each state change touches only its own field: a public key sets the
/// service, the advertisement sets the length to skip, starting the push marks
/// the input and the process as held, and the end of input releases both.
pub proof fn lemma_state_steps(s: HandlerView, len: nat)
    ensures
        after_publickey_offered(s) == (HandlerView {
            mode: Some(ModeView::ReceivePack("/home/amanfreecs/hello.git"@)),
            has_stdin: s.has_stdin,
            has_child: s.has_child,
            remove_packet_length: s.remove_packet_length,
        }),
        after_refs_advertised(s, len) == (HandlerView {
            mode: s.mode,
            has_stdin: s.has_stdin,
            has_child: s.has_child,
            remove_packet_length: len,
        }),
        after_receive_pack_started(s) == (HandlerView {
            mode: s.mode,
            has_stdin: true,
            has_child: true,
            remove_packet_length: s.remove_packet_length,
        }),
        after_channel_eof(s) == (HandlerView {
            mode: s.mode,
            has_stdin: false,
            has_child: false,
            remove_packet_length: s.remove_packet_length,
        }),
        initial_handler() == (HandlerView {
            mode: None,
            has_stdin: false,
            has_child: false,
            remove_packet_length: 0,
        }),
{
}

/// Data is denied before a service is chosen, and on a fetch connection for
/// `path` it runs `git-upload-pack --stateless-rpc <path>`.
pub proof fn lemma_data_outside_push(s: HandlerView, path: Seq<char>)
    ensures
        s.mode is None ==> data_action(s) == DataActionView::Deny,
        s.mode == Some(ModeView::UploadPack(path)) ==> data_action(s) == DataActionView::RunUploadPack(
            "git-upload-pack"@,
            seq!["--stateless-rpc"@, path],
        ),
{
}

/// Offering a public key opens a push to the authorized repository.
pub proof fn lemma_publickey_opens_push(s: HandlerView)
    ensures
        after_publickey_offered(s).mode == Some(ModeView::ReceivePack(authorized_repository())),
{
}

/// A command of at least `MIN_COMMAND_LEN` bytes on a connection that chose no
/// service is answered "not authenticated".
pub proof fn lemma_exec_needs_authentication(s: HandlerView, cmd: Seq<u8>)
    requires
        s.mode is None,
        cmd.len() >= MIN_COMMAND_LEN,
    ensures
        exec_defined(s, cmd),
        exec_action(s, cmd) == ExecActionView::Deny(Denial::NotAuthenticated),
{
}

/// On a push connection for `path`, `git-receive-pack '<path>'` (the service
/// name, two ASCII bytes, the path, one ASCII byte) is answered with the
/// reference advertisement of that repository, and the same command naming any
/// other repository is refused as "wrong repo path".
pub proof fn lemma_push_command(
    s: HandlerView,
    sep: u8,
    open: u8,
    requested: Seq<u8>,
    close: u8,
    path: Seq<char>,
)
    requires
        s.mode == Some(ModeView::ReceivePack(path)),
        sep < 128,
        open < 128,
        close < 128,
        valid_utf8(requested),
    ensures
        exec_defined(s, receive_pack_name() + seq![sep, open] + requested + seq![close]),
        exec_action(s, receive_pack_name() + seq![sep, open] + requested + seq![close]) == if decode_utf8(
            requested,
        ) == path {
            ExecActionView::AdvertiseReceivePack("git-receive-pack"@, seq!["--advertise-refs"@, path])
        } else {
            ExecActionView::Disconnect(DisconnectReason::ServiceNotAvailable, Refusal::WrongRepoPath)
        },
{
    let head = receive_pack_name() + seq![sep, open];
    let cmd = head + requested + seq![close];
    assert(forall|i: int| 0 <= i < head.len() ==> head[i] < 128);
    lemma_framed_path(head, requested, seq![close]);
    assert(cmd.subrange(0, 16) =~= receive_pack_name());
    assert(cmd.subrange(18, cmd.len() - 1) =~= requested);
    assert(is_char_boundary(cmd, 16));
}

/// On a fetch connection for `path`, `git-upload-pack '<path>'` is answered
/// with the reference advertisement of that repository, and the same command
/// naming any other repository is refused as "wrong repo path".
pub proof fn lemma_fetch_command(
    s: HandlerView,
    sep: u8,
    open: u8,
    requested: Seq<u8>,
    close: u8,
    path: Seq<char>,
)
    requires
        s.mode == Some(ModeView::UploadPack(path)),
        sep < 128,
        open < 128,
        close < 128,
        valid_utf8(requested),
    ensures
        exec_defined(s, upload_pack_name() + seq![sep, open] + requested + seq![close]),
        exec_action(s, upload_pack_name() + seq![sep, open] + requested + seq![close]) == if decode_utf8(
            requested,
        ) == path {
            ExecActionView::AdvertiseUploadPack("git-upload-pack"@, seq!["--timeout=5"@, path])
        } else {
            ExecActionView::Disconnect(DisconnectReason::ServiceNotAvailable, Refusal::WrongRepoPath)
        },
{
    let head = upload_pack_name() + seq![sep, open];
    let cmd = head + requested + seq![close];
    assert(forall|i: int| 0 <= i < head.len() ==> head[i] < 128);
    lemma_framed_path(head, requested, seq![close]);
    assert(cmd.subrange(0, 15) =~= upload_pack_name());
    assert(cmd.subrange(17, cmd.len() - 1) =~= requested);
    assert(is_char_boundary(cmd, 15));
}

/// A push connection refuses a fetch command, and a fetch connection a push
/// command, as "wrong operation".
pub proof fn lemma_other_service_refused(s: HandlerView, cmd: Seq<u8>)
    requires
        cmd.len() >= MIN_COMMAND_LEN,
        s.mode matches Some(ModeView::ReceivePack(_)) ==> cmd.subrange(0, 15) == upload_pack_name(),
        s.mode matches Some(ModeView::UploadPack(_)) ==> cmd.subrange(0, 16) == receive_pack_name(),
        s.mode is Some,
    ensures
        exec_action(s, cmd) == ExecActionView::Disconnect(DisconnectReason::ServiceNotAvailable, Refusal::WrongOperation),
{
    if s.mode matches Some(ModeView::ReceivePack(_)) {
        assert(cmd.subrange(0, 16)[4] == cmd.subrange(0, 15)[4]);
        assert(cmd.subrange(0, 16)[4] != receive_pack_name()[4]);
    } else {
        assert(cmd.subrange(0, 15)[4] == cmd.subrange(0, 16)[4]);
        assert(cmd.subrange(0, 15)[4] != upload_pack_name()[4]);
    }
}

/// The reply to a push leaves out exactly the reference advertisement that was
/// sent before it.
pub proof fn lemma_push_reply_skips_advertisement(advertisement: Seq<u8>, rest: Seq<u8>)
    ensures
        push_reply(advertisement + rest, advertisement.len()) == rest,
{
    assert((advertisement + rest).subrange(
        advertisement.len() as int,
        (advertisement + rest).len() as int,
    ) =~= rest);
}

/// The first data of a push starts `git-receive-pack` with the length of the
/// reference advertisement last sent as the number of bytes its reply leaves out.
pub proof fn lemma_push_skips_what_was_advertised(s: HandlerView, path: Seq<char>, len: nat)
    requires
        s.mode == Some(ModeView::ReceivePack(path)),
        !s.has_stdin,
    ensures
        data_action(after_refs_advertised(s, len)) == DataActionView::StartReceivePack(
            "git-receive-pack"@,
            seq![path],
            len,
        ),
{
}

/// A push starts `git-receive-pack` on its first data only; later data goes to
/// the running process.
pub proof fn lemma_push_started_once(s: HandlerView, path: Seq<char>)
    requires
        s.mode == Some(ModeView::ReceivePack(path)),
    ensures
        !s.has_stdin ==> data_action(s) == DataActionView::StartReceivePack(
            "git-receive-pack"@,
            seq![path],
            s.remove_packet_length,
        ),
        data_action(after_receive_pack_started(s)) == DataActionView::WriteToReceivePack,
{
}

/// The end of input releases the process and its input, keeps the service, and
/// needs the process: a second end of input on the same connection is not
/// served.
pub proof fn lemma_eof_releases_process(s: HandlerView)
    requires
        eof_defined(s),
    ensures
        !after_channel_eof(s).has_stdin,
        !after_channel_eof(s).has_child,
        after_channel_eof(s).mode == s.mode,
        !eof_defined(after_channel_eof(s)),
{
}

} // verus!
