//! Reading the command of an SSH `exec` request: which git service a client
//! asks for and on which repository.
use vstd::prelude::*;
use vstd::utf8::*;
use vstd::string::StringSliceAdditionalSpecFns;
use crate::pattern::{Pattern, regex_compiles, regex_finds_match};
use crate::protocol::DisconnectReason;
use crate::text::{decode_lossy, starts_with, substring, utf8_lossy};

verus! {

broadcast use vstd::utf8::group_utf8_lib;

/// Commands shorter than this many bytes are refused outright.
pub const MIN_COMMAND_LEN: usize = 18;

/// The bytes of `git-receive-pack`.
pub open spec fn receive_pack_name() -> Seq<u8> {
    seq!['g', 'i', 't', '-', 'r', 'e', 'c', 'e', 'i', 'v', 'e', '-', 'p', 'a', 'c', 'k'].map_values(
        |c: char| c as u8,
    )
}

/// The bytes of `git-upload-pack`.
pub open spec fn upload_pack_name() -> Seq<u8> {
    seq!['g', 'i', 't', '-', 'u', 'p', 'l', 'o', 'a', 'd', '-', 'p', 'a', 'c', 'k'].map_values(
        |c: char| c as u8,
    )
}

/// The regular expression that recognises a git service command.
pub open spec fn service_pattern() -> Seq<char> {
    "^(git-receive-pack)|^(git-upload-pack)"@
}

pub fn receive_pack_bytes() -> (v: Vec<u8>)
    ensures
        v@ == receive_pack_name(),
{
    let v: Vec<u8> = vec![103u8, 105, 116, 45, 114, 101, 99, 101, 105, 118, 101, 45, 112, 97, 99, 107];
    assert(v@ =~= receive_pack_name());
    v
}

pub fn upload_pack_bytes() -> (v: Vec<u8>)
    ensures
        v@ == upload_pack_name(),
{
    let v: Vec<u8> = vec![103u8, 105, 116, 45, 117, 112, 108, 111, 97, 100, 45, 112, 97, 99, 107];
    assert(v@ =~= upload_pack_name());
    v
}

/// What an `exec` request leads to.
#[derive(Debug, PartialEq, Eq)]
pub enum ExecPlan {
    /// Close the connection with this reason and the text "wrong operation".
    Refuse(DisconnectReason),
    /// Serve a push into the repository at this path.
    ReceivePack(String),
    /// Serve a fetch from the repository at this path.
    UploadPack(String),
}

pub enum ExecPlanView {
    Refuse(DisconnectReason),
    ReceivePack(Seq<char>),
    UploadPack(Seq<char>),
}

impl View for ExecPlan {
    type V = ExecPlanView;

    open spec fn view(&self) -> ExecPlanView {
        match self {
            ExecPlan::Refuse(r) => ExecPlanView::Refuse(*r),
            ExecPlan::ReceivePack(p) => ExecPlanView::ReceivePack(p@),
            ExecPlan::UploadPack(p) => ExecPlanView::UploadPack(p@),
        }
    }
}

/// The plan for the command whose UTF-8 bytes are `cmd`, given whether the
/// service pattern matched it: short commands and unmatched ones are refused;
/// a command that begins with `git-receive-pack` names its repository from
/// byte 18 to the last byte (exclusive), any other from byte 17.
pub open spec fn exec_plan(cmd: Seq<u8>, service_matched: bool) -> ExecPlanView {
    if cmd.len() < MIN_COMMAND_LEN {
        ExecPlanView::Refuse(DisconnectReason::HostNotAllowedToConnect)
    } else if !service_matched {
        ExecPlanView::Refuse(DisconnectReason::ServiceNotAvailable)
    } else if cmd.subrange(0, 16) == receive_pack_name() {
        ExecPlanView::ReceivePack(decode_utf8(cmd.subrange(18, cmd.len() - 1)))
    } else {
        ExecPlanView::UploadPack(decode_utf8(cmd.subrange(17, cmd.len() - 1)))
    }
}

/// The commands on which cutting out the service name and the path stays
/// within the text and on character boundaries.
pub open spec fn exec_plan_defined(cmd: Seq<u8>, service_matched: bool) -> bool {
    ||| cmd.len() < MIN_COMMAND_LEN
    ||| !service_matched
    ||| {
        &&& is_char_boundary(cmd, 16)
        &&& if cmd.subrange(0, 16) == receive_pack_name() {
            &&& 19 <= cmd.len()
            &&& is_char_boundary(cmd, 18)
            &&& is_char_boundary(cmd, cmd.len() - 1)
        } else {
            &&& is_char_boundary(cmd, 17)
            &&& is_char_boundary(cmd, cmd.len() - 1)
        }
    }
}

/// Plans the `exec` request `cmd`, given whether the service pattern matched it.
pub fn plan_exec(cmd: &str, service_matched: bool) -> (r: ExecPlan)
    requires
        exec_plan_defined(cmd.spec_bytes(), service_matched),
    ensures
        r@ == exec_plan(cmd.spec_bytes(), service_matched),
{
    let bytes = cmd.as_bytes();
    let len = bytes.len();
    if len < MIN_COMMAND_LEN {
        return ExecPlan::Refuse(DisconnectReason::HostNotAllowedToConnect);
    }
    if !service_matched {
        return ExecPlan::Refuse(DisconnectReason::ServiceNotAvailable);
    }
    let name = receive_pack_bytes();
    if starts_with(bytes, name.as_slice()) {
        ExecPlan::ReceivePack(substring(cmd, 18, len - 1))
    } else {
        ExecPlan::UploadPack(substring(cmd, 17, len - 1))
    }
}

/// Whether `plan_exec` may be called on `cmd` and `service_matched`.
pub fn exec_plan_is_defined(cmd: &str, service_matched: bool) -> (r: bool)
    ensures
        r == exec_plan_defined(cmd.spec_bytes(), service_matched),
{
    let bytes = cmd.as_bytes();
    let len = bytes.len();
    if len < MIN_COMMAND_LEN || !service_matched {
        return true;
    }
    if !cmd.is_char_boundary(16) {
        return false;
    }
    let name = receive_pack_bytes();
    if starts_with(bytes, name.as_slice()) {
        19 <= len && cmd.is_char_boundary(18) && cmd.is_char_boundary(len - 1)
    } else {
        cmd.is_char_boundary(17) && cmd.is_char_boundary(len - 1)
    }
}

/// The plan for the raw bytes of an `exec` request: `None` where the request
/// cannot be served without a panic (the service pattern does not compile, or a
/// cut falls outside the text or inside a character).
pub open spec fn exec_request_plan(data: Seq<u8>) -> Option<ExecPlanView> {
    let text = utf8_lossy(data);
    let cmd = encode_utf8(text);
    if cmd.len() < MIN_COMMAND_LEN {
        Some(ExecPlanView::Refuse(DisconnectReason::HostNotAllowedToConnect))
    } else if !regex_compiles(service_pattern()) {
        None
    } else {
        let matched = regex_finds_match(service_pattern(), text);
        if exec_plan_defined(cmd, matched) {
            Some(exec_plan(cmd, matched))
        } else {
            None
        }
    }
}

/// The spec value of an optional plan.
pub open spec fn opt_plan_view(p: Option<ExecPlan>) -> Option<ExecPlanView> {
    match p {
        Some(plan) => Some(plan@),
        None => None,
    }
}

/// Reads the raw bytes of an `exec` request: decodes them lossily, refuses
/// short commands, matches the rest against the service pattern and plans.
pub fn plan_exec_request(data: &[u8]) -> (r: Option<ExecPlan>)
    ensures
        opt_plan_view(r) == exec_request_plan(data@),
{
    let text = decode_lossy(data);
    let cmd = text.as_str();
    let len = cmd.as_bytes().len();
    if len < MIN_COMMAND_LEN {
        return Some(ExecPlan::Refuse(DisconnectReason::HostNotAllowedToConnect));
    }
    let pattern = match Pattern::new("^(git-receive-pack)|^(git-upload-pack)") {
        Some(p) => p,
        None => return None,
    };
    let matched = pattern.is_match(cmd);
    if exec_plan_is_defined(cmd, matched) {
        Some(plan_exec(cmd, matched))
    } else {
        None
    }
}

/// Bytes below 0x80 (ASCII) are well-formed UTF-8.
pub proof fn lemma_ascii_is_utf8(b: Seq<u8>)
    requires
        forall|i: int| 0 <= i < b.len() ==> b[i] < 128,
    ensures
        valid_utf8(b),
{
    assert(b.subrange(0, 0) =~= Seq::<u8>::empty());
    assert(partial_valid_utf8(b, 0));
    partial_valid_utf8_extend_ascii_block(b, 0, b.len() as int);
    assert(b.subrange(0, b.len() as int) =~= b);
}

/// `head + path + tail` with an ASCII `head` and `tail` and a well-formed
/// `path` is well-formed, and each end of `path` is a character boundary.
pub proof fn lemma_framed_path(head: Seq<u8>, path: Seq<u8>, tail: Seq<u8>)
    requires
        forall|i: int| 0 <= i < head.len() ==> head[i] < 128,
        forall|i: int| 0 <= i < tail.len() ==> tail[i] < 128,
        tail.len() > 0,
        valid_utf8(path),
    ensures
        valid_utf8(head + path + tail),
        (head + path + tail).subrange(head.len() as int, (head.len() + path.len()) as int) == path,
        (head + path + tail).subrange(0, head.len() as int) == head,
        forall|i: int|
            0 <= i < head.len() ==> is_char_boundary(#[trigger] (head + path + tail), i),
        is_char_boundary(head + path + tail, head.len() as int),
        is_char_boundary(head + path + tail, (head.len() + path.len()) as int),
{
    let cmd = head + path + tail;
    lemma_ascii_is_utf8(head);
    lemma_ascii_is_utf8(tail);
    valid_utf8_concat(head, path);
    valid_utf8_concat(head + path, tail);
    assert(cmd.subrange(head.len() as int, (head.len() + path.len()) as int) =~= path);
    assert(cmd.subrange(0, head.len() as int) =~= head);
    assert forall|i: int| 0 <= i < head.len() implies is_char_boundary(cmd, i) by {
        is_char_boundary_iff_not_is_continuation_byte(cmd, i);
    }
    let n = head.len() as int;
    if path.len() > 0 {
        is_char_boundary_iff_not_is_continuation_byte(path, 0);
        assert(cmd[n] == path[0]);
    }
    is_char_boundary_iff_not_is_continuation_byte(cmd, n);
    is_char_boundary_iff_not_is_continuation_byte(cmd, n + path.len());
}

/// A command shorter than `MIN_COMMAND_LEN` bytes is refused with
/// `HostNotAllowedToConnect`, whatever the service pattern says.
pub proof fn lemma_short_command_refused(cmd: Seq<u8>, service_matched: bool)
    requires
        cmd.len() < MIN_COMMAND_LEN,
    ensures
        exec_plan_defined(cmd, service_matched),
        exec_plan(cmd, service_matched) == ExecPlanView::Refuse(DisconnectReason::HostNotAllowedToConnect),
{
}

/// A command of at least `MIN_COMMAND_LEN` bytes that the service pattern does
/// not match is refused with `ServiceNotAvailable`.
pub proof fn lemma_unknown_service_refused(cmd: Seq<u8>)
    requires
        cmd.len() >= MIN_COMMAND_LEN,
    ensures
        exec_plan_defined(cmd, false),
        exec_plan(cmd, false) == ExecPlanView::Refuse(DisconnectReason::ServiceNotAvailable),
{
}

/// What git sends for a push, `git-receive-pack '<path>'`: the service name,
/// two ASCII bytes, the repository path and one closing ASCII byte. Once the
/// service pattern has matched, it asks for a push into exactly that path.
pub proof fn lemma_receive_pack_request(sep: u8, open: u8, path: Seq<u8>, close: u8)
    requires
        sep < 128,
        open < 128,
        close < 128,
        valid_utf8(path),
    ensures
        exec_plan_defined(receive_pack_name() + seq![sep, open] + path + seq![close], true),
        exec_plan(receive_pack_name() + seq![sep, open] + path + seq![close], true)
            == ExecPlanView::ReceivePack(decode_utf8(path)),
{
    let head = receive_pack_name() + seq![sep, open];
    let cmd = head + path + seq![close];
    assert(head.len() == 18);
    assert(forall|i: int| 0 <= i < head.len() ==> head[i] < 128);
    lemma_framed_path(head, path, seq![close]);
    assert(cmd.subrange(0, 16) =~= receive_pack_name());
    assert(cmd.subrange(18, cmd.len() - 1) =~= path);
    assert(is_char_boundary(cmd, 16));
}

/// What git sends for a fetch, `git-upload-pack '<path>'`: the service name,
/// two ASCII bytes, the repository path and one closing ASCII byte. Once the
/// service pattern has matched, it asks for a fetch from exactly that path.
pub proof fn lemma_upload_pack_request(sep: u8, open: u8, path: Seq<u8>, close: u8)
    requires
        sep < 128,
        open < 128,
        close < 128,
        valid_utf8(path),
    ensures
        exec_plan_defined(upload_pack_name() + seq![sep, open] + path + seq![close], true),
        exec_plan(upload_pack_name() + seq![sep, open] + path + seq![close], true)
            == ExecPlanView::UploadPack(decode_utf8(path)),
{
    let head = upload_pack_name() + seq![sep, open];
    let cmd = head + path + seq![close];
    assert(head.len() == 17);
    assert(forall|i: int| 0 <= i < head.len() ==> head[i] < 128);
    lemma_framed_path(head, path, seq![close]);
    assert(cmd.subrange(0, 16)[4] != receive_pack_name()[4]);
    assert(cmd.subrange(17, cmd.len() - 1) =~= path);
    assert(is_char_boundary(cmd, 16));
}

/// A fetch request as git sends it, `git-upload-pack '<path>'` (the service
/// name, two ASCII bytes, the path, one ASCII byte), of any length, is served as
/// a fetch from exactly that path once the service pattern compiles and matches.
pub proof fn lemma_fetch_request_planned(data: Seq<u8>, sep: u8, open: u8, path: Seq<u8>, close: u8)
    requires
        sep < 128,
        open < 128,
        close < 128,
        valid_utf8(path),
        encode_utf8(utf8_lossy(data)) == upload_pack_name() + seq![sep, open] + path + seq![close],
        regex_compiles(service_pattern()),
        regex_finds_match(service_pattern(), utf8_lossy(data)),
    ensures
        exec_request_plan(data) == Some(ExecPlanView::UploadPack(decode_utf8(path))),
{
    lemma_upload_pack_request(sep, open, path, close);
}

/// A push request as git sends it, `git-receive-pack '<path>'`, of any length,
/// is served as a push into exactly that path once the service pattern compiles
/// and matches.
pub proof fn lemma_push_request_planned(data: Seq<u8>, sep: u8, open: u8, path: Seq<u8>, close: u8)
    requires
        sep < 128,
        open < 128,
        close < 128,
        valid_utf8(path),
        encode_utf8(utf8_lossy(data)) == receive_pack_name() + seq![sep, open] + path + seq![close],
        regex_compiles(service_pattern()),
        regex_finds_match(service_pattern(), utf8_lossy(data)),
    ensures
        exec_request_plan(data) == Some(ExecPlanView::ReceivePack(decode_utf8(path))),
{
    lemma_receive_pack_request(sep, open, path, close);
}

/// Raw request bytes of at least `MIN_COMMAND_LEN` bytes are not served when
/// the service pattern does not compile.
pub proof fn lemma_uncompiled_pattern_not_served(data: Seq<u8>)
    requires
        encode_utf8(utf8_lossy(data)).len() >= MIN_COMMAND_LEN,
        !regex_compiles(service_pattern()),
    ensures
        exec_request_plan(data) is None,
{
}

/// A matched push command of exactly `MIN_COMMAND_LEN` bytes has no room for a
/// path (byte 18 lies past the last byte) and is not served.
pub proof fn lemma_push_without_room_not_served(data: Seq<u8>, sep: u8, open: u8)
    requires
        encode_utf8(utf8_lossy(data)) == receive_pack_name() + seq![sep, open],
        regex_compiles(service_pattern()),
        regex_finds_match(service_pattern(), utf8_lossy(data)),
    ensures
        exec_request_plan(data) is None,
{
    let cmd = receive_pack_name() + seq![sep, open];
    assert(cmd.subrange(0, 16) =~= receive_pack_name());
}

/// Raw request bytes that decode to fewer than `MIN_COMMAND_LEN` bytes are
/// refused as `HostNotAllowedToConnect`, whatever the regex crate does.
pub proof fn lemma_short_request_refused(data: Seq<u8>)
    requires
        encode_utf8(utf8_lossy(data)).len() < MIN_COMMAND_LEN,
    ensures
        exec_request_plan(data) == Some(ExecPlanView::Refuse(DisconnectReason::HostNotAllowedToConnect)),
{
}

/// Raw request bytes of at least `MIN_COMMAND_LEN` bytes that the compiled
/// service pattern does not match are refused as `ServiceNotAvailable`.
pub proof fn lemma_unmatched_request_refused(data: Seq<u8>)
    requires
        encode_utf8(utf8_lossy(data)).len() >= MIN_COMMAND_LEN,
        regex_compiles(service_pattern()),
        !regex_finds_match(service_pattern(), utf8_lossy(data)),
    ensures
        exec_request_plan(data) == Some(ExecPlanView::Refuse(DisconnectReason::ServiceNotAvailable)),
{
}

} // verus!
