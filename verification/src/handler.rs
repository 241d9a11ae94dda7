//! The SSH handler of the git server: what it does on each request of an SSH
//! session. The handler keeps the state of one connection; the process
//! handles themselves (a running `git-receive-pack` and its pipes) live with
//! the caller, which tells the handler when it opened them.
use vstd::prelude::*;
use crate::command::{
    ExecPlan, ExecPlanView, exec_request_plan, lemma_push_request_planned, lemma_fetch_request_planned,
    opt_plan_view, plan_exec_request, receive_pack_name, service_pattern, upload_pack_name,
};
use crate::pattern::{regex_compiles, regex_finds_match};
use crate::text::utf8_lossy;
use vstd::utf8::{decode_utf8, encode_utf8, valid_utf8};
use crate::protocol::{
    AuthReply, AuthReplyView, DisconnectReason, ProcessCommand, Refusal, command1, command2,
    public_key_only, reject_offering_public_key,
};

verus! {

/// Which git service the connection serves.
#[derive(Debug, PartialEq, Eq)]
pub enum Mode {
    /// A fetch from the repository at this path.
    UploadPack(String),
    /// A push.
    ReceivePack,
}

pub enum ModeView {
    UploadPack(Seq<char>),
    ReceivePack,
}

impl View for Mode {
    type V = ModeView;

    open spec fn view(&self) -> ModeView {
        match self {
            Mode::UploadPack(p) => ModeView::UploadPack(p@),
            Mode::ReceivePack => ModeView::ReceivePack,
        }
    }
}

/// The state of one connection.
#[derive(Debug)]
pub struct HandlerSSH {
    /// The service chosen by the last accepted `exec` request.
    pub mode: Option<Mode>,
    /// Output of `git-receive-pack` read but not yet sent.
    pub buffer: Option<Vec<u8>>,
    /// Whether the caller holds the standard input of `git-receive-pack`.
    pub has_stdin: bool,
    /// Whether the caller holds the standard output of `git-receive-pack`.
    pub has_stdout: bool,
    /// Whether the caller holds the `git-receive-pack` process.
    pub has_child: bool,
}

pub struct HandlerView {
    pub mode: Option<ModeView>,
    pub buffer: Option<Seq<u8>>,
    pub has_stdin: bool,
    pub has_stdout: bool,
    pub has_child: bool,
}

impl View for HandlerSSH {
    type V = HandlerView;

    open spec fn view(&self) -> HandlerView {
        HandlerView {
            mode: match self.mode {
                Some(m) => Some(m@),
                None => None,
            },
            buffer: match self.buffer {
                Some(b) => Some(b@),
                None => None,
            },
            has_stdin: self.has_stdin,
            has_stdout: self.has_stdout,
            has_child: self.has_child,
        }
    }
}

/// A connection that has not asked for anything yet.
pub open spec fn initial_handler() -> HandlerView {
    HandlerView { mode: None, buffer: None, has_stdin: false, has_stdout: false, has_child: false }
}

// ---------------------------------------------------------------- exec ------

/// What the caller does for an `exec` request.
#[derive(Debug, PartialEq, Eq)]
pub enum ExecAction {
    /// Disconnect with this reason and text, in language "en-US".
    Disconnect(DisconnectReason, Refusal),
    /// Start this command with piped standard input and output, then report
    /// it with `on_receive_pack_started`, flush its input, read its first
    /// output and hand it to `on_initial_output`.
    StartReceivePack(ProcessCommand),
    /// Run this command to completion and send its standard output.
    AdvertiseUploadPack(ProcessCommand),
}

pub enum ExecActionView {
    Disconnect(DisconnectReason, Refusal),
    StartReceivePack(Seq<char>, Seq<Seq<char>>),
    AdvertiseUploadPack(Seq<char>, Seq<Seq<char>>),
}

impl View for ExecAction {
    type V = ExecActionView;

    open spec fn view(&self) -> ExecActionView {
        match self {
            ExecAction::Disconnect(r, t) => ExecActionView::Disconnect(*r, *t),
            ExecAction::StartReceivePack(c) => ExecActionView::StartReceivePack(
                c.program_view(),
                c.args_view(),
            ),
            ExecAction::AdvertiseUploadPack(c) => ExecActionView::AdvertiseUploadPack(
                c.program_view(),
                c.args_view(),
            ),
        }
    }
}

/// The action for a plan: a refusal is sent as "wrong operation", a push starts `git-receive-pack <path>`, a fetch runs
/// `git-upload-pack --timeout=2 <path>`.
pub open spec fn exec_action(plan: ExecPlanView) -> ExecActionView {
    match plan {
        ExecPlanView::Refuse(r) => ExecActionView::Disconnect(r, Refusal::WrongOperation),
        ExecPlanView::ReceivePack(p) => ExecActionView::StartReceivePack(
            "git-receive-pack"@,
            seq![p],
        ),
        ExecPlanView::UploadPack(p) => ExecActionView::AdvertiseUploadPack(
            "git-upload-pack"@,
            seq!["--timeout=2"@, p],
        ),
    }
}

/// The state after a plan: the chosen service becomes the mode.
pub open spec fn after_exec_plan(s: HandlerView, plan: ExecPlanView) -> HandlerView {
    match plan {
        ExecPlanView::Refuse(_) => s,
        ExecPlanView::ReceivePack(_) => HandlerView { mode: Some(ModeView::ReceivePack), ..s },
        ExecPlanView::UploadPack(p) => HandlerView { mode: Some(ModeView::UploadPack(p)), ..s },
    }
}

/// The state once `git-receive-pack` runs: the caller holds its pipes and the
/// buffer starts empty.
pub open spec fn after_receive_pack_started(s: HandlerView) -> HandlerView {
    HandlerView {
        buffer: Some(Seq::<u8>::empty()),
        has_stdin: true,
        has_stdout: true,
        has_child: true,
        ..s
    }
}

/// The state once the first output of `git-receive-pack` joined the buffer.
pub open spec fn after_initial_output(s: HandlerView, bytes: Seq<u8>) -> HandlerView {
    HandlerView { buffer: Some(s.buffer->0 + bytes), ..s }
}

/// The state once the first output was sent.
pub open spec fn after_initial_output_sent(s: HandlerView) -> HandlerView {
    HandlerView { buffer: Some(Seq::<u8>::empty()), ..s }
}

// ---------------------------------------------------------------- data ------

/// What the caller does with data that arrives on the channel.
#[derive(Debug, PartialEq, Eq)]
pub enum DataAction {
    /// Answer with the error "request denied".
    Deny,
    /// Write the data to `git-receive-pack`, flush, and drain its output
    /// through `on_drain_event`.
    ForwardToReceivePack,
    /// Start this command with piped input and output, write the data to it,
    /// read its output to the end and send it.
    RunUploadPack(ProcessCommand),
}

pub enum DataActionView {
    Deny,
    ForwardToReceivePack,
    RunUploadPack(Seq<char>, Seq<Seq<char>>),
}

impl View for DataAction {
    type V = DataActionView;

    open spec fn view(&self) -> DataActionView {
        match self {
            DataAction::Deny => DataActionView::Deny,
            DataAction::ForwardToReceivePack => DataActionView::ForwardToReceivePack,
            DataAction::RunUploadPack(c) => DataActionView::RunUploadPack(
                c.program_view(),
                c.args_view(),
            ),
        }
    }
}

/// Data is served in every state but a push without the pipe to
/// `git-receive-pack`.
pub open spec fn data_defined(s: HandlerView) -> bool {
    s.mode == Some(ModeView::ReceivePack) ==> s.has_stdin
}

/// Data before any service is chosen is denied; a push forwards it; a fetch runs
/// `git-upload-pack --stateless-rpc <path>` on it.
pub open spec fn data_action(s: HandlerView) -> DataActionView {
    match s.mode {
        None => DataActionView::Deny,
        Some(ModeView::ReceivePack) => DataActionView::ForwardToReceivePack,
        Some(ModeView::UploadPack(p)) => DataActionView::RunUploadPack(
            "git-upload-pack"@,
            seq!["--stateless-rpc"@, p],
        ),
    }
}

/// What the caller observed while draining the output of `git-receive-pack`.
#[derive(Debug, PartialEq, Eq)]
pub enum DrainEvent {
    /// A read returned these bytes; none means the end of the output.
    Read(Vec<u8>),
    /// A read failed.
    ReadFailed,
    /// No read completed within two seconds.
    TimedOut,
}

/// What the caller does next while draining.
#[derive(Debug, PartialEq, Eq)]
pub enum DrainStep {
    /// Read again.
    Continue,
    /// Send these bytes on the channel and stop.
    SendAndStop(Vec<u8>),
    /// Stop without sending.
    Stop,
}

pub enum DrainEventView {
    Read(Seq<u8>),
    ReadFailed,
    TimedOut,
}

pub enum DrainStepView {
    Continue,
    SendAndStop(Seq<u8>),
    Stop,
}

impl View for DrainEvent {
    type V = DrainEventView;

    open spec fn view(&self) -> DrainEventView {
        match self {
            DrainEvent::Read(b) => DrainEventView::Read(b@),
            DrainEvent::ReadFailed => DrainEventView::ReadFailed,
            DrainEvent::TimedOut => DrainEventView::TimedOut,
        }
    }
}

impl View for DrainStep {
    type V = DrainStepView;

    open spec fn view(&self) -> DrainStepView {
        match self {
            DrainStep::Continue => DrainStepView::Continue,
            DrainStep::SendAndStop(b) => DrainStepView::SendAndStop(b@),
            DrainStep::Stop => DrainStepView::Stop,
        }
    }
}

/// Draining happens only for a push, and needs the output pipe and the buffer.
pub open spec fn drain_defined(s: HandlerView) -> bool {
    s.mode == Some(ModeView::ReceivePack) && s.has_stdout && s.buffer is Some
}

/// Bytes read are appended to the buffer; at the end of the output the whole
/// buffer is sent; a failed or late read ends the drain.
pub open spec fn drain_step(s: HandlerView, ev: DrainEventView) -> DrainStepView {
    match ev {
        DrainEventView::Read(bytes) => if bytes.len() == 0 {
            DrainStepView::SendAndStop(s.buffer->0)
        } else {
            DrainStepView::Continue
        },
        _ => DrainStepView::Stop,
    }
}

pub open spec fn after_drain_event(s: HandlerView, ev: DrainEventView) -> HandlerView {
    match ev {
        DrainEventView::Read(bytes) => HandlerView { buffer: Some(s.buffer->0 + bytes), ..s },
        _ => s,
    }
}

// ---------------------------------------------------------------- eof -------

/// What the caller does at the end of the channel's input, before it reports
/// exit status `exit_status`, sends its own end of input and closes the channel.
#[derive(Debug, PartialEq, Eq)]
pub struct EofAction {
    /// Drop the standard input of `git-receive-pack`.
    pub close_stdin: bool,
    /// Drop the standard output of `git-receive-pack`.
    pub close_stdout: bool,
    /// Wait up to five seconds for `git-receive-pack` to exit, then kill it.
    pub reap_child: bool,
    pub exit_status: u32,
}

/// The state after the end of input: every process handle is released.
pub open spec fn after_channel_eof(s: HandlerView) -> HandlerView {
    HandlerView { has_stdin: false, has_stdout: false, has_child: false, ..s }
}

impl HandlerSSH {
    /// A handler for a new connection.
    pub fn new() -> (h: Self)
        ensures
            h@ == initial_handler(),
    {
        HandlerSSH { mode: None, buffer: None, has_stdin: false, has_stdout: false, has_child: false }
    }

    /// Authentication without credentials is refused; the client is invited
    /// to use a public key.
    pub fn auth_none(&self) -> (r: AuthReply)
        ensures
            r@ == public_key_only(),
    {
        reject_offering_public_key()
    }

    /// Every offered public key is acceptable.
    pub fn auth_publickey_offered(&self) -> (r: AuthReply)
        ensures
            r@ == AuthReplyView::Accept,
    {
        AuthReply::Accept
    }

    /// Every public key is accepted.
    pub fn auth_publickey(&self) -> (r: AuthReply)
        ensures
            r@ == AuthReplyView::Accept,
    {
        AuthReply::Accept
    }

    /// Handles an `exec` request with the raw command `data`: chooses the
    /// service and says what to run. `None` where the command cannot be cut
    /// into service and path (the request is not served).
    pub fn on_exec_request(&mut self, data: &[u8]) -> (r: Option<ExecAction>)
        ensures
            match exec_request_plan(data@) {
                Some(plan) => {
                    &&& r matches Some(a) && a@ == exec_action(plan)
                    &&& final(self)@ == after_exec_plan(old(self)@, plan)
                },
                None => r is None && final(self)@ == old(self)@,
            },
    {
        let plan = plan_exec_request(data);
        match plan {
            None => None,
            Some(ExecPlan::Refuse(reason)) => Some(ExecAction::Disconnect(reason, Refusal::WrongOperation)),
            Some(ExecPlan::ReceivePack(path)) => {
                self.mode = Some(Mode::ReceivePack);
                Some(ExecAction::StartReceivePack(command1("git-receive-pack", path.as_str())))
            },
            Some(ExecPlan::UploadPack(path)) => {
                let action = ExecAction::AdvertiseUploadPack(
                    command2("git-upload-pack", "--timeout=2", path.as_str()),
                );
                self.mode = Some(Mode::UploadPack(path));
                Some(action)
            },
        }
    }

    /// `git-receive-pack` runs and the caller holds its pipes.
    pub fn on_receive_pack_started(&mut self)
        ensures
            final(self)@ == after_receive_pack_started(old(self)@),
    {
        self.buffer = Some(Vec::new());
        self.has_stdin = true;
        self.has_stdout = true;
        self.has_child = true;
    }

    /// The first output of `git-receive-pack` arrived: it joins the buffer,
    /// whose contents are returned to be sent.
    pub fn on_initial_output(&mut self, bytes: &[u8]) -> (r: Vec<u8>)
        requires
            old(self).buffer is Some,
        ensures
            r@ == old(self)@.buffer->0 + bytes@,
            final(self)@ == after_initial_output(old(self)@, bytes@),
    {
        let mut buffer = self.buffer.take().unwrap();
        let mut i: usize = 0;
        let ghost start = buffer@;
        while i < bytes.len()
            invariant
                i <= bytes@.len(),
                buffer@ == start + bytes@.subrange(0, i as int),
            decreases bytes@.len() - i,
        {
            buffer.push(bytes[i]);
            i = i + 1;
            assert(buffer@ =~= start + bytes@.subrange(0, i as int));
        }
        assert(bytes@.subrange(0, bytes@.len() as int) =~= bytes@);
        let sent = buffer.clone();
        self.buffer = Some(buffer);
        sent
    }

    /// The first output was sent: the buffer is emptied.
    pub fn on_initial_output_sent(&mut self)
        requires
            old(self).buffer is Some,
        ensures
            final(self)@ == after_initial_output_sent(old(self)@),
    {
        self.buffer = Some(Vec::new());
    }

    /// Data arrived on the channel.
    pub fn on_data(&self) -> (r: DataAction)
        requires
            data_defined(self@),
        ensures
            r@ == data_action(self@),
    {
        match &self.mode {
            None => DataAction::Deny,
            Some(Mode::ReceivePack) => DataAction::ForwardToReceivePack,
            Some(Mode::UploadPack(path)) => DataAction::RunUploadPack(
                command2("git-upload-pack", "--stateless-rpc", path.as_str()),
            ),
        }
    }

    /// One event while draining the output of `git-receive-pack`.
    pub fn on_drain_event(&mut self, ev: DrainEvent) -> (r: DrainStep)
        requires
            drain_defined(old(self)@),
        ensures
            r@ == drain_step(old(self)@, ev@),
            final(self)@ == after_drain_event(old(self)@, ev@),
    {
        match ev {
            DrainEvent::Read(bytes) => {
                let all = self.on_initial_output(bytes.as_slice());
                if bytes.len() == 0 {
                    DrainStep::SendAndStop(all)
                } else {
                    DrainStep::Continue
                }
            },
            DrainEvent::ReadFailed => DrainStep::Stop,
            DrainEvent::TimedOut => DrainStep::Stop,
        }
    }

    /// The channel's input ended: every process handle held is released.
    pub fn on_channel_eof(&mut self) -> (r: EofAction)
        ensures
            r.close_stdin == old(self).has_stdin,
            r.close_stdout == old(self).has_stdout,
            r.reap_child == old(self).has_child,
            r.exit_status == 0,
            final(self)@ == after_channel_eof(old(self)@),
    {
        let r = EofAction {
            close_stdin: self.has_stdin,
            close_stdout: self.has_stdout,
            reap_child: self.has_child,
            exit_status: 0,
        };
        self.has_stdin = false;
        self.has_stdout = false;
        self.has_child = false;
        r
    }
}

// ---------------------------------------------------------------- laws ------

/// All `chunks` one after the other.
pub open spec fn concat_all(chunks: Seq<Seq<u8>>) -> Seq<u8>
    decreases chunks.len(),
{
    if chunks.len() == 0 {
        Seq::empty()
    } else {
        concat_all(chunks.drop_last()) + chunks.last()
    }
}

/// The state after reading each of `chunks` in turn while draining.
pub open spec fn after_reads(s: HandlerView, chunks: Seq<Seq<u8>>) -> HandlerView
    decreases chunks.len(),
{
    if chunks.len() == 0 {
        s
    } else {
        after_drain_event(after_reads(s, chunks.drop_last()), DrainEventView::Read(chunks.last()))
    }
}

/// For every path, a planned push starts `git-receive-pack` with the path as its
/// only argument, a planned fetch runs `git-upload-pack --timeout=2 <path>`, and
/// a refusal disconnects with the same reason and the text "wrong operation".
pub proof fn lemma_exec_actions(path: Seq<char>, reason: DisconnectReason)
    ensures
        exec_action(ExecPlanView::ReceivePack(path)) == ExecActionView::StartReceivePack(
            "git-receive-pack"@,
            seq![path],
        ),
        exec_action(ExecPlanView::UploadPack(path)) == ExecActionView::AdvertiseUploadPack(
            "git-upload-pack"@,
            seq!["--timeout=2"@, path],
        ),
        exec_action(ExecPlanView::Refuse(reason)) == ExecActionView::Disconnect(reason, Refusal::WrongOperation),
        after_exec_plan(initial_handler(), ExecPlanView::ReceivePack(path)).mode == Some(ModeView::ReceivePack),
        after_exec_plan(initial_handler(), ExecPlanView::UploadPack(path)).mode == Some(ModeView::UploadPack(path)),
{
}

/// A push request as git sends it (`git-receive-pack '<path>'`), once the
/// service pattern matches, starts `git-receive-pack <path>` and switches the
/// connection to pushing.
pub proof fn lemma_push_request_starts_receive_pack(
    s: HandlerView,
    data: Seq<u8>,
    sep: u8,
    open: u8,
    path: Seq<u8>,
    close: u8,
)
    requires
        sep < 128,
        open < 128,
        close < 128,
        valid_utf8(path),
        encode_utf8(utf8_lossy(data)) == receive_pack_name() + seq![sep, open] + path + seq![close],
        regex_compiles(service_pattern()),
        regex_finds_match(service_pattern(), utf8_lossy(data)),
    ensures
        exec_request_plan(data) matches Some(plan) && exec_action(plan) == ExecActionView::StartReceivePack(
            "git-receive-pack"@,
            seq![decode_utf8(path)],
        ) && after_exec_plan(s, plan).mode == Some(ModeView::ReceivePack),
{
    lemma_push_request_planned(data, sep, open, path, close);
}

/// A fetch request as git sends it (`git-upload-pack '<path>'`), once the
/// service pattern matches, runs `git-upload-pack --timeout=2 <path>` and
/// switches the connection to fetching from that path.
pub proof fn lemma_fetch_request_advertises(
    s: HandlerView,
    data: Seq<u8>,
    sep: u8,
    open: u8,
    path: Seq<u8>,
    close: u8,
)
    requires
        sep < 128,
        open < 128,
        close < 128,
        valid_utf8(path),
        encode_utf8(utf8_lossy(data)) == upload_pack_name() + seq![sep, open] + path + seq![close],
        regex_compiles(service_pattern()),
        regex_finds_match(service_pattern(), utf8_lossy(data)),
    ensures
        exec_request_plan(data) matches Some(plan) && exec_action(plan) == ExecActionView::AdvertiseUploadPack(
            "git-upload-pack"@,
            seq!["--timeout=2"@, decode_utf8(path)],
        ) && after_exec_plan(s, plan).mode == Some(ModeView::UploadPack(decode_utf8(path))),
{
    lemma_fetch_request_planned(data, sep, open, path, close);
}

/// Each drain event, in every state: a failed read and a two-second stall end
/// the drain without sending and without touching the state; a read of no
/// bytes (end of output) sends the whole buffer; any other read continues and
/// appends exactly the bytes read.
pub proof fn lemma_drain_step_outcomes(s: HandlerView, bytes: Seq<u8>)
    ensures
        drain_step(s, DrainEventView::TimedOut) == DrainStepView::Stop,
        drain_step(s, DrainEventView::ReadFailed) == DrainStepView::Stop,
        after_drain_event(s, DrainEventView::TimedOut) == s,
        after_drain_event(s, DrainEventView::ReadFailed) == s,
        bytes.len() == 0 ==> drain_step(s, DrainEventView::Read(bytes)) == DrainStepView::SendAndStop(
            s.buffer->0,
        ),
        bytes.len() > 0 ==> drain_step(s, DrainEventView::Read(bytes)) == DrainStepView::Continue,
        after_drain_event(s, DrainEventView::Read(bytes)).buffer == Some(s.buffer->0 + bytes),
{
}

/// Starting `git-receive-pack` marks all three handles as held and empties the
/// buffer; the first output joins the buffer after what it held; sending it
/// empties the buffer; none of these touches anything else.
pub proof fn lemma_push_start_steps(s: HandlerView, bytes: Seq<u8>)
    ensures
        after_receive_pack_started(s) == (HandlerView {
            mode: s.mode,
            buffer: Some(Seq::<u8>::empty()),
            has_stdin: true,
            has_stdout: true,
            has_child: true,
        }),
        after_initial_output(s, bytes) == (HandlerView {
            mode: s.mode,
            buffer: Some(s.buffer->0 + bytes),
            has_stdin: s.has_stdin,
            has_stdout: s.has_stdout,
            has_child: s.has_child,
        }),
        after_initial_output_sent(s) == (HandlerView {
            mode: s.mode,
            buffer: Some(Seq::<u8>::empty()),
            has_stdin: s.has_stdin,
            has_stdout: s.has_stdout,
            has_child: s.has_child,
        }),
{
}

/// A connection that has chosen no service denies data.
pub proof fn lemma_fresh_handler_denies_data()
    ensures
        data_defined(initial_handler()),
        data_action(initial_handler()) == DataActionView::Deny,
{
}

/// A refused `exec` request leaves the connection as it was.
pub proof fn lemma_refusal_keeps_state(s: HandlerView, reason: DisconnectReason)
    ensures
        after_exec_plan(s, ExecPlanView::Refuse(reason)) == s,
{
}

/// Once a push was accepted and `git-receive-pack` started, data is forwarded
/// to it and its output can be drained.
pub proof fn lemma_push_accepts_data(s: HandlerView, path: Seq<char>)
    ensures
        data_defined(after_receive_pack_started(after_exec_plan(s, ExecPlanView::ReceivePack(path)))),
        data_action(after_receive_pack_started(after_exec_plan(s, ExecPlanView::ReceivePack(path))))
            == DataActionView::ForwardToReceivePack,
        drain_defined(after_receive_pack_started(after_exec_plan(s, ExecPlanView::ReceivePack(path)))),
{
}

/// Once a fetch from `path` was accepted, each piece of data runs
/// `git-upload-pack --stateless-rpc` on that same path.
pub proof fn lemma_fetch_serves_same_path(s: HandlerView, path: Seq<char>)
    ensures
        data_defined(after_exec_plan(s, ExecPlanView::UploadPack(path))),
        data_action(after_exec_plan(s, ExecPlanView::UploadPack(path))) == DataActionView::RunUploadPack(
            "git-upload-pack"@,
            seq!["--stateless-rpc"@, path],
        ),
{
}

/// Draining keeps what it needs, continues after every non-empty read, and
/// has appended exactly the bytes read, in order.
pub proof fn lemma_drain_accumulates(s: HandlerView, chunks: Seq<Seq<u8>>)
    requires
        drain_defined(s),
    ensures
        drain_defined(after_reads(s, chunks)),
        after_reads(s, chunks).buffer == Some(s.buffer->0 + concat_all(chunks)),
        after_reads(s, chunks).mode == s.mode,
        forall|i: int|
            0 <= i < chunks.len() && chunks[i].len() > 0 ==> drain_step(
                after_reads(s, chunks.take(i)),
                DrainEventView::Read(chunks[i]),
            ) == DrainStepView::Continue,
    decreases chunks.len(),
{
    if chunks.len() > 0 {
        let init = chunks.drop_last();
        lemma_drain_accumulates(s, init);
        assert(s.buffer->0 + concat_all(init) + chunks.last() =~= s.buffer->0 + concat_all(chunks));
        assert forall|i: int|
            0 <= i < chunks.len() && chunks[i].len() > 0 implies drain_step(
                after_reads(s, chunks.take(i)),
                DrainEventView::Read(chunks[i]),
            ) == DrainStepView::Continue by {
            if i < chunks.len() - 1 {
                assert(chunks.take(i) =~= init.take(i));
                assert(chunks[i] == init[i]);
            }
        }
    }
}

/// The answer to pushed data: after the first output of `git-receive-pack` was
/// sent, the bytes sent when its output ends are exactly the non-empty chunks
/// read meanwhile, in order.
pub proof fn lemma_push_response(s: HandlerView, path: Seq<char>, first: Seq<u8>, chunks: Seq<Seq<u8>>)
    ensures
        ({
            let ready = after_initial_output_sent(
                after_initial_output(
                    after_receive_pack_started(after_exec_plan(s, ExecPlanView::ReceivePack(path))),
                    first,
                ),
            );
            &&& drain_defined(after_reads(ready, chunks))
            &&& drain_step(after_reads(ready, chunks), DrainEventView::Read(Seq::empty()))
                == DrainStepView::SendAndStop(concat_all(chunks))
        }),
{
    let ready = after_initial_output_sent(
        after_initial_output(
            after_receive_pack_started(after_exec_plan(s, ExecPlanView::ReceivePack(path))),
            first,
        ),
    );
    lemma_drain_accumulates(ready, chunks);
    assert(ready.buffer->0 + concat_all(chunks) =~= concat_all(chunks));
}

/// The state after the drain events `evs`, in turn.
pub open spec fn after_drain_events(s: HandlerView, evs: Seq<DrainEventView>) -> HandlerView
    decreases evs.len(),
{
    if evs.len() == 0 {
        s
    } else {
        after_drain_event(after_drain_events(s, evs.drop_last()), evs.last())
    }
}

/// What a data request does to the connection: choosing the action changes
/// nothing, and the drain that follows a forwarded push (any events, read in
/// turn) keeps the service and every process handle; only the buffer may
/// change. Outside a push no drain can take place, so nothing changes.
pub proof fn lemma_data_changes_only_buffer(s: HandlerView, evs: Seq<DrainEventView>)
    ensures
        s.mode != Some(ModeView::ReceivePack) ==> !drain_defined(s),
        drain_defined(s) ==> ({
            let t = after_drain_events(s, evs);
            &&& drain_defined(t)
            &&& t.mode == s.mode
            &&& t.has_stdin == s.has_stdin
            &&& t.has_stdout == s.has_stdout
            &&& t.has_child == s.has_child
        }),
    decreases evs.len(),
{
    if evs.len() > 0 {
        lemma_data_changes_only_buffer(s, evs.drop_last());
    }
}

/// The end of input releases every process handle, keeps the service and the
/// buffer, and a second end of input has nothing left to release.
pub proof fn lemma_eof_releases_everything(s: HandlerView)
    ensures
        !after_channel_eof(s).has_stdin,
        !after_channel_eof(s).has_stdout,
        !after_channel_eof(s).has_child,
        after_channel_eof(s).mode == s.mode,
        after_channel_eof(s).buffer == s.buffer,
        after_channel_eof(after_channel_eof(s)) == after_channel_eof(s),
{
}

/// After the end of input of a push, data can no longer reach
/// `git-receive-pack`: the pipe is gone.
pub proof fn lemma_no_push_data_after_eof(s: HandlerView)
    requires
        s.mode == Some(ModeView::ReceivePack),
    ensures
        !data_defined(after_channel_eof(s)),
        !drain_defined(after_channel_eof(s)),
{
}

} // verus!
