//! Values that the handlers hand to the SSH session and to the operating
//! system: disconnect reasons, authentication replies and git commands.
use vstd::prelude::*;

verus! {

/// Why the server closes a connection.
#[derive(Clone, Copy, Debug, PartialEq, Eq, Structural)]
pub enum DisconnectReason {
    HostNotAllowedToConnect,
    ServiceNotAvailable,
}

/// The text sent with a disconnect.
#[derive(Clone, Copy, Debug, PartialEq, Eq, Structural)]
pub enum Refusal {
    /// "wrong operation"
    WrongOperation,
    /// "wrong repo path"
    WrongRepoPath,
}

impl Refusal {
    /// The text of the refusal.
    pub fn description(&self) -> (s: &'static str)
        ensures
            *self == Refusal::WrongOperation ==> s@ == "wrong operation"@,
            *self == Refusal::WrongRepoPath ==> s@ == "wrong repo path"@,
    {
        match self {
            Refusal::WrongOperation => "wrong operation",
            Refusal::WrongRepoPath => "wrong repo path",
        }
    }
}

/// The language tag sent with a disconnect.
pub fn disconnect_language() -> (s: &'static str)
    ensures
        s@ == "en-US"@,
{
    "en-US"
}

/// An authentication method that the server invites a client to try.
#[derive(Clone, Copy, Debug, PartialEq, Eq, Structural)]
pub enum AuthMethod {
    PublicKey,
}

/// The server's answer to an authentication attempt.
#[derive(Debug, PartialEq, Eq)]
pub enum AuthReply {
    Accept,
    Reject { proceed_with_methods: Option<Vec<AuthMethod>>, partial_success: bool },
}

/// The spec value of an `AuthReply`.
pub enum AuthReplyView {
    Accept,
    Reject { proceed_with_methods: Option<Seq<AuthMethod>>, partial_success: bool },
}

impl View for AuthReply {
    type V = AuthReplyView;

    open spec fn view(&self) -> AuthReplyView {
        match self {
            AuthReply::Accept => AuthReplyView::Accept,
            AuthReply::Reject { proceed_with_methods, partial_success } => AuthReplyView::Reject {
                proceed_with_methods: match proceed_with_methods {
                    Some(m) => Some(m@),
                    None => None,
                },
                partial_success: *partial_success,
            },
        }
    }
}

/// The reply that refuses an attempt and invites the client to use a public key.
pub open spec fn public_key_only() -> AuthReplyView {
    AuthReplyView::Reject { proceed_with_methods: Some(seq![AuthMethod::PublicKey]), partial_success: false }
}

/// Refuses an authentication attempt and offers public-key authentication.
pub fn reject_offering_public_key() -> (r: AuthReply)
    ensures
        r@ == public_key_only(),
{
    let methods: Vec<AuthMethod> = vec![AuthMethod::PublicKey];
    assert(methods@ =~= seq![AuthMethod::PublicKey]);
    AuthReply::Reject { proceed_with_methods: Some(methods), partial_success: false }
}

/// The refusal of an attempt without credentials invites exactly one method,
/// public key, and reports no partial success.
pub proof fn lemma_public_key_only()
    ensures
        public_key_only() matches AuthReplyView::Reject { proceed_with_methods, partial_success } && !partial_success
            && proceed_with_methods == Some(seq![AuthMethod::PublicKey]),
{
}

/// A program to run and its arguments.
#[derive(Debug, PartialEq, Eq)]
pub struct ProcessCommand {
    pub program: String,
    pub args: Vec<String>,
}

impl ProcessCommand {
    /// The program's name.
    pub open spec fn program_view(&self) -> Seq<char> {
        self.program@
    }

    /// The arguments, each as text.
    pub open spec fn args_view(&self) -> Seq<Seq<char>> {
        self.args.deep_view()
    }
}

/// `program` run with the single argument `arg`.
pub fn command1(program: &str, arg: &str) -> (c: ProcessCommand)
    ensures
        c.program_view() == program@,
        c.args_view() == seq![arg@],
{
    let mut args: Vec<String> = Vec::new();
    args.push(arg.to_owned());
    let c = ProcessCommand { program: program.to_owned(), args };
    assert(c.args_view() =~= seq![arg@]);
    c
}

/// `program` run with the arguments `first` and `second`.
pub fn command2(program: &str, first: &str, second: &str) -> (c: ProcessCommand)
    ensures
        c.program_view() == program@,
        c.args_view() == seq![first@, second@],
{
    let mut args: Vec<String> = Vec::new();
    args.push(first.to_owned());
    args.push(second.to_owned());
    let c = ProcessCommand { program: program.to_owned(), args };
    assert(c.args_view() =~= seq![first@, second@]);
    c
}

} // verus!
