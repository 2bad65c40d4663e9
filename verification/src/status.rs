//! The outcome of one invocation and the channel that carries it.
//!
//! An invocation ends with one status: the guest reports success, the host
//! reports a failure, or the guest exits without either. Whatever is offered
//! to the channel of an invocation after its first status is dropped, so
//! that the receiver sees one outcome and no second.

use vstd::prelude::*;
use vstd::slice::slice_to_vec;
use vstd::string::StringSliceAdditionalSpecFns;
use vstd::utf8::encode_utf8;

verus! {

/// The outcome of one invocation.
#[derive(Clone, Debug, PartialEq, Eq)]
pub enum Status {
    /// The guest finished and handed back a payload.
    Success(Vec<u8>),
    /// The invocation failed; the payload says why.
    Failure(Vec<u8>),
    /// The guest ran to its end with the given exit code.
    Exited(i32),
}

/// An outcome with its payload as a mathematical byte sequence.
pub enum StatusView {
    Success(Seq<u8>),
    Failure(Seq<u8>),
    Exited(i32),
}

impl View for Status {
    type V = StatusView;

    open spec fn view(&self) -> StatusView {
        match self {
            Status::Success(bytes) => StatusView::Success(bytes@),
            Status::Failure(bytes) => StatusView::Failure(bytes@),
            Status::Exited(code) => StatusView::Exited(*code),
        }
    }
}

/// Whether `status` reports success or failure.
pub open spec fn is_verdict(status: StatusView) -> bool {
    status is Success || status is Failure
}

/// How many of `messages` report success or failure.
pub open spec fn verdicts(messages: Seq<StatusView>) -> nat
    decreases messages.len(),
{
    if messages.len() == 0 {
        0
    } else {
        verdicts(messages.drop_last()) + if is_verdict(messages.last()) {
            1nat
        } else {
            0nat
        }
    }
}

/// What the channel carries after `status` was offered to a channel that
/// carried `sent`: the first status offered stays, later ones are dropped.
pub open spec fn offered(sent: Option<StatusView>, status: StatusView) -> Option<StatusView> {
    match sent {
        Some(first) => Some(first),
        None => Some(status),
    }
}

/// The messages that a receiver sees on a channel that carries `sent`.
pub open spec fn observed(sent: Option<StatusView>) -> Seq<StatusView> {
    match sent {
        Some(status) => seq![status],
        None => Seq::empty(),
    }
}

/// What the channel carries after each of `offers` was offered in turn.
pub open spec fn offered_all(sent: Option<StatusView>, offers: Seq<StatusView>) -> Option<
    StatusView,
>
    decreases offers.len(),
{
    if offers.len() == 0 {
        sent
    } else {
        offered(offered_all(sent, offers.drop_last()), offers.last())
    }
}

/// Whatever is offered to the channel of an invocation, and however often,
/// the receiver sees at most one message, so at most one success or failure;
/// and it sees exactly one message once anything was offered.
pub proof fn lemma_at_most_one_verdict(offers: Seq<StatusView>)
    ensures
        observed(offered_all(None, offers)).len() <= 1,
        verdicts(observed(offered_all(None, offers))) <= 1,
        offers.len() > 0 ==> observed(offered_all(None, offers)) == seq![offers[0]],
    decreases offers.len(),
{
    let seen = observed(offered_all(None, offers));
    if offers.len() > 0 {
        lemma_at_most_one_verdict(offers.drop_last());
        if offers.len() > 1 {
            assert(offers.drop_last()[0] == offers[0]);
        }
        assert(seen == seq![offers[0]]);
        assert(seen.drop_last() =~= Seq::<StatusView>::empty());
        assert(verdicts(seen.drop_last()) == 0);
    }
}

/// The sending end of the status channel of one invocation.
pub struct StatusSender {
    sent: Option<Status>,
}

impl View for StatusSender {
    type V = Option<StatusView>;

    closed spec fn view(&self) -> Option<StatusView> {
        match self.sent {
            Some(status) => Some(status@),
            None => None,
        }
    }
}

impl StatusSender {
    /// A channel that carries nothing yet.
    pub fn new() -> (sender: Self)
        ensures
            sender@ == None::<StatusView>,
    {
        StatusSender { sent: None }
    }

    /// Offers `status` to the channel. It is taken, and `true` returned, if
    /// it is the first status offered; else it is dropped.
    pub fn send(&mut self, status: Status) -> (taken: bool)
        ensures
            final(self)@ == offered(old(self)@, status@),
            taken == (old(self)@ is None),
    {
        if self.sent.is_none() {
            self.sent = Some(status);
            true
        } else {
            false
        }
    }

    /// The status that the channel carries, if any.
    pub fn sent(&self) -> (status: Option<&Status>)
        ensures
            match status {
                Some(s) => self@ == Some(s@),
                None => self@ is None,
            },
    {
        self.sent.as_ref()
    }
}

/// How the run of a guest ended.
#[derive(Clone, Copy, Debug, PartialEq, Eq, Structural)]
pub enum RunOutcome {
    /// The entry point returned.
    Returned,
    /// The guest trapped, or the host failed while it ran.
    Trapped,
}

/// The status that the runner reports when the run of a guest has ended:
/// exit code 0 where the entry point returned, else the failure
/// `WASM module exited in error`.
pub fn exit_status(outcome: RunOutcome) -> (status: Status)
    ensures
        status@ == match outcome {
            RunOutcome::Returned => StatusView::Exited(0),
            RunOutcome::Trapped => StatusView::Failure(
                "WASM module exited in error".spec_bytes(),
            ),
        },
{
    match outcome {
        RunOutcome::Returned => Status::Exited(0),
        RunOutcome::Trapped => Status::Failure(
            slice_to_vec("WASM module exited in error".as_bytes()),
        ),
    }
}

/// What can go wrong in the host before a guest runs. Each of these ends
/// the invocation; the text says what happened.
#[derive(Clone, Debug, PartialEq, Eq)]
pub enum HostError {
    /// The module could not be compiled or loaded.
    CompileError(String),
    /// No instance of the module could be made.
    InstantiateError(String),
    /// The guest's view of the file system could not be set up.
    WasiSetupError(String),
}

/// The status that reports a failure of the host: a failure whose payload
/// is the text of the error.
pub fn host_failure(error: HostError) -> (status: Status)
    ensures
        status@ == StatusView::Failure(
            encode_utf8(
                match error {
                    HostError::CompileError(text) => text@,
                    HostError::InstantiateError(text) => text@,
                    HostError::WasiSetupError(text) => text@,
                },
            ),
        ),
{
    let text = match error {
        HostError::CompileError(text) => text,
        HostError::InstantiateError(text) => text,
        HostError::WasiSetupError(text) => text,
    };
    Status::Failure(slice_to_vec(text.as_str().as_bytes()))
}

} // verus!
