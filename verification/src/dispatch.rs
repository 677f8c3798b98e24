//! The command dispatcher and the per-line step of a connection handler.
//!
//! A decoded command first mutates the shared content value (a `show`
//! writes its content; a `hide` touches nothing), and then asks the caller
//! to drive the outside collaborators: publish one content-update
//! notification to the event sink and make the window visible and focused,
//! in that order, for a `show`; hide the window for a `hide`. The caller
//! reports how the collaborators fared, and the response for the client
//! follows from that outcome alone. A collaborator failure is reported,
//! never retried, and the content already written stays written.

use vstd::prelude::*;
use vstd::string::StringExecFns;
use crate::codec::{
    decode, decode_error_message, decode_error_text, decode_spec, Command, CommandV, Response,
    ResponseV, Status,
};
use crate::store::StateStore;
use crate::text::{trim, trim_spec, blank, lemma_blank_trims_to_empty};

verus! {

/// The payload of the content-update notification that a `show` sends to
/// the event sink: the new content and the timer flag of the request.
#[derive(Debug, PartialEq)]
pub struct ShowEvent {
    pub content: String,
    pub timer: bool,
}

/// The mathematical view of a notification payload.
#[verifier::ext_equal]
pub struct ShowEventV {
    pub content: Seq<char>,
    pub timer: bool,
}

impl View for ShowEvent {
    type V = ShowEventV;

    open spec fn view(&self) -> ShowEventV {
        ShowEventV { content: self.content@, timer: self.timer }
    }
}

/// What the caller must do after a command has been dispatched: for a
/// `show`, publish the payload to the event sink and then show and focus
/// the window; for a `hide`, hide the window.
#[derive(Debug, PartialEq)]
pub enum Action {
    ShowWindow(ShowEvent),
    HideWindow,
}

/// The mathematical view of an action.
#[verifier::ext_equal]
pub enum ActionV {
    ShowWindow(ShowEventV),
    HideWindow,
}

impl View for Action {
    type V = ActionV;

    open spec fn view(&self) -> ActionV {
        match self {
            Action::ShowWindow(e) => ActionV::ShowWindow(e@),
            Action::HideWindow => ActionV::HideWindow,
        }
    }
}

/// Why the collaborators could not carry an action out: the target window
/// could not be resolved, or a collaborator call failed with the given
/// description.
#[derive(Debug, PartialEq)]
pub enum DispatchError {
    WindowUnavailable,
    CollaboratorFailure(String),
}

/// The mathematical view of a dispatch failure.
#[verifier::ext_equal]
pub enum DispatchErrorV {
    WindowUnavailable,
    CollaboratorFailure(Seq<char>),
}

impl View for DispatchError {
    type V = DispatchErrorV;

    open spec fn view(&self) -> DispatchErrorV {
        match self {
            DispatchError::WindowUnavailable => DispatchErrorV::WindowUnavailable,
            DispatchError::CollaboratorFailure(m) => DispatchErrorV::CollaboratorFailure(m@),
        }
    }
}

/// The shared content after a command: a `show` replaces it with the
/// submitted content, last write wins; a `hide` leaves it as it is.
pub open spec fn store_after(store: Seq<char>, c: CommandV) -> Seq<char> {
    match c {
        CommandV::Show { content, .. } => content,
        CommandV::Hide => store,
    }
}

/// The action that a command asks of the collaborators.
pub open spec fn action_for(c: CommandV) -> ActionV {
    match c {
        CommandV::Show { content, timer } => ActionV::ShowWindow(ShowEventV { content, timer }),
        CommandV::Hide => ActionV::HideWindow,
    }
}

/// Dispatches one decoded command against the shared content: mutates it
/// as `store_after` describes and returns the action, as `action_for`
/// describes, that the caller must now carry out. The mutation is not
/// rolled back if the action later fails.
pub fn dispatch_step(store: &mut StateStore, cmd: Command) -> (a: Action)
    ensures
        final(store)@ == store_after(old(store)@, cmd@),
        a@ == action_for(cmd@),
{
    match cmd {
        Command::Show { content, timer } => {
            store.write(content.clone());
            Action::ShowWindow(ShowEvent { content, timer })
        },
        Command::Hide => Action::HideWindow,
    }
}

/// The description of a dispatch failure as it reaches the client.
pub open spec fn dispatch_error_text(e: DispatchErrorV) -> Seq<char> {
    match e {
        DispatchErrorV::WindowUnavailable => "Main window not found"@,
        DispatchErrorV::CollaboratorFailure(m) => m,
    }
}

/// The view of a collaborator outcome.
pub open spec fn outcome_view(outcome: Result<(), DispatchError>) -> Result<(), DispatchErrorV> {
    match outcome {
        Ok(()) => Ok(()),
        Err(e) => Err(e@),
    }
}

/// The response owed for an action and the outcome of carrying it out: a
/// success response with the fixed message of the action's command when
/// the collaborators succeeded, an error response naming the failure
/// otherwise.
pub open spec fn response_spec(a: ActionV, outcome: Result<(), DispatchErrorV>) -> ResponseV {
    match outcome {
        Ok(()) => match a {
            ActionV::ShowWindow(_) => ResponseV {
                status: Status::Success,
                message: "Window shown with content"@,
            },
            ActionV::HideWindow => ResponseV { status: Status::Success, message: "Window hidden"@ },
        },
        Err(e) => match a {
            ActionV::ShowWindow(_) => ResponseV {
                status: Status::Error,
                message: "Failed to show window: "@ + dispatch_error_text(e),
            },
            ActionV::HideWindow => ResponseV {
                status: Status::Error,
                message: "Failed to hide window: "@ + dispatch_error_text(e),
            },
        },
    }
}

/// The description of a dispatch failure, as one text value.
fn dispatch_error_message(e: &DispatchError) -> (r: String)
    ensures
        r@ == dispatch_error_text(e@),
{
    match e {
        DispatchError::WindowUnavailable => String::from_str("Main window not found"),
        DispatchError::CollaboratorFailure(m) => m.clone(),
    }
}

/// Builds the response owed for an action and its outcome, as
/// `response_spec` describes.
pub fn action_response(a: &Action, outcome: Result<(), DispatchError>) -> (r: Response)
    ensures
        r@ == response_spec(a@, outcome_view(outcome)),
{
    match outcome {
        Ok(()) => match a {
            Action::ShowWindow(_) => Response {
                status: Status::Success,
                message: String::from_str("Window shown with content"),
            },
            Action::HideWindow => Response {
                status: Status::Success,
                message: String::from_str("Window hidden"),
            },
        },
        Err(e) => {
            let mut message = match a {
                Action::ShowWindow(_) => String::from_str("Failed to show window: "),
                Action::HideWindow => String::from_str("Failed to hide window: "),
            };
            let detail = dispatch_error_message(&e);
            message.append(detail.as_str());
            Response { status: Status::Error, message }
        },
    }
}

/// What a connection handler does with one line of input.
#[derive(Debug, PartialEq)]
pub enum LinePlan {
    /// The line is blank: no response is owed.
    Skip,
    /// The line did not decode: reply with this error response and do not
    /// dispatch anything.
    Reply(Response),
    /// The line decoded: dispatch this command.
    Dispatch(Command),
}

/// The mathematical view of a line plan.
#[verifier::ext_equal]
pub enum LinePlanV {
    Skip,
    Reply(ResponseV),
    Dispatch(CommandV),
}

impl View for LinePlan {
    type V = LinePlanV;

    open spec fn view(&self) -> LinePlanV {
        match self {
            LinePlan::Skip => LinePlanV::Skip,
            LinePlan::Reply(r) => LinePlanV::Reply(r@),
            LinePlan::Dispatch(c) => LinePlanV::Dispatch(c@),
        }
    }
}

/// What one raw input line asks for: a line that is empty after trimming
/// is skipped without a response; a line that fails to decode draws
/// exactly one error response and dispatches nothing; a line that decodes
/// dispatches its command.
pub open spec fn plan_line_spec(line: Seq<char>) -> LinePlanV {
    let trimmed = trim_spec(line);
    if trimmed.len() == 0 {
        LinePlanV::Skip
    } else {
        match decode_spec(trimmed) {
            Ok(c) => LinePlanV::Dispatch(c),
            Err(e) => LinePlanV::Reply(
                ResponseV { status: Status::Error, message: decode_error_text(e) },
            ),
        }
    }
}

/// Plans one raw input line, as `plan_line_spec` describes.
pub fn plan_line(line: &str) -> (p: LinePlan)
    ensures
        p@ == plan_line_spec(line@),
{
    let trimmed = trim(line);
    if trimmed.unicode_len() == 0 {
        return LinePlan::Skip;
    }
    match decode(trimmed) {
        Ok(c) => LinePlan::Dispatch(c),
        Err(e) => LinePlan::Reply(
            Response { status: Status::Error, message: decode_error_message(e) },
        ),
    }
}

/// The name of the event under which content updates reach the event
/// sink's observers.
pub fn content_event_name() -> (r: &'static str)
    ensures
        r@ == "content-updated"@,
{
    "content-updated"
}

/// A well-formed `show` leaves exactly its content in the store, and its
/// action carries exactly one notification payload, with that same content
/// and timer flag, to publish before the window is shown.
pub proof fn lemma_show_updates_store_and_notifies(
    store: Seq<char>,
    content: Seq<char>,
    timer: bool,
)
    ensures
        store_after(store, CommandV::Show { content, timer }) == content,
        action_for(CommandV::Show { content, timer }) == ActionV::ShowWindow(
            ShowEventV { content, timer },
        ),
        response_spec(action_for(CommandV::Show { content, timer }), Ok(())).status
            == Status::Success,
{
}

/// A `hide` never mutates the store.
pub proof fn lemma_hide_preserves_store(store: Seq<char>)
    ensures
        store_after(store, CommandV::Hide) == store,
{
}

/// A line that is empty or all white space draws no response at all.
pub proof fn lemma_blank_line_skipped(line: Seq<char>)
    requires
        blank(line),
    ensures
        plan_line_spec(line) == LinePlanV::Skip,
{
    lemma_blank_trims_to_empty(line);
}

/// A malformed line draws exactly one response, an error response naming
/// the decode failure, and dispatches nothing: the store is untouched and
/// no collaborator is invoked.
pub proof fn lemma_malformed_line_one_error_reply(line: Seq<char>)
    requires
        trim_spec(line).len() > 0,
        decode_spec(trim_spec(line)) is Err,
    ensures
        plan_line_spec(line) == LinePlanV::Reply(
            ResponseV {
                status: Status::Error,
                message: decode_error_text(decode_spec(trim_spec(line))->Err_0),
            },
        ),
        !(plan_line_spec(line) is Dispatch),
        !(plan_line_spec(line) is Skip),
{
}

/// Two `show` requests racing on different connections serialize on the
/// store's mutual exclusion: whichever order their dispatches take, the
/// store ends up holding exactly one of the two submitted contents, never
/// a mix, and each request is owed its own success response when its
/// collaborators succeed.
pub proof fn lemma_concurrent_shows_last_write_wins(
    store: Seq<char>,
    first: CommandV,
    second: CommandV,
    first_wins: bool,
)
    requires
        first matches CommandV::Show { .. },
        second matches CommandV::Show { .. },
    ensures
        ({
            let end = if first_wins {
                store_after(store_after(store, second), first)
            } else {
                store_after(store_after(store, first), second)
            };
            end == store_after(store, first) || end == store_after(store, second)
        }),
        response_spec(action_for(first), Ok(())).status == Status::Success,
        response_spec(action_for(second), Ok(())).status == Status::Success,
{
}

} // verus!
