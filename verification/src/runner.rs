//! The run itself, as a machine: a stage says what to do next, an event says
//! how that went, and [`advance`] decides whether the run goes on or ends.
//!
//! The caller performs each action and reports its result; nothing here
//! touches a file or the network.

use crate::error::{CustomError, RequestCause};
use crate::transport::{error_for_status, is_error_status, status, status_error_of, status_of};
use vstd::prelude::*;
use vstd::string::StringExecFns;

verus! {

/// The step that a run is waiting for.
#[derive(Clone, Copy, PartialEq, Eq, Structural, Debug)]
pub enum Stage {
    /// The key file is to be read.
    ReadKey,
    /// The request is to be sent.
    SendRequest,
    /// The file is to be deleted.
    DeleteFile,
}

/// What the caller is asked to do at a stage.
#[derive(Debug)]
pub enum Action {
    /// Read the file of this name as text.
    ReadFile(&'static str),
    /// Send an HTTP GET to this URL.
    Get(String),
    /// Delete the file of this name.
    RemoveFile(&'static str),
}

/// An [`Action`] with its texts as sequences of characters.
pub enum ActionView {
    ReadFile(Seq<char>),
    Get(Seq<char>),
    RemoveFile(Seq<char>),
}

impl View for Action {
    type V = ActionView;

    open spec fn view(&self) -> ActionView {
        match self {
            Action::ReadFile(name) => ActionView::ReadFile(name@),
            Action::Get(url) => ActionView::Get(url@),
            Action::RemoveFile(name) => ActionView::RemoveFile(name@),
        }
    }
}

/// How a step went, as the caller reports it.
pub enum Event {
    /// The key file was read, or could not be. The run asks only whether it
    /// was read: the address of the request does not depend on the key.
    KeyRead(Result<String, std::io::Error>),
    /// The request was answered, or could not be sent.
    Responded(Result<reqwest::blocking::Response, reqwest::Error>),
    /// The file was deleted, or could not be.
    Removed(Result<(), std::io::Error>),
}

/// Where a run stands after an event.
pub enum Progress {
    /// The run goes on with this stage.
    Continue(Stage),
    /// The run is over, with this result.
    Finished(Result<(), CustomError>),
}

/// The name of the key file.
pub open spec fn key_file() -> Seq<char> {
    "sample-key"@
}

/// The name of the file that the run deletes at its end.
pub open spec fn delete_target() -> Seq<char> {
    "sample-file"@
}

/// The address below which the keys are served.
pub open spec fn endpoint_base() -> Seq<char> {
    "https://httpbin.dev/key/"@
}

/// The address that the run requests.
pub open spec fn request_target() -> Seq<char> {
    "https://httpbin.dev/key/sample"@
}

/// The address of the key named `segment`.
pub fn endpoint(segment: &str) -> (url: String)
    ensures
        url@ == endpoint_base() + segment@,
{
    let mut url = String::from_str("https://httpbin.dev/key/");
    url.append(segment);
    url
}

/// The address that the run requests: that of the key `sample`.
pub fn request_url() -> (url: String)
    ensures
        url@ == request_target(),
{
    let url = endpoint("sample");
    proof {
        reveal_strlit("https://httpbin.dev/key/");
        reveal_strlit("sample");
        reveal_strlit("https://httpbin.dev/key/sample");
        assert(url@ =~= request_target());
    }
    url
}

impl Stage {
    /// The action that belongs to a stage.
    pub open spec fn spec_action(self) -> ActionView {
        match self {
            Stage::ReadKey => ActionView::ReadFile(key_file()),
            Stage::SendRequest => ActionView::Get(request_target()),
            Stage::DeleteFile => ActionView::RemoveFile(delete_target()),
        }
    }

    /// The stage at which every run starts.
    pub fn first() -> (stage: Stage)
        ensures
            stage == Stage::ReadKey,
    {
        Stage::ReadKey
    }

    /// What the caller is to do at this stage.
    pub fn action(self) -> (action: Action)
        ensures
            action@ == self.spec_action(),
    {
        match self {
            Stage::ReadKey => Action::ReadFile("sample-key"),
            Stage::SendRequest => Action::Get(request_url()),
            Stage::DeleteFile => Action::RemoveFile("sample-file"),
        }
    }
}

/// Whether `event` reports on the step that `stage` waits for.
pub open spec fn answers(event: Event, stage: Stage) -> bool {
    match (stage, event) {
        (Stage::ReadKey, Event::KeyRead(_)) => true,
        (Stage::SendRequest, Event::Responded(_)) => true,
        (Stage::DeleteFile, Event::Removed(_)) => true,
        _ => false,
    }
}

/// A status is a success when it lies between 200 and 299.
pub open spec fn is_success_status(code: u16) -> bool {
    200 <= code <= 299
}

/// Where the run stands once a response with the status `code` has gone
/// through the status check of the HTTP client, with the outcome `checked`.
///
/// An error of the check is the cause of the failure. Where the check let the
/// response pass, the run goes on only after a success status; any other
/// status is itself the cause.
pub open spec fn spec_after_status_check(
    code: u16,
    checked: Result<reqwest::blocking::Response, reqwest::Error>,
) -> Progress {
    match checked {
        Err(e) => Progress::Finished(Err(CustomError::RequestError(RequestCause::Client(e)))),
        Ok(_) => if is_success_status(code) {
            Progress::Continue(Stage::DeleteFile)
        } else {
            Progress::Finished(Err(CustomError::RequestError(RequestCause::Status(code))))
        },
    }
}

/// Where a run stands after a response: it goes on to the deletion exactly
/// after a success status. An error status fails the request with the error
/// that the HTTP client makes of the response, any other status with the
/// status itself.
pub open spec fn spec_after_response(response: reqwest::blocking::Response) -> Progress {
    let code = status_of(response);
    if is_success_status(code) {
        Progress::Continue(Stage::DeleteFile)
    } else if is_error_status(code) {
        Progress::Finished(
            Err(CustomError::RequestError(RequestCause::Client(status_error_of(response)))),
        )
    } else {
        Progress::Finished(Err(CustomError::RequestError(RequestCause::Status(code))))
    }
}

/// The rule of the run: where a run at `stage` stands after `event`.
///
/// A step that failed ends the run with the failure of that step, which wraps
/// the cause that was reported. A step that went well leads to the next stage,
/// and the last one to success. A response leads on only with a success
/// status. An event that does not answer the stage changes nothing.
pub open spec fn spec_advance(stage: Stage, event: Event) -> Progress {
    if !answers(event, stage) {
        Progress::Continue(stage)
    } else {
        match event {
            Event::KeyRead(Ok(_)) => Progress::Continue(Stage::SendRequest),
            Event::KeyRead(Err(e)) => Progress::Finished(Err(CustomError::FileReadError(e))),
            Event::Responded(Err(e)) => Progress::Finished(
                Err(CustomError::RequestError(RequestCause::Client(e))),
            ),
            Event::Responded(Ok(response)) => spec_after_response(response),
            Event::Removed(Ok(_)) => Progress::Finished(Ok(())),
            Event::Removed(Err(e)) => Progress::Finished(Err(CustomError::FileDeleteError(e))),
        }
    }
}

/// Decides from the status of a response and from the outcome of its status
/// check whether the run goes on.
pub fn after_status_check(
    code: u16,
    checked: Result<reqwest::blocking::Response, reqwest::Error>,
) -> (progress: Progress)
    ensures
        progress == spec_after_status_check(code, checked),
{
    match checked {
        Err(e) => Progress::Finished(Err(CustomError::from(e))),
        Ok(_) => if 200 <= code && code <= 299 {
            Progress::Continue(Stage::DeleteFile)
        } else {
            Progress::Finished(Err(CustomError::RequestError(RequestCause::Status(code))))
        },
    }
}

/// Takes the run one step further: from the stage it waits at and the event
/// that the caller reports to the next stage, or to the end of the run.
pub fn advance(stage: Stage, event: Event) -> (progress: Progress)
    ensures
        progress == spec_advance(stage, event),
{
    match (stage, event) {
        (Stage::ReadKey, Event::KeyRead(Ok(_))) => Progress::Continue(Stage::SendRequest),
        (Stage::ReadKey, Event::KeyRead(Err(e))) => Progress::Finished(
            Err(CustomError::FileReadError(e)),
        ),
        (Stage::SendRequest, Event::Responded(Err(e))) => Progress::Finished(
            Err(CustomError::from(e)),
        ),
        (Stage::SendRequest, Event::Responded(Ok(response))) => {
            let code = status(&response);
            after_status_check(code, error_for_status(response))
        },
        (Stage::DeleteFile, Event::Removed(Ok(_))) => Progress::Finished(Ok(())),
        (Stage::DeleteFile, Event::Removed(Err(e))) => Progress::Finished(
            Err(CustomError::FileDeleteError(e)),
        ),
        (stage, _) => Progress::Continue(stage),
    }
}

} // verus!
