//! What holds of every run and of every failure, proved from the rule of
//! [`spec_advance`] and from the renderings.

use crate::error::{debug_rendering, CustomError, RequestCause};
use crate::runner::{is_success_status, spec_advance, spec_after_response, Event, Progress, Stage};
use crate::transport::status_of;
use vstd::prelude::*;

verus! {

/// How a whole run ends: the result of a run whose steps report `read`,
/// `answer` and `removal`, each when the run reaches it.
///
/// The first step that fails decides, and the steps after it are not reached;
/// the run succeeds only when all three went well.
pub open spec fn run_result(
    read: Result<String, std::io::Error>,
    answer: Result<reqwest::blocking::Response, reqwest::Error>,
    removal: Result<(), std::io::Error>,
) -> Result<(), CustomError> {
    match read {
        Err(e) => Err(CustomError::FileReadError(e)),
        Ok(_) => match answer {
            Err(e) => Err(CustomError::RequestError(RequestCause::Client(e))),
            Ok(response) => match spec_after_response(response) {
                Progress::Finished(failed) => failed,
                Progress::Continue(_) => match removal {
                    Err(e) => Err(CustomError::FileDeleteError(e)),
                    Ok(_) => Ok(()),
                },
            },
        },
    }
}

/// Every run ends after at most three steps, and ends as [`run_result`] says.
///
/// The steps are taken in order: the request only after the key was read, the
/// deletion only after the request went well. A run that is over takes no
/// further step.
pub proof fn lemma_run_ends(
    read: Result<String, std::io::Error>,
    answer: Result<reqwest::blocking::Response, reqwest::Error>,
    removal: Result<(), std::io::Error>,
)
    ensures
        ({
            let first = spec_advance(Stage::ReadKey, Event::KeyRead(read));
            let second = spec_advance(Stage::SendRequest, Event::Responded(answer));
            let third = spec_advance(Stage::DeleteFile, Event::Removed(removal));
            let result = run_result(read, answer, removal);
            &&& first == Progress::Finished(result) || first == Progress::Continue(
                Stage::SendRequest,
            )
            &&& first is Continue ==> second == Progress::Finished(result) || second
                == Progress::Continue(Stage::DeleteFile)
            &&& first is Continue && second is Continue ==> third == Progress::Finished(result)
        }),
{
}

/// A run succeeds exactly when the key was read, the request was answered
/// with a success status, and the file was deleted.
pub proof fn lemma_run_succeeds_iff(
    read: Result<String, std::io::Error>,
    answer: Result<reqwest::blocking::Response, reqwest::Error>,
    removal: Result<(), std::io::Error>,
)
    ensures
        run_result(read, answer, removal) is Ok <==> read is Ok && (answer matches Ok(response)
            && is_success_status(status_of(response))) && removal is Ok,
{
}

/// An answer whose status is no success fails the request, whatever else the
/// run is told after the key was read.
pub proof fn lemma_unsuccessful_status_fails_request(
    key: String,
    response: reqwest::blocking::Response,
    removal: Result<(), std::io::Error>,
)
    requires
        !is_success_status(status_of(response)),
    ensures
        run_result(Ok(key), Ok(response), removal) matches Err(CustomError::RequestError(_)),
{
}

/// A run succeeds only at its last stage, on the report that the file was
/// deleted: no other stage and no other event ends a run with success.
pub proof fn lemma_success_needs_every_step(stage: Stage, event: Event)
    requires
        spec_advance(stage, event) matches Progress::Finished(Ok(_)),
    ensures
        stage == Stage::DeleteFile,
        event matches Event::Removed(Ok(_)),
{
}

/// A run that ends with a failure wraps the very cause that the failing step
/// reported, in the variant of that step.
pub proof fn lemma_failure_keeps_cause(
    read: Result<String, std::io::Error>,
    answer: Result<reqwest::blocking::Response, reqwest::Error>,
    removal: Result<(), std::io::Error>,
)
    ensures
        ({
            let result = run_result(read, answer, removal);
            &&& read matches Err(e) ==> result == Err::<(), CustomError>(
                CustomError::FileReadError(e),
            )
            &&& read is Ok ==> (answer matches Err(e) ==> result == Err::<(), CustomError>(
                CustomError::RequestError(RequestCause::Client(e)),
            ))
            &&& result matches Err(CustomError::FileReadError(e)) ==> read == Err::<
                String,
                std::io::Error,
            >(e)
            &&& result matches Err(CustomError::FileDeleteError(e)) ==> removal == Err::<
                (),
                std::io::Error,
            >(e)
            &&& result matches Err(CustomError::RequestError(RequestCause::Status(code)))
                ==> (answer matches Ok(response) && status_of(response) == code)
        }),
{
}

/// Running the task again does not depend on the run before it. Whatever the
/// first run was told, a second run that reads its key, is answered with a
/// success status and then cannot delete the file ends with the delete
/// failure that wraps the cause of that.
pub proof fn lemma_second_run_reports_failed_removal(
    first_read: Result<String, std::io::Error>,
    first_answer: Result<reqwest::blocking::Response, reqwest::Error>,
    first_removal: Result<(), std::io::Error>,
    key: String,
    response: reqwest::blocking::Response,
    cause: std::io::Error,
)
    requires
        is_success_status(status_of(response)),
    ensures
        run_result(Ok(key), Ok(response), Err(cause)) == Err::<(), CustomError>(
            CustomError::FileDeleteError(cause),
        ),
{
}

/// The display text names the step that failed: it is one of three fixed
/// sentences, one for each variant, and no two variants share a sentence.
pub proof fn lemma_display_names_the_step(failure: CustomError)
    ensures
        failure is FileReadError <==> failure.sentence() == "failed to read the key file"@,
        failure is RequestError <==> failure.sentence() == "failed to request on the url"@,
        failure is FileDeleteError <==> failure.sentence() == "failed to delete the key file"@,
{
    reveal_strlit("failed to read the key file");
    reveal_strlit("failed to request on the url");
    reveal_strlit("failed to delete the key file");
    assert("failed to read the key file"@.len() == 27);
    assert("failed to request on the url"@.len() == 28);
    assert("failed to delete the key file"@.len() == 29);
}

/// The debug text has two lines: the display text, and the line that holds
/// the message of the cause.
pub proof fn lemma_debug_extends_display(failure: CustomError, message: Seq<char>)
    ensures
        debug_rendering(failure.sentence(), Some(message)) == failure.sentence()
            + "\nThis is caused by: "@ + message + "\n"@,
        failure.sentence().is_prefix_of(debug_rendering(failure.sentence(), Some(message))),
{
    reveal_strlit("\n");
    reveal_strlit("This is caused by: ");
    reveal_strlit("\nThis is caused by: ");
    assert(debug_rendering(failure.sentence(), Some(message)) =~= failure.sentence()
        + "\nThis is caused by: "@ + message + "\n"@);
}

} // verus!
