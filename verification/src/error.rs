//! The failure of a run: which step failed, the cause it wraps, and the text
//! it is shown as.

use vstd::prelude::*;
use vstd::std_specs::convert::FromSpecImpl;
use vstd::string::to_string_from_display_ensures;
use vstd::string::StringExecFns;

verus! {

/// Why a request failed.
pub enum RequestCause {
    /// The HTTP client reported an error: the request could not be sent, or
    /// the server answered with an error status.
    Client(reqwest::Error),
    /// The server answered with this status, which is no success and of which
    /// the HTTP client makes no error.
    Status(u16),
}

/// The failure of a run. Each variant names the step that failed and wraps
/// the cause that the step reported.
pub enum CustomError {
    /// The key file could not be read.
    FileReadError(std::io::Error),
    /// The request could not be sent, or the answer was no success.
    RequestError(RequestCause),
    /// The file could not be deleted.
    FileDeleteError(std::io::Error),
}

/// The cause inside a [`CustomError`], borrowed from it.
pub enum Cause<'a> {
    /// A failure of the operating system.
    System(&'a std::io::Error),
    /// A failure of the HTTP client.
    Transport(&'a reqwest::Error),
    /// An answer with this status, which is no success.
    Status(u16),
}

/// One decimal digit as text.
pub open spec fn digit_text(d: nat) -> Seq<char> {
    if d == 0 {
        "0"@
    } else if d == 1 {
        "1"@
    } else if d == 2 {
        "2"@
    } else if d == 3 {
        "3"@
    } else if d == 4 {
        "4"@
    } else if d == 5 {
        "5"@
    } else if d == 6 {
        "6"@
    } else if d == 7 {
        "7"@
    } else if d == 8 {
        "8"@
    } else {
        "9"@
    }
}

/// A number in decimal digits, without leading zeros.
pub open spec fn decimal(n: nat) -> Seq<char>
    decreases n,
{
    if n < 10 {
        digit_text(n)
    } else {
        decimal(n / 10) + digit_text(n % 10)
    }
}

/// The message of a status that is no success.
pub open spec fn status_message(code: u16) -> Seq<char> {
    "unsuccessful HTTP status "@ + decimal(code as nat)
}

/// The debug rendering of a failure whose display text is `shown`: that text,
/// a line break, and, where there is a cause, one more line that holds its
/// message.
pub open spec fn debug_rendering(shown: Seq<char>, cause: Option<Seq<char>>) -> Seq<char> {
    shown + "\n"@ + match cause {
        Some(message) => "This is caused by: "@ + message + "\n"@,
        None => Seq::empty(),
    }
}

/// The view of an optional string slice.
pub open spec fn opt_view(text: Option<&str>) -> Option<Seq<char>> {
    match text {
        Some(t) => Some(t@),
        None => None,
    }
}

fn digit(d: u16) -> (text: &'static str)
    requires
        d < 10,
    ensures
        text@ == digit_text(d as nat),
{
    if d == 0 {
        "0"
    } else if d == 1 {
        "1"
    } else if d == 2 {
        "2"
    } else if d == 3 {
        "3"
    } else if d == 4 {
        "4"
    } else if d == 5 {
        "5"
    } else if d == 6 {
        "6"
    } else if d == 7 {
        "7"
    } else if d == 8 {
        "8"
    } else {
        "9"
    }
}

fn decimal_text(n: u16) -> (text: String)
    ensures
        text@ == decimal(n as nat),
    decreases n,
{
    if n < 10 {
        String::from_str(digit(n))
    } else {
        let mut text = decimal_text(n / 10);
        text.append(digit(n % 10));
        text
    }
}

/// Builds the debug rendering from the display text and the cause's message.
pub fn render_debug(shown: &str, cause: Option<&str>) -> (text: String)
    ensures
        text@ == debug_rendering(shown@, opt_view(cause)),
{
    let mut text = String::from_str(shown);
    text.append("\n");
    if let Some(message) = cause {
        text.append("This is caused by: ");
        text.append(message);
        text.append("\n");
    }
    assert(text@ =~= debug_rendering(shown@, opt_view(cause)));
    text
}

impl<'a> Cause<'a> {
    /// Whether `message` is the text that the cause is displayed as: for a
    /// cause from outside, what its own display gives; for a status, the
    /// message of that status.
    pub open spec fn has_message(&self, message: String) -> bool {
        match self {
            Cause::System(e) => to_string_from_display_ensures::<std::io::Error>(e, message),
            Cause::Transport(e) => to_string_from_display_ensures::<reqwest::Error>(e, message),
            Cause::Status(code) => message@ == status_message(*code),
        }
    }

    /// The text that the cause is displayed as.
    pub fn message(&self) -> (text: String)
        ensures
            self.has_message(text),
    {
        match *self {
            Cause::System(e) => e.to_string(),
            Cause::Transport(e) => e.to_string(),
            Cause::Status(code) => {
                let mut text = String::from_str("unsuccessful HTTP status ");
                let digits = decimal_text(code);
                text.append(digits.as_str());
                text
            },
        }
    }
}

impl CustomError {
    /// The cause that the failure wraps.
    pub open spec fn cause(&self) -> Cause<'_> {
        match self {
            CustomError::FileReadError(e) => Cause::System(e),
            CustomError::RequestError(RequestCause::Client(e)) => Cause::Transport(e),
            CustomError::RequestError(RequestCause::Status(code)) => Cause::Status(*code),
            CustomError::FileDeleteError(e) => Cause::System(e),
        }
    }

    /// The fixed sentence that says which step failed. It is the display text
    /// of the failure.
    pub open spec fn sentence(&self) -> Seq<char> {
        match self {
            CustomError::FileReadError(_) => "failed to read the key file"@,
            CustomError::RequestError(_) => "failed to request on the url"@,
            CustomError::FileDeleteError(_) => "failed to delete the key file"@,
        }
    }

    /// The cause of the failure. Every failure has one.
    pub fn source(&self) -> (cause: Option<Cause<'_>>)
        ensures
            cause == Some(self.cause()),
    {
        match self {
            CustomError::FileReadError(e) => Some(Cause::System(e)),
            CustomError::RequestError(RequestCause::Client(e)) => Some(Cause::Transport(e)),
            CustomError::RequestError(RequestCause::Status(code)) => Some(Cause::Status(*code)),
            CustomError::FileDeleteError(e) => Some(Cause::System(e)),
        }
    }

    /// The display text of the failure: its sentence, and nothing else.
    pub fn display_text(&self) -> (text: String)
        ensures
            text@ == self.sentence(),
    {
        let sentence = match self {
            CustomError::FileReadError(_) => "failed to read the key file",
            CustomError::RequestError(_) => "failed to request on the url",
            CustomError::FileDeleteError(_) => "failed to delete the key file",
        };
        String::from_str(sentence)
    }

    /// The debug text of the failure: the sentence on the first line, and on
    /// the second line the message of the cause.
    pub fn debug_text(&self) -> (text: String)
        ensures
            exists|message: String| #[trigger]
                self.cause().has_message(message) && text@ == debug_rendering(
                    self.sentence(),
                    Some(message@),
                ),
    {
        let shown = self.display_text();
        match self.source() {
            Some(cause) => {
                let message = cause.message();
                let text = render_debug(shown.as_str(), Some(message.as_str()));
                assert(self.cause().has_message(message));
                text
            },
            None => render_debug(shown.as_str(), None),
        }
    }
}

impl From<reqwest::Error> for CustomError {
    /// An error of the HTTP client is a failure of the request.
    fn from(e: reqwest::Error) -> (failure: Self) {
        CustomError::RequestError(RequestCause::Client(e))
    }
}

impl FromSpecImpl<reqwest::Error> for CustomError {
    open spec fn obeys_from_spec() -> bool {
        true
    }

    open spec fn from_spec(e: reqwest::Error) -> Self {
        CustomError::RequestError(RequestCause::Client(e))
    }
}

} // verus!
