//! The failures that the client reports.

use vstd::prelude::*;
use vstd::string::StringExecFns;

verus! {

/// What can go wrong between the worker and the engine.
#[derive(Debug, PartialEq, Eq)]
pub enum Error {
    /// A call to the engine failed in transit, was answered with a status
    /// outside 2xx, or was answered with a body that is not the expected
    /// document.
    BackendRequestError(String),
    /// A topic was registered twice, or opened without a handler.
    TopicSubscriptionError(String),
    /// The transport could not be set up; the text is the transport's own
    /// description of the failure.
    ClientConfigurationError(String),
    /// The lifecycle of the client was violated.
    ClientError(String),
    /// A variable could not be read.
    VariableParseError,
}

/// The mathematical value of an [`Error`].
pub ghost enum ErrorView {
    BackendRequestError(Seq<char>),
    TopicSubscriptionError(Seq<char>),
    ClientConfigurationError(Seq<char>),
    ClientError(Seq<char>),
    VariableParseError,
}

impl View for Error {
    type V = ErrorView;

    open spec fn view(&self) -> ErrorView {
        match self {
            Error::BackendRequestError(m) => ErrorView::BackendRequestError(m@),
            Error::TopicSubscriptionError(m) => ErrorView::TopicSubscriptionError(m@),
            Error::ClientConfigurationError(m) => ErrorView::ClientConfigurationError(m@),
            Error::ClientError(m) => ErrorView::ClientError(m@),
            Error::VariableParseError => ErrorView::VariableParseError,
        }
    }
}

/// The value of an outcome that carries nothing where it is a success.
pub open spec fn unit_view(outcome: Result<(), Error>) -> Result<(), ErrorView> {
    match outcome {
        Ok(_) => Ok(()),
        Err(e) => Err(e@),
    }
}

/// The text that `{:?}` prints for a string slice: the slice between double
/// quotes, with the escapes of `char::escape_debug`.
pub uninterp spec fn debug_quoted(text: Seq<char>) -> Seq<char>;

/// Formats a string slice with std's `Debug` impl for `str`. The contract
/// only names the outcome; nothing is claimed of its shape.
#[verifier::external_body]
fn quote(text: &str) -> (quoted: String)
    ensures
        quoted@ == debug_quoted(text@),
{
    format!("{:?}", text)
}

/// The text of a variant that carries a message: the variant's name, then
/// the message in brackets.
pub open spec fn tagged(name: Seq<char>, body: Seq<char>) -> Seq<char> {
    name + "("@ + body + ")"@
}

fn tag(name: &str, body: &str) -> (text: String)
    ensures
        text@ == tagged(name@, body@),
{
    let mut text = String::from_str(name);
    text.append("(");
    text.append(body);
    text.append(")");
    text
}

impl Error {
    /// The text of this error: the variant's name followed, where the
    /// variant carries a message, by the message in brackets. Messages of
    /// the library are quoted as `{:?}` quotes a string; the description of
    /// a transport failure is given as it came.
    pub open spec fn text(self) -> Seq<char> {
        match self {
            Error::BackendRequestError(m) => tagged(
                "BackendRequestError"@,
                debug_quoted(m@),
            ),
            Error::TopicSubscriptionError(m) => tagged(
                "TopicSubscriptionError"@,
                debug_quoted(m@),
            ),
            Error::ClientConfigurationError(m) => tagged("ClientConfigurationError"@, m@),
            Error::ClientError(m) => tagged("ClientError"@, debug_quoted(m@)),
            Error::VariableParseError => "VariableParseError"@,
        }
    }

    /// Renders the error for a log line or a message to the user.
    pub fn to_string(&self) -> (text: String)
        ensures
            text@ == self.text(),
    {
        match self {
            Error::BackendRequestError(m) => {
                let quoted = quote(m.as_str());
                tag("BackendRequestError", quoted.as_str())
            },
            Error::TopicSubscriptionError(m) => {
                let quoted = quote(m.as_str());
                tag("TopicSubscriptionError", quoted.as_str())
            },
            Error::ClientConfigurationError(m) => tag("ClientConfigurationError", m.as_str()),
            Error::ClientError(m) => {
                let quoted = quote(m.as_str());
                tag("ClientError", quoted.as_str())
            },
            Error::VariableParseError => "VariableParseError".to_string(),
        }
    }
}

} // verus!
