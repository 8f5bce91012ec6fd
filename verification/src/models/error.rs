use vstd::prelude::*;
use vstd::string::StringExecFns;

verus! {

/// An error as mathematical values.
pub enum ErrorView {
    StorageOpen { path: Seq<char> },
    Schema { detail: Seq<char> },
    Parse { reason: Seq<char>, payload: Seq<char> },
    ChannelClosed,
}

/// What can go wrong during a run.
#[derive(Debug, PartialEq, Eq)]
pub enum Error {
    /// The storage at `path` is missing or cannot be read.
    StorageOpen { path: String },
    /// The storage lacks the expected table or columns.
    Schema { detail: String },
    /// The payload of a row is not a routing record.
    Parse { reason: String, payload: String },
    /// A state was sent on a channel whose receiving side has gone.
    ChannelClosed,
}

impl View for Error {
    type V = ErrorView;

    open spec fn view(&self) -> ErrorView {
        match self {
            Error::StorageOpen { path } => ErrorView::StorageOpen { path: path@ },
            Error::Schema { detail } => ErrorView::Schema { detail: detail@ },
            Error::Parse { reason, payload } => ErrorView::Parse {
                reason: reason@,
                payload: payload@,
            },
            Error::ChannelClosed => ErrorView::ChannelClosed,
        }
    }
}

impl Clone for Error {
    /// An error of the same kind with the same texts.
    fn clone(&self) -> (copy: Error)
        ensures
            copy@ == self@,
    {
        match self {
            Error::StorageOpen { path } => Error::StorageOpen { path: path.clone() },
            Error::Schema { detail } => Error::Schema { detail: detail.clone() },
            Error::Parse { reason, payload } => Error::Parse {
                reason: reason.clone(),
                payload: payload.clone(),
            },
            Error::ChannelClosed => Error::ChannelClosed,
        }
    }
}

/// Whether an error ends the run. Only a closed channel does not: it is met
/// while the run is being torn down, and the state is dropped.
pub open spec fn fatal(error: ErrorView) -> bool {
    !(error is ChannelClosed)
}

/// The message with which an error is reported.
pub open spec fn error_text(error: ErrorView) -> Seq<char> {
    match error {
        ErrorView::StorageOpen { path } => "Failed to open database at "@ + path,
        ErrorView::Schema { detail } => detail,
        ErrorView::Parse { reason, payload } => "Error parsing JSON data: "@ + reason
            + "\nData: "@ + payload,
        ErrorView::ChannelClosed => "channel closed"@,
    }
}

impl Error {
    /// Tells whether this error ends the run.
    pub fn is_fatal(&self) -> (result: bool)
        ensures
            result == fatal(self@),
    {
        match self {
            Error::ChannelClosed => false,
            _ => true,
        }
    }

    /// The message with which this error is reported.
    pub fn to_string(&self) -> (text: String)
        ensures
            text@ == error_text(self@),
    {
        let mut text = String::new();
        match self {
            Error::StorageOpen { path } => {
                text.append("Failed to open database at ");
                text.append(path.as_str());
            },
            Error::Schema { detail } => {
                text.append(detail.as_str());
            },
            Error::Parse { reason, payload } => {
                text.append("Error parsing JSON data: ");
                text.append(reason.as_str());
                text.append("\nData: ");
                text.append(payload.as_str());
            },
            Error::ChannelClosed => {
                text.append("channel closed");
            },
        }
        assert(text@ =~= error_text(self@));
        text
    }
}

} // verus!
