//! The ways in which a run can go wrong, and the text that reports each.

use vstd::prelude::*;
use vstd::string::*;

verus! {

/// A fault of the pipeline. `RequestError` and `ConfigError` keep a run from
/// starting; the others are reported and the run goes on.
#[derive(Debug, Clone, PartialEq, Eq)]
pub enum AppError {
    /// The connection to the endpoint could not be established.
    RequestError(String),
    /// The transport handed over something that is no frame.
    EventStreamError(String),
    /// A payload did not decode: the payload, and why it was turned down.
    JsonError { payload: String, reason: String },
    /// The configuration cannot be used.
    ConfigError(String),
    /// A line of output could not be written.
    SinkError(String),
}

pub enum AppErrorView {
    RequestError(Seq<char>),
    EventStreamError(Seq<char>),
    JsonError { payload: Seq<char>, reason: Seq<char> },
    ConfigError(Seq<char>),
    SinkError(Seq<char>),
}

impl View for AppError {
    type V = AppErrorView;

    open spec fn view(&self) -> AppErrorView {
        match self {
            AppError::RequestError(cause) => AppErrorView::RequestError(cause@),
            AppError::EventStreamError(cause) => AppErrorView::EventStreamError(cause@),
            AppError::JsonError { payload, reason } => AppErrorView::JsonError {
                payload: payload@,
                reason: reason@,
            },
            AppError::ConfigError(cause) => AppErrorView::ConfigError(cause@),
            AppError::SinkError(cause) => AppErrorView::SinkError(cause@),
        }
    }
}

/// The message of an error: its kind, then its cause.
pub open spec fn message_of(error: AppErrorView) -> Seq<char> {
    match error {
        AppErrorView::RequestError(cause) => "HTTP request failed: "@ + cause,
        AppErrorView::EventStreamError(cause) => "Event stream error: "@ + cause,
        AppErrorView::JsonError { payload, reason } => "JSON parsing error: "@ + reason,
        AppErrorView::ConfigError(cause) => "Configuration error: "@ + cause,
        AppErrorView::SinkError(cause) => "Output error: "@ + cause,
    }
}

/// Whether an error keeps the run from starting, and so fails the program.
pub open spec fn is_fatal(error: AppErrorView) -> bool {
    error is RequestError || error is ConfigError
}

/// The diagnostic line that reports an error. A fault met while the stream is
/// read is reported as a fault of the stream, a fatal one as a fault of the
/// whole program.
pub open spec fn diagnostic_of(error: AppErrorView) -> Seq<char> {
    if is_fatal(error) {
        "Application error: "@ + message_of(error)
    } else if error is JsonError {
        "Event stream error: "@ + message_of(error)
    } else {
        message_of(error)
    }
}

impl AppError {
    /// The message of this error.
    pub fn message(&self) -> (r: String)
        ensures
            r@ == message_of(self@),
    {
        match self {
            AppError::RequestError(cause) => {
                let mut text = String::from_str("HTTP request failed: ");
                text.append(cause.as_str());
                text
            },
            AppError::EventStreamError(cause) => {
                let mut text = String::from_str("Event stream error: ");
                text.append(cause.as_str());
                text
            },
            AppError::JsonError { payload: _, reason } => {
                let mut text = String::from_str("JSON parsing error: ");
                text.append(reason.as_str());
                text
            },
            AppError::ConfigError(cause) => {
                let mut text = String::from_str("Configuration error: ");
                text.append(cause.as_str());
                text
            },
            AppError::SinkError(cause) => {
                let mut text = String::from_str("Output error: ");
                text.append(cause.as_str());
                text
            },
        }
    }

    /// Whether this error keeps the run from starting.
    pub fn fatal(&self) -> (r: bool)
        ensures
            r == is_fatal(self@),
    {
        match self {
            AppError::RequestError(_) => true,
            AppError::ConfigError(_) => true,
            _ => false,
        }
    }

    /// The diagnostic line that reports this error.
    pub fn diagnostic(&self) -> (r: String)
        ensures
            r@ == diagnostic_of(self@),
    {
        let message = self.message();
        if self.fatal() {
            let mut text = String::from_str("Application error: ");
            text.append(message.as_str());
            text
        } else {
            match self {
                AppError::JsonError { .. } => {
                    let mut text = String::from_str("Event stream error: ");
                    text.append(message.as_str());
                    text
                },
                _ => message,
            }
        }
    }
}

} // verus!
