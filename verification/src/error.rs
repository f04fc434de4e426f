//! Application errors: each carries a message for the user, the technical
//! cause and a hint on how to recover.

use vstd::prelude::*;
use vstd::string::*;

verus! {

/// Application-wide error type.
#[derive(Debug)]
pub enum AppError {
    /// Reading or writing the state file failed.
    StateIo { message: String, cause: String, recovery_hint: &'static str },
    /// The state could not be serialized.
    StateSerialization { message: String, cause: String, recovery_hint: &'static str },
    /// Icon data could not be loaded or processed.
    IconProcessing { message: String, cause: String, recovery_hint: &'static str },
    /// The input simulation resource could not be acquired.
    InputSimulation { message: String, cause: String, recovery_hint: &'static str },
}

/// The text `label: message (cause: cause, hint: hint)`.
pub open spec fn error_text(
    label: Seq<char>,
    message: Seq<char>,
    cause: Seq<char>,
    hint: Seq<char>,
) -> Seq<char> {
    label + ": "@ + message + " (cause: "@ + cause + ", hint: "@ + hint + ")"@
}

fn render(label: &str, message: &str, cause: &str, hint: &str) -> (text: String)
    ensures
        text@ == error_text(label@, message@, cause@, hint@),
{
    let mut text = String::from_str(label);
    text.append(": ");
    text.append(message);
    text.append(" (cause: ");
    text.append(cause);
    text.append(", hint: ");
    text.append(hint);
    text.append(")");
    text
}

impl AppError {
    /// The label that opens the description of each kind of error.
    pub open spec fn label(&self) -> Seq<char> {
        match self {
            AppError::StateIo { .. } => "State I/O error"@,
            AppError::StateSerialization { .. } => "State serialization error"@,
            AppError::IconProcessing { .. } => "Icon processing error"@,
            AppError::InputSimulation { .. } => "Input simulation error"@,
        }
    }

    /// The message of the error.
    pub open spec fn message(&self) -> Seq<char> {
        match self {
            AppError::StateIo { message, .. } => message@,
            AppError::StateSerialization { message, .. } => message@,
            AppError::IconProcessing { message, .. } => message@,
            AppError::InputSimulation { message, .. } => message@,
        }
    }

    /// The technical cause of the error.
    pub open spec fn cause(&self) -> Seq<char> {
        match self {
            AppError::StateIo { cause, .. } => cause@,
            AppError::StateSerialization { cause, .. } => cause@,
            AppError::IconProcessing { cause, .. } => cause@,
            AppError::InputSimulation { cause, .. } => cause@,
        }
    }

    /// The recovery hint of the error.
    pub open spec fn hint(&self) -> Seq<char> {
        match self {
            AppError::StateIo { recovery_hint, .. } => recovery_hint@,
            AppError::StateSerialization { recovery_hint, .. } => recovery_hint@,
            AppError::IconProcessing { recovery_hint, .. } => recovery_hint@,
            AppError::InputSimulation { recovery_hint, .. } => recovery_hint@,
        }
    }

    /// The full description of the error, as it is shown and logged.
    pub open spec fn description(&self) -> Seq<char> {
        error_text(self.label(), self.message(), self.cause(), self.hint())
    }

    /// Describes the error as `label: message (cause: cause, hint: hint)`.
    pub fn describe(&self) -> (text: String)
        ensures
            text@ == self.description(),
    {
        match self {
            AppError::StateIo { message, cause, recovery_hint } => render(
                "State I/O error",
                message.as_str(),
                cause.as_str(),
                recovery_hint,
            ),
            AppError::StateSerialization { message, cause, recovery_hint } => render(
                "State serialization error",
                message.as_str(),
                cause.as_str(),
                recovery_hint,
            ),
            AppError::IconProcessing { message, cause, recovery_hint } => render(
                "Icon processing error",
                message.as_str(),
                cause.as_str(),
                recovery_hint,
            ),
            AppError::InputSimulation { message, cause, recovery_hint } => render(
                "Input simulation error",
                message.as_str(),
                cause.as_str(),
                recovery_hint,
            ),
        }
    }
}

} // verus!
