//! What can stop the launch, and how a failure is told to the user.

use vstd::prelude::*;
use vstd::string::*;

verus! {

/// Why the runtime library could not be brought up.
#[derive(Debug, PartialEq, Eq)]
pub enum LoadError {
    /// The system's loader rejected the library; its message is kept.
    OpenFailed(String),
    /// The library does not export the function that creates a runtime.
    SymbolMissing,
    /// The runtime was asked for and answered with this status.
    InitFailed(i32),
}

/// What the application package lacks.
#[derive(Debug, Clone, Copy, PartialEq, Eq, Structural)]
pub enum Missing {
    /// The class that holds the entry point.
    Class,
    /// The entry point itself.
    Method,
    /// The class of the startup parameters.
    ParameterClass,
    /// The constructor of that class.
    Constructor,
    /// A Java string or array for one of the parameters.
    Conversion,
}

impl Missing {
    /// What is lacking, in words.
    pub open spec fn text(self) -> Seq<char> {
        match self {
            Missing::Class => "main class not found"@,
            Missing::Method => "main method not found"@,
            Missing::ParameterClass => "parameter class not found"@,
            Missing::Constructor => "parameter constructor not found"@,
            Missing::Conversion => "parameter conversion failed"@,
        }
    }

    /// What is lacking, in words.
    pub fn to_string(&self) -> (out: String)
        ensures
            out@ == self.text(),
    {
        match self {
            Missing::Class => String::from_str("main class not found"),
            Missing::Method => String::from_str("main method not found"),
            Missing::ParameterClass => String::from_str("parameter class not found"),
            Missing::Constructor => String::from_str("parameter constructor not found"),
            Missing::Conversion => String::from_str("parameter conversion failed"),
        }
    }
}

/// What stopped the launch.
#[derive(Debug, PartialEq, Eq)]
pub enum LaunchError {
    /// The launcher's own file has no directory above it.
    AppDirNotFound,
    /// The user has no home directory.
    HomeNotFound,
    /// The application archive could not be read; the reader's message is kept.
    Archive(String),
    /// The archive's manifest does not say which variant the application is.
    PropertyMissing,
    /// No runtime library stands in any of the places that are searched.
    NotFound,
    /// A runtime library was found and could not be brought up.
    Load(LoadError),
    /// The application does not offer the entry point that the launcher calls.
    InvalidPackage(Missing),
    /// The application's entry point ended with an exception.
    UnexpectedException,
    /// A failure reported by the system, in its own words.
    Other(String),
}

/// The step of the launch at which a failure happened.
#[derive(Debug, Clone, Copy, PartialEq, Eq, Structural)]
pub enum Stage {
    AppDir,
    Metadata,
    Parameters,
    LoadRuntime,
    InvalidPackage,
    UnexpectedException,
}

impl Clone for LoadError {
    fn clone(&self) -> (copy: Self)
        ensures
            copy == *self,
    {
        match self {
            LoadError::OpenFailed(message) => LoadError::OpenFailed(message.clone()),
            LoadError::SymbolMissing => LoadError::SymbolMissing,
            LoadError::InitFailed(status) => LoadError::InitFailed(*status),
        }
    }
}

impl Clone for LaunchError {
    fn clone(&self) -> (copy: Self)
        ensures
            copy == *self,
    {
        match self {
            LaunchError::AppDirNotFound => LaunchError::AppDirNotFound,
            LaunchError::HomeNotFound => LaunchError::HomeNotFound,
            LaunchError::Archive(message) => LaunchError::Archive(message.clone()),
            LaunchError::PropertyMissing => LaunchError::PropertyMissing,
            LaunchError::NotFound => LaunchError::NotFound,
            LaunchError::Load(cause) => LaunchError::Load(cause.clone()),
            LaunchError::InvalidPackage(what) => LaunchError::InvalidPackage(*what),
            LaunchError::UnexpectedException => LaunchError::UnexpectedException,
            LaunchError::Other(message) => LaunchError::Other(message.clone()),
        }
    }
}

impl LoadError {
    /// The failure in words.
    pub open spec fn text(self) -> Seq<char> {
        match self {
            LoadError::OpenFailed(message) => message@,
            LoadError::SymbolMissing => "Invalid JavaRuntime"@,
            LoadError::InitFailed(_) => "Create jvm failed"@,
        }
    }

    /// The failure in words.
    pub fn to_string(&self) -> (out: String)
        ensures
            out@ == self.text(),
    {
        match self {
            LoadError::OpenFailed(message) => message.clone(),
            LoadError::SymbolMissing => String::from_str("Invalid JavaRuntime"),
            LoadError::InitFailed(_) => String::from_str("Create jvm failed"),
        }
    }
}

impl LaunchError {
    /// The failure in words.
    pub open spec fn text(self) -> Seq<char> {
        match self {
            LaunchError::AppDirNotFound => "app directory not found"@,
            LaunchError::HomeNotFound => "User home directory not found"@,
            LaunchError::Archive(message) => message@,
            LaunchError::PropertyMissing => "property 'Clash-Premium' not found"@,
            LaunchError::NotFound => "JavaRuntime not found"@,
            LaunchError::Load(cause) => cause.text(),
            LaunchError::InvalidPackage(what) => what.text(),
            LaunchError::UnexpectedException => "exception thrown by the application"@,
            LaunchError::Other(message) => message@,
        }
    }

    /// The failure in words.
    pub fn to_string(&self) -> (out: String)
        ensures
            out@ == self.text(),
    {
        match self {
            LaunchError::AppDirNotFound => String::from_str("app directory not found"),
            LaunchError::HomeNotFound => String::from_str("User home directory not found"),
            LaunchError::Archive(message) => message.clone(),
            LaunchError::PropertyMissing => String::from_str("property 'Clash-Premium' not found"),
            LaunchError::NotFound => String::from_str("JavaRuntime not found"),
            LaunchError::Load(cause) => cause.to_string(),
            LaunchError::InvalidPackage(what) => what.to_string(),
            LaunchError::UnexpectedException => String::from_str(
                "exception thrown by the application",
            ),
            LaunchError::Other(message) => message.clone(),
        }
    }
}

impl Stage {
    /// The words that name the step in a failure message.
    pub open spec fn label(self) -> Seq<char> {
        match self {
            Stage::AppDir => "App dir not found"@,
            Stage::Metadata => "Resolve app metadata"@,
            Stage::Parameters => "Resolve startup parameters"@,
            Stage::LoadRuntime => "Load runtime"@,
            Stage::InvalidPackage => "Invalid application package"@,
            Stage::UnexpectedException => "Unexpected exception"@,
        }
    }

    /// The words that name the step in a failure message.
    pub fn message(&self) -> (out: &'static str)
        ensures
            out@ == self.label(),
    {
        match self {
            Stage::AppDir => "App dir not found",
            Stage::Metadata => "Resolve app metadata",
            Stage::Parameters => "Resolve startup parameters",
            Stage::LoadRuntime => "Load runtime",
            Stage::InvalidPackage => "Invalid application package",
            Stage::UnexpectedException => "Unexpected exception",
        }
    }
}

/// A failure together with the words that say where it happened.
#[derive(Debug, PartialEq, Eq)]
pub struct MessagedError {
    pub message: String,
    pub error: LaunchError,
}

impl Clone for MessagedError {
    fn clone(&self) -> (copy: Self)
        ensures
            copy == *self,
    {
        MessagedError { message: self.message.clone(), error: self.error.clone() }
    }
}

impl MessagedError {
    /// The message, a colon and a space, and the failure in words.
    pub open spec fn text(self) -> Seq<char> {
        self.message@ + ": "@ + self.error.text()
    }

    /// The whole failure in one line: `text`.
    pub fn to_string(&self) -> (out: String)
        ensures
            out@ == self.text(),
    {
        let mut out = self.message.clone();
        out.append(": ");
        let cause = self.error.to_string();
        out.append(cause.as_str());
        out
    }
}

/// Errors that can be given a message.
pub trait ErrorExt: Sized {
    /// The failure as this library names it.
    spec fn cause(self) -> LaunchError;

    /// Puts `msg` in front of the failure.
    fn with_message(self, msg: &str) -> (wrapped: MessagedError)
        ensures
            wrapped.message@ == msg@,
            wrapped.error == self.cause(),
    ;
}

impl ErrorExt for LaunchError {
    open spec fn cause(self) -> LaunchError {
        self
    }

    fn with_message(self, msg: &str) -> (wrapped: MessagedError) {
        MessagedError { message: String::from_str(msg), error: self }
    }
}

impl ErrorExt for LoadError {
    open spec fn cause(self) -> LaunchError {
        LaunchError::Load(self)
    }

    fn with_message(self, msg: &str) -> (wrapped: MessagedError) {
        MessagedError { message: String::from_str(msg), error: LaunchError::Load(self) }
    }
}

/// What the launcher writes to the standard error stream when the launch has
/// failed.
pub open spec fn failure_line(failure: MessagedError) -> Seq<char> {
    "[Starter] err="@ + failure.text() + " | Launch failed"@
}

/// The line that tells the user of a failed launch.
pub fn failure_report(failure: &MessagedError) -> (line: String)
    ensures
        line@ == failure_line(*failure),
{
    let mut line = String::from_str("[Starter] err=");
    let text = failure.to_string();
    line.append(text.as_str());
    line.append(" | Launch failed");
    line
}

/// The status with which the process ends: zero after a launch that went
/// through, one after a failure.
pub fn exit_status(outcome: &Result<(), MessagedError>) -> (status: i32)
    ensures
        status == if outcome is Ok { 0i32 } else { 1i32 },
{
    match outcome {
        Ok(_) => 0,
        Err(_) => 1,
    }
}

} // verus!
