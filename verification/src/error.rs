use vstd::prelude::*;

verus! {

/// Errors of the library, each with a human-readable message.
#[derive(Debug)]
pub enum AppError {
    /// A value could not be parsed.
    Parse(String),
    /// A configuration value is invalid.
    Config(String),
    /// An external process could not be run or failed.
    Process(String),
    /// A required external tool was not found.
    ToolNotFound(String),
    /// Any other failure.
    Other(String),
}

impl AppError {
    /// The message carried by the error.
    pub open spec fn message_view(&self) -> Seq<char> {
        match self {
            AppError::Parse(m) => m@,
            AppError::Config(m) => m@,
            AppError::Process(m) => m@,
            AppError::ToolNotFound(m) => m@,
            AppError::Other(m) => m@,
        }
    }

    /// The message carried by the error.
    pub fn message(&self) -> (m: String)
        ensures
            m@ == self.message_view(),
    {
        match self {
            AppError::Parse(m) => m.clone(),
            AppError::Config(m) => m.clone(),
            AppError::Process(m) => m.clone(),
            AppError::ToolNotFound(m) => m.clone(),
            AppError::Other(m) => m.clone(),
        }
    }
}

} // verus!
