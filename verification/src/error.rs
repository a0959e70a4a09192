//! The error type shared by every part of the backend.

use vstd::prelude::*;

verus! {

/// What went wrong, by area, with the text that explains it.
#[derive(Debug)]
pub enum ShellError {
    Filesystem(String),
    Database(String),
    Docker(String),
    Serialization(String),
    Lesson(String),
    Execution(String),
    Security(String),
    Service(String),
    FeatureNotAvailable(String),
    CloudRequired(String),
    Configuration(String),
}

impl ShellError {
    /// The text that explains the error, without the area in front of it.
    pub open spec fn detail(self) -> Seq<char> {
        match self {
            ShellError::Filesystem(m) => m@,
            ShellError::Database(m) => m@,
            ShellError::Docker(m) => m@,
            ShellError::Serialization(m) => m@,
            ShellError::Lesson(m) => m@,
            ShellError::Execution(m) => m@,
            ShellError::Security(m) => m@,
            ShellError::Service(m) => m@,
            ShellError::FeatureNotAvailable(m) => m@,
            ShellError::CloudRequired(m) => m@,
            ShellError::Configuration(m) => m@,
        }
    }

    /// The words that name the area of the error when it is shown.
    pub open spec fn label(self) -> Seq<char> {
        match self {
            ShellError::Filesystem(_) => "Filesystem error: "@,
            ShellError::Database(_) => "Database error: "@,
            ShellError::Docker(_) => "Docker error: "@,
            ShellError::Serialization(_) => "Serialization error: "@,
            ShellError::Lesson(_) => "Lesson error: "@,
            ShellError::Execution(_) => "Execution error: "@,
            ShellError::Security(_) => "Security error: "@,
            ShellError::Service(_) => "Service error: "@,
            ShellError::FeatureNotAvailable(_) => "Feature not available: "@,
            ShellError::CloudRequired(_) => "Cloud required: "@,
            ShellError::Configuration(_) => "Invalid configuration: "@,
        }
    }

    /// The error as it is shown to a user: the area, then the detail.
    pub open spec fn shown(self) -> Seq<char> {
        self.label() + self.detail()
    }

    /// Renders the error for display.
    pub fn to_string(&self) -> (text: String)
        ensures
            text@ == self.shown(),
    {
        let (label, detail): (&str, &String) = match self {
            ShellError::Filesystem(m) => ("Filesystem error: ", m),
            ShellError::Database(m) => ("Database error: ", m),
            ShellError::Docker(m) => ("Docker error: ", m),
            ShellError::Serialization(m) => ("Serialization error: ", m),
            ShellError::Lesson(m) => ("Lesson error: ", m),
            ShellError::Execution(m) => ("Execution error: ", m),
            ShellError::Security(m) => ("Security error: ", m),
            ShellError::Service(m) => ("Service error: ", m),
            ShellError::FeatureNotAvailable(m) => ("Feature not available: ", m),
            ShellError::CloudRequired(m) => ("Cloud required: ", m),
            ShellError::Configuration(m) => ("Invalid configuration: ", m),
        };
        let mut text = label.to_owned();
        text.append(detail.as_str());
        text
    }
}

} // verus!
