use vstd::prelude::*;
use vstd::string::*;

verus! {

/// Fatal errors raised before any display work starts.
#[derive(Debug)]
pub enum StartupError {
    /// The configuration file could not be read or parsed.
    BadConfigFile(String),
    /// A required configuration key is absent.
    MissingKey(String),
}

/// Fatal errors of the display enumeration step.
#[derive(Debug)]
pub enum EnumeratorError {
    /// The window manager's IPC socket could not be reached.
    ConnectionError(String),
    /// The "get outputs" reply could not be obtained or parsed.
    QueryError(String),
}

/// Fatal errors of one per-display capture task.
#[derive(Debug)]
pub enum CaptureError {
    /// A uniquely-named temporary file could not be created.
    TempFileFailed(String),
    /// The screenshot tool exited with a non-zero status; the payload is its
    /// standard error text, verbatim.
    ToolFailed(String),
    /// The filter command exited with a non-zero status; the payload is its
    /// standard error text, verbatim.
    ModifierFailed(String),
    /// The filter command template tokenized to nothing, so there is no
    /// program to run.
    EmptyFilterCommand,
}

/// Fatal error of the final locker invocation.
#[derive(Debug)]
pub enum LockerError {
    /// The locker binary exited with a non-zero status; the payload is its
    /// standard error text, verbatim.
    Failed(String),
}

impl Clone for CaptureError {
    fn clone(&self) -> (r: Self)
        ensures
            r == *self,
    {
        match self {
            CaptureError::TempFileFailed(s) => CaptureError::TempFileFailed(s.clone()),
            CaptureError::ToolFailed(s) => CaptureError::ToolFailed(s.clone()),
            CaptureError::ModifierFailed(s) => CaptureError::ModifierFailed(s.clone()),
            CaptureError::EmptyFilterCommand => CaptureError::EmptyFilterCommand,
        }
    }
}

impl StartupError {
    pub open spec fn message_spec(self) -> Seq<char> {
        match self {
            StartupError::BadConfigFile(s) => "could not parse the configuration file: "@ + s@,
            StartupError::MissingKey(k) => "missing configuration key: "@ + k@,
        }
    }

    /// Human-readable description, carrying the underlying detail verbatim.
    pub fn message(&self) -> (m: String)
        ensures
            m@ == self.message_spec(),
    {
        match self {
            StartupError::BadConfigFile(s) => String::from_str(
                "could not parse the configuration file: ",
            ).concat(s.as_str()),
            StartupError::MissingKey(k) => String::from_str("missing configuration key: ").concat(
                k.as_str(),
            ),
        }
    }
}

impl EnumeratorError {
    pub open spec fn message_spec(self) -> Seq<char> {
        match self {
            EnumeratorError::ConnectionError(s) => "failed to connect to the window manager IPC: "@
                + s@,
            EnumeratorError::QueryError(s) => "could not get display outputs: "@ + s@,
        }
    }

    /// Human-readable description, carrying the underlying detail verbatim.
    pub fn message(&self) -> (m: String)
        ensures
            m@ == self.message_spec(),
    {
        match self {
            EnumeratorError::ConnectionError(s) => String::from_str(
                "failed to connect to the window manager IPC: ",
            ).concat(s.as_str()),
            EnumeratorError::QueryError(s) => String::from_str(
                "could not get display outputs: ",
            ).concat(s.as_str()),
        }
    }
}

impl CaptureError {
    pub open spec fn message_spec(self) -> Seq<char> {
        match self {
            CaptureError::TempFileFailed(s) => "could not create a temporary file: "@ + s@,
            CaptureError::ToolFailed(s) => "screenshot tool failed: "@ + s@,
            CaptureError::ModifierFailed(s) => "filter command failed: "@ + s@,
            CaptureError::EmptyFilterCommand => "filter command template contains no program"@,
        }
    }

    /// Human-readable description; the stderr of a failed tool appears in it
    /// verbatim.
    pub fn message(&self) -> (m: String)
        ensures
            m@ == self.message_spec(),
    {
        match self {
            CaptureError::TempFileFailed(s) => String::from_str(
                "could not create a temporary file: ",
            ).concat(s.as_str()),
            CaptureError::ToolFailed(s) => String::from_str("screenshot tool failed: ").concat(
                s.as_str(),
            ),
            CaptureError::ModifierFailed(s) => String::from_str("filter command failed: ").concat(
                s.as_str(),
            ),
            CaptureError::EmptyFilterCommand => String::from_str(
                "filter command template contains no program",
            ),
        }
    }
}

impl LockerError {
    pub open spec fn message_spec(self) -> Seq<char> {
        match self {
            LockerError::Failed(s) => "locker failed: "@ + s@,
        }
    }

    /// Human-readable description, carrying the locker's stderr verbatim.
    pub fn message(&self) -> (m: String)
        ensures
            m@ == self.message_spec(),
    {
        match self {
            LockerError::Failed(s) => String::from_str("locker failed: ").concat(s.as_str()),
        }
    }
}

} // verus!
