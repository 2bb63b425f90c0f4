//! The closed set of failures that a unit of work can report.

use vstd::prelude::*;
use vstd::string::StringExecFns;

verus! {

/// The class of a failure, as it is tagged on the wire.
#[derive(Debug, Clone, Copy, PartialEq, Eq, Hash, Structural)]
pub enum ErrorKind {
    /// A failure of a collaborator that fits no other class, such as an
    /// unreadable or unwritable settings store.
    StdErr,
    /// A missing directory or file, or a denied permission.
    Io,
    /// Bytes that do not decode at the command boundary.
    Utf8,
    /// A failure of the replay export routine.
    S2Proto,
    /// Snapshot content that the query engine cannot read.
    Polars,
    /// Anything else, among them invalid caller input.
    Other,
}

/// A failure together with the description of its cause.
#[derive(Debug, Clone, PartialEq, Eq)]
pub enum SwarmyTauriError {
    StdErr(String),
    S2ProtoErr(String),
    StdIo(String),
    Polars(String),
    Utf8(String),
    Other(String),
}

impl ErrorKind {
    /// The tag under which the class is serialized.
    pub open spec fn spec_tag(self) -> Seq<char> {
        match self {
            ErrorKind::StdErr => "stdErr"@,
            ErrorKind::Io => "io"@,
            ErrorKind::Utf8 => "utf8"@,
            ErrorKind::S2Proto => "s2Proto"@,
            ErrorKind::Polars => "polars"@,
            ErrorKind::Other => "other"@,
        }
    }

    pub fn tag(&self) -> (t: &'static str)
        ensures
            t@ == self.spec_tag(),
    {
        match self {
            ErrorKind::StdErr => "stdErr",
            ErrorKind::Io => "io",
            ErrorKind::Utf8 => "utf8",
            ErrorKind::S2Proto => "s2Proto",
            ErrorKind::Polars => "polars",
            ErrorKind::Other => "other",
        }
    }
}

impl SwarmyTauriError {
    /// The class of the failure.
    pub open spec fn spec_kind(self) -> ErrorKind {
        match self {
            SwarmyTauriError::StdErr(_) => ErrorKind::StdErr,
            SwarmyTauriError::S2ProtoErr(_) => ErrorKind::S2Proto,
            SwarmyTauriError::StdIo(_) => ErrorKind::Io,
            SwarmyTauriError::Polars(_) => ErrorKind::Polars,
            SwarmyTauriError::Utf8(_) => ErrorKind::Utf8,
            SwarmyTauriError::Other(_) => ErrorKind::Other,
        }
    }

    /// The description of the cause that the failure carries.
    pub open spec fn spec_detail(self) -> Seq<char> {
        match self {
            SwarmyTauriError::StdErr(d) => d@,
            SwarmyTauriError::S2ProtoErr(d) => d@,
            SwarmyTauriError::StdIo(d) => d@,
            SwarmyTauriError::Polars(d) => d@,
            SwarmyTauriError::Utf8(d) => d@,
            SwarmyTauriError::Other(d) => d@,
        }
    }

    /// The text under which the failure is displayed: an I/O failure shows
    /// its cause as it is, the two collaborator classes show a fixed text,
    /// the others a prefix and the cause.
    pub open spec fn spec_display(self) -> Seq<char> {
        match self {
            SwarmyTauriError::StdErr(_) => "StdError"@,
            SwarmyTauriError::S2ProtoErr(_) => "S2proto Error"@,
            SwarmyTauriError::StdIo(d) => d@,
            SwarmyTauriError::Polars(d) => "Polars Error: "@ + d@,
            SwarmyTauriError::Utf8(d) => "UTF8 Error: "@ + d@,
            SwarmyTauriError::Other(d) => "Other Error: "@ + d@,
        }
    }

    /// The prefix that the single-string form puts before the cause.
    pub open spec fn spec_prefix(self) -> Seq<char> {
        match self {
            SwarmyTauriError::StdErr(_) => "StdError: "@,
            SwarmyTauriError::S2ProtoErr(_) => "S2proto Error: "@,
            SwarmyTauriError::StdIo(_) => "StdIoError: "@,
            SwarmyTauriError::Polars(_) => "Polars Error: "@,
            SwarmyTauriError::Utf8(_) => "UTF8 Error: "@,
            SwarmyTauriError::Other(_) => "Other Error: "@,
        }
    }

    /// The single-string form of the failure: class prefix, then the cause.
    pub open spec fn spec_message(self) -> Seq<char> {
        self.spec_prefix() + self.spec_detail()
    }

    pub fn kind(&self) -> (k: ErrorKind)
        ensures
            k == self.spec_kind(),
    {
        match self {
            SwarmyTauriError::StdErr(_) => ErrorKind::StdErr,
            SwarmyTauriError::S2ProtoErr(_) => ErrorKind::S2Proto,
            SwarmyTauriError::StdIo(_) => ErrorKind::Io,
            SwarmyTauriError::Polars(_) => ErrorKind::Polars,
            SwarmyTauriError::Utf8(_) => ErrorKind::Utf8,
            SwarmyTauriError::Other(_) => ErrorKind::Other,
        }
    }

    pub fn detail(&self) -> (d: &str)
        ensures
            d@ == self.spec_detail(),
    {
        match self {
            SwarmyTauriError::StdErr(d) => d.as_str(),
            SwarmyTauriError::S2ProtoErr(d) => d.as_str(),
            SwarmyTauriError::StdIo(d) => d.as_str(),
            SwarmyTauriError::Polars(d) => d.as_str(),
            SwarmyTauriError::Utf8(d) => d.as_str(),
            SwarmyTauriError::Other(d) => d.as_str(),
        }
    }

    /// The display text of the failure.
    pub fn to_display_string(&self) -> (s: String)
        ensures
            s@ == self.spec_display(),
    {
        match self {
            SwarmyTauriError::StdErr(_) => String::from_str("StdError"),
            SwarmyTauriError::S2ProtoErr(_) => String::from_str("S2proto Error"),
            SwarmyTauriError::StdIo(d) => d.clone(),
            SwarmyTauriError::Polars(d) => String::from_str("Polars Error: ").concat(d.as_str()),
            SwarmyTauriError::Utf8(d) => String::from_str("UTF8 Error: ").concat(d.as_str()),
            SwarmyTauriError::Other(d) => String::from_str("Other Error: ").concat(d.as_str()),
        }
    }

    /// The single-string form of the failure.
    pub fn message(&self) -> (s: String)
        ensures
            s@ == self.spec_message(),
    {
        let prefix: &str = match self {
            SwarmyTauriError::StdErr(_) => "StdError: ",
            SwarmyTauriError::S2ProtoErr(_) => "S2proto Error: ",
            SwarmyTauriError::StdIo(_) => "StdIoError: ",
            SwarmyTauriError::Polars(_) => "Polars Error: ",
            SwarmyTauriError::Utf8(_) => "UTF8 Error: ",
            SwarmyTauriError::Other(_) => "Other Error: ",
        };
        String::from_str(prefix).concat(self.detail())
    }
}

impl From<SwarmyTauriError> for String {
    /// The single-string form of the failure, as `message` gives it.
    fn from(err: SwarmyTauriError) -> (s: String)
        ensures
            s@ == err.spec_message(),
    {
        err.message()
    }
}

impl vstd::std_specs::convert::FromSpecImpl<SwarmyTauriError> for String {
    /// The conversion is stated by the view of its result, in the `ensures`
    /// of `from`, and not as one chosen `String` value.
    open spec fn obeys_from_spec() -> bool {
        false
    }

    open spec fn from_spec(err: SwarmyTauriError) -> String {
        arbitrary()
    }
}

} // verus!
