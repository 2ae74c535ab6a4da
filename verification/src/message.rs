use vstd::prelude::*;

use crate::version::BareVersion;
use crate::version::version_bytes;

verus! {

/// Which listing a list result holds.
pub enum ListVariant {
    DirectDeps,
    OrderedByMsrv,
}

/// The closed set of message payloads the reporter can receive.
///
/// Every variant but `Progress` is a final result; `Progress` (and only it) is
/// discarded without output. Fields that the minimal reporter never renders
/// (targets, paths, bounds of the search space, error details) are carried so
/// that a message holds the same data its producer supplies, and so that the
/// contracts can state that they never reach either sink.
pub enum Message {
    /// The outcome of a search for the minimal supported version: the version
    /// found, if any, with the target and the bounds the search ran over.
    ResolvedVersion {
        version: Option<BareVersion>,
        target: String,
        min_available: BareVersion,
        max_available: BareVersion,
    },
    /// The outcome of a dependency listing; this reporter does not support
    /// listing output.
    ListResult { variant: ListVariant, root: String },
    /// A version was written to a manifest at the given path.
    SetOutput { version: BareVersion, manifest_path: String },
    /// A version read from a manifest at the given path is being shown.
    ShowOutput { version: BareVersion, manifest_path: String },
    /// The outcome of a compatibility check of one toolchain.
    VerifyResult {
        toolchain_version: BareVersion,
        target: String,
        compatible: bool,
        error: Option<String>,
    },
    /// A progress report; never a final result.
    Progress { current: u64, search_space: u64, iteration: u64 },
}

impl Message {
    /// Whether this message is a final result, the sole gate on whether any
    /// output is produced.
    pub open spec fn is_final(self) -> bool {
        match self {
            Message::Progress { .. } => false,
            _ => true,
        }
    }

    /// Tests whether this message is a final result.
    pub fn is_final_result(&self) -> (r: bool)
        ensures
            r == self.is_final(),
    {
        match self {
            Message::Progress { .. } => false,
            _ => true,
        }
    }
}

/// An envelope carrying one message payload from the event source to the
/// reporter.
pub struct Event {
    pub message: Message,
}

impl Event {
    /// Wraps a message for delivery.
    pub fn new(message: Message) -> (r: Event)
        ensures
            r.message == message,
    {
        Event { message }
    }

    /// The payload this event carries.
    pub fn message(&self) -> (r: &Message)
        ensures
            *r == self.message,
    {
        &self.message
    }
}

/// A version rendered as one newline-terminated line.
pub open spec fn version_line(v: BareVersion) -> Seq<u8> {
    version_bytes(v) + seq![10u8]
}

/// The line `none\n`.
pub open spec fn none_line() -> Seq<u8> {
    seq![110u8, 111u8, 110u8, 101u8, 10u8]
}

/// The line `unsupported\n`.
pub open spec fn unsupported_line() -> Seq<u8> {
    seq![117u8, 110u8, 115u8, 117u8, 112u8, 112u8, 111u8, 114u8, 116u8, 101u8, 100u8, 10u8]
}

/// The line `true\n`.
pub open spec fn true_line() -> Seq<u8> {
    seq![116u8, 114u8, 117u8, 101u8, 10u8]
}

/// The line `false\n`.
pub open spec fn false_line() -> Seq<u8> {
    seq![102u8, 97u8, 108u8, 115u8, 101u8, 10u8]
}

/// The bytes the reporter appends to the success sink for `m`: the resolved,
/// set or shown version's line, or `true\n` for a compatible verify result,
/// and nothing otherwise.
pub open spec fn success_output(m: Message) -> Seq<u8> {
    match m {
        Message::ResolvedVersion { version, .. } => match version {
            Some(v) => version_line(v),
            None => Seq::empty(),
        },
        Message::SetOutput { version, .. } => version_line(version),
        Message::ShowOutput { version, .. } => version_line(version),
        Message::VerifyResult { compatible, .. } => if compatible {
            true_line()
        } else {
            Seq::empty()
        },
        _ => Seq::empty(),
    }
}

/// The bytes the reporter appends to the failure sink for `m`: `none\n` when
/// no version was resolved, `unsupported\n` for any listing result, `false\n`
/// for an incompatible verify result, and nothing otherwise.
pub open spec fn failure_output(m: Message) -> Seq<u8> {
    match m {
        Message::ResolvedVersion { version, .. } => match version {
            Some(_) => Seq::empty(),
            None => none_line(),
        },
        Message::ListResult { .. } => unsupported_line(),
        Message::VerifyResult { compatible, .. } => if compatible {
            Seq::empty()
        } else {
            false_line()
        },
        _ => Seq::empty(),
    }
}

} // verus!
