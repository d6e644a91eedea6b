//! Why a capture failed: a kind to branch on and a message to show.

use vstd::prelude::*;
use vstd::string::*;

verus! {

/// The kinds of failure of a capture.
#[derive(Clone, Copy, Debug, PartialEq, Eq, Structural)]
pub enum ErrorKind {
    /// The operation does not exist on this operating system.
    UnsupportedOnPlatform,
    /// The operation does not exist on this kind of desktop session.
    UnsupportedOnSessionType,
    /// The screen, or the display server, could not be reached.
    DeviceAccessFailure,
    /// The coordinate lies outside the screen.
    OutOfBoundsSample,
    /// An external program could not be started.
    ExternalToolLaunchFailure,
    /// An external program ended with a failure status.
    ExternalToolExitFailure,
    /// What a capture produced (bitmap, pixmap, hexadecimal text) cannot be read.
    MalformedCaptureOutput,
    /// The desktop portal refused or failed, or the user cancelled.
    PortalRequestFailure,
    /// The mouse hook could not be installed.
    HookInstallFailure,
    /// Every method of a fallback chain failed; the message lists each cause.
    AllMethodsFailed,
}

/// A failed capture. The message is meant to be shown as it is.
#[derive(Debug)]
pub struct CaptureError {
    pub kind: ErrorKind,
    pub message: String,
}

impl View for CaptureError {
    type V = (ErrorKind, Seq<char>);

    open spec fn view(&self) -> (ErrorKind, Seq<char>) {
        (self.kind, self.message@)
    }
}

impl Clone for CaptureError {
    fn clone(&self) -> (out: Self)
        ensures
            out@ == self@,
    {
        CaptureError { kind: self.kind, message: self.message.clone() }
    }
}

impl CaptureError {
    /// An error with a fixed message.
    pub fn new(kind: ErrorKind, message: &str) -> (e: CaptureError)
        ensures
            e@ == (kind, message@),
    {
        CaptureError { kind, message: String::from_str(message) }
    }

    /// An error whose message is `prefix` followed by `detail`.
    pub fn with_detail(kind: ErrorKind, prefix: &str, detail: &str) -> (e: CaptureError)
        ensures
            e@ == (kind, prefix@ + detail@),
    {
        let mut message = String::from_str(prefix);
        message.append(detail);
        CaptureError { kind, message }
    }

    /// An error whose message is `detail` between `prefix` and `suffix`.
    pub fn with_detail_between(kind: ErrorKind, prefix: &str, detail: &str, suffix: &str) -> (e:
        CaptureError)
        ensures
            e@ == (kind, prefix@ + detail@ + suffix@),
    {
        let mut message = String::from_str(prefix);
        message.append(detail);
        message.append(suffix);
        CaptureError { kind, message }
    }

    /// The message, as text to display.
    pub fn to_string(&self) -> (s: String)
        ensures
            s@ == self@.1,
    {
        self.message.clone()
    }
}

} // verus!
