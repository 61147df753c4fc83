//! The four kinds of failure that cross the host boundary.
use vstd::prelude::*;
use vstd::string::StringExecFns;

verus! {

/// Which side of the bridge a failure came from.
#[derive(Clone, Copy, Debug, PartialEq, Eq, Structural)]
pub enum ErrorKind {
    /// The engine could not load the model file.
    Load,
    /// The caller's batch was rejected before any engine call.
    Input,
    /// The engine failed while synthesising.
    Synthesis,
    /// The engine returned an output record with no entries.
    Extraction,
}

/// The text that opens every message of a kind.
pub open spec fn kind_label(kind: ErrorKind) -> &'static str {
    match kind {
        ErrorKind::Load => "Model load error: ",
        ErrorKind::Input => "Input prep error: ",
        ErrorKind::Synthesis => "Synthesis error: ",
        ErrorKind::Extraction => "Extraction error: ",
    }
}

impl ErrorKind {
    /// The text that opens every message of this kind.
    pub fn label(&self) -> (r: &'static str)
        ensures
            r == kind_label(*self),
    {
        match self {
            ErrorKind::Load => "Model load error: ",
            ErrorKind::Input => "Input prep error: ",
            ErrorKind::Synthesis => "Synthesis error: ",
            ErrorKind::Extraction => "Extraction error: ",
        }
    }
}

/// A failure as the host sees it: its kind and a human-readable message.
/// No native error object crosses the boundary; only its description does.
#[derive(Clone, Debug)]
pub struct BridgeError {
    pub kind: ErrorKind,
    pub message: String,
}

impl BridgeError {
    /// An error of `kind` whose message is the kind's label followed by
    /// the underlying failure's description.
    pub fn new(kind: ErrorKind, detail: &str) -> (r: BridgeError)
        ensures
            r.kind == kind,
            r.message@ == kind_label(kind)@ + detail@,
    {
        let message = String::from_str(kind.label()).concat(detail);
        BridgeError { kind, message }
    }

    /// The engine could not load the model; `diagnostic` is its own text.
    pub fn load(diagnostic: &str) -> (r: BridgeError)
        ensures
            r.kind == ErrorKind::Load,
            r.message@ == kind_label(ErrorKind::Load)@ + diagnostic@,
    {
        BridgeError::new(ErrorKind::Load, diagnostic)
    }

    /// The caller's batch was rejected for the reason given.
    pub fn input(reason: &str) -> (r: BridgeError)
        ensures
            r.kind == ErrorKind::Input,
            r.message@ == kind_label(ErrorKind::Input)@ + reason@,
    {
        BridgeError::new(ErrorKind::Input, reason)
    }

    /// The engine failed during synthesis; `diagnostic` is its own text.
    pub fn synthesis(diagnostic: &str) -> (r: BridgeError)
        ensures
            r.kind == ErrorKind::Synthesis,
            r.message@ == kind_label(ErrorKind::Synthesis)@ + diagnostic@,
    {
        BridgeError::new(ErrorKind::Synthesis, diagnostic)
    }

    /// The engine produced an output record without any audio.
    pub fn no_audio() -> (r: BridgeError)
        ensures
            r.kind == ErrorKind::Extraction,
            r.message@ == kind_label(ErrorKind::Extraction)@ + "no audio produced by the model"@,
    {
        BridgeError::new(ErrorKind::Extraction, "no audio produced by the model")
    }

    /// The message that the host shows or logs.
    pub fn to_string(&self) -> (r: String)
        ensures
            r@ == self.message@,
    {
        self.message.clone()
    }
}

} // verus!
