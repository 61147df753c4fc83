//! Ownership of one loaded engine and the decisions around each call into it.
use vstd::prelude::*;
use crate::adapter::extract;
use crate::error::{kind_label, BridgeError, ErrorKind};

verus! {

/// Owns exactly one loaded engine for as long as the handle lives. The
/// engine is released when the handle is dropped; no handle exists without
/// an engine.
pub struct ModelHandle<E> {
    engine: E,
}

impl<E> View for ModelHandle<E> {
    type V = E;

    closed spec fn view(&self) -> E {
        self.engine
    }
}

impl<E> ModelHandle<E> {
    /// Takes what the engine's loader returned: a loaded engine becomes the
    /// handle that owns it; a loader failure becomes a load error that
    /// keeps the engine's diagnostic text, and no handle is made.
    pub fn load(outcome: Result<E, String>) -> (r: Result<ModelHandle<E>, BridgeError>)
        ensures
            r is Ok <==> outcome is Ok,
            outcome matches Ok(e) ==> (r matches Ok(h) && h@ == e),
            outcome matches Err(d) ==> (r matches Err(x) && x.kind == ErrorKind::Load
                && x.message@ == kind_label(ErrorKind::Load)@ + d@),
    {
        match outcome {
            Ok(engine) => Ok(ModelHandle { engine }),
            Err(diagnostic) => Err(BridgeError::load(diagnostic.as_str())),
        }
    }

    /// The engine that this handle owns.
    pub fn engine(&self) -> (r: &E)
        ensures
            *r == self@,
    {
        &self.engine
    }
}

/// The reply to one synthesis call, from what the engine returned for it:
/// an engine failure becomes a synthesis error that keeps the engine's
/// text; otherwise the first entry's waveform is handed back, and a record
/// with no entries is an extraction error.
pub fn conclude<W>(outcome: Result<Vec<W>, String>) -> (r: Result<W, BridgeError>)
    ensures
        r is Ok <==> (outcome matches Ok(v) && v@.len() > 0),
        outcome matches Err(d) ==> (r matches Err(x) && x.kind == ErrorKind::Synthesis
            && x.message@ == kind_label(ErrorKind::Synthesis)@ + d@),
        outcome matches Ok(v) ==> (v@.len() > 0 ==> r == Ok::<W, BridgeError>(v@[0])),
        outcome matches Ok(v) ==> (v@.len() == 0 ==> (r matches Err(x) && x.kind
            == ErrorKind::Extraction)),
{
    match outcome {
        Ok(entries) => extract(entries),
        Err(diagnostic) => Err(BridgeError::synthesis(diagnostic.as_str())),
    }
}

} // verus!
