use vstd::prelude::*;

use crate::value::ValueTag;

verus! {

/// Why a bridge operation failed. The `i32` payloads are the status codes
/// reported by the automation runtime.
#[derive(Clone, Copy, Debug, PartialEq, Eq, Structural)]
pub enum BridgeError {
    /// The automation runtime could not be initialized.
    RuntimeInit(i32),
    /// The remote object could not be instantiated.
    Connection(i32),
    /// The method name has no identifier on the remote object.
    NameResolution(i32),
    /// The remote call itself failed.
    Invocation(i32),
    /// A value could not be converted to the requested tag.
    Coercion { from: ValueTag, to: ValueTag },
    /// An event arrived that the call in progress was not waiting for.
    OutOfSequence,
}

} // verus!
