//! Canvas embedding engine core: canonical UI events, listener registry and
//! dispatch, asynchronous resource fetching, and a retained-scene render loop.

use vstd::prelude::*;

pub mod body;
pub mod dispatch;
pub mod events;
pub mod fetch;
pub mod node;
pub mod normalize;
pub mod provider;
pub mod registry;
pub mod render;
pub mod text;

verus! {

/// The error taxonomy of the engine. Per-listener failures are contained at
/// their origin (see the dispatcher) and never surface here.
#[derive(Debug, Clone, Copy, PartialEq, Eq, Structural)]
pub enum EngineError {
    /// An event-kind name outside the fixed recognized set.
    InvalidEventKind,
    /// A malformed `data:` URL.
    DataUrlError,
    /// A `data:` URL whose base64 payload does not decode.
    Base64Error,
    /// A local file read failed.
    IoError,
    /// A network request failed.
    TransportError,
    /// No presentable frame could be acquired from the surface.
    SurfaceError,
    /// The host rejected a clipboard write.
    ClipboardError,
}

} // verus!
