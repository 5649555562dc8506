//! A host event-capture agent's core: the typed event model and its wire encoding, the
//! correlation of entry and exit probes, the capture catalog, the symbol resolver for probes,
//! per-CPU consumption and the persisted event log.
pub mod bounded;
pub mod capture;
pub mod codec;
pub mod correlation;
pub mod event;
pub mod framing;
pub mod pipeline;
pub mod probes;
pub mod wire;
