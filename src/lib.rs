//! Address identification for execution traces: strategies that annotate the
//! addresses of call-trace nodes, and a composite that runs a cheap local
//! strategy before an expensive remote one.

pub mod composite;
pub mod policy;
pub mod record;
pub mod strategy;

pub use composite::TraceIdentifiers;
pub use policy::gather;
pub use record::{CallTraceNode, IdentifiedAddress};
pub use strategy::{BytecodeMatching, TraceIdentifier};
