//! A scaffolder for game projects that build both natively and for the
//! browser. The library holds the verified core: the embedded template
//! payloads, placeholder substitution, the canonical scaffold plan and its
//! idempotent materialization semantics, and the dispatcher state machine
//! that sequences external commands for the `new`, `integrate` and `run`
//! verbs. A thin unverified shell performs the actual file writes and
//! process launches that the dispatcher asks for.

pub mod dispatch;
pub mod memfs;
pub mod plan;
pub mod store;
pub mod templates;
pub mod text;
