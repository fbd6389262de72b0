//! Concurrent website reachability checking: the probing, classification and
//! reporting core.
//!
//! The library holds everything that can be stated and proved: classifying the
//! outcome of one HTTP attempt, the per-probe state machine, the result record
//! with its invariants, and the rendering of per-site and aggregate report
//! lines. The surrounding process (reading the URL list, issuing the HTTP
//! requests, fan-out across threads and the completion channel) hands the
//! library plain values and prints what it returns.

pub mod collect;
pub mod probe;
pub mod status;
pub mod text;
pub mod time;
