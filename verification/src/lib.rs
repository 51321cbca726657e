//! Session-management and work-dispatch core of a distributed program-search
//! coordination service: a shared registry of active search tasks
//! ("permuters"), batch registration with a fairness weight per task, the
//! per-connection message handling, and guaranteed deregistration when a
//! connection ends.

pub mod fairness;
pub mod permuter;
pub mod registry;
pub mod session;
