//! One-shot script evaluation, decided step by step: which globals are
//! bound, what source is compiled, how every engine outcome is judged, and
//! what the evaluation returns.

pub mod error;
pub mod plan;
pub mod session;

pub use error::{guarded, string, within, Cause, EvalError, Phase};
pub use plan::{plan, prefix, wrap_body, Options, Step};
pub use session::{eval, Action, Evaluation, Event};
