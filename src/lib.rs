//! A host agent's command core: it reads command envelopes that arrive on the
//! agent's subject, chooses the handler each one names, and decides which
//! results go back to the sender, encoded as JSON.

pub mod commands;
pub mod dispatch;
pub mod envelope;
pub mod instances;
pub mod json;
pub mod runtime;
pub mod text;
