//! What the service answers with, and how rows become answers.

pub mod governance;
pub mod transaction;
