//! Label commands for an issue-tracker bot: a permission policy over label
//! names, a resolver that applies add/remove deltas to an issue's labels, and
//! the decision an incoming comment event leads to.

pub mod text;
pub mod policy;
pub mod labels;
pub mod handler;
