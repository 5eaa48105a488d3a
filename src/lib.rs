//! Verified core of an AI-tutoring backend.
//!
//! - `gateway`: the retry decisions of the completion gateway, its request
//!   body and the apology given when the provider cannot be reached.
//! - `parser`: reads module titles, course outlines, topic suggestions and
//!   topic verdicts from a model's reply, with deterministic fallbacks.
//! - `prompts`: the prompts sent for each AI feature.
//! - `ids`: one identifier sequence per kind of record.
//! - `tutors`, `accounts`, `credentials`: checks and decisions on tutor
//!   profiles and user accounts, password digests and generated ids.
//! - `models`, `text`, `json`: the records, exact text helpers, and JSON
//!   decoding of plain values.

pub mod accounts;
pub mod credentials;
pub mod gateway;
pub mod ids;
pub mod json;
pub mod models;
pub mod parser;
pub mod prompts;
pub mod text;
pub mod tutors;
