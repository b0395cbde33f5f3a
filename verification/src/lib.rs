//! Verified state, validation, and text rules behind a family of AI-native
//! interface components: chat transcripts, comparison and diff tables,
//! filters, prompt composers, plans, approvals, and their accessible labels.

pub mod approval;
pub mod artifact;
pub mod attachment;
pub mod binary64;
pub mod chat;
pub mod chip;
pub mod columns;
pub mod comparison_table;
pub mod context_meter;
pub mod cues;
pub mod diff_table;
pub mod filter_table;
pub mod fine_tune;
pub mod focus;
pub mod form;
pub mod ids;
pub mod status;
pub mod motion;
pub mod plan;
pub mod popup;
pub mod prompt_bar;
pub mod stream;
pub mod text;
