//! Markdown to presentation-ready HTML: a verified event transducer that
//! highlights fenced code and replaces task-list markers, with an allow-list
//! sanitization policy applied to the rendered markup.

pub mod events;
pub mod markdown;
pub mod text;
pub mod sanitize;
pub mod highlight;
pub mod document;
pub mod style;
pub mod pdf;
