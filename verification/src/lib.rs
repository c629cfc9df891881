pub mod engine;
pub mod errors;
pub mod formatter;
pub mod guard;
pub mod labels;
pub mod ordering;
pub mod pipeline;
pub mod text;
