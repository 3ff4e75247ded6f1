pub mod error;
pub mod in_memory;
pub mod laws;
pub mod lemmas;
pub mod machine;
pub mod protocol;
pub mod rules;
pub mod totals;
