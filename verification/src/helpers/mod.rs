pub mod decimal;
pub mod money;
pub mod validation;

pub use money::format_int_to_decimal;
pub use validation::{validate_float, validate_int};
