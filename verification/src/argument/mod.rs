//! Validator parameter values.

mod named_validation_argument;
mod validation_argument;

pub use named_validation_argument::lemma_named_redaction_hides_names;
pub use named_validation_argument::NamedValidationArgument;
pub use validation_argument::lemma_redaction_hides_values;
pub use validation_argument::same_shape;
pub use validation_argument::ValidationArgument;
