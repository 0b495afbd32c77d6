//! Implementations of erased validator adapters.

mod contextual_fn_validator_adapter;
mod contextual_text_validator_adapter;
mod contextual_typed_validator_adapter;
mod text_validator_adapter;
mod typed_validator_adapter;

pub use contextual_fn_validator_adapter::is_type_mismatch;
pub use contextual_fn_validator_adapter::text_call_total;
pub use contextual_fn_validator_adapter::typed_call_total;
pub use contextual_fn_validator_adapter::TextContextFnAdapter;
pub use contextual_fn_validator_adapter::TypedContextFnAdapter;
pub use contextual_text_validator_adapter::ContextualTextValidatorAdapter;
pub use contextual_typed_validator_adapter::ContextualTypedValidatorAdapter;
pub use text_validator_adapter::mapper_total;
pub use text_validator_adapter::reports_verdict;
pub use text_validator_adapter::TextValidatorAdapter;
pub use typed_validator_adapter::TypedValidatorAdapter;
