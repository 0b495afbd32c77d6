//! Validation binding primitives.

mod argument_reader;
mod bind_error;
mod bind_error_kind;
mod bound_validation_context;
mod bound_validator;
mod contextual_fn_validator_adapter;
mod contextual_text_validator_adapter;
mod contextual_typed_validator_adapter;
mod dependency_spec;
mod execution_error;
mod execution_error_kind;
mod input_type;
mod internal;
mod named_validation_dependency;
mod prepared_outcome;
mod prepared_validator;
mod rule_outcome;
mod text_validator_adapter;
mod type_identity;
mod typed_validator_adapter;
mod validation_outcome;
mod validation_value;
mod violation_draft;

pub use argument_reader::ArgumentReader;
pub use argument_reader::consumed_after;
pub use argument_reader::decode_u32;
pub use argument_reader::first_duplicate;
pub use argument_reader::first_unconsumed;
pub use argument_reader::lemma_parameter_read_once;
pub use argument_reader::lemma_u32_reads_exactly;
pub use argument_reader::name_index;
pub use argument_reader::names_distinct;
pub use argument_reader::parameter_error;
pub use argument_reader::repeats_earlier_name;
pub use argument_reader::take_result;
pub use bind_error::BindError;
pub use bind_error_kind::BindErrorKind;
pub use bound_validation_context::BoundValidationContext;
pub use bound_validation_context::first_failing_slot;
pub use bound_validation_context::lemma_first_rejected_slot;
pub use bound_validation_context::lemma_slots_pass;
pub use bound_validation_context::slot_failure;
pub use bound_validator::BoundValidator;
pub use bound_validator::bound_validator_text;
pub use bound_validator::completes;
pub use contextual_fn_validator_adapter::prepare_text_with_context;
pub use contextual_fn_validator_adapter::prepare_typed_with_context;
pub use contextual_text_validator_adapter::prepare_contextual_text_validator;
pub use contextual_typed_validator_adapter::prepare_contextual_typed_validator;
pub use dependency_spec::DependencySpec;
pub use execution_error::ExecutionError;
pub use execution_error_kind::ExecutionErrorKind;
pub use input_type::InputType;
pub use input_type::shape_accepts;
pub use internal::ContextualTextValidatorAdapter;
pub use internal::ContextualTypedValidatorAdapter;
pub use internal::TextContextFnAdapter;
pub use internal::TextValidatorAdapter;
pub use internal::TypedContextFnAdapter;
pub use internal::TypedValidatorAdapter;
pub use internal::is_type_mismatch;
pub use internal::mapper_total;
pub use internal::reports_verdict;
pub use internal::text_call_total;
pub use internal::typed_call_total;
pub use named_validation_dependency::NamedValidationDependency;
pub use prepared_outcome::PreparedOutcome;
pub use prepared_outcome::bound_drafts;
pub use prepared_outcome::is_bound_outcome;
pub use prepared_outcome::prepared_protocol_error;
pub use prepared_outcome::valid_or_one_draft;
pub use prepared_validator::PrepareFn;
pub use prepared_validator::PreparedValidator;
pub use rule_outcome::RuleOutcome;
pub use text_validator_adapter::prepare_text_validator;
pub use type_identity::AnyRef;
pub use typed_validator_adapter::prepare_typed_validator;
pub use validation_outcome::ValidationOutcome;
pub use validation_value::TypedRef;
pub use validation_value::ValidationValue;
pub use violation_draft::ViolationDraft;
