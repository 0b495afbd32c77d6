//! Type-safe validation traits and immutable validator registries.
//!
//! Rules are ordinary typed [`Validator`]s. A rule configured by named
//! parameters is prepared once ([`PreparedValidator`]), bound to a stable
//! identifier and an input signature ([`BoundValidator`]), and run against
//! erased values with ordered dependency slots. A [`ValidatorRegistry`] keeps
//! one definition per identifier in a deterministic order.

mod argument;
mod binding;
mod internal;
mod registry;
mod report;
mod validator;
mod validator_id;
mod validator_id_error;
mod validator_registry_error;
mod violation_code;
mod violation_code_error;

pub use internal::text::TextOrder;
pub use internal::lemma_dotted_identifier_accepted;

pub use argument::lemma_named_redaction_hides_names;
pub use argument::lemma_redaction_hides_values;
pub use argument::same_shape;
pub use argument::NamedValidationArgument;
pub use argument::ValidationArgument;
pub use binding::bound_drafts;
pub use binding::bound_validator_text;
pub use binding::completes;
pub use binding::consumed_after;
pub use binding::decode_u32;
pub use binding::first_duplicate;
pub use binding::first_failing_slot;
pub use binding::lemma_first_rejected_slot;
pub use binding::lemma_slots_pass;
pub use binding::first_unconsumed;
pub use binding::is_bound_outcome;
pub use binding::lemma_parameter_read_once;
pub use binding::lemma_u32_reads_exactly;
pub use binding::is_type_mismatch;
pub use binding::mapper_total;
pub use binding::name_index;
pub use binding::names_distinct;
pub use binding::parameter_error;
pub use binding::prepare_contextual_text_validator;
pub use binding::prepare_contextual_typed_validator;
pub use binding::prepare_text_validator;
pub use binding::prepare_text_with_context;
pub use binding::prepare_typed_validator;
pub use binding::prepare_typed_with_context;
pub use binding::prepared_protocol_error;
pub use binding::repeats_earlier_name;
pub use binding::reports_verdict;
pub use binding::shape_accepts;
pub use binding::slot_failure;
pub use binding::take_result;
pub use binding::text_call_total;
pub use binding::typed_call_total;
pub use binding::valid_or_one_draft;
pub use binding::ArgumentReader;
pub use binding::BindError;
pub use binding::BindErrorKind;
pub use binding::BoundValidationContext;
pub use binding::BoundValidator;
pub use binding::ContextualTextValidatorAdapter;
pub use binding::ContextualTypedValidatorAdapter;
pub use binding::DependencySpec;
pub use binding::ExecutionError;
pub use binding::ExecutionErrorKind;
pub use binding::InputType;
pub use binding::NamedValidationDependency;
pub use binding::PrepareFn;
pub use binding::PreparedOutcome;
pub use binding::PreparedValidator;
pub use binding::RuleOutcome;
pub use binding::TextContextFnAdapter;
pub use binding::TextValidatorAdapter;
pub use binding::TypedContextFnAdapter;
pub use binding::TypedRef;
pub use binding::TypedValidatorAdapter;
pub use binding::ValidationOutcome;
pub use binding::ValidationValue;
pub use binding::ViolationDraft;
pub use registry::arranged;
pub use registry::binds;
pub use registry::binds_with;
pub use registry::binds_with_rule;
pub use registry::declaration_error_view;
pub use registry::declared_twice;
pub use registry::definition_error;
pub use registry::dependency_error;
pub use registry::descriptor_invalid;
pub use registry::descriptors_valid;
pub use registry::first_invalid_registration;
pub use registry::has_duplicate_id;
pub use registry::has_invalid_descriptor;
pub use registry::id_bytes;
pub use registry::ids_increasing;
pub use registry::least_duplicate_id;
pub use registry::lemma_arrangement_unique;
pub use registry::lemma_registered_found;
pub use registry::lemma_declared_dependencies_named;
pub use registry::lemma_selected_signature_unique;
pub use registry::lemma_unnamed_dependency_rejected;
pub use registry::registration_lt;
pub use registry::same_source;
pub use registry::signature_for;
pub use registry::source_lt;
pub use registry::sources_ordered;
pub use registry::sources_with_id;
pub use registry::RegistrationSource;
pub use registry::ValidatorDescriptor;
pub use registry::ValidatorRegistration;
pub use registry::ValidatorRegistry;
pub use registry::ValidatorSignature;
pub use report::lemma_render_appends;
pub use report::lemma_two_fields_render;
pub use report::render_segments;
pub use report::PathSegment;
pub use report::SegmentView;
pub use report::SkipReason;
pub use report::ValidationOutcomeError;
pub use report::ValidationPath;
pub use report::Violation;
pub use report::ViolationParam;
pub use report::ViolationParams;
pub use validator::Validator;
pub use validator_id::ValidatorId;
pub use validator_id_error::ValidatorIdError;
pub use validator_registry_error::ValidatorRegistryError;
pub use violation_code::ViolationCode;
pub use violation_code_error::ViolationCodeError;
