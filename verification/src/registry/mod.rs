//! Validator registration and registry.

mod registration_source;
mod registry_order;
mod validator_descriptor;
mod validator_registration;
mod validator_registry;
mod validator_signature;

pub use registration_source::lemma_source_lt_asymmetric;
pub use registration_source::lemma_source_lt_transitive;
pub use registration_source::same_source;
pub use registration_source::source_lt;
pub use registration_source::text_then;
pub use registration_source::RegistrationSource;
pub use registry_order::arranged;
pub use registry_order::declared_twice;
pub use registry_order::descriptor_invalid;
pub use registry_order::descriptors_valid;
pub use registry_order::first_invalid_registration;
pub use registry_order::has_duplicate_id;
pub use registry_order::has_invalid_descriptor;
pub use registry_order::id_bytes;
pub use registry_order::ids_increasing;
pub use registry_order::least_duplicate_id;
pub use registry_order::lemma_arrangement_unique;
pub use registry_order::lemma_registered_found;
pub use registry_order::registration_lt;
pub use registry_order::sources_ordered;
pub use registry_order::sources_with_id;
pub use validator_descriptor::binds;
pub use validator_descriptor::binds_with;
pub use validator_descriptor::binds_with_rule;
pub use validator_descriptor::declaration_error_view;
pub use validator_descriptor::definition_error;
pub use validator_descriptor::dependency_error;
pub use validator_descriptor::first_signature_error;
pub use validator_descriptor::has_unnamed_dependency;
pub use validator_descriptor::input_declared_before;
pub use validator_descriptor::lemma_declared_dependencies_named;
pub use validator_descriptor::lemma_selected_signature_unique;
pub use validator_descriptor::lemma_unnamed_dependency_rejected;
pub use validator_descriptor::name_declared_before;
pub use validator_descriptor::repeated_dependency_from;
pub use validator_descriptor::signature_error;
pub use validator_descriptor::signature_for;
pub use validator_descriptor::signature_for_from;
pub use validator_descriptor::ValidatorDescriptor;
pub use validator_registration::ValidatorRegistration;
pub use validator_registry::ValidatorRegistry;
pub use validator_signature::ValidatorSignature;
