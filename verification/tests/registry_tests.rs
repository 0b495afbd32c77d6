use qubit_validator::prepare_text_validator;
use qubit_validator::TextOrder;
use qubit_validator::ArgumentReader;
use qubit_validator::BindError;
use qubit_validator::BindErrorKind;
use qubit_validator::BoundValidationContext;
use qubit_validator::DependencySpec;
use qubit_validator::InputType;
use qubit_validator::NamedValidationArgument;
use qubit_validator::PrepareFn;
use qubit_validator::PreparedValidator;
use qubit_validator::RegistrationSource;
use qubit_validator::ValidationArgument;
use qubit_validator::ValidationOutcome;
use qubit_validator::ValidationValue;
use qubit_validator::Validator;
use qubit_validator::ValidatorDescriptor;
use qubit_validator::ValidatorId;
use qubit_validator::ValidatorRegistration;
use qubit_validator::ValidatorRegistry;
use qubit_validator::ValidatorRegistryError;
use qubit_validator::ValidatorSignature;
use qubit_validator::ViolationCode;
use qubit_validator::ViolationDraft;

struct NonBlank;

impl Validator<str> for NonBlank {
    type Error = ();

    fn accepts(&self, value: &str, _context: &()) -> bool {
        !value.trim().is_empty()
    }

    fn rejects(&self, value: &str, context: &(), _error: ()) -> bool {
        !self.accepts(value, context)
    }

    fn validate(&self, value: &str, _context: &()) -> Result<(), Self::Error> {
        if value.trim().is_empty() {
            Err(())
        } else {
            Ok(())
        }
    }
}

/// Prepares `NonBlank`, which takes no parameters.
struct PrepareNonBlank;

impl PrepareFn for PrepareNonBlank {
    fn spec_prepares(&self, _params: &[NamedValidationArgument<'_>], _result: Result<Box<dyn PreparedValidator>, BindError>) -> bool {
        true
    }

    fn prepare(&self, params: &[NamedValidationArgument<'_>]) -> Result<Box<dyn PreparedValidator>, BindError> {
        ArgumentReader::new(params)?.finish()?;
        Ok(Box::new(prepare_text_validator(NonBlank, |_| ViolationDraft::new(ViolationCode::new("text.blank")))))
    }
}

static PREPARE_NON_BLANK: PrepareNonBlank = PrepareNonBlank;

/// A preparation that always refuses its parameters.
struct PrepareRefusing;

impl PrepareFn for PrepareRefusing {
    fn spec_prepares(&self, _params: &[NamedValidationArgument<'_>], _result: Result<Box<dyn PreparedValidator>, BindError>) -> bool {
        true
    }

    fn prepare(&self, _params: &[NamedValidationArgument<'_>]) -> Result<Box<dyn PreparedValidator>, BindError> {
        Err(BindError::new(BindErrorKind::InvalidBounds))
    }
}

static PREPARE_REFUSING: PrepareRefusing = PrepareRefusing;

fn leak<T>(values: Vec<T>) -> &'static [T] {
    Box::leak(values.into_boxed_slice())
}

fn text_signature(dependencies: &'static [DependencySpec]) -> ValidatorSignature {
    ValidatorSignature::new(InputType::Text, dependencies, &PREPARE_NON_BLANK)
}

fn descriptor(signatures: Vec<ValidatorSignature>) -> &'static ValidatorDescriptor {
    Box::leak(Box::new(ValidatorDescriptor::new(leak(signatures))))
}

fn non_blank_descriptor() -> &'static ValidatorDescriptor {
    descriptor(vec![text_signature(&[])])
}

fn source(file: &'static str, line: u32) -> RegistrationSource {
    RegistrationSource::new("tests", "registry_tests", file, line)
}

fn registration(id: &'static str, descriptor: &'static ValidatorDescriptor, line: u32) -> ValidatorRegistration {
    ValidatorRegistration::new(ValidatorId::new(id), descriptor, source("a.rs", line))
}

#[test]
fn descriptor_try_new_accepts_a_single_signature() {
    let signatures = leak(vec![text_signature(&[])]);
    let descriptor = ValidatorDescriptor::try_new(signatures).ok().expect("valid descriptor");
    assert_eq!(descriptor.signatures().len(), 1);
}

#[test]
fn descriptor_try_new_rejects_empty_signatures() {
    let error = ValidatorDescriptor::try_new(&[]).err().expect("empty descriptors are refused");
    assert_eq!(error.kind(), BindErrorKind::InvalidDeclaration);
    assert_eq!(error.dependency(), None);
}

#[test]
fn descriptor_try_new_rejects_two_signatures_for_one_input() {
    let signatures = leak(vec![text_signature(&[]), text_signature(&[])]);
    let error = ValidatorDescriptor::try_new(signatures).err().expect("ambiguous descriptors are refused");
    assert_eq!(error.kind(), BindErrorKind::AmbiguousSignature);
}

#[test]
fn descriptor_try_new_names_a_repeated_dependency() {
    let dependencies = leak(vec![
        DependencySpec::new("minimum", InputType::Text, false),
        DependencySpec::new("maximum", InputType::Text, false),
        DependencySpec::new("minimum", InputType::Text, true),
    ]);
    let signatures = leak(vec![text_signature(dependencies)]);
    let error = ValidatorDescriptor::try_new(signatures).err().expect("repeated names are refused");
    assert_eq!(error.kind(), BindErrorKind::InvalidDeclaration);
    assert_eq!(error.dependency(), Some("minimum"));
}

#[test]
fn descriptor_bind_checks_the_selection_index() {
    let descriptor = non_blank_descriptor();
    let error = descriptor.bind(ValidatorId::new("text.non_blank"), 1, &[]).err().expect("no second signature");
    assert_eq!(error.kind(), BindErrorKind::InvalidSelection);
    let bound = descriptor.bind(ValidatorId::new("text.non_blank"), 0, &[]).ok().expect("first signature binds");
    assert_eq!(bound.rule_id(), ValidatorId::new("text.non_blank"));
    assert_eq!(bound.input_type(), InputType::Text);
}

#[test]
fn descriptor_bind_for_selects_the_signature_of_the_input() {
    let dependencies = leak(vec![DependencySpec::new("credential", InputType::Text, false)]);
    let descriptor = descriptor(vec![
        ValidatorSignature::new(InputType::of::<u32>(), &[], &PREPARE_NON_BLANK),
        text_signature(dependencies),
    ]);
    let bound = descriptor
        .bind_for(ValidatorId::new("text.checked"), InputType::Text, &[])
        .ok()
        .expect("text signature binds");
    assert_eq!(bound.dependency_specs(), dependencies);
    let error = descriptor
        .bind_for(ValidatorId::new("text.checked"), InputType::of::<u64>(), &[])
        .err()
        .expect("no signature accepts u64");
    assert_eq!(error.kind(), BindErrorKind::UnsupportedInput);
}

#[test]
fn descriptor_bind_returns_the_preparation_error() {
    let descriptor = descriptor(vec![ValidatorSignature::new(InputType::Text, &[], &PREPARE_REFUSING)]);
    let error = descriptor.bind(ValidatorId::new("text.refused"), 0, &[]).err().expect("preparation refuses");
    assert_eq!(error.kind(), BindErrorKind::InvalidBounds);
}

#[test]
fn descriptor_bind_passes_parameters_to_the_preparation() {
    let descriptor = non_blank_descriptor();
    let params = [NamedValidationArgument::new("unexpected", ValidationArgument::Bool(true))];
    let error = descriptor.bind(ValidatorId::new("text.non_blank"), 0, &params).err().expect("unknown parameter");
    assert_eq!(error.kind(), BindErrorKind::UnknownParameter);
    assert_eq!(error.parameter(), Some("unexpected"));
}

#[test]
fn empty_registry_has_no_registrations() {
    let registry = ValidatorRegistry::empty();
    assert!(registry.registrations().is_empty());
    assert!(registry.get("example.unknown").is_none());
}

#[test]
fn registry_sorts_registrations_by_identifier() {
    let shared = non_blank_descriptor();
    let registry = ValidatorRegistry::from_registrations(vec![
        registration("text.zeta", shared, 1),
        registration("text.alpha", shared, 2),
        registration("text.mid", shared, 3),
    ])
    .ok()
    .expect("distinct identifiers");
    let ids: Vec<&str> = registry.registrations().iter().map(|r| r.id().as_str()).collect();
    assert_eq!(ids, vec!["text.alpha", "text.mid", "text.zeta"]);
}

#[test]
fn registry_order_does_not_depend_on_input_order() {
    let shared = non_blank_descriptor();
    let first = ValidatorRegistry::from_registrations(vec![
        registration("b.rule", shared, 1),
        registration("a.rule", shared, 2),
        registration("c.rule", shared, 3),
    ])
    .ok()
    .expect("distinct identifiers");
    let second = ValidatorRegistry::from_registrations(vec![
        registration("c.rule", shared, 3),
        registration("b.rule", shared, 1),
        registration("a.rule", shared, 2),
    ])
    .ok()
    .expect("distinct identifiers");
    let left: Vec<(&str, u32)> = first.registrations().iter().map(|r| (r.id().as_str(), r.source().line())).collect();
    let right: Vec<(&str, u32)> = second.registrations().iter().map(|r| (r.id().as_str(), r.source().line())).collect();
    assert_eq!(left, right);
}

#[test]
fn registry_finds_each_registration_by_identifier() {
    let shared = non_blank_descriptor();
    let registry = ValidatorRegistry::from_registrations(vec![
        registration("text.one", shared, 10),
        registration("text.two", shared, 20),
        registration("text.three", shared, 30),
    ])
    .ok()
    .expect("distinct identifiers");
    assert_eq!(registry.get("text.one").map(|r| r.source().line()), Some(10));
    assert_eq!(registry.get("text.two").map(|r| r.source().line()), Some(20));
    assert_eq!(registry.get("text.three").map(|r| r.source().line()), Some(30));
    assert!(registry.get("text.four").is_none());
    assert!(registry.get("").is_none());
}

#[test]
fn registry_reports_every_source_of_the_smallest_duplicate() {
    let shared = non_blank_descriptor();
    let result = ValidatorRegistry::from_registrations(vec![
        ValidatorRegistration::new(ValidatorId::new("z.dup"), shared, source("z.rs", 1)),
        ValidatorRegistration::new(ValidatorId::new("a.dup"), shared, source("b.rs", 7)),
        ValidatorRegistration::new(ValidatorId::new("unique"), shared, source("c.rs", 1)),
        ValidatorRegistration::new(ValidatorId::new("a.dup"), shared, source("a.rs", 9)),
        ValidatorRegistration::new(ValidatorId::new("z.dup"), shared, source("z.rs", 2)),
    ]);
    match result {
        Err(ValidatorRegistryError::DuplicateId { id, sources }) => {
            assert_eq!(id, "a.dup");
            assert_eq!(sources, vec![source("a.rs", 9), source("b.rs", 7)]);
        },
        _ => panic!("expected a duplicate identifier"),
    }
}

#[test]
fn registry_reports_the_invalid_descriptor_with_the_smallest_identifier() {
    let shared = non_blank_descriptor();
    let empty = descriptor(Vec::new());
    let ambiguous = descriptor(vec![text_signature(&[]), text_signature(&[])]);
    let result = ValidatorRegistry::from_registrations(vec![
        registration("text.valid", shared, 1),
        registration("text.zz", empty, 2),
        registration("text.bad", ambiguous, 3),
    ]);
    match result {
        Err(ValidatorRegistryError::InvalidDescriptor { id, registration_source, kind }) => {
            assert_eq!(id, ValidatorId::new("text.bad"));
            assert_eq!(registration_source.line(), 3);
            assert_eq!(kind, BindErrorKind::AmbiguousSignature);
        },
        _ => panic!("expected an invalid descriptor"),
    }
}

#[test]
fn registry_reports_duplicates_before_invalid_descriptors() {
    let shared = non_blank_descriptor();
    let empty = descriptor(Vec::new());
    let result = ValidatorRegistry::from_registrations(vec![
        registration("a.invalid", empty, 1),
        registration("b.dup", shared, 2),
        registration("b.dup", shared, 3),
    ]);
    assert!(matches!(result, Err(ValidatorRegistryError::DuplicateId { id: "b.dup", .. })));
}

#[test]
fn registry_error_text_names_the_identifier() {
    let error = ValidatorRegistryError::DuplicateId { id: "a.dup", sources: Vec::new() };
    assert_eq!(error.to_string(), "duplicate validator id: a.dup");
    let error = ValidatorRegistryError::InvalidDescriptor {
        id: ValidatorId::new("text.bad"),
        registration_source: source("a.rs", 1),
        kind: BindErrorKind::InvalidDeclaration,
    };
    assert_eq!(error.to_string(), "invalid validator descriptor text.bad: invalid declaration");
}

#[test]
fn registry_bind_reports_a_missing_rule() {
    let registry = ValidatorRegistry::empty();
    let error = registry.bind("text.unknown", InputType::Text, &[]).err().expect("nothing registered");
    assert_eq!(error.kind(), BindErrorKind::MissingRule);
    assert_eq!(error.rule_id(), None);
}

#[test]
fn registry_bind_attaches_the_rule_to_errors() {
    let registry = ValidatorRegistry::from_registrations(vec![registration("text.non_blank", non_blank_descriptor(), 1)])
        .ok()
        .expect("one registration");
    let error = registry.bind("text.non_blank", InputType::of::<u32>(), &[]).err().expect("text only");
    assert_eq!(error.kind(), BindErrorKind::UnsupportedInput);
    assert_eq!(error.rule_id(), Some(ValidatorId::new("text.non_blank")));
}

#[test]
fn registry_binds_and_validates_text() {
    let registry = ValidatorRegistry::from_registrations(vec![registration("text.non_blank", non_blank_descriptor(), 1)])
        .ok()
        .expect("one registration");
    let bound = registry.bind("text.non_blank", InputType::Text, &[]).ok().expect("binds");
    let context = BoundValidationContext::new(&[]);
    assert_eq!(bound.validate(ValidationValue::Text("Ada"), &context).ok(), Some(ValidationOutcome::Valid));
    match bound.validate(ValidationValue::Text("   "), &context) {
        Ok(ValidationOutcome::Invalid(violations)) => {
            assert_eq!(violations.len(), 1);
            assert_eq!(violations[0].code().as_str(), "text.blank");
            assert_eq!(violations[0].rule_id(), ValidatorId::new("text.non_blank"));
        },
        _ => panic!("blank text is invalid"),
    }
}

#[test]
fn registration_sources_compare_field_by_field() {
    let a = RegistrationSource::new("crate", "m", "a.rs", 5);
    let b = RegistrationSource::new("crate", "m", "a.rs", 6);
    let c = RegistrationSource::new("crate", "n", "a.rs", 1);
    assert!(a.compare(&b) == TextOrder::Less);
    assert!(b.compare(&c) == TextOrder::Less);
    assert!(c.compare(&a) == TextOrder::Greater);
    assert!(a.compare(&a) == TextOrder::Equal);
    assert_eq!(a.crate_name(), "crate");
    assert_eq!(a.module_name(), "m");
    assert_eq!(a.file(), "a.rs");
    assert_eq!(a.line(), 5);
}

#[test]
fn signatures_run_their_own_preparation() {
    let accepting = text_signature(&[]);
    assert!(accepting.run_prepare(&[]).is_ok());
    let refusing = ValidatorSignature::new(InputType::Text, &[], &PREPARE_REFUSING);
    let error = refusing.run_prepare(&[]).err().expect("this preparation refuses");
    assert_eq!(error.kind(), BindErrorKind::InvalidBounds);
}
