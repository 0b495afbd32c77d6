use qubit_validator::prepare_contextual_text_validator;
use qubit_validator::prepare_text_with_context;
use qubit_validator::prepare_typed_validator;
use qubit_validator::prepare_typed_with_context;
use qubit_validator::ArgumentReader;
use qubit_validator::BindError;
use qubit_validator::BindErrorKind;
use qubit_validator::BoundValidationContext;
use qubit_validator::BoundValidator;
use qubit_validator::DependencySpec;
use qubit_validator::ExecutionError;
use qubit_validator::ExecutionErrorKind;
use qubit_validator::InputType;
use qubit_validator::NamedValidationDependency;
use qubit_validator::NamedValidationArgument;
use qubit_validator::PrepareFn;
use qubit_validator::PreparedOutcome;
use qubit_validator::PreparedValidator;
use qubit_validator::SkipReason;
use qubit_validator::ValidationArgument;
use qubit_validator::ValidationOutcome;
use qubit_validator::ValidationOutcomeError;
use qubit_validator::ValidationPath;
use qubit_validator::ValidationValue;
use qubit_validator::Validator;
use qubit_validator::ValidatorDescriptor;
use qubit_validator::ValidatorId;
use qubit_validator::ValidatorSignature;
use qubit_validator::Violation;
use qubit_validator::ViolationCode;
use qubit_validator::ViolationDraft;
use qubit_validator::ViolationParam;

fn leak<T>(values: Vec<T>) -> &'static [T] {
    Box::leak(values.into_boxed_slice())
}

#[test]
fn reader_reads_each_parameter_once() {
    let args = [NamedValidationArgument::new("limit", ValidationArgument::Unsigned(10))];
    let mut reader = ArgumentReader::new(&args).ok().expect("distinct names");
    assert_eq!(reader.required_u32("limit").ok(), Some(10));
    let error = reader.required_u32("limit").err().expect("a parameter cannot be read twice");
    assert_eq!(error.kind(), BindErrorKind::ParameterAlreadyConsumed);
    assert_eq!(error.parameter(), Some("limit"));
    assert!(reader.finish().is_ok());
}

#[test]
fn reader_rejects_duplicate_names() {
    let args = [
        NamedValidationArgument::new("a", ValidationArgument::Bool(true)),
        NamedValidationArgument::new("b", ValidationArgument::Bool(true)),
        NamedValidationArgument::new("a", ValidationArgument::Bool(false)),
    ];
    let error = ArgumentReader::new(&args).err().expect("duplicate name");
    assert_eq!(error.kind(), BindErrorKind::DuplicateParameter);
    assert_eq!(error.parameter(), Some("a"));
}

#[test]
fn reader_decodes_u32_exactly() {
    let args = [
        NamedValidationArgument::new("signed", ValidationArgument::Integer(42)),
        NamedValidationArgument::new("negative", ValidationArgument::Integer(-1)),
        NamedValidationArgument::new("huge", ValidationArgument::Unsigned(u128::from(u32::MAX) + 1)),
        NamedValidationArgument::new("text", ValidationArgument::String("7")),
        NamedValidationArgument::new("max", ValidationArgument::Unsigned(u128::from(u32::MAX))),
    ];
    let mut reader = ArgumentReader::new(&args).ok().expect("distinct names");
    assert_eq!(reader.required_u32("signed").ok(), Some(42));
    assert_eq!(reader.required_u32("negative").err().map(|e| e.kind()), Some(BindErrorKind::ParameterOutOfRange));
    assert_eq!(reader.optional_u32("huge").err().map(|e| e.kind()), Some(BindErrorKind::ParameterOutOfRange));
    assert_eq!(reader.required_u32("text").err().map(|e| e.kind()), Some(BindErrorKind::ParameterTypeMismatch));
    assert_eq!(reader.optional_u32("max").ok(), Some(Some(u32::MAX)));
    assert_eq!(reader.optional_u32("absent").ok(), Some(None));
    assert_eq!(reader.required_u32("absent").err().map(|e| e.kind()), Some(BindErrorKind::MissingParameter));
    assert!(reader.finish().is_ok());
}

#[test]
fn reader_finish_names_the_first_unread_parameter() {
    let args = [
        NamedValidationArgument::new("read", ValidationArgument::Bool(true)),
        NamedValidationArgument::new("first", ValidationArgument::String("x")),
        NamedValidationArgument::new("second", ValidationArgument::Bool(false)),
    ];
    let mut reader = ArgumentReader::new(&args).ok().expect("distinct names");
    assert_eq!(reader.redacted(), "ArgumentReader { argument_count: 3 }");
    assert_eq!(reader.optional_bool("read").ok(), Some(Some(true)));
    let error = reader.finish().err().expect("two parameters are unread");
    assert_eq!(error.kind(), BindErrorKind::UnknownParameter);
    assert_eq!(error.parameter(), Some("first"));
    assert_eq!(reader.required_str("first").ok(), Some("x"));
    assert_eq!(reader.optional_bool("second").ok(), Some(Some(false)));
    assert!(reader.finish().is_ok());
}

#[test]
fn reader_type_errors_still_consume() {
    let args = [NamedValidationArgument::new("flag", ValidationArgument::Unsigned(1))];
    let mut reader = ArgumentReader::new(&args).ok().expect("distinct names");
    assert_eq!(reader.optional_bool("flag").err().map(|e| e.kind()), Some(BindErrorKind::ParameterTypeMismatch));
    assert!(reader.finish().is_ok());
    assert_eq!(
        reader.required_str("flag").err().map(|e| e.kind()),
        Some(BindErrorKind::ParameterAlreadyConsumed)
    );
}

#[test]
fn bind_error_text_and_fields() {
    let error = BindError::new(BindErrorKind::MissingRule)
        .with_rule(ValidatorId::new("text.rule"))
        .with_parameter("limit")
        .with_dependency("credential");
    assert_eq!(error.kind(), BindErrorKind::MissingRule);
    assert_eq!(error.rule_id(), Some(ValidatorId::new("text.rule")));
    assert_eq!(error.parameter(), Some("limit"));
    assert_eq!(error.dependency(), Some("credential"));
    assert_eq!(error.to_string(), "validation binding failed: missing rule");
    assert_eq!(BindErrorKind::ParameterAlreadyConsumed.to_string(), "parameter already consumed");
}

#[test]
fn execution_error_text_and_fields() {
    let error = ExecutionError::new(ExecutionErrorKind::TraversalLimit)
        .with_rule(ValidatorId::new("a.b"))
        .with_dependency("slot")
        .with_path(ValidationPath::root().with_field("user"));
    assert_eq!(error.kind(), ExecutionErrorKind::TraversalLimit);
    assert_eq!(error.rule_id(), Some(ValidatorId::new("a.b")));
    assert_eq!(error.dependency(), Some("slot"));
    assert_eq!(error.path().render(), "user");
    assert_eq!(error.to_string(), "validation execution failed: traversal limit exceeded");
}

#[test]
fn input_types_match_exact_types() {
    let number = 7u32;
    let value = ValidationValue::from_typed(&number);
    assert!(InputType::of::<u32>().accepts(value));
    assert!(!InputType::of::<u64>().accepts(value));
    assert!(!InputType::Text.accepts(value));
    assert!(InputType::Text.accepts(ValidationValue::Text("x")));
    assert!(!InputType::Text.accepts(ValidationValue::Missing));
    assert_eq!(value.input_type(), Some(InputType::of::<u32>()));
    assert_eq!(value.typed::<u32>(), Some(&7));
    assert_eq!(value.typed::<u64>(), None);
    assert!(InputType::of::<u32>().same(InputType::of::<u32>()));
    assert!(!InputType::of::<u32>().same(InputType::of::<i32>()));
}

#[test]
fn context_reads_slots_by_shape() {
    let number = 5u8;
    let values = [ValidationValue::Text("a"), ValidationValue::from_typed(&number), ValidationValue::Missing];
    let context = BoundValidationContext::new(&values);
    assert_eq!(context.text(0).ok(), Some("a"));
    assert_eq!(context.typed::<u8>(1).ok(), Some(&5));
    assert_eq!(context.optional_typed::<u8>(2).ok(), Some(None));
    assert_eq!(context.text(1).err().map(|e| e.kind()), Some(ExecutionErrorKind::DependencyTypeMismatch));
    assert_eq!(
        context.text(2).err().map(|e| e.kind()),
        Some(ExecutionErrorKind::MissingRequiredDependencyValue)
    );
    assert_eq!(context.value(3).err().map(|e| e.kind()), Some(ExecutionErrorKind::AdapterContractViolation));
    assert_eq!(context.dependency_path(0).ok().map(|p| p.render()), Some(String::new()));
}

#[test]
fn context_paths_must_match_values() {
    let values = [ValidationValue::Text("a")];
    let paths = [ValidationPath::root().with_field("b"), ValidationPath::root()];
    let error = BoundValidationContext::new_with_paths(&values, &paths).err().expect("lengths differ");
    assert_eq!(error.kind(), ExecutionErrorKind::AdapterContractViolation);
    let context = BoundValidationContext::new_with_paths(&values, &paths[..1]).ok().expect("same length");
    assert_eq!(context.dependency_path(0).ok().map(|p| p.render()), Some(String::from("b")));
}

#[test]
fn context_check_specs_reports_the_first_failing_slot() {
    let values = [ValidationValue::Text("a"), ValidationValue::Missing];
    let context = BoundValidationContext::new(&values);
    let optional = [DependencySpec::new("first", InputType::Text, false), DependencySpec::new("second", InputType::Text, true)];
    assert!(context.check_specs(&optional).is_ok());
    let required = [DependencySpec::new("first", InputType::Text, false), DependencySpec::new("second", InputType::Text, false)];
    let error = context.check_specs(&required).err().expect("second slot is missing");
    assert_eq!(error.kind(), ExecutionErrorKind::MissingRequiredDependencyValue);
    assert_eq!(error.dependency(), Some("second"));
}

struct Even;

impl Validator<u32> for Even {
    type Error = u32;

    fn accepts(&self, value: &u32, _context: &()) -> bool {
        value % 2 == 0
    }

    fn rejects(&self, value: &u32, _context: &(), error: u32) -> bool {
        error == *value
    }

    fn validate(&self, value: &u32, _context: &()) -> Result<(), Self::Error> {
        if value % 2 == 0 {
            Ok(())
        } else {
            Err(*value)
        }
    }
}

fn even_bound() -> BoundValidator {
    let prepared = prepare_typed_validator::<u32, _, _>(Even, |_| {
        ViolationDraft::new(ViolationCode::new("number.odd")).with_param("parity", ViolationParam::Token("odd"))
    });
    BoundValidator::from_prepared::<u32>(ValidatorId::new("number.even"), Box::new(prepared))
}

#[test]
fn bound_typed_validator_checks_input_shape() {
    let bound = even_bound();
    let context = BoundValidationContext::new(&[]);
    let four = 4u32;
    let five = 5u32;
    let wide = 4u64;
    assert_eq!(bound.validate(ValidationValue::from_typed(&four), &context).ok(), Some(ValidationOutcome::Valid));
    match bound.validate(ValidationValue::from_typed(&five), &context) {
        Ok(ValidationOutcome::Invalid(violations)) => {
            assert_eq!(violations.len(), 1);
            assert_eq!(violations[0].code().as_str(), "number.odd");
            assert_eq!(violations[0].params().get("parity"), Some(ViolationParam::Token("odd")));
        },
        _ => panic!("odd numbers are invalid"),
    }
    let error = bound.validate(ValidationValue::from_typed(&wide), &context).err().expect("u64 is refused");
    assert_eq!(error.kind(), ExecutionErrorKind::InputTypeMismatch);
    assert_eq!(error.rule_id(), Some(ValidatorId::new("number.even")));
    let error = bound.validate(ValidationValue::Missing, &context).err().expect("missing is refused");
    assert_eq!(error.kind(), ExecutionErrorKind::InputTypeMismatch);
    let values = [ValidationValue::Text("extra")];
    let error = bound
        .validate(ValidationValue::from_typed(&four), &BoundValidationContext::new(&values))
        .err()
        .expect("no slots were declared");
    assert_eq!(error.kind(), ExecutionErrorKind::AdapterContractViolation);
}

#[test]
fn bound_validator_completes_prepared_results() {
    let bound = even_bound();
    let rule = ValidatorId::new("number.even");
    assert_eq!(bound.complete(Ok(PreparedOutcome::valid())).ok(), Some(ValidationOutcome::Valid));
    let error = bound
        .complete(Err(ExecutionError::new(ExecutionErrorKind::ExternalFailure)))
        .err()
        .expect("errors pass through");
    assert_eq!(error.kind(), ExecutionErrorKind::ExternalFailure);
    assert_eq!(error.rule_id(), Some(rule));
    let error = bound.complete(Ok(PreparedOutcome::Invalid(Vec::new()))).err().expect("empty invalid outcome");
    assert_eq!(error.kind(), ExecutionErrorKind::AdapterContractViolation);
}

#[test]
fn prepared_outcomes_bind_to_the_rule() {
    let rule = ValidatorId::new("text.rule");
    let drafts = vec![
        ViolationDraft::new(ViolationCode::new("text.a")),
        ViolationDraft::new(ViolationCode::new("text.b")).with_path(ValidationPath::root().with_index(2)),
    ];
    let outcome = PreparedOutcome::invalid(drafts).ok().expect("non-empty");
    match outcome.into_bound(rule) {
        Ok(ValidationOutcome::Invalid(violations)) => {
            assert_eq!(violations.len(), 2);
            assert_eq!(violations[0].code().as_str(), "text.a");
            assert_eq!(violations[1].path().render(), "[2]");
            assert_eq!(violations[1].rule_id(), rule);
        },
        _ => panic!("invalid outcomes stay invalid"),
    }
    assert_eq!(PreparedOutcome::invalid(Vec::new()).err(), Some(ValidationOutcomeError::EmptyViolations));
    assert_eq!(PreparedOutcome::missing_optional().into_bound(rule).ok(), Some(ValidationOutcome::missing_optional()));
    assert_eq!(
        PreparedOutcome::failed_prerequisite(Vec::new()).err(),
        Some(ValidationOutcomeError::EmptyPrerequisites)
    );
    let prerequisite = Violation::new(rule, ViolationCode::new("text.a"));
    match ValidationOutcome::failed_prerequisite(vec![prerequisite]) {
        Ok(ValidationOutcome::Skipped { reason, prerequisites }) => {
            assert_eq!(reason, SkipReason::FailedPrerequisite);
            assert_eq!(prerequisites.len(), 1);
        },
        _ => panic!("one prerequisite"),
    }
}

#[test]
fn text_context_functions_read_dependencies() {
    let prepared = prepare_text_with_context(|value: &str, context: &BoundValidationContext<'_>| {
        let minimum = context.text(0)?;
        if value.len() >= minimum.len() {
            Ok(PreparedOutcome::valid())
        } else {
            Ok(PreparedOutcome::invalid(vec![ViolationDraft::new(ViolationCode::new("text.short"))]).ok().expect("one draft"))
        }
    });
    let values = [ValidationValue::Text("abc")];
    let context = BoundValidationContext::new(&values);
    assert!(prepared.validate(ValidationValue::Text("abcd"), &context).ok() == Some(PreparedOutcome::Valid));
    assert!(matches!(prepared.validate(ValidationValue::Text("ab"), &context), Ok(PreparedOutcome::Invalid(_))));
    assert!(prepared.validate(ValidationValue::Missing, &context).is_err());
}

#[test]
fn typed_context_functions_read_dependencies() {
    let prepared = prepare_typed_with_context::<u32, _>(|value: &u32, context: &BoundValidationContext<'_>| {
        let limit = context.typed::<u32>(0)?;
        Ok(if value <= limit { PreparedOutcome::valid() } else { PreparedOutcome::missing_optional() })
    });
    let limit = 10u32;
    let values = [ValidationValue::from_typed(&limit)];
    let context = BoundValidationContext::new(&values);
    let small = 3u32;
    let large = 30u32;
    assert!(prepared.validate(ValidationValue::from_typed(&small), &context).ok() == Some(PreparedOutcome::Valid));
    assert!(matches!(
        prepared.validate(ValidationValue::from_typed(&large), &context),
        Ok(PreparedOutcome::Skipped { reason: SkipReason::MissingOptional, .. })
    ));
    assert!(prepared.validate(ValidationValue::Text("3"), &context).is_err());
}

struct LongerThan;

impl<'a> Validator<str, BoundValidationContext<'a>> for LongerThan {
    type Error = ();

    fn accepts(&self, value: &str, context: &BoundValidationContext<'a>) -> bool {
        matches!(context.text(0), Ok(other) if value.len() > other.len())
    }

    fn rejects(&self, value: &str, context: &BoundValidationContext<'a>, _error: ()) -> bool {
        !self.accepts(value, context)
    }

    fn validate(&self, value: &str, context: &BoundValidationContext<'a>) -> Result<(), Self::Error> {
        match context.text(0) {
            Ok(other) if value.len() > other.len() => Ok(()),
            _ => Err(()),
        }
    }
}

#[test]
fn contextual_text_validators_see_the_context() {
    let prepared = prepare_contextual_text_validator(LongerThan, |_| ViolationDraft::new(ViolationCode::new("text.too_short")));
    let values = [ValidationValue::Text("ab")];
    let context = BoundValidationContext::new(&values);
    assert!(prepared.validate(ValidationValue::Text("abc"), &context).ok() == Some(PreparedOutcome::Valid));
    assert!(matches!(prepared.validate(ValidationValue::Text("a"), &context), Ok(PreparedOutcome::Invalid(_))));
}

/// A preparation reading one required text parameter.
struct PreparePrefix;

impl PrepareFn for PreparePrefix {
    fn spec_prepares(&self, _params: &[NamedValidationArgument<'_>], _result: Result<Box<dyn PreparedValidator>, BindError>) -> bool {
        true
    }

    fn prepare(&self, params: &[NamedValidationArgument<'_>]) -> Result<Box<dyn PreparedValidator>, BindError> {
        let mut reader = ArgumentReader::new(params)?;
        let _prefix = reader.required_str("prefix")?;
        reader.finish()?;
        Ok(Box::new(prepare_text_with_context(|_: &str, _: &BoundValidationContext<'_>| Ok(PreparedOutcome::valid()))))
    }
}

static PREPARE_PREFIX: PreparePrefix = PreparePrefix;

#[test]
fn signatures_describe_their_factories() {
    let dependencies = leak(vec![DependencySpec::new("credential", InputType::Text, true)]);
    let signature = ValidatorSignature::new(InputType::Text, dependencies, &PREPARE_PREFIX);
    assert_eq!(signature.input(), InputType::Text);
    assert_eq!(signature.dependencies(), dependencies);
    assert_eq!(signature.redacted(), "ValidatorSignature { input: Text, dependency_count: 1 }");
    assert_eq!(dependencies[0].name(), "credential");
    assert!(dependencies[0].optional());
    let descriptor: &'static ValidatorDescriptor = Box::leak(Box::new(ValidatorDescriptor::new(leak(vec![signature]))));
    let error = descriptor.bind(ValidatorId::new("text.prefix"), 0, &[]).err().expect("prefix is required");
    assert_eq!(error.kind(), BindErrorKind::MissingParameter);
    let params = [NamedValidationArgument::new("prefix", ValidationArgument::String("p"))];
    let bound = descriptor.bind(ValidatorId::new("text.prefix"), 0, &params).ok().expect("binds");
    assert_eq!(bound.dependency_specs(), dependencies);
    assert_eq!(bound.redacted(), "BoundValidator { rule_id: ValidatorId { id: \"text.prefix\" }, input: Text, .. }");
}

#[test]
fn descriptions_show_counts_but_no_contents() {
    let values = [ValidationValue::Text("secret"), ValidationValue::Missing];
    assert_eq!(BoundValidationContext::new(&values).redacted(), "BoundValidationContext { slot_count: 2 }");
    let path = ValidationPath::root().with_field("secret").with_index(4);
    assert_eq!(path.redacted(), "ValidationPath { segment_count: 2, .. }");
    assert_eq!(path.to_string(), "<validation-path>");
    let dependency = NamedValidationDependency::new("secret", ValidationValue::Text("secret"));
    assert_eq!(dependency.redacted(), "NamedValidationDependency { has_path: false, .. }");
    assert_eq!(dependency.with_path(&path).redacted(), "NamedValidationDependency { has_path: true, .. }");
    assert_eq!(ValidationValue::Text("secret").redacted(), "Text(<redacted>)");
    let descriptor = ValidatorDescriptor::new(leak(vec![ValidatorSignature::new(InputType::Text, &[], &PREPARE_PREFIX)]));
    assert_eq!(descriptor.redacted(), "ValidatorDescriptor { signature_count: 1 }");
}

#[test]
fn error_descriptions_hide_names_and_values() {
    let error = BindError::new(BindErrorKind::ParameterOutOfRange)
        .with_rule(ValidatorId::new("text.length"))
        .with_parameter("secret_name");
    assert_eq!(
        error.redacted(),
        "BindError { kind: ParameterOutOfRange, rule_id: Some(ValidatorId { id: \"text.length\" }), has_parameter: true, has_dependency: false }"
    );
    let error = ExecutionError::new(ExecutionErrorKind::DependencyTypeMismatch).with_dependency("secret_slot");
    assert_eq!(
        error.redacted(),
        "ExecutionError { kind: DependencyTypeMismatch, rule_id: None, has_dependency: true, .. }"
    );
    let draft = ViolationDraft::new(ViolationCode::new("text.short"))
        .with_path(ValidationPath::root().with_field("secret").with_index(1).with_index(2))
        .with_param("min", ViolationParam::Unsigned(918273645));
    let text = draft.redacted();
    assert_eq!(
        text,
        "ViolationDraft { code: ViolationCode { id: \"text.short\" }, path: ValidationPath { segment_count: 3, .. }, parameter_count: 1 }"
    );
    assert!(!text.contains("918273645"));
}

#[test]
fn typed_shapes_describe_their_type_identifier() {
    assert_eq!(InputType::Text.to_debug_string(), "Text");
    let typed = InputType::of::<u32>().to_debug_string();
    assert!(typed.starts_with("Typed("));
    assert!(typed.ends_with(")"));
    assert_eq!(typed, format!("Typed({:?})", std::any::TypeId::of::<u32>()));
    let text = even_bound().redacted();
    assert!(text.starts_with("BoundValidator { rule_id: ValidatorId { id: \"number.even\" }, input: Typed("));
    assert!(text.ends_with("), .. }"));
}
