use qubit_validator::PathSegment;
use qubit_validator::ValidationPath;
use qubit_validator::ValidatorId;
use qubit_validator::ValidatorIdError;
use qubit_validator::Violation;
use qubit_validator::ViolationCode;
use qubit_validator::ViolationCodeError;
use qubit_validator::ViolationDraft;
use qubit_validator::ViolationParam;
use qubit_validator::ViolationParams;

#[test]
fn root_path_renders_empty() {
    assert_eq!(ValidationPath::root().render(), "");
    assert!(ValidationPath::root().as_segments().is_empty());
}

#[test]
fn paths_render_fields_indexes_and_map_segments() {
    let path = ValidationPath::root()
        .with_field("users")
        .with_index(12)
        .with_field("roles")
        .with_map_entry(0)
        .with_map_key();
    assert_eq!(path.render(), "users[12].roles.<map-entry:0>.<map-key>");
    let value = ValidationPath::root().with_index(3).with_map_value().with_field("name");
    assert_eq!(value.render(), "[3].<map-value>.name");
    assert_eq!(path.as_segments().len(), 5);
    assert_eq!(path.as_segments()[1], PathSegment::Index(12));
}

#[test]
fn violation_params_keep_one_value_per_name() {
    let mut params = ViolationParams::new();
    params.insert("max", ViolationParam::Unsigned(10));
    params.insert("min", ViolationParam::Signed(-1));
    params.insert("max", ViolationParam::Unsigned(20));
    assert_eq!(params.len(), 2);
    assert_eq!(params.get("max"), Some(ViolationParam::Unsigned(20)));
    assert_eq!(params.get("min"), Some(ViolationParam::Signed(-1)));
    assert_eq!(params.get("mid"), None);
}

#[test]
fn drafts_become_violations_with_their_rule() {
    let draft = ViolationDraft::new(ViolationCode::new("text.too_long"))
        .with_path(ValidationPath::root().with_field("name"))
        .with_param("max", ViolationParam::Unsigned(8))
        .with_param("flag", ViolationParam::Bool(true));
    let violation = Violation::from_draft(ValidatorId::new("text.length"), draft);
    assert_eq!(violation.rule_id().as_str(), "text.length");
    assert_eq!(violation.code().as_str(), "text.too_long");
    assert_eq!(violation.path().render(), "name");
    assert_eq!(violation.params().get("max"), Some(ViolationParam::Unsigned(8)));
    assert_eq!(violation.params().len(), 2);
    let bare = Violation::new(ValidatorId::new("a"), ViolationCode::new("b.c"));
    assert_eq!(bare.path().render(), "");
    assert_eq!(bare.params().len(), 0);
}

#[test]
fn identifiers_follow_the_dotted_protocol() {
    assert_eq!(ValidatorId::try_new("text.non_blank").map(|id| id.as_str()), Ok("text.non_blank"));
    assert_eq!(ValidatorId::try_new("a1.b_2.c").map(|id| id.as_str()), Ok("a1.b_2.c"));
    assert_eq!(ValidatorId::try_new(""), Err(ValidatorIdError::Empty));
    assert_eq!(ValidatorId::try_new("text..blank"), Err(ValidatorIdError::EmptySegment));
    assert_eq!(ValidatorId::try_new("text."), Err(ValidatorIdError::EmptySegment));
    assert_eq!(ValidatorId::try_new("1text"), Err(ValidatorIdError::InvalidSegment));
    assert_eq!(ValidatorId::try_new("text.non-blank"), Err(ValidatorIdError::InvalidSegment));
}

#[test]
fn violation_codes_follow_the_dotted_protocol() {
    assert_eq!(ViolationCode::try_new("text.blank").map(|code| code.as_str()), Ok("text.blank"));
    assert_eq!(ViolationCode::try_new(""), Err(ViolationCodeError::Empty));
    assert_eq!(ViolationCode::try_new(".blank"), Err(ViolationCodeError::EmptySegment));
    assert_eq!(ViolationCode::try_new("text._blank"), Err(ViolationCodeError::InvalidSegment));
}
