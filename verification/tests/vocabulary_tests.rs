use qubit_validator::NamedValidationArgument;
use qubit_validator::ValidationArgument;

#[test]
fn argument_variants_preserve_values_and_borrowed_slices() {
    let bools = [true, false];
    let integers = [i128::MIN, i128::MAX];
    let unsigned = [0, u128::MAX];
    let strings = ["alpha", "beta"];
    let arguments = [
        ValidationArgument::Bool(true),
        ValidationArgument::Integer(i128::MIN),
        ValidationArgument::Unsigned(u128::MAX),
        ValidationArgument::String("value"),
        ValidationArgument::BoolList(&bools),
        ValidationArgument::IntegerList(&integers),
        ValidationArgument::UnsignedList(&unsigned),
        ValidationArgument::StringList(&strings),
    ];

    assert!(arguments[0] == ValidationArgument::Bool(true));
    assert!(arguments[1] == ValidationArgument::Integer(i128::MIN));
    assert!(arguments[2] == ValidationArgument::Unsigned(u128::MAX));
    assert!(arguments[3] == ValidationArgument::String("value"));
    assert!(arguments[4] == ValidationArgument::BoolList(&bools));
    assert!(arguments[5] == ValidationArgument::IntegerList(&integers));
    assert!(arguments[6] == ValidationArgument::UnsignedList(&unsigned));
    assert!(arguments[7] == ValidationArgument::StringList(&strings));
}

/// The redacted description of a list of arguments, in the shape of a
/// debug-formatted slice.
fn describe(values: &[ValidationArgument<'_>]) -> String {
    let parts: Vec<String> = values.iter().map(|value| value.redacted()).collect();
    format!("[{}]", parts.join(", "))
}

#[test]
fn argument_debug_redacts_scalar_values_and_only_reports_list_lengths() {
    let values = [
        ValidationArgument::Bool(true),
        ValidationArgument::Integer(-918273645),
        ValidationArgument::Unsigned(918273645),
        ValidationArgument::String("private-value"),
        ValidationArgument::BoolList(&[true, false]),
        ValidationArgument::IntegerList(&[-1, 2]),
        ValidationArgument::UnsignedList(&[3, 4]),
        ValidationArgument::StringList(&["first-private", "second-private"]),
    ];
    let output = describe(&values);

    for secret in ["918273645", "private-value", "first-private", "second-private"] {
        assert!(!output.contains(secret), "debug output leaked {secret}");
    }
    assert!(output.contains("Bool(<redacted>)"));
    assert!(output.contains("Integer(<redacted>)"));
    assert!(output.contains("Unsigned(<redacted>)"));
    assert!(output.contains("String(<redacted>)"));
    assert!(output.contains("len: 2"));
}

#[test]
fn named_argument_borrows_name_and_value_but_redacts_both_in_debug() {
    let argument = NamedValidationArgument::new("private-name", ValidationArgument::String("private-value"));

    assert_eq!(argument.name(), "private-name");
    assert!(argument.value() == ValidationArgument::String("private-value"));
    let output = argument.redacted();
    assert!(!output.contains("private-name"));
    assert!(!output.contains("private-value"));
}

#[test]
fn list_arguments_report_exact_lengths() {
    let many = [1u128, 2, 3, 4, 5, 6, 7, 8, 9, 10, 11, 12];
    assert_eq!(ValidationArgument::UnsignedList(&many).redacted(), "UnsignedList { len: 12 }");
    assert_eq!(ValidationArgument::BoolList(&[]).redacted(), "BoolList { len: 0 }");
    assert_eq!(ValidationArgument::StringList(&["a"]).redacted(), "StringList { len: 1 }");
    assert_eq!(ValidationArgument::IntegerList(&[-5, 5, 0]).redacted(), "IntegerList { len: 3 }");
}

#[test]
fn named_argument_description_shows_only_the_redacted_value() {
    let argument = NamedValidationArgument::new("limit", ValidationArgument::Unsigned(7));
    assert_eq!(argument.redacted(), "NamedValidationArgument { value: Unsigned(<redacted>) }");
}
