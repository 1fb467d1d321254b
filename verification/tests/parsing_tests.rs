use compatibility_engine::decimal::Decimal;
use compatibility_engine::normalize::normalize_boolean;
use compatibility_engine::normalize::normalize_integer;
use compatibility_engine::normalize::normalize_numeric;
use compatibility_engine::normalize::RawField;
use compatibility_engine::parse::parse_bool_from_string;
use compatibility_engine::parse::parse_decimal_from_string;
use compatibility_engine::parse::parse_i32_from_string;
use compatibility_engine::penalty::calc_penalty_internal;
use compatibility_engine::tax::calc_tax_internal;
use compatibility_engine::security::sanitize_for_error_message;
use compatibility_engine::security::validate_input_security;

#[test]
fn test_native_json_types() {
    // A caller may hand every field as a native value; normalization turns
    // each into the canonical text the parsers consume.
    assert_eq!(normalize_numeric(&RawField::Int(65000)).unwrap(), "65000");
    assert_eq!(normalize_integer(&RawField::Int(7)).unwrap(), "7");
    assert_eq!(normalize_numeric(&RawField::Int(40000)).unwrap(), "40000");
    assert_eq!(normalize_boolean(&RawField::Flag(true)).unwrap(), "true");

    let engine = compatibility_engine::engine::CompatibilityEngine::new();
    let params = compatibility_engine::engine::CheckHousingGrantParams {
        ami: normalize_numeric(&RawField::Int(65000)).unwrap(),
        household_size: normalize_integer(&RawField::Int(7)).unwrap(),
        income: normalize_numeric(&RawField::Int(40000)).unwrap(),
        has_other_subsidy: normalize_boolean(&RawField::Flag(true)).unwrap(),
    };
    let result = engine.check_housing_grant(&params);
    assert!(result.is_ok());
    assert_eq!(result.unwrap().eligible, false);
}

#[test]
fn test_mixed_types() {
    // Native values and text mixed over the same logical fields.
    assert_eq!(
        normalize_numeric(&RawField::Text("65000".to_string())).unwrap(),
        "65000"
    );
    assert_eq!(normalize_integer(&RawField::Int(7)).unwrap(), "7");
    assert_eq!(
        normalize_numeric(&RawField::Number(Decimal::from_units(40000_5000))).unwrap(),
        "40000.5"
    );
    assert_eq!(
        normalize_boolean(&RawField::Text("false".to_string())).unwrap(),
        "false"
    );
}

#[test]
fn test_all_parameter_types_with_numbers() {
    assert_eq!(
        normalize_numeric(&RawField::Number(Decimal::from_units(12_5000))).unwrap(),
        "12.5"
    );
    assert_eq!(normalize_numeric(&RawField::Int(50000)).unwrap(), "50000");
    assert_eq!(normalize_integer(&RawField::Int(100)).unwrap(), "100");
    assert_eq!(normalize_integer(&RawField::Int(75)).unwrap(), "75");
    assert_eq!(normalize_integer(&RawField::Int(60)).unwrap(), "60");
    assert_eq!(
        normalize_numeric(&RawField::Number(Decimal::from_int(15000000))).unwrap(),
        "15000000"
    );
    assert_eq!(normalize_numeric(&RawField::Int(8000000)).unwrap(), "8000000");
    assert_eq!(
        normalize_numeric(&RawField::Number(Decimal::from_units(10000000_5000))).unwrap(),
        "10000000.5"
    );
}

#[test]
fn test_float_to_int_conversion_error() {
    // A number with a non-zero fractional part cannot fill an integer field.
    let result = normalize_integer(&RawField::Number(Decimal::from_units(100_5000)));
    assert!(result.is_err());
    assert!(result.unwrap_err().contains("Expected integer, got float"));
}

#[test]
fn test_end_to_end_with_native_types() {
    let engine = compatibility_engine::engine::CompatibilityEngine::new();
    let params = compatibility_engine::engine::CheckHousingGrantParams {
        ami: normalize_numeric(&RawField::Int(65000)).unwrap(),
        household_size: normalize_integer(&RawField::Int(7)).unwrap(),
        income: normalize_numeric(&RawField::Int(40000)).unwrap(),
        has_other_subsidy: normalize_boolean(&RawField::Flag(true)).unwrap(),
    };
    let result = engine.check_housing_grant(&params);
    assert!(result.is_ok());
    assert_eq!(result.unwrap().eligible, false);
}

#[test]
fn test_exact_terminal_log_scenario() {
    // The four fields as native values, normalized to their canonical text.
    assert_eq!(normalize_numeric(&RawField::Int(65000)).unwrap(), "65000");
    assert_eq!(normalize_boolean(&RawField::Flag(true)).unwrap(), "true");
    assert_eq!(normalize_integer(&RawField::Int(7)).unwrap(), "7");
    assert_eq!(normalize_numeric(&RawField::Int(40000)).unwrap(), "40000");
}

#[test]
fn test_scenario_2_from_terminal_log() {
    assert_eq!(normalize_numeric(&RawField::Int(55000)).unwrap(), "55000");
    assert_eq!(normalize_boolean(&RawField::Flag(false)).unwrap(), "false");
    assert_eq!(normalize_integer(&RawField::Int(2)).unwrap(), "2");
    assert_eq!(normalize_numeric(&RawField::Int(32000)).unwrap(), "32000");
}

#[test]
fn test_parse_decimal_formats() {
    assert_eq!(parse_decimal_from_string("12").unwrap(), Decimal::from_int(12));
    assert_eq!(parse_decimal_from_string("12.5").unwrap(), Decimal::from_units(12_5000));
    assert_eq!(parse_decimal_from_string("-3.25").unwrap(), Decimal::from_units(-3_2500));
    assert_eq!(parse_decimal_from_string("+7").unwrap(), Decimal::from_int(7));
    assert_eq!(parse_decimal_from_string(".5").unwrap(), Decimal::from_units(5000));
    assert_eq!(parse_decimal_from_string("5.").unwrap(), Decimal::from_int(5));
    assert_eq!(
        parse_decimal_from_string("$1,234.56").unwrap(),
        Decimal::from_units(1234_5600)
    );
    assert_eq!(parse_decimal_from_string("100%").unwrap(), Decimal::from_int(100));
    assert_eq!(parse_decimal_from_string("12.5000").unwrap(), Decimal::from_units(12_5000));
}

#[test]
fn test_parse_decimal_rejections() {
    assert!(parse_decimal_from_string(".").is_err());
    assert!(parse_decimal_from_string("+").is_err());
    assert!(parse_decimal_from_string("1.2.3").is_err());
    assert!(parse_decimal_from_string("1e5").is_err());
    assert!(parse_decimal_from_string("0.00001").is_err());
    let err = parse_decimal_from_string("12.34567").unwrap_err();
    assert!(err.contains("Invalid number"));
}

#[test]
fn test_parse_i32_formats() {
    assert_eq!(parse_i32_from_string("1,234").unwrap(), 1234);
    assert_eq!(parse_i32_from_string("-17").unwrap(), -17);
    assert_eq!(parse_i32_from_string("+5").unwrap(), 5);
    assert_eq!(parse_i32_from_string("2147483647").unwrap(), 2147483647);
    assert_eq!(parse_i32_from_string("-2147483648").unwrap(), -2147483648);
}

#[test]
fn test_parse_i32_rejections() {
    assert!(parse_i32_from_string("2147483648").is_err());
    assert!(parse_i32_from_string("-2147483649").is_err());
    assert!(parse_i32_from_string("12.5").is_err());
    assert!(parse_i32_from_string("abc").is_err());
    let err = parse_i32_from_string("99999999999999999999").unwrap_err();
    assert!(err.contains("as an integer"));
}

#[test]
fn test_parse_bool_rejection_lists_options() {
    let err = parse_bool_from_string("perhaps").unwrap_err();
    assert!(err.contains("Cannot parse 'perhaps' as a boolean"));
    assert!(err.contains("expected: true/false, yes/no, 1/0, etc."));
}

#[test]
fn test_sanitizer_truncates_and_masks() {
    let long = "a".repeat(60);
    let sanitized = sanitize_for_error_message(&long);
    assert_eq!(sanitized, format!("{}...", "a".repeat(47)));

    assert_eq!(sanitize_for_error_message("tab\there"), "tab here");
    assert_eq!(sanitize_for_error_message("say \"hi\""), "say ?hi?");
    assert_eq!(sanitize_for_error_message("<b>\\`'"), "?b????");
    assert_eq!(sanitize_for_error_message("plain text 123"), "plain text 123");
    assert_eq!(sanitize_for_error_message("ünïcode"), "?n?code");
}

#[test]
fn test_validate_input_security_limits() {
    assert!(validate_input_security("ordinary", "number").is_ok());
    assert!(validate_input_security("two\tcontrol\nchars", "number").is_ok());

    let too_long = "x".repeat(101);
    let err = validate_input_security(&too_long, "number").unwrap_err();
    assert_eq!(err, "Invalid number: input too long (max 100 characters)");

    let err = validate_input_security("a\0b", "integer").unwrap_err();
    assert_eq!(err, "Invalid integer: input contains null bytes");

    let err = validate_input_security("a\x01\x02\x03b", "boolean").unwrap_err();
    assert_eq!(
        err,
        "Invalid boolean: input contains too many control characters"
    );
}

#[test]
fn test_sanitizer_boundary_at_fifty() {
    let exactly_fifty = "b".repeat(50);
    assert_eq!(sanitize_for_error_message(&exactly_fifty), exactly_fifty);

    let fifty_one = "b".repeat(51);
    assert_eq!(sanitize_for_error_message(&fifty_one), format!("{}...", "b".repeat(47)));
}

#[test]
fn test_tax_bracket_configuration_errors() {
    // One threshold but only one rate: the count must exceed by one.
    let thresholds = vec![Decimal::from_int(10000)];
    let rates = vec![Decimal::from_units(1000)];
    let response = calc_tax_internal(
        Decimal::from_int(40000),
        &thresholds,
        &rates,
        Decimal::from_int(5000),
        Decimal::from_units(200),
    );
    assert_eq!(response.tax, Decimal::from_int(0));
    assert!(response
        .errors
        .iter()
        .any(|e| e == "Invalid bracket configuration: 1 rates for 1 thresholds (should be 2 rates)"));

    // Thresholds out of order.
    let thresholds = vec![Decimal::from_int(20000), Decimal::from_int(10000)];
    let rates = vec![
        Decimal::from_units(1000),
        Decimal::from_units(2000),
        Decimal::from_units(3000),
    ];
    let response = calc_tax_internal(
        Decimal::from_int(40000),
        &thresholds,
        &rates,
        Decimal::from_int(5000),
        Decimal::from_units(200),
    );
    assert_eq!(response.tax, Decimal::from_int(0));
    assert!(response
        .errors
        .iter()
        .any(|e| e == "Tax thresholds must be in ascending order"));
}

#[test]
fn test_penalty_negative_configuration_errors() {
    let response = calc_penalty_internal(
        Decimal::from_int(12),
        Decimal::from_int(-100),
        Decimal::from_int(-1000),
        Decimal::from_units(-500),
    );
    assert_eq!(response.penalty, Decimal::from_int(0));
    assert_eq!(response.explanation, "Calculation failed due to invalid inputs");
    assert_eq!(
        response.errors,
        vec![
            "Rate per day cannot be negative".to_string(),
            "Cap cannot be negative".to_string(),
            "Interest rate cannot be negative".to_string(),
        ]
    );
    assert!(response.warnings.is_empty());
}

#[test]
fn test_penalty_zero_days() {
    let engine = compatibility_engine::engine::CompatibilityEngine::new();
    let params = compatibility_engine::engine::CalcPenaltyParams {
        days_late: "0".to_string(),
    };
    let response = engine.calc_penalty(&params).unwrap();
    assert_eq!(response.penalty, Decimal::from_int(0));
    assert!(response.explanation.contains("Base penalty: 0 days × 100 = 0.00"));
}
