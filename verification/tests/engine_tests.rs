use compatibility_engine::engine::CalcPenaltyParams;
use compatibility_engine::engine::CalcTaxParams;
use compatibility_engine::engine::CheckHousingGrantParams;
use compatibility_engine::engine::CheckVotingParams;
use compatibility_engine::engine::CompatibilityEngine;
use compatibility_engine::engine::DistributeWaterfallParams;
use compatibility_engine::decimal::Decimal;

#[test]
fn test_calc_penalty() {
    let engine = CompatibilityEngine::new();
    let params = CalcPenaltyParams { days_late: "12".to_string() };

    let result = engine.calc_penalty(&params);
    assert!(result.is_ok());
    let response = result.unwrap();

    // Expected: min(12 * 100, 1000) = 1000, then 1000 + (1000 * 0.05) = 1050
    assert_eq!(response.penalty, Decimal::from_int(1050));
    assert!(response.errors.is_empty());
    assert!(response.explanation.contains("Applied cap"));
    assert!(response.explanation.contains("Interest"));
}

#[test]
fn test_calc_tax() {
    let engine = CompatibilityEngine::new();
    let params = CalcTaxParams { income: "40000".to_string() };

    let result = engine.calc_tax(&params);
    assert!(result.is_ok());
    let response = result.unwrap();

    // Expected: 10000 * 0.10 + 30000 * 0.20 = 1000 + 6000 = 7000
    // Surcharge: 7000 > 5000, so 7000 + (7000 * 0.02) = 7140
    assert_eq!(response.tax, Decimal::from_int(7140));
    assert!(response.errors.is_empty());
    assert!(response.explanation.contains("Bracket 1"));
    assert!(response.explanation.contains("Surcharge applied"));
}

#[test]
fn test_check_voting_amendment_passes() {
    let engine = CompatibilityEngine::new();
    let params = CheckVotingParams {
        eligible_voters: "100".to_string(),
        turnout: "70".to_string(),
        yes_votes: "55".to_string(),
        proposal_type: "amendment".to_string(),
    };

    let result = engine.check_voting(&params);
    assert!(result.is_ok());
    let response = result.unwrap();

    // Expected: turnout = 70%, yes% = 55/70 = 78.6% >= 66.7%, passes
    assert_eq!(response.passes, true);
    assert!(response.errors.is_empty());
    assert!(response.explanation.contains("70.0%"));
    assert!(response.explanation.contains("PASSED"));
}

#[test]
fn test_distribute_waterfall() {
    let engine = CompatibilityEngine::new();
    let params = DistributeWaterfallParams {
        cash_available: "15000000".to_string(),
        senior_debt: "8000000".to_string(),
        junior_debt: "10000000".to_string(),
    };

    let result = engine.distribute_waterfall(&params);
    assert!(result.is_ok());
    let response = result.unwrap();

    // Expected: senior = 8M, junior = 7M, equity = 0
    assert_eq!(response.distribution.senior, Decimal::from_int(8_000_000));
    assert_eq!(response.distribution.junior, Decimal::from_int(7_000_000));
    assert_eq!(response.distribution.equity, Decimal::from_int(0));
    assert!(response.errors.is_empty());
    assert!(response.explanation.contains("Senior debt: 8000000.00 fully paid"));
    assert!(response.explanation.contains("Junior debt: 7000000.00 partially paid"));
}

#[test]
fn test_check_housing_grant_eligible() {
    let engine = CompatibilityEngine::new();
    let params = CheckHousingGrantParams {
        ami: "50000".to_string(),
        household_size: "5".to_string(),
        income: "32000".to_string(),
        has_other_subsidy: "false".to_string(),
    };

    let result = engine.check_housing_grant(&params);
    assert!(result.is_ok());
    let response = result.unwrap();

    // Expected: threshold = 0.60 * 50000 * 1.10 = 33000, income 32000 <= 33000
    assert_eq!(response.eligible, true);
    assert!(response.errors.is_empty());
    assert!(response.explanation.contains("5 > 4, threshold increased by 10%"));
    assert!(response.explanation.contains("ELIGIBLE"));
}

#[test]
fn test_check_housing_grant_not_eligible_income() {
    let engine = CompatibilityEngine::new();
    let params = CheckHousingGrantParams {
        ami: "50000".to_string(),
        household_size: "5".to_string(),
        income: "34000".to_string(),
        has_other_subsidy: "false".to_string(),
    };

    let result = engine.check_housing_grant(&params);
    assert!(result.is_ok());
    let response = result.unwrap();

    // Expected: threshold = 33000, income 34000 > 33000, not eligible
    assert_eq!(response.eligible, false);
    assert!(response.errors.is_empty());
    assert!(response.explanation.contains("NOT ELIGIBLE"));
}

#[test]
fn test_check_housing_grant_not_eligible_subsidy() {
    let engine = CompatibilityEngine::new();
    let params = CheckHousingGrantParams {
        ami: "50000".to_string(),
        household_size: "5".to_string(),
        income: "32000".to_string(),
        has_other_subsidy: "true".to_string(),
    };

    let result = engine.check_housing_grant(&params);
    assert!(result.is_ok());
    let response = result.unwrap();

    // Expected: has other subsidy, not eligible regardless of income
    assert_eq!(response.eligible, false);
    assert!(response.errors.is_empty());
    assert!(response.explanation.contains("already has another subsidy"));
    assert!(!response.additional_requirements.is_empty());
}

#[test]
fn test_calc_penalty_with_errors() {
    let engine = CompatibilityEngine::new();
    let params = CalcPenaltyParams { days_late: "-5".to_string() };

    let result = engine.calc_penalty(&params);
    assert!(result.is_err());
    let error_text = result.unwrap_err();
    assert!(
        error_text.contains("Days late cannot be negative")
            || error_text.contains("Calculation errors")
    );
}

#[test]
fn test_calc_tax_invalid_brackets() {
    // The default configuration is valid, so a plain calculation succeeds.
    let engine = CompatibilityEngine::new();
    let params = CalcTaxParams { income: "40000".to_string() };

    let result = engine.calc_tax(&params);
    assert!(result.is_ok());
    let response = result.unwrap();
    assert!(response.errors.is_empty());
}

#[test]
fn test_check_voting_invalid_proposal_type() {
    let engine = CompatibilityEngine::new();
    let params = CheckVotingParams {
        eligible_voters: "100".to_string(),
        turnout: "70".to_string(),
        yes_votes: "55".to_string(),
        proposal_type: "invalid_type".to_string(),
    };

    let result = engine.check_voting(&params);
    assert!(result.is_err());
    let error_text = result.unwrap_err();
    assert!(error_text.contains("Invalid proposal type"));
}

#[test]
fn test_calc_penalty_small_amount() {
    let engine = CompatibilityEngine::new();
    let params = CalcPenaltyParams { days_late: "10".to_string() };

    let result = engine.calc_penalty(&params);
    assert!(result.is_ok());
    let response = result.unwrap();

    // Expected: min(10 * 100, 1000) = 1000, then 1000 + (1000 * 0.05) = 1050
    assert_eq!(response.penalty, Decimal::from_int(1050));
    assert!(response.errors.is_empty());
}

#[test]
fn test_calc_tax_with_surcharge() {
    let engine = CompatibilityEngine::new();
    let params = CalcTaxParams { income: "50000".to_string() };

    let result = engine.calc_tax(&params);
    assert!(result.is_ok());
    let response = result.unwrap();

    // Expected: 10000 * 0.10 + 40000 * 0.20 = 9000; 9000 + 2% = 9180
    assert_eq!(response.tax, Decimal::from_int(9180));
    assert!(response.errors.is_empty());
}

#[test]
fn test_string_parsing_with_commas() {
    let engine = CompatibilityEngine::new();
    let params = CalcTaxParams { income: "40,000.00".to_string() };

    let result = engine.calc_tax(&params);
    assert!(result.is_ok());
    let response = result.unwrap();

    assert_eq!(response.tax, Decimal::from_int(7140));
    assert!(response.errors.is_empty());
}

#[test]
fn test_string_parsing_with_dollar_sign() {
    let engine = CompatibilityEngine::new();
    let params = DistributeWaterfallParams {
        cash_available: "$15,000,000".to_string(),
        senior_debt: "$8000000".to_string(),
        junior_debt: "$10,000,000.00".to_string(),
    };

    let result = engine.distribute_waterfall(&params);
    assert!(result.is_ok());
    let response = result.unwrap();

    assert_eq!(response.distribution.senior, Decimal::from_int(8_000_000));
    assert_eq!(response.distribution.junior, Decimal::from_int(7_000_000));
    assert_eq!(response.distribution.equity, Decimal::from_int(0));
    assert!(response.errors.is_empty());
}

#[test]
fn test_string_parsing_invalid_format() {
    let engine = CompatibilityEngine::new();
    let params = CalcPenaltyParams { days_late: "not-a-number".to_string() };

    let result = engine.calc_penalty(&params);
    assert!(result.is_err());
    let error_text = result.unwrap_err();
    assert!(error_text.contains("Invalid days_late parameter"));
    assert!(error_text.contains("Cannot parse 'not-a-number' as a number"));
}

#[test]
fn test_string_parsing_empty_string() {
    let engine = CompatibilityEngine::new();
    let params = CheckVotingParams {
        eligible_voters: "".to_string(),
        turnout: "70".to_string(),
        yes_votes: "55".to_string(),
        proposal_type: "general".to_string(),
    };

    let result = engine.check_voting(&params);
    assert!(result.is_err());
    let error_text = result.unwrap_err();
    assert!(error_text.contains("Invalid eligible_voters parameter"));
    assert!(error_text.contains("Empty string cannot be parsed"));
}

#[test]
fn test_string_parsing_with_whitespace() {
    let engine = CompatibilityEngine::new();
    let params = CalcPenaltyParams { days_late: "  12.5  ".to_string() };

    let result = engine.calc_penalty(&params);
    assert!(result.is_ok());
    let response = result.unwrap();

    assert!(response.penalty.units > 0);
    assert!(response.errors.is_empty());
}

#[test]
fn test_security_input_length_limit() {
    let engine = CompatibilityEngine::new();
    let long_string = "1".repeat(101);
    let params = CalcPenaltyParams { days_late: long_string };

    let result = engine.calc_penalty(&params);
    assert!(result.is_err());
    let error_text = result.unwrap_err();
    assert!(error_text.contains("input too long"));
    assert!(error_text.contains("max 100 characters"));
}

#[test]
fn test_security_json_injection_prevention() {
    let engine = CompatibilityEngine::new();
    let params = CalcPenaltyParams { days_late: r#"12", "malicious": "payload"#.to_string() };

    let result = engine.calc_penalty(&params);
    assert!(result.is_err());
    let error_text = result.unwrap_err();

    assert!(!error_text.contains(r#""malicious""#));
    assert!(error_text.contains("12?, ?malicious?: ?payload"));
}

#[test]
fn test_security_xss_prevention() {
    let engine = CompatibilityEngine::new();
    let params = CalcPenaltyParams { days_late: "<script>alert('xss')</script>".to_string() };

    let result = engine.calc_penalty(&params);
    assert!(result.is_err());
    let error_text = result.unwrap_err();

    assert!(!error_text.contains("<script>"));
    assert!(!error_text.contains("</script>"));
    assert!(error_text.contains("?script?"));
}

#[test]
fn test_security_newline_injection_prevention() {
    let engine = CompatibilityEngine::new();
    let params = CalcPenaltyParams {
        days_late: "12\n\nFAKE LOG ENTRY: Unauthorized access".to_string(),
    };

    let result = engine.calc_penalty(&params);
    assert!(result.is_err());
    let error_text = result.unwrap_err();

    assert!(!error_text.contains('\n'));
    assert!(error_text.contains("12  FAKE LOG ENTRY"));
}

#[test]
fn test_security_null_byte_prevention() {
    let engine = CompatibilityEngine::new();
    let params = CalcPenaltyParams { days_late: "12\0malicious".to_string() };

    let result = engine.calc_penalty(&params);
    assert!(result.is_err());
    let error_text = result.unwrap_err();

    assert!(error_text.contains("null bytes"));
}

#[test]
fn test_security_control_character_limit() {
    let engine = CompatibilityEngine::new();
    let malicious_input = "12\x01\x02\x03\x04\x05evil";
    let params = CalcPenaltyParams { days_late: malicious_input.to_string() };

    let result = engine.calc_penalty(&params);
    assert!(result.is_err());
    let error_text = result.unwrap_err();

    assert!(error_text.contains("too many control characters"));
}

#[test]
fn test_security_length_truncation_in_error() {
    let engine = CompatibilityEngine::new();
    // About 60 characters of invalid input: over the 50-character display
    // limit but under the 100-character input limit.
    let long_invalid = "not-a-number-".repeat(4) + "extra-text";
    let params = CalcPenaltyParams { days_late: long_invalid };

    let result = engine.calc_penalty(&params);
    assert!(result.is_err());
    let error_text = result.unwrap_err();

    assert!(error_text.contains("..."));
    assert!(error_text.len() < 200);
}

#[test]
fn test_security_backslash_sanitization() {
    let engine = CompatibilityEngine::new();
    let params = CalcPenaltyParams { days_late: r#"12\"malicious\"payload"#.to_string() };

    let result = engine.calc_penalty(&params);
    assert!(result.is_err());
    let error_text = result.unwrap_err();

    assert!(!error_text.contains(r#"\""#));
    assert!(error_text.contains("12??malicious??payload"));
}

#[test]
fn test_boolean_parsing_variations() {
    let engine = CompatibilityEngine::new();

    for true_value in ["true", "TRUE", "True", "t", "T", "yes", "YES", "y", "Y", "1", "on", "ON"] {
        let params = CheckHousingGrantParams {
            ami: "50000".to_string(),
            household_size: "3".to_string(),
            income: "25000".to_string(),
            has_other_subsidy: true_value.to_string(),
        };

        let result = engine.check_housing_grant(&params);
        assert!(result.is_ok());
        let response = result.unwrap();

        assert_eq!(response.eligible, false);
        assert!(response.explanation.contains("already has another subsidy"));
    }

    for false_value in ["false", "FALSE", "False", "f", "F", "no", "NO", "n", "N", "0", "off", "OFF"]
    {
        let params = CheckHousingGrantParams {
            ami: "50000".to_string(),
            household_size: "3".to_string(),
            income: "25000".to_string(),
            has_other_subsidy: false_value.to_string(),
        };

        let result = engine.check_housing_grant(&params);
        assert!(result.is_ok());
        let response = result.unwrap();

        assert_eq!(response.eligible, true);
    }
}

#[test]
fn test_boolean_parsing_invalid() {
    let engine = CompatibilityEngine::new();
    let params = CheckHousingGrantParams {
        ami: "50000".to_string(),
        household_size: "3".to_string(),
        income: "32000".to_string(),
        has_other_subsidy: "maybe".to_string(),
    };

    let result = engine.check_housing_grant(&params);
    assert!(result.is_err());
    let error_text = result.unwrap_err();

    assert!(error_text.contains("Invalid has_other_subsidy parameter"));
    assert!(error_text.contains("Cannot parse 'maybe' as a boolean"));
}

#[test]
fn test_boolean_parsing_empty_string() {
    let engine = CompatibilityEngine::new();
    let params = CheckHousingGrantParams {
        ami: "50000".to_string(),
        household_size: "3".to_string(),
        income: "32000".to_string(),
        has_other_subsidy: "".to_string(),
    };

    let result = engine.check_housing_grant(&params);
    assert!(result.is_err());
    let error_text = result.unwrap_err();

    assert!(error_text.contains("Invalid has_other_subsidy parameter"));
    assert!(error_text.contains("Empty string cannot be parsed as boolean"));
}

#[test]
fn test_llm_generated_boolean_strings() {
    let engine = CompatibilityEngine::new();
    let params = CheckHousingGrantParams {
        ami: "65000".to_string(),
        household_size: "7".to_string(),
        income: "40000".to_string(),
        has_other_subsidy: "true".to_string(),
    };

    let result = engine.check_housing_grant(&params);
    assert!(result.is_ok());
    let response = result.unwrap();

    assert_eq!(response.eligible, false);
    assert!(response.explanation.contains("already has another subsidy"));
}

#[test]
fn test_voting_low_turnout_fails() {
    let engine = CompatibilityEngine::new();
    let params = CheckVotingParams {
        eligible_voters: "100".to_string(),
        turnout: "59".to_string(),
        yes_votes: "59".to_string(),
        proposal_type: "general".to_string(),
    };

    let result = engine.check_voting(&params);
    assert!(result.is_ok());
    let response = result.unwrap();

    assert_eq!(response.passes, false);
    assert!(response.explanation.contains("insufficient turnout"));
    assert!(response.warnings.is_empty());
}

#[test]
fn test_voting_general_strict_majority() {
    let engine = CompatibilityEngine::new();
    // Exactly half the votes: a general proposal needs a strict majority.
    let params = CheckVotingParams {
        eligible_voters: "100".to_string(),
        turnout: "80".to_string(),
        yes_votes: "40".to_string(),
        proposal_type: "general".to_string(),
    };

    let result = engine.check_voting(&params);
    assert!(result.is_ok());
    let response = result.unwrap();
    assert_eq!(response.passes, false);

    let params = CheckVotingParams {
        eligible_voters: "100".to_string(),
        turnout: "80".to_string(),
        yes_votes: "41".to_string(),
        proposal_type: "general".to_string(),
    };
    let response = engine.check_voting(&params).unwrap();
    assert_eq!(response.passes, true);
}

#[test]
fn test_voting_amendment_two_thirds_boundary() {
    let engine = CompatibilityEngine::new();
    // 40 of 60 is exactly two thirds: an amendment passes at the boundary.
    let params = CheckVotingParams {
        eligible_voters: "100".to_string(),
        turnout: "60".to_string(),
        yes_votes: "40".to_string(),
        proposal_type: "amendment".to_string(),
    };
    let response = engine.check_voting(&params).unwrap();
    assert_eq!(response.passes, true);

    let params = CheckVotingParams {
        eligible_voters: "100".to_string(),
        turnout: "60".to_string(),
        yes_votes: "39".to_string(),
        proposal_type: "amendment".to_string(),
    };
    let response = engine.check_voting(&params).unwrap();
    assert_eq!(response.passes, false);
}

#[test]
fn test_voting_multiple_errors_collected() {
    let engine = CompatibilityEngine::new();
    let params = CheckVotingParams {
        eligible_voters: "0".to_string(),
        turnout: "-1".to_string(),
        yes_votes: "-1".to_string(),
        proposal_type: "neither".to_string(),
    };

    let result = engine.check_voting(&params);
    assert!(result.is_err());
    let error_text = result.unwrap_err();
    assert!(error_text.contains("Validation errors: "));
    assert!(error_text.contains("Eligible voters must be positive"));
    assert!(error_text.contains("Turnout cannot be negative"));
    assert!(error_text.contains("Yes votes cannot be negative"));
    assert!(error_text.contains("Invalid proposal type"));
}

#[test]
fn test_waterfall_surplus_goes_to_equity() {
    let engine = CompatibilityEngine::new();
    let params = DistributeWaterfallParams {
        cash_available: "100".to_string(),
        senior_debt: "30".to_string(),
        junior_debt: "20".to_string(),
    };

    let response = engine.distribute_waterfall(&params).unwrap();
    assert_eq!(response.distribution.senior, Decimal::from_int(30));
    assert_eq!(response.distribution.junior, Decimal::from_int(20));
    assert_eq!(response.distribution.equity, Decimal::from_int(50));
    assert!(response.warnings.is_empty());
    assert!(response.explanation.contains("Equity distribution: 50.00"));
}

#[test]
fn test_waterfall_negative_inputs_rejected() {
    let engine = CompatibilityEngine::new();
    let params = DistributeWaterfallParams {
        cash_available: "-1".to_string(),
        senior_debt: "-2".to_string(),
        junior_debt: "-3".to_string(),
    };

    let result = engine.distribute_waterfall(&params);
    assert!(result.is_err());
    let error_text = result.unwrap_err();
    assert!(error_text.contains("Cash available cannot be negative"));
    assert!(error_text.contains("Senior debt cannot be negative"));
    assert!(error_text.contains("Junior debt cannot be negative"));
}

#[test]
fn test_penalty_no_cap_applied() {
    let engine = CompatibilityEngine::new();
    let params = CalcPenaltyParams { days_late: "5".to_string() };

    let response = engine.calc_penalty(&params).unwrap();
    // base 5 * 100 = 500 under the cap; interest 5% of 500 = 25
    assert_eq!(response.penalty, Decimal::from_units(525_0000));
    assert!(response.explanation.contains("No cap applied"));
    assert!(response.warnings.is_empty());
}

#[test]
fn test_penalty_fractional_days() {
    let engine = CompatibilityEngine::new();
    let params = CalcPenaltyParams { days_late: "2.5".to_string() };

    let response = engine.calc_penalty(&params).unwrap();
    // base 2.5 * 100 = 250; interest 12.50; final 262.50
    assert_eq!(response.penalty, Decimal::from_units(262_5000));
    assert!(response.explanation.contains("Base penalty: 2.5 days × 100 = 250.00"));
}

#[test]
fn test_tax_below_first_threshold() {
    let engine = CompatibilityEngine::new();
    let params = CalcTaxParams { income: "8000".to_string() };

    let response = engine.calc_tax(&params).unwrap();
    // 8000 at 10% = 800, no surcharge (800 <= 5000)
    assert_eq!(response.tax, Decimal::from_int(800));
    assert!(response.explanation.contains("No surcharge"));
}

#[test]
fn test_housing_grant_small_household_threshold() {
    let engine = CompatibilityEngine::new();
    let params = CheckHousingGrantParams {
        ami: "50000".to_string(),
        household_size: "4".to_string(),
        income: "30000".to_string(),
        has_other_subsidy: "false".to_string(),
    };

    let response = engine.check_housing_grant(&params).unwrap();
    // threshold 0.60 * 50000 = 30000 with no adjustment; 30000 <= 30000
    assert_eq!(response.eligible, true);
    assert!(response.explanation.contains("No household size adjustment needed (4 ≤ 4)"));
}

#[test]
fn test_housing_grant_near_threshold_note() {
    let engine = CompatibilityEngine::new();
    let params = CheckHousingGrantParams {
        ami: "50000".to_string(),
        household_size: "2".to_string(),
        income: "29000".to_string(),
        has_other_subsidy: "false".to_string(),
    };

    let response = engine.check_housing_grant(&params).unwrap();
    // threshold 30000; 29000 > 0.9 * 30000 = 27000 draws the note
    assert_eq!(response.eligible, true);
    assert!(response
        .additional_requirements
        .iter()
        .any(|r| r.contains("close to threshold")));
}

#[test]
fn test_identical_runs_identical_responses() {
    let engine = CompatibilityEngine::new();

    let penalty_params = CalcPenaltyParams { days_late: "12.5".to_string() };
    assert_eq!(
        engine.calc_penalty(&penalty_params),
        engine.calc_penalty(&penalty_params)
    );

    let tax_params = CalcTaxParams { income: "40000".to_string() };
    assert_eq!(engine.calc_tax(&tax_params), engine.calc_tax(&tax_params));

    let voting_params = CheckVotingParams {
        eligible_voters: "100".to_string(),
        turnout: "70".to_string(),
        yes_votes: "55".to_string(),
        proposal_type: "amendment".to_string(),
    };
    assert_eq!(
        engine.check_voting(&voting_params),
        engine.check_voting(&voting_params)
    );

    let waterfall_params = DistributeWaterfallParams {
        cash_available: "15000000".to_string(),
        senior_debt: "8000000".to_string(),
        junior_debt: "10000000".to_string(),
    };
    assert_eq!(
        engine.distribute_waterfall(&waterfall_params),
        engine.distribute_waterfall(&waterfall_params)
    );

    let housing_params = CheckHousingGrantParams {
        ami: "50000".to_string(),
        household_size: "5".to_string(),
        income: "32000".to_string(),
        has_other_subsidy: "false".to_string(),
    };
    assert_eq!(
        engine.check_housing_grant(&housing_params),
        engine.check_housing_grant(&housing_params)
    );
}
