use shared_utils::flag_validator::{
    validate_flags, validate_flags_result, validate_flags_result_with_ultimate, FlagMode,
    FlagRequest, FlagValidation,
};

#[test]
fn test_only_recommended_combination_valid() {
    assert!(matches!(
        validate_flags(true, true, true),
        FlagValidation::Valid(FlagMode::PreciseQualityWithCompress)
    ));
}

#[test]
fn test_any_other_combination_invalid() {
    assert!(matches!(validate_flags(false, false, false), FlagValidation::Invalid(_)));
    assert!(matches!(validate_flags(false, false, true), FlagValidation::Invalid(_)));
    assert!(matches!(validate_flags(false, true, false), FlagValidation::Invalid(_)));
    assert!(matches!(validate_flags(false, true, true), FlagValidation::Invalid(_)));
    assert!(matches!(validate_flags(true, false, false), FlagValidation::Invalid(_)));
    assert!(matches!(validate_flags(true, false, true), FlagValidation::Invalid(_)));
    assert!(matches!(validate_flags(true, true, false), FlagValidation::Invalid(_)));
}

#[test]
fn test_ultimate_valid_only_with_full_combination() {
    let r = validate_flags_result_with_ultimate(FlagRequest {
        explore: true,
        match_quality: true,
        compress: true,
        ultimate: true,
    });
    assert!(r.is_ok());
    assert_eq!(r.unwrap_or_else(|e| panic!("error: {e:?}")), FlagMode::UltimateExplore);
}

#[test]
fn test_ultimate_invalid_with_incomplete() {
    assert!(validate_flags_result_with_ultimate(FlagRequest {
        explore: false,
        match_quality: false,
        compress: false,
        ultimate: true,
    })
    .is_err());
    assert!(validate_flags_result_with_ultimate(FlagRequest {
        explore: true,
        match_quality: true,
        compress: false,
        ultimate: true,
    })
    .is_err());
}

#[test]
fn test_flag_mode_display_and_descriptions() {
    assert_eq!(
        FlagMode::PreciseQualityWithCompress.to_flag_string(),
        "--explore --match-quality --compress"
    );
    assert!(FlagMode::PreciseQualityWithCompress.description_en().contains("Precise"));
    assert!(FlagMode::UltimateExplore.description_en().contains("Ultimate"));
    assert!(FlagMode::UltimateExplore.is_ultimate());
    assert!(!FlagMode::PreciseQualityWithCompress.is_ultimate());
}

#[test]
fn flag_result_reports_refusal_message() {
    let r = validate_flags_result(true, false, true);
    let msg = r.expect_err("partial combination must be refused");
    assert!(msg.contains("Only the recommended flag combination is supported"));
    assert!(msg.contains("\n💡 Omit flags"));
    assert_eq!(validate_flags_result(true, true, true).ok(), Some(FlagMode::PreciseQualityWithCompress));
}

#[test]
fn flag_mode_flag_strings() {
    assert_eq!(
        FlagMode::UltimateExplore.to_flag_string(),
        "--explore --match-quality --compress --ultimate"
    );
    assert_eq!(
        FlagMode::UltimateExplore.description_en(),
        "🔥 Ultimate explore (3D quality plateau search) [GPU+CPU]"
    );
}

#[test]
fn flag_ultimate_off_selects_precise() {
    let r = validate_flags_result_with_ultimate(FlagRequest {
        explore: true,
        match_quality: true,
        compress: true,
        ultimate: false,
    });
    assert_eq!(r.ok(), Some(FlagMode::PreciseQualityWithCompress));
}
