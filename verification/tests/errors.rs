use hemera::error::HemeraError;

#[test]
fn each_error_has_its_sentence() {
    assert_eq!(
        HemeraError::UnknownOption("colour".to_string()).message(),
        "Unknown attribute: colour"
    );
    assert_eq!(HemeraError::ExpectedNameValuePair.message(), "Expected name-value pair");
    assert_eq!(
        HemeraError::InvalidLevelValue("trace".to_string()).message(),
        "level must be either \"debug\" or \"info\""
    );
    assert_eq!(
        HemeraError::InvalidThresholdGrammar("5x".to_string()).message(),
        "Threshold must end with 'ms', 'us', 'ns', or 's'"
    );
    assert_eq!(
        HemeraError::InvalidThresholdValue("abc".to_string()).message(),
        "Invalid threshold value: abc"
    );
    assert_eq!(
        HemeraError::UnsupportedItem("expected `fn`".to_string()).message(),
        "expected `fn`"
    );
}
