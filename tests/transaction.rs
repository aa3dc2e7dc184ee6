use referral_sdk::transaction::{deserialize_transaction_base64_into_transaction_details, DecodeError};

#[test]
fn test_invalid_base64() {
    let result = deserialize_transaction_base64_into_transaction_details("invalid_base64!");
    assert!(result.is_err());
    assert!(result.err().unwrap().message().contains("Invalid transaction"));
}

#[test]
fn decode_error_messages() {
    assert_eq!(DecodeError::SanitizeFailed.message(), "Failed to sanitize versioned message");
    assert_eq!(DecodeError::TransactionFailed.message(), "Failed to create sanitized transaction");
}
