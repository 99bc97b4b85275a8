use vending_client::errors::VendingError;
use vending_client::ids::AccountId;
use vending_client::state::VendingState;

fn sample_buffer() -> Vec<u8> {
    let mut bytes = Vec::new();
    bytes.extend_from_slice(&7u64.to_le_bytes());
    bytes.extend_from_slice(&2500u64.to_le_bytes());
    bytes.extend_from_slice(&[9u8; 32]);
    bytes
}

#[test]
fn decode_reads_all_three_fields() {
    let bytes = sample_buffer();
    let state = VendingState::decode(&bytes).unwrap();
    assert_eq!(state.stock, 7);
    assert_eq!(state.price, 2500);
    assert_eq!(state.owner.as_bytes(), &[9u8; 32][..]);
}

#[test]
fn decode_then_encode_is_identity() {
    let bytes = sample_buffer();
    let state = VendingState::decode(&bytes).unwrap();
    let encoded = state.encode();
    assert_eq!(encoded, bytes);
}

#[test]
fn encode_lays_out_little_endian_fields() {
    let owner = AccountId::from_bytes(vec![3u8; 32]).unwrap();
    let state = VendingState { stock: 1, price: 0x0102030405060708, owner };
    let encoded = state.encode();
    assert_eq!(encoded.len(), 48);
    assert_eq!(&encoded[0..8], &[1, 0, 0, 0, 0, 0, 0, 0]);
    assert_eq!(&encoded[8..16], &[8, 7, 6, 5, 4, 3, 2, 1]);
    assert_eq!(&encoded[16..48], &[3u8; 32][..]);
}

#[test]
fn decode_short_buffer_fails_with_malformed_state() {
    let bytes = vec![0u8; 47];
    assert_eq!(VendingState::decode(&bytes).unwrap_err(), VendingError::MalformedState);
}

#[test]
fn decode_empty_buffer_fails_with_malformed_state() {
    assert_eq!(VendingState::decode(&[]).unwrap_err(), VendingError::MalformedState);
}

#[test]
fn decode_long_buffer_fails_with_malformed_state() {
    let bytes = vec![0u8; 49];
    assert_eq!(VendingState::decode(&bytes).unwrap_err(), VendingError::MalformedState);
}

#[test]
fn every_error_describes_itself() {
    assert_eq!(VendingError::MalformedState.describe(), "the state image did not decode");
    assert_eq!(VendingError::AccountNotFound.describe(), "the ledger does not know the account");
    assert_eq!(
        VendingError::OwnershipMismatch.describe(),
        "the account belongs to another program"
    );
    assert_eq!(
        VendingError::ProvisioningFailure.describe(),
        "provisioning the state account failed"
    );
    assert_eq!(VendingError::SubmissionError.describe(), "the submission was rejected");
    assert_eq!(VendingError::WalletLoadError.describe(), "the wallet file did not load");
}
