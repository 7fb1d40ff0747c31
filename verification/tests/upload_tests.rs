use afrasyab::upload::{validate_upload_chunk_bytes, ChunkSizeError, DEFAULT_UPLOAD_CHUNK_BYTES};

#[test]
fn rejects_chunk_below_minimum() {
    assert!(validate_upload_chunk_bytes(255 * 1024).is_err());
}

#[test]
fn rejects_non_multiple_of_256k() {
    assert!(validate_upload_chunk_bytes(300 * 1024).is_err());
}

#[test]
fn accepts_16_mib() {
    assert_eq!(
        validate_upload_chunk_bytes(DEFAULT_UPLOAD_CHUNK_BYTES).unwrap(),
        DEFAULT_UPLOAD_CHUNK_BYTES
    );
}

#[test]
fn chunk_errors_name_the_setting() {
    let e = validate_upload_chunk_bytes(100000).unwrap_err();
    assert_eq!(e, ChunkSizeError::BelowMinimum);
    assert_eq!(e.message(), "DRIVE_UPLOAD_CHUNK_BYTES must be at least 262144");
    let e = validate_upload_chunk_bytes(300 * 1024).unwrap_err();
    assert_eq!(e.message(), "DRIVE_UPLOAD_CHUNK_BYTES must be a multiple of 262144");
}
