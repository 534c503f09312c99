use shared_memory::ShmemError;

fn io_err(text: &str) -> std::io::Error {
    std::io::Error::new(std::io::ErrorKind::NotFound, text.to_string())
}

#[test]
fn plain_errors_have_exact_messages() {
    assert_eq!(
        ShmemError::MapSizeZero.message(),
        "You cannot create a shared memory mapping of 0 size"
    );
    assert_eq!(
        ShmemError::NoLinkOrOsId.message(),
        "Tried to open mapping without flink path or os_id"
    );
    assert_eq!(
        ShmemError::FlinkInvalidOsId.message(),
        "Tried to open mapping from both flink and os_id but the flink did not point to the same os_id"
    );
    assert_eq!(
        ShmemError::LinkExists.message(),
        "Shared memory link already exists"
    );
    assert_eq!(
        ShmemError::LinkDoesNotExist.message(),
        "Requested link file does not exist"
    );
    assert_eq!(
        ShmemError::MappingIdExists.message(),
        "Shared memory OS specific ID already exists"
    );
}

#[test]
fn coded_errors_carry_the_decimal_os_code() {
    assert_eq!(
        ShmemError::MapCreateFailed(17).message(),
        "Creating the shared memory failed, os error 17"
    );
    assert_eq!(
        ShmemError::MapOpenFailed(0).message(),
        "Opening the shared memory failed, os error 0"
    );
    assert_eq!(
        ShmemError::UnknownOsError(4294967295).message(),
        "An unexpected OS error occurred, os error 4294967295"
    );
}

#[test]
fn io_errors_keep_their_prefix_and_cause() {
    let m = ShmemError::LinkCreateFailed(io_err("gone")).message();
    assert!(m.starts_with("Creating the link file failed, "));
    assert!(m.contains("gone"));
    let m = ShmemError::LinkWriteFailed(io_err("disk full")).message();
    assert!(m.starts_with("Writing the link file failed, "));
    let m = ShmemError::LinkOpenFailed(io_err("nope")).message();
    assert!(m.starts_with("Opening the link file failed, "));
    let m = ShmemError::LinkReadFailed(io_err("torn")).message();
    assert!(m.starts_with("Reading the link file failed, "));
}

#[test]
fn a_string_converts_into_the_unknown_error() {
    let e = ShmemError::from("something odd".to_string());
    assert!(matches!(e, ShmemError::Unknown(_)));
    assert_eq!(e.message(), "something odd");
}

#[test]
fn a_borrowed_string_converts_into_the_unknown_error() {
    let e = ShmemError::unknown("also odd");
    assert!(matches!(e, ShmemError::Unknown(_)));
    assert_eq!(e.message(), "also odd");
}
