use shared_memory::{
    backend_error, backend_size_check, link_read_error, link_write_step, open_retry_step,
    BackendFailure, LinkWriteEvent, LinkWriteStep, OpenRetryStep, ShmemConf, ShmemError,
    OPEN_RETRY_DELAY_MS, OPEN_RETRY_MAX,
};

fn io_err() -> std::io::Error {
    std::io::Error::new(std::io::ErrorKind::PermissionDenied, "denied")
}

#[test]
fn backend_failures_keep_their_phase_and_code() {
    assert!(matches!(
        backend_error(BackendFailure::CreateCollision),
        ShmemError::MappingIdExists
    ));
    assert!(matches!(
        backend_error(BackendFailure::Create(13)),
        ShmemError::MapCreateFailed(13)
    ));
    assert!(matches!(
        backend_error(BackendFailure::Setup(28)),
        ShmemError::UnknownOsError(28)
    ));
    assert!(matches!(
        backend_error(BackendFailure::Open(2)),
        ShmemError::MapOpenFailed(2)
    ));
}

#[test]
fn zero_sizes_are_rejected_wherever_the_backend_meets_them() {
    assert!(matches!(backend_size_check(0), Err(ShmemError::MapSizeZero)));
    assert!(backend_size_check(1).is_ok());
    assert!(backend_size_check(usize::MAX).is_ok());
}

#[test]
fn open_retries_only_for_link_sourced_open_failures() {
    // A backend open failure with the id from a link file is retried with a pause.
    match open_retry_step(true, 0, ShmemError::MapOpenFailed(2)) {
        OpenRetryStep::RetryAfterDelay(ms) => assert_eq!(ms, OPEN_RETRY_DELAY_MS),
        OpenRetryStep::Fail(_) => panic!("the first link-sourced failure must be retried"),
    }
    match open_retry_step(true, OPEN_RETRY_MAX - 1, ShmemError::MapOpenFailed(2)) {
        OpenRetryStep::RetryAfterDelay(ms) => assert_eq!(ms, 50),
        OpenRetryStep::Fail(_) => panic!("retries below the bound must continue"),
    }
    // The retry budget is exhausted.
    assert!(matches!(
        open_retry_step(true, OPEN_RETRY_MAX, ShmemError::MapOpenFailed(2)),
        OpenRetryStep::Fail(ShmemError::MapOpenFailed(2))
    ));
    // An explicit id is never retried.
    assert!(matches!(
        open_retry_step(false, 0, ShmemError::MapOpenFailed(2)),
        OpenRetryStep::Fail(ShmemError::MapOpenFailed(2))
    ));
    // Other errors are terminal even when the id came from a link.
    assert!(matches!(
        open_retry_step(true, 0, ShmemError::MapSizeZero),
        OpenRetryStep::Fail(ShmemError::MapSizeZero)
    ));
}

#[test]
fn link_write_protocol_is_fail_fast() {
    assert!(matches!(
        link_write_step(LinkWriteEvent::OpenedFresh),
        LinkWriteStep::WriteId
    ));
    assert!(matches!(
        link_write_step(LinkWriteEvent::OpenRejectedExists),
        LinkWriteStep::Fail(ShmemError::LinkExists)
    ));
    assert!(matches!(
        link_write_step(LinkWriteEvent::OpenFailed(io_err())),
        LinkWriteStep::Fail(ShmemError::LinkCreateFailed(_))
    ));
    // A partial write must not leave a link behind.
    assert!(matches!(
        link_write_step(LinkWriteEvent::WriteFailed(io_err())),
        LinkWriteStep::RemoveLinkAndFail(ShmemError::LinkWriteFailed(_))
    ));
    assert!(matches!(
        link_write_step(LinkWriteEvent::WriteDone),
        LinkWriteStep::Done
    ));
}

#[test]
fn link_read_failures_keep_their_cause() {
    assert!(matches!(
        link_read_error(true, false, io_err()),
        ShmemError::LinkOpenFailed(_)
    ));
    assert!(matches!(
        link_read_error(false, false, io_err()),
        ShmemError::LinkReadFailed(_)
    ));
}

#[test]
fn an_absent_link_on_open_is_its_own_error() {
    let gone = std::io::Error::new(std::io::ErrorKind::NotFound, "no such file");
    assert!(matches!(
        link_read_error(true, true, gone),
        ShmemError::LinkDoesNotExist
    ));
    // Absence only matters for the open itself, not for a torn read.
    let gone = std::io::Error::new(std::io::ErrorKind::NotFound, "no such file");
    assert!(matches!(
        link_read_error(false, true, gone),
        ShmemError::LinkReadFailed(_)
    ));
}

#[test]
fn a_created_mapping_is_owned_and_reports_the_backend_size() {
    let conf = ShmemConf::new().size(10).flink("a_link");
    let shmem = conf.finish_create("/the_id".to_string(), 4096);
    assert!(shmem.is_owner());
    assert_eq!(shmem.len(), 4096);
    assert_eq!(shmem.get_os_id(), "/the_id");
    assert_eq!(shmem.get_flink_path().unwrap(), "a_link");
    assert!(shmem.owns_backing_object());
    assert_eq!(shmem.flink_to_remove().unwrap(), "a_link");
}

#[test]
fn an_opened_mapping_is_not_owned() {
    let conf = ShmemConf::new().id("/the_id");
    let shmem = conf.finish_open("/the_id".to_string(), 128);
    assert!(!shmem.is_owner());
    assert_eq!(shmem.len(), 128);
    assert_eq!(shmem.get_os_id(), "/the_id");
    assert!(shmem.get_flink_path().is_none());
    assert!(!shmem.owns_backing_object());
    assert!(shmem.flink_to_remove().is_none());
}

#[test]
fn ownership_transfer_returns_the_previous_value() {
    let mut shmem = ShmemConf::new().size(1).finish_create("/x".to_string(), 1);
    assert!(shmem.set_owner(false));
    assert!(!shmem.is_owner());
    assert!(!shmem.owns_backing_object());
    assert!(!shmem.set_owner(true));
    assert!(shmem.is_owner());
    assert!(shmem.owns_backing_object());
}

#[test]
fn a_non_owner_never_removes_the_link_file() {
    let mut shmem = ShmemConf::new().flink("l").size(1).finish_create("/x".to_string(), 1);
    assert!(shmem.flink_to_remove().is_some());
    shmem.set_owner(false);
    assert!(shmem.flink_to_remove().is_none());
    let shmem = ShmemConf::new().flink("l").finish_open("/x".to_string(), 1);
    assert!(shmem.flink_to_remove().is_none());
}
