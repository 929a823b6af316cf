use ucp::status::{UCS_ERR_BUSY, UCS_ERR_LAST, UCS_INPROGRESS, UCS_OK};
use ucp::{Posted, RequestHandle, Status, StatusPtr};

fn ptr(address: usize) -> StatusPtr {
    StatusPtr { address }
}

#[test]
fn check_accepts_success_alone() {
    assert_eq!(Status { code: UCS_OK }.check(), Ok(()));
    for code in [UCS_INPROGRESS, UCS_ERR_BUSY, -1, UCS_ERR_LAST] {
        assert_eq!(Status { code }.check(), Err(Status { code }));
    }
}

#[test]
fn adopt_owns_only_on_success() {
    assert_eq!(Status { code: UCS_OK }.adopt(7u32, |raw| raw + 1), Ok(8));
    let failed = Status { code: -3 }.adopt(7u32, |_| -> u32 { panic!("not to be owned") });
    assert_eq!(failed, Err(Status { code: -3 }));
}

#[test]
fn every_status_but_in_progress_is_completed() {
    assert!(!Status { code: UCS_INPROGRESS }.is_completed());
    assert!(Status { code: UCS_OK }.is_completed());
    assert!(Status { code: UCS_ERR_BUSY }.is_completed());
}

#[test]
fn null_is_complete() {
    assert!(ptr(0).is_null());
    assert!(!ptr(0).is_ptr());
    assert_eq!(ptr(0).posted(), Posted::Complete);
    assert_eq!(ptr(0).as_raw(), Status { code: UCS_OK });
}

#[test]
fn error_codes_come_back_out() {
    for code in -100i8..0 {
        let reply = ptr(code as isize as usize);
        assert!(!reply.is_null());
        assert!(!reply.is_ptr());
        assert_eq!(reply.as_raw(), Status { code });
        assert_eq!(reply.posted(), Posted::Failed(Status { code }));
    }
}

#[test]
fn requests_lie_between_null_and_errors() {
    for address in [1, 0x7f00_1000, usize::MAX - 100] {
        assert!(ptr(address).is_ptr());
        assert!(!ptr(address).is_null());
        assert_eq!(ptr(address).posted(), Posted::Wait(RequestHandle { address }));
    }
    assert!(!ptr(usize::MAX - 99).is_ptr());
    assert!(!ptr(usize::MAX).is_ptr());
}

#[test]
fn as_raw_reads_the_lowest_byte() {
    assert_eq!(ptr(0x1234).as_raw(), Status { code: 0x34 });
    assert_eq!(ptr(0x12f1).as_raw(), Status { code: -15 });
}

#[test]
fn request_handle_keeps_the_address() {
    assert_eq!(RequestHandle::from(ptr(4096)), RequestHandle { address: 4096 });
}
