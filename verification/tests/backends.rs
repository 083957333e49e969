//! What each platform makes of the raw outcome of a call.

use shh::call::{OsError, Outcome, PipeResource, PlatformHandle, Request, StreamKind};
use shh::guard::Stage;
use shh::{unix, windows, Create, Device, Divert, ShhRead};

fn outcome(ret: i64, os_error: i32) -> Outcome {
    Outcome { ret, os_error, read_end: 0, write_end: 0, count: 0 }
}

fn handle(raw: i64) -> PlatformHandle {
    PlatformHandle { raw }
}

#[test]
fn posix_slots_are_the_standard_descriptors() {
    assert_eq!(<unix::Stdout as Device>::slot_number(), 1);
    assert_eq!(<unix::Stderr as Device>::slot_number(), 2);
    assert_eq!(<unix::Stdout as Device>::stream(), StreamKind::Stdout);
    assert_eq!(<unix::Stderr as Device>::stream(), StreamKind::Stderr);
}

#[test]
fn handle_slots_are_the_standard_handle_numbers() {
    assert_eq!(<windows::Stdout as Device>::slot_number(), 0xFFFF_FFF5);
    assert_eq!(<windows::Stderr as Device>::slot_number(), 0xFFFF_FFF4);
    assert_eq!(<windows::Stdout as Device>::slot_number(), (-11i32) as u32 as i64);
    assert_eq!(<windows::Stderr as Device>::slot_number(), (-12i32) as u32 as i64);
    assert_eq!(<windows::Stdout as Device>::stream(), StreamKind::Stdout);
    assert_eq!(<windows::Stderr as Device>::stream(), StreamKind::Stderr);
}

#[test]
fn factories_begin_by_obtaining_the_original() {
    let (setup, request) = unix::stdout();
    assert_eq!(request, Request::Obtain { slot: 1 });
    assert_eq!(setup.current_stage(), Stage::Obtaining);
    let (_, request) = unix::stderr();
    assert_eq!(request, Request::Obtain { slot: 2 });
    let (_, request) = windows::stdout();
    assert_eq!(request, Request::Obtain { slot: 4294967285 });
    let (setup, request) = windows::stderr();
    assert_eq!(request, Request::Obtain { slot: 4294967284 });
    assert_eq!(setup.current_stage(), Stage::Obtaining);
}

#[test]
fn posix_dup_fails_only_with_minus_one() {
    assert_eq!(unix::Stdout::obtain_original(&outcome(-1, 24)), Err(OsError { code: 24 }));
    assert_eq!(unix::Stderr::obtain_original(&outcome(-1, 9)), Err(OsError { code: 9 }));
    assert_eq!(unix::Stdout::obtain_original(&outcome(0, 24)), Ok(handle(0)));
    assert_eq!(unix::Stdout::obtain_original(&outcome(7, 24)), Ok(handle(7)));
    assert_eq!(unix::Stderr::obtain_original(&outcome(-2, 24)), Ok(handle(-2)));
}

#[test]
fn get_std_handle_fails_only_with_the_invalid_handle() {
    assert_eq!(windows::Stdout::obtain_original(&outcome(-1, 6)), Err(OsError { code: 6 }));
    assert_eq!(windows::Stderr::obtain_original(&outcome(-1, 6)), Err(OsError { code: 6 }));
    assert_eq!(windows::Stdout::obtain_original(&outcome(0, 6)), Ok(handle(0)));
    assert_eq!(windows::Stderr::obtain_original(&outcome(0x1f4, 6)), Ok(handle(0x1f4)));
}

#[test]
fn posix_pipe_stores_the_read_end_first() {
    let made = Outcome { ret: 0, os_error: 11, read_end: 3, write_end: 4, count: 0 };
    assert_eq!(
        <unix::Impl as Create>::create_files(&made),
        Ok(PipeResource { read_end: handle(3), write_end: handle(4) })
    );
    let failed = Outcome { ret: -1, os_error: 24, read_end: 3, write_end: 4, count: 0 };
    assert_eq!(<unix::Impl as Create>::create_files(&failed), Err(OsError { code: 24 }));
}

#[test]
fn create_pipe_fails_with_zero() {
    let made = Outcome { ret: 1, os_error: 0, read_end: 0x64, write_end: 0x68, count: 0 };
    assert_eq!(
        <windows::Impl as Create>::create_files(&made),
        Ok(PipeResource { read_end: handle(0x64), write_end: handle(0x68) })
    );
    let failed = Outcome { ret: 0, os_error: 8, read_end: 0, write_end: 0, count: 0 };
    assert_eq!(<windows::Impl as Create>::create_files(&failed), Err(OsError { code: 8 }));
    let odd = Outcome { ret: -1, os_error: 8, read_end: 1, write_end: 2, count: 0 };
    assert_eq!(
        <windows::Impl as Create>::create_files(&odd),
        Ok(PipeResource { read_end: handle(1), write_end: handle(2) })
    );
}

#[test]
fn posix_dup2_fails_only_with_minus_one() {
    assert_eq!(<unix::Impl as Divert<unix::Stdout>>::bind_result(&outcome(1, 9)), Ok(()));
    assert_eq!(<unix::Impl as Divert<unix::Stdout>>::bind_result(&outcome(0, 9)), Ok(()));
    assert_eq!(
        <unix::Impl as Divert<unix::Stderr>>::bind_result(&outcome(-1, 9)),
        Err(OsError { code: 9 })
    );
}

#[test]
fn set_std_handle_fails_with_zero() {
    assert_eq!(<windows::Impl as Divert<windows::Stdout>>::bind_result(&outcome(1, 6)), Ok(()));
    assert_eq!(<windows::Impl as Divert<windows::Stdout>>::bind_result(&outcome(-1, 6)), Ok(()));
    assert_eq!(
        <windows::Impl as Divert<windows::Stderr>>::bind_result(&outcome(0, 6)),
        Err(OsError { code: 6 })
    );
}

#[test]
fn posix_close_succeeds_only_with_zero() {
    assert_eq!(<unix::Impl as Divert<unix::Stdout>>::release_result(&outcome(0, 9)), Ok(()));
    assert_eq!(
        <unix::Impl as Divert<unix::Stdout>>::release_result(&outcome(-1, 9)),
        Err(OsError { code: 9 })
    );
    assert_eq!(
        <unix::Impl as Divert<unix::Stderr>>::release_result(&outcome(1, 4)),
        Err(OsError { code: 4 })
    );
}

#[test]
fn close_handle_fails_with_zero() {
    assert_eq!(<windows::Impl as Divert<windows::Stdout>>::release_result(&outcome(1, 6)), Ok(()));
    assert_eq!(
        <windows::Impl as Divert<windows::Stderr>>::release_result(&outcome(0, 6)),
        Err(OsError { code: 6 })
    );
}

#[test]
fn diverting_binds_the_stream_to_the_write_end() {
    assert_eq!(
        <unix::Impl as Divert<unix::Stdout>>::divert_std_stream(handle(5)),
        Request::Bind { slot: 1, handle: handle(5) }
    );
    assert_eq!(
        <unix::Impl as Divert<unix::Stderr>>::divert_std_stream(handle(5)),
        Request::Bind { slot: 2, handle: handle(5) }
    );
    assert_eq!(
        <windows::Impl as Divert<windows::Stderr>>::divert_std_stream(handle(0x68)),
        Request::Bind { slot: windows::STD_ERROR_HANDLE, handle: handle(0x68) }
    );
}

#[test]
fn posix_reinstates_and_closes_the_duplicate() {
    assert!(<unix::Impl as Divert<unix::Stdout>>::closes_original());
    assert_eq!(
        <unix::Impl as Divert<unix::Stdout>>::reinstate_std_stream(handle(3)),
        vec![Request::Bind { slot: 1, handle: handle(3) }, Request::Release { handle: handle(3) }]
    );
    assert_eq!(
        <unix::Impl as Divert<unix::Stderr>>::reinstate_std_stream(handle(7)),
        vec![Request::Bind { slot: 2, handle: handle(7) }, Request::Release { handle: handle(7) }]
    );
}

#[test]
fn handle_slots_reinstate_without_closing() {
    assert!(!<windows::Impl as Divert<windows::Stdout>>::closes_original());
    assert_eq!(
        <windows::Impl as Divert<windows::Stdout>>::reinstate_std_stream(handle(0x64)),
        vec![Request::Bind { slot: windows::STD_OUTPUT_HANDLE, handle: handle(0x64) }]
    );
}

#[test]
fn posix_counts_are_taken_unless_the_call_failed() {
    let some = Outcome { ret: 0, os_error: 11, read_end: 0, write_end: 0, count: 14 };
    assert_eq!(<unix::Impl as ShhRead>::available_bytes(&some), Ok(14));
    let read = Outcome { ret: 14, os_error: 11, read_end: 0, write_end: 0, count: 14 };
    assert_eq!(<unix::Impl as ShhRead>::shh_read(&read), Ok(14));
    let failed = Outcome { ret: -1, os_error: 9, read_end: 0, write_end: 0, count: usize::MAX };
    assert_eq!(<unix::Impl as ShhRead>::available_bytes(&failed), Err(OsError { code: 9 }));
    assert_eq!(<unix::Impl as ShhRead>::shh_read(&failed), Err(OsError { code: 9 }));
}

#[test]
fn handle_slot_counts_are_taken_unless_the_call_returned_zero() {
    let some = Outcome { ret: 1, os_error: 0, read_end: 0, write_end: 0, count: 14 };
    assert_eq!(<windows::Impl as ShhRead>::available_bytes(&some), Ok(14));
    assert_eq!(<windows::Impl as ShhRead>::shh_read(&some), Ok(14));
    let none = Outcome { ret: 1, os_error: 0, read_end: 0, write_end: 0, count: 0 };
    assert_eq!(<windows::Impl as ShhRead>::available_bytes(&none), Ok(0));
    let failed = Outcome { ret: 0, os_error: 109, read_end: 0, write_end: 0, count: 14 };
    assert_eq!(<windows::Impl as ShhRead>::available_bytes(&failed), Err(OsError { code: 109 }));
    assert_eq!(<windows::Impl as ShhRead>::shh_read(&failed), Err(OsError { code: 109 }));
}

#[test]
fn an_outcome_carries_its_error_and_its_pipe() {
    let made = Outcome { ret: 0, os_error: 32, read_end: 3, write_end: 4, count: 0 };
    assert_eq!(made.reported_error(), OsError { code: 32 });
    assert_eq!(made.pipe_ends(), PipeResource { read_end: handle(3), write_end: handle(4) });
}
