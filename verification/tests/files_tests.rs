use apt_desktop::errors::{CmdError, ErrorKind};
use apt_desktop::files::{read_file_result, write_file_result};

#[test]
fn read_success_passes_text_through() {
    let r = read_file_result(Ok("key: value\n".to_string()));
    assert_eq!(r.unwrap(), "key: value\n");
}

#[test]
fn read_success_keeps_empty_text() {
    let r = read_file_result(Ok(String::new()));
    assert_eq!(r.unwrap(), "");
}

#[test]
fn read_failure_is_io_error() {
    let r = read_file_result(Err("No such file or directory (os error 2)".to_string()));
    let e = r.unwrap_err();
    assert_eq!(e.kind, ErrorKind::IoError);
    assert!(e.is_io_error());
    assert_eq!(e.message, "No such file or directory (os error 2)");
}

#[test]
fn write_success_is_unit() {
    let r = write_file_result(Ok(()));
    assert!(r.is_ok());
}

#[test]
fn write_failure_is_io_error() {
    let r = write_file_result(Err("Permission denied (os error 13)".to_string()));
    let e = r.unwrap_err();
    assert_eq!(e.kind, ErrorKind::IoError);
    assert!(e.is_io_error());
    assert!(!e.is_process_error());
    assert_eq!(e.message, "Permission denied (os error 13)");
}

#[test]
fn error_constructors_set_kind_and_message() {
    let p = CmdError::process_error("spawn failed".to_string());
    assert_eq!(p.kind, ErrorKind::ProcessError);
    assert_eq!(p.message, "spawn failed");
    let i = CmdError::io_error("disk full".to_string());
    assert_eq!(i.kind, ErrorKind::IoError);
    assert_eq!(i.message, "disk full");
}
