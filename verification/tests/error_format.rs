//! The error type's rendering and classification.

#![allow(non_snake_case)]

use superbible7::error_code::u32_to_dec_string;
use superbible7::error_code::flatten_message_units;
use superbible7::error_code::ok_or_last_error;
use superbible7::error_code::handle_or_last_error;
use superbible7::error_code::index_or_last_error;
use superbible7::error_code::userdata_or_last_error;
use superbible7::Win32Error;
use superbible7::BOOL;

#[test]
fn win32_test_Win32Error_formatting() {
    let msg: Vec<u16> = "The operation completed successfully.\r\n".encode_utf16().collect();
    let s = Win32Error(0).describe_with_system_message(&msg);
    assert_eq!("Win32Error(0): The operation completed successfully.  ", s);

    let s = Win32Error(0).describe();
    assert_eq!("Win32Error(0)", s);

    let app_error = Win32Error::app().describe();
    assert_eq!("Win32Error(Application(0))", app_error);
    let app_error = Win32Error(Win32Error::APPLICATION_ERROR_BIT | 1).describe();
    assert_eq!("Win32Error(Application(1))", app_error);
}

#[test]
fn error_code_test_Win32Error_formatting() {
    let msg: Vec<u16> = "The operation completed successfully.\r\n".encode_utf16().collect();
    let s = Win32Error(0).describe_with_system_message(&msg);
    assert_eq!("Win32Error(0): The operation completed successfully.  ", s);

    let s = Win32Error(0).describe();
    assert_eq!("Win32Error(0)", s);

    let app_error = Win32Error::app().describe();
    assert_eq!("Win32Error(Application(0))", app_error);
    let app_error = Win32Error(Win32Error::APPLICATION_ERROR_BIT | 1).describe();
    assert_eq!("Win32Error(Application(1))", app_error);
}

#[test]
fn decimal_rendering_is_exact() {
    assert_eq!("0", u32_to_dec_string(0));
    assert_eq!("7", u32_to_dec_string(7));
    assert_eq!("10", u32_to_dec_string(10));
    assert_eq!("127", u32_to_dec_string(127));
    assert_eq!("536870912", u32_to_dec_string(0x2000_0000));
    assert_eq!("4294967295", u32_to_dec_string(u32::MAX));
}

#[test]
fn app_error_renders_without_system_message() {
    let msg: Vec<u16> = "ignored".encode_utf16().collect();
    let s = Win32Error(Win32Error::APPLICATION_ERROR_BIT | 87).describe_with_system_message(&msg);
    assert_eq!("Win32Error(Application(87))", s);
}

#[test]
fn newlines_flatten_to_spaces() {
    let units: Vec<u16> = "a\rb\nc".encode_utf16().collect();
    let flat = flatten_message_units(&units);
    let expected: Vec<u16> = "a b c".encode_utf16().collect();
    assert_eq!(expected, flat);
}

#[test]
fn truthy_results_classify_as_ok() {
    assert_eq!(Ok(()), ok_or_last_error(BOOL(1), 5));
    assert_eq!(Ok(()), ok_or_last_error(BOOL(77), 5));
    assert_eq!(Err(Win32Error(5)), ok_or_last_error(BOOL(0), 5));
}

#[test]
fn null_handles_classify_as_errors() {
    assert_eq!(Ok(0x1234), handle_or_last_error(0x1234, 6));
    assert_eq!(Err(Win32Error(6)), handle_or_last_error(0, 6));
    assert_eq!(Ok(3), index_or_last_error(3, 87));
    assert_eq!(Err(Win32Error(87)), index_or_last_error(0, 87));
}

#[test]
fn userdata_zero_is_only_an_error_with_a_code() {
    assert_eq!(Ok(42), userdata_or_last_error(42, 0));
    assert_eq!(Ok(0), userdata_or_last_error(0, 0));
    assert_eq!(Err(Win32Error(1400)), userdata_or_last_error(0, 1400));
}
