//! The procedure-address resolver's decisions.

use superbible7::proc_address::check_proc_name;
use superbible7::proc_address::classify_wgl_lookup;
use superbible7::proc_address::fallback_proc_address;
use superbible7::proc_address::is_lookup_sentinel_value;
use superbible7::Win32Error;

#[test]
fn unterminated_names_are_refused_before_any_lookup() {
    let no_nul: Vec<u8> = b"wglChoosePixelFormatARB".to_vec();
    let r = check_proc_name(&no_nul);
    assert_eq!(Err(Win32Error(Win32Error::APPLICATION_ERROR_BIT)), r);
    assert!(r.unwrap_err().is_application_error());

    let empty: Vec<u8> = Vec::new();
    assert_eq!(Err(Win32Error(Win32Error::APPLICATION_ERROR_BIT)), check_proc_name(&empty));

    let nul_inside: Vec<u8> = b"wgl\0ChoosePixelFormatARB".to_vec();
    assert_eq!(Err(Win32Error(Win32Error::APPLICATION_ERROR_BIT)), check_proc_name(&nul_inside));
}

#[test]
fn terminated_names_pass_the_check() {
    let ok: Vec<u8> = b"wglChoosePixelFormatARB\0".to_vec();
    assert_eq!(Ok(()), check_proc_name(&ok));
    let just_nul: Vec<u8> = b"\0".to_vec();
    assert_eq!(Ok(()), check_proc_name(&just_nul));
}

#[test]
fn sentinel_lookup_results_fail_with_the_last_error() {
    for sentinel in [0usize, 1, 2, 3, usize::MAX] {
        assert!(is_lookup_sentinel_value(sentinel));
        assert_eq!(Err(Win32Error(127)), classify_wgl_lookup(sentinel, 127));
    }
    assert!(!is_lookup_sentinel_value(4));
    assert_eq!(Ok(0xDEAD_BEEF), classify_wgl_lookup(0xDEAD_BEEF, 127));
}

#[test]
fn legacy_lookups_fall_back_to_the_module_exports() {
    assert_eq!(0x5000, fallback_proc_address(0, 0x5000));
    assert_eq!(0x5000, fallback_proc_address(3, 0x5000));
    assert_eq!(0x5000, fallback_proc_address(usize::MAX, 0x5000));
    assert_eq!(0x4000, fallback_proc_address(0x4000, 0x5000));
}
