//! The extended context factory's validation and result reading.

use superbible7::boolean::BOOL;
use superbible7::wgl::choose_pixel_format_arb_result;
use superbible7::wgl::context_or_last_error;
use superbible7::wgl::extend_attribs_for_extensions;
use superbible7::wgl::pixel_format_attribs_result;
use superbible7::wgl::single_pixel_format_result;
use superbible7::wgl::AttribPair;
use superbible7::wgl::FloatAttribPair;
use superbible7::wgl::WglAdvancedFns;
use superbible7::wgl::WglExtFns;
use superbible7::wgl::WGL_FRAMEBUFFER_SRGB_CAPABLE_EXT;
use superbible7::wgl::WGL_SAMPLE_BUFFERS_ARB;
use superbible7::HGLRC;
use superbible7::Win32Error;

fn all_resolved() -> WglExtFns {
    WglExtFns::from_resolved(Some(0x1000), Some(0x2000), Some(0x3000), Some(0x4000))
}

fn advanced() -> WglAdvancedFns {
    WglAdvancedFns::from_lookups(Ok(0x1000), Ok(0x2000), Ok(0x3000), Ok(0x4000)).unwrap()
}

#[test]
fn empty_attribute_lists_pass_as_null_pointers() {
    let ints: Vec<AttribPair> = Vec::new();
    let floats: Vec<FloatAttribPair> = Vec::new();
    let req = all_resolved().choose_pixel_format_arb_request(&ints, &floats, 8).unwrap();
    assert!(req.int_list_is_null);
    assert!(req.float_list_is_null);
    assert_eq!(8, req.max_formats);
    assert_eq!(0x4000, req.fn_address);

    let req = advanced().create_context_attribs_arb_request(HGLRC(0), &ints).unwrap();
    assert!(req.list_is_null);
    assert_eq!(0x2000, req.fn_address);
}

#[test]
fn unterminated_attribute_lists_are_refused_without_the_driver() {
    let bad = vec![AttribPair { key: 0x2001, value: 1 }];
    let floats: Vec<FloatAttribPair> = Vec::new();
    let r = all_resolved().choose_pixel_format_arb_request(&bad, &floats, 8);
    assert_eq!(Err(Win32Error(Win32Error::APPLICATION_ERROR_BIT)), r);

    let r = advanced().create_context_attribs_arb_request(HGLRC(0), &bad);
    assert_eq!(Err(Win32Error(Win32Error::APPLICATION_ERROR_BIT)), r);

    let r = advanced().choose_pixel_format_arb_request(&bad, &floats);
    assert_eq!(Err(Win32Error(Win32Error::APPLICATION_ERROR_BIT)), r);

    let bad_floats = vec![FloatAttribPair { key_bits: 1.5f32.to_bits(), value_bits: 0 }];
    let ints: Vec<AttribPair> = Vec::new();
    let r = all_resolved().choose_pixel_format_arb_request(&ints, &bad_floats, 8);
    assert_eq!(Err(Win32Error(Win32Error::APPLICATION_ERROR_BIT)), r);
}

#[test]
fn terminated_attribute_lists_pass() {
    let ints = vec![AttribPair { key: 0x2001, value: 1 }, AttribPair { key: 0, value: 0 }];
    let floats = vec![FloatAttribPair { key_bits: 0f32.to_bits(), value_bits: 0 }];
    let req = all_resolved().choose_pixel_format_arb_request(&ints, &floats, 4).unwrap();
    assert!(!req.int_list_is_null);
    assert!(!req.float_list_is_null);

    let neg_zero = vec![FloatAttribPair { key_bits: (-0.0f32).to_bits(), value_bits: 0 }];
    assert!(all_resolved().choose_pixel_format_arb_request(&ints, &neg_zero, 4).is_ok());
}

#[test]
fn missing_entry_points_are_application_errors() {
    let none = WglExtFns::none_resolved();
    let ints: Vec<AttribPair> = Vec::new();
    let floats: Vec<FloatAttribPair> = Vec::new();
    let r = none.choose_pixel_format_arb_request(&ints, &floats, 8);
    assert_eq!(Err(Win32Error(Win32Error::APPLICATION_ERROR_BIT)), r);
    let r = none.get_pixel_format_attrib_iv_arb_request(3);
    assert_eq!(Err(Win32Error(Win32Error::APPLICATION_ERROR_BIT)), r);
    assert_eq!(Ok(3), all_resolved().get_pixel_format_attrib_iv_arb_request(3));
}

#[test]
fn missing_extensions_string_reads_as_empty() {
    let none = WglExtFns::none_resolved();
    assert_eq!(Ok(String::new()), none.get_extensions_string_arb(None));

    let some = all_resolved();
    let bytes = b"WGL_ARB_pixel_format WGL_ARB_multisample".to_vec();
    let r = some.get_extensions_string_arb(Some(Ok(bytes)));
    assert_eq!(Ok(String::from("WGL_ARB_pixel_format WGL_ARB_multisample")), r);

    let r = some.get_extensions_string_arb(Some(Err(Win32Error(6))));
    assert_eq!(Err(Win32Error(6)), r);
}

#[test]
fn failed_multi_format_query_zeroes_the_buffer() {
    let mut buffer = vec![7, 8, 9, 10];
    let r = choose_pixel_format_arb_result(BOOL(1), 2, &mut buffer, 0);
    assert_eq!(Ok(2), r);
    assert_eq!(vec![7, 8, 9, 10], buffer);

    let r = choose_pixel_format_arb_result(BOOL(0), 0, &mut buffer, 87);
    assert_eq!(Err(Win32Error(87)), r);
    assert_eq!(vec![0, 0, 0, 0], buffer);
}

#[test]
fn zero_matching_formats_is_a_valid_outcome() {
    let mut buffer = vec![5, 6];
    let r = choose_pixel_format_arb_result(BOOL(1), 0, &mut buffer, 0);
    assert_eq!(Ok(0), r);
    assert_eq!(vec![5, 6], buffer);
}

#[test]
fn single_format_query_needs_exactly_one_match() {
    assert_eq!(Ok(5), single_pixel_format_result(BOOL(1), 5, 1, 0));
    assert_eq!(Err(Win32Error(2)), single_pixel_format_result(BOOL(1), 5, 0, 2));
    assert_eq!(Err(Win32Error(2)), single_pixel_format_result(BOOL(0), 5, 1, 2));
}

#[test]
fn attrib_query_results_follow_the_convention() {
    assert_eq!(Ok(vec![8, 24]), pixel_format_attribs_result(BOOL(1), vec![8, 24], 0));
    assert_eq!(Err(Win32Error(6)), pixel_format_attribs_result(BOOL(0), vec![0, 0], 6));
}

#[test]
fn context_creation_results_follow_the_convention() {
    assert_eq!(Ok(HGLRC(0x77)), context_or_last_error(0x77, 0));
    assert_eq!(Err(Win32Error(2004)), context_or_last_error(0, 2004));
}

#[test]
fn advanced_bundle_needs_all_four_lookups() {
    let r = WglAdvancedFns::from_lookups(Ok(1), Err(Win32Error(127)), Ok(3), Ok(4));
    assert_eq!(Win32Error(127), r.unwrap_err());
    let r = WglAdvancedFns::from_lookups(Err(Win32Error(1)), Err(Win32Error(2)), Ok(3), Ok(4));
    assert_eq!(Win32Error(1), r.unwrap_err());
    let fns = advanced();
    assert_eq!(0x1000, fns.wglChoosePixelFormatARB_p);
    assert_eq!(0x4000, fns.wglGetSwapIntervalEXT_p);
}

#[test]
fn optional_attribs_follow_the_advertised_extensions() {
    let mut attribs = vec![AttribPair { key: 0x2001, value: 1 }];
    extend_attribs_for_extensions(
        &mut attribs,
        "WGL_ARB_pixel_format WGL_EXT_framebuffer_sRGB WGL_ARB_multisample",
    );
    assert_eq!(3, attribs.len());
    assert_eq!(AttribPair { key: WGL_FRAMEBUFFER_SRGB_CAPABLE_EXT, value: 1 }, attribs[1]);
    assert_eq!(AttribPair { key: WGL_SAMPLE_BUFFERS_ARB, value: 1 }, attribs[2]);

    let mut attribs = vec![AttribPair { key: 0x2001, value: 1 }];
    extend_attribs_for_extensions(&mut attribs, "");
    assert_eq!(1, attribs.len());

    let mut attribs = Vec::new();
    extend_attribs_for_extensions(&mut attribs, "WGL_ARB_multisample");
    assert_eq!(vec![AttribPair { key: WGL_SAMPLE_BUFFERS_ARB, value: 1 }], attribs);
}
