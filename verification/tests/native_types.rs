//! The plain native types: booleans, handles, structures, constants, and
//! the text conversions.

use superbible7::basic_pixel_format_descriptor;
use superbible7::constants::CS_OWNDC;
use superbible7::constants::PFD_DOUBLEBUFFER;
use superbible7::constants::PFD_DRAW_TO_WINDOW;
use superbible7::constants::PFD_SUPPORT_OPENGL;
use superbible7::contains_substring;
use superbible7::gather_null_terminated_bytes;
use superbible7::gl_util::debug_severity_name;
use superbible7::gl_util::debug_source_name;
use superbible7::gl_util::debug_type_name;
use superbible7::hiword;
use superbible7::loword;
use superbible7::min_alloc_lossy_into_string;
use superbible7::wide_null;
use superbible7::PolygonEnum;
use superbible7::ShaderEnum;
use superbible7::VertexArrayID;
use superbible7::BOOL;
use superbible7::HWND;
use superbible7::MAKEINTRESOURCEW;
use superbible7::MSG;
use superbible7::PIXELFORMATDESCRIPTOR;
use superbible7::WNDCLASSEXW;

#[test]
fn bool_conversions_round_trip() {
    assert_eq!(BOOL(1), BOOL::from(true));
    assert_eq!(BOOL(0), BOOL::from(false));
    assert!(bool::from(BOOL(1)));
    assert!(bool::from(BOOL(77)));
    assert!(!bool::from(BOOL(0)));
    assert!(BOOL(2).is_truthy());
    assert!(!BOOL(0).is_truthy());
}

#[test]
fn handles_know_null() {
    assert!(HWND::null().is_null());
    assert!(!HWND::null().is_not_null());
    assert!(HWND(1).is_not_null());
    assert_eq!(0, HWND::default().0);
}

#[test]
fn word_helpers_split_native_words() {
    assert_eq!(0x5678, loword(0x1234_5678));
    assert_eq!(0x1234, hiword(0x1234_5678));
    assert_eq!(0, loword(0xFFFF_0000));
    assert_eq!(0xFFFF, hiword(0xFFFF_0000));
    assert_eq!(32512, MAKEINTRESOURCEW(32512));
}

#[test]
fn defaults_carry_the_native_sizes() {
    let wc = WNDCLASSEXW::default();
    assert_eq!(80, wc.cbSize);
    assert_eq!(0, wc.style);
    assert_eq!(0, wc.lpszClassName);

    let pfd = PIXELFORMATDESCRIPTOR::default();
    assert_eq!(40, pfd.nSize);
    assert_eq!(1, pfd.nVersion);
    assert_eq!(0, pfd.dwFlags);

    let msg = MSG::default();
    assert_eq!(0, msg.message);
    assert_eq!(0, msg.pt.x);
}

#[test]
fn bootstrap_pixel_format_asks_for_the_basics() {
    let pfd = basic_pixel_format_descriptor();
    assert_eq!(PFD_DRAW_TO_WINDOW | PFD_SUPPORT_OPENGL | PFD_DOUBLEBUFFER, pfd.dwFlags);
    assert_eq!(32, pfd.cColorBits);
    assert_eq!(24, pfd.cDepthBits);
    assert_eq!(8, pfd.cStencilBits);
    assert_eq!(40, pfd.nSize);
    assert_eq!(0x0020, CS_OWNDC);
}

#[test]
fn wide_null_terminates_utf16() {
    assert_eq!(vec![0x68, 0x69, 0], wide_null("hi"));
    assert_eq!(vec![0u16], wide_null(""));
    let wide = wide_null("TheGLDummyClass");
    assert_eq!(16, wide.len());
    assert_eq!(0, wide[15]);
}

#[test]
fn gathering_stops_at_the_first_zero_byte() {
    assert_eq!(b"abc".to_vec(), gather_null_terminated_bytes(&b"abc\0def".to_vec()));
    assert_eq!(Vec::<u8>::new(), gather_null_terminated_bytes(&b"\0def".to_vec()));
    assert_eq!(b"abc".to_vec(), gather_null_terminated_bytes(&b"abc".to_vec()));
    assert_eq!(Vec::<u8>::new(), gather_null_terminated_bytes(&Vec::new()));
}

#[test]
fn lossy_decoding_replaces_invalid_sequences() {
    assert_eq!("WGL_ARB_pixel_format", min_alloc_lossy_into_string(b"WGL_ARB_pixel_format".to_vec()));
    assert_eq!("", min_alloc_lossy_into_string(Vec::new()));
    assert_eq!("\u{FFFD}A", min_alloc_lossy_into_string(vec![0xFF, 0x41]));
}

#[test]
fn substring_search_matches_extension_names() {
    let exts = "WGL_ARB_extensions_string WGL_ARB_pixel_format WGL_EXT_swap_control";
    assert!(contains_substring(exts, "WGL_ARB_pixel_format"));
    assert!(contains_substring(exts, "WGL_EXT_swap_control"));
    assert!(!contains_substring(exts, "WGL_ARB_multisample"));
    assert!(contains_substring(exts, ""));
    assert!(!contains_substring("", "WGL_ARB_multisample"));
    assert!(contains_substring("abc", "abc"));
    assert!(!contains_substring("ab", "abc"));
}

#[test]
fn enum_values_match_the_native_headers() {
    assert_eq!(0x91B9, ShaderEnum::Compute.as_enum());
    assert_eq!(0x8B31, ShaderEnum::Vertex.as_enum());
    assert_eq!(0x8E88, ShaderEnum::TessControl.as_enum());
    assert_eq!(0x8E87, ShaderEnum::TessEval.as_enum());
    assert_eq!(0x8DD9, ShaderEnum::Geometry.as_enum());
    assert_eq!(0x8B30, ShaderEnum::Fragment.as_enum());
    assert_eq!(0x1B00, PolygonEnum::Point.as_enum());
    assert_eq!(0x1B01, PolygonEnum::Line.as_enum());
    assert_eq!(0x1B02, PolygonEnum::Fill.as_enum());
}

#[test]
fn vertex_array_ids_reject_the_reserved_zero() {
    assert!(VertexArrayID::new(0).is_none());
    assert_eq!(5, VertexArrayID::new(5).unwrap().get());
}

#[test]
fn debug_labels_match_the_enumerations() {
    assert_eq!("API", debug_source_name(0x8246));
    assert_eq!("ShaderCompiler", debug_source_name(0x8248));
    assert_eq!("Unknown", debug_source_name(1));
    assert_eq!("Error", debug_type_name(0x824C));
    assert_eq!("Performance", debug_type_name(0x8250));
    assert_eq!("Unknown", debug_type_name(1));
    assert_eq!("High", debug_severity_name(0x9146));
    assert_eq!("Note", debug_severity_name(0x826B));
    assert_eq!("Unknown", debug_severity_name(1));
}
