//! The extended context factory.
//!
//! Modern pixel formats and versioned rendering contexts are reached through
//! extension entry points that a bootstrap pass resolves first. The structs
//! here hold those resolved addresses as opaque words, and the functions
//! decide everything around the native calls: whether an entry point is
//! there at all, whether an attribute list is fit to hand over, what a null
//! list pointer stands for, and how the driver's raw results are read.

use vstd::prelude::*;

use crate::boolean::BOOL;
use crate::error_code::Win32Error;
use crate::error_code::Win32Result;
use crate::handles::HGLRC;
use crate::string_utils::contains_substring;
use crate::string_utils::min_alloc_lossy_into_string;
use crate::string_utils::spec_contains;
use crate::string_utils::utf8_lossy_of;

verus! {

pub const WGL_NUMBER_PIXEL_FORMATS_ARB: i32 = 0x2000;

pub const WGL_DRAW_TO_WINDOW_ARB: i32 = 0x2001;

pub const WGL_DRAW_TO_BITMAP_ARB: i32 = 0x2002;

pub const WGL_ACCELERATION_ARB: i32 = 0x2003;

pub const WGL_NEED_PALETTE_ARB: i32 = 0x2004;

pub const WGL_NEED_SYSTEM_PALETTE_ARB: i32 = 0x2005;

pub const WGL_SWAP_LAYER_BUFFERS_ARB: i32 = 0x2006;

pub const WGL_SWAP_METHOD_ARB: i32 = 0x2007;

pub const WGL_NUMBER_OVERLAYS_ARB: i32 = 0x2008;

pub const WGL_NUMBER_UNDERLAYS_ARB: i32 = 0x2009;

pub const WGL_TRANSPARENT_ARB: i32 = 0x200A;

pub const WGL_TRANSPARENT_RED_VALUE_ARB: i32 = 0x2037;

pub const WGL_TRANSPARENT_GREEN_VALUE_ARB: i32 = 0x2038;

pub const WGL_TRANSPARENT_BLUE_VALUE_ARB: i32 = 0x2039;

pub const WGL_TRANSPARENT_ALPHA_VALUE_ARB: i32 = 0x203A;

pub const WGL_TRANSPARENT_INDEX_VALUE_ARB: i32 = 0x203B;

pub const WGL_SHARE_DEPTH_ARB: i32 = 0x200C;

pub const WGL_SHARE_STENCIL_ARB: i32 = 0x200D;

pub const WGL_SHARE_ACCUM_ARB: i32 = 0x200E;

pub const WGL_SUPPORT_GDI_ARB: i32 = 0x200F;

pub const WGL_SUPPORT_OPENGL_ARB: i32 = 0x2010;

pub const WGL_DOUBLE_BUFFER_ARB: i32 = 0x2011;

pub const WGL_STEREO_ARB: i32 = 0x2012;

pub const WGL_PIXEL_TYPE_ARB: i32 = 0x2013;

pub const WGL_COLOR_BITS_ARB: i32 = 0x2014;

pub const WGL_RED_BITS_ARB: i32 = 0x2015;

pub const WGL_RED_SHIFT_ARB: i32 = 0x2016;

pub const WGL_GREEN_BITS_ARB: i32 = 0x2017;

pub const WGL_GREEN_SHIFT_ARB: i32 = 0x2018;

pub const WGL_BLUE_BITS_ARB: i32 = 0x2019;

pub const WGL_BLUE_SHIFT_ARB: i32 = 0x201A;

pub const WGL_ALPHA_BITS_ARB: i32 = 0x201B;

pub const WGL_ALPHA_SHIFT_ARB: i32 = 0x201C;

pub const WGL_ACCUM_BITS_ARB: i32 = 0x201D;

pub const WGL_ACCUM_RED_BITS_ARB: i32 = 0x201E;

pub const WGL_ACCUM_GREEN_BITS_ARB: i32 = 0x201F;

pub const WGL_ACCUM_BLUE_BITS_ARB: i32 = 0x2020;

pub const WGL_ACCUM_ALPHA_BITS_ARB: i32 = 0x2021;

pub const WGL_DEPTH_BITS_ARB: i32 = 0x2022;

pub const WGL_STENCIL_BITS_ARB: i32 = 0x2023;

pub const WGL_AUX_BUFFERS_ARB: i32 = 0x2024;

pub const WGL_NO_ACCELERATION_ARB: i32 = 0x2025;

pub const WGL_GENERIC_ACCELERATION_ARB: i32 = 0x2026;

pub const WGL_FULL_ACCELERATION_ARB: i32 = 0x2027;

pub const WGL_SWAP_EXCHANGE_ARB: i32 = 0x2028;

pub const WGL_SWAP_COPY_ARB: i32 = 0x2029;

pub const WGL_SWAP_UNDEFINED_ARB: i32 = 0x202A;

pub const WGL_TYPE_RGBA_ARB: i32 = 0x202B;

pub const WGL_TYPE_COLORINDEX_ARB: i32 = 0x202C;

/// Part of the framebuffer sRGB extension.
pub const WGL_FRAMEBUFFER_SRGB_CAPABLE_EXT: i32 = 0x20A9;

/// Part of the multisample extension.
pub const WGL_SAMPLE_BUFFERS_ARB: i32 = 0x2041;

/// Part of the multisample extension.
pub const WGL_SAMPLES_ARB: i32 = 0x2042;

pub const WGL_CONTEXT_MAJOR_VERSION_ARB: i32 = 0x2091;

pub const WGL_CONTEXT_MINOR_VERSION_ARB: i32 = 0x2092;

pub const WGL_CONTEXT_LAYER_PLANE_ARB: i32 = 0x2093;

pub const WGL_CONTEXT_FLAGS_ARB: i32 = 0x2094;

pub const WGL_CONTEXT_PROFILE_MASK_ARB: i32 = 0x9126;

pub const WGL_CONTEXT_DEBUG_BIT_ARB: i32 = 0x0001;

pub const WGL_CONTEXT_FORWARD_COMPATIBLE_BIT_ARB: i32 = 0x0002;

pub const WGL_CONTEXT_CORE_PROFILE_BIT_ARB: i32 = 0x00000001;

pub const WGL_CONTEXT_COMPATIBILITY_PROFILE_BIT_ARB: i32 = 0x00000002;

/// One `[key, value]` requirement of an integer attribute list.
#[derive(Debug, Clone, Copy, PartialEq, Eq, Structural)]
pub struct AttribPair {
    pub key: i32,
    pub value: i32,
}

/// One `[key, value]` requirement of a floating attribute list, carried as
/// raw IEEE-754 bit patterns so the layer never computes with the values.
#[derive(Debug, Clone, Copy, PartialEq, Eq, Structural)]
pub struct FloatAttribPair {
    pub key_bits: u32,
    pub value_bits: u32,
}

/// Whether a bit pattern reads as floating zero (positive or negative).
pub open spec fn float_bits_is_zero(bits: u32) -> bool {
    bits & 0x7FFF_FFFFu32 == 0u32
}

/// Whether an integer attribute list may be handed to the driver: it is
/// either completely empty or its last pair's key is the zero terminator.
pub open spec fn int_list_terminated(l: Seq<AttribPair>) -> bool {
    l.len() == 0 || l[l.len() - 1].key == 0
}

/// Whether a floating attribute list may be handed to the driver.
pub open spec fn float_list_terminated(l: Seq<FloatAttribPair>) -> bool {
    l.len() == 0 || float_bits_is_zero(l[l.len() - 1].key_bits)
}

/// Whether an integer attribute list may be handed to the driver.
pub fn int_list_is_terminated(l: &Vec<AttribPair>) -> (r: bool)
    ensures
        r == int_list_terminated(l@),
{
    l.len() == 0 || l[l.len() - 1].key == 0
}

/// Whether a floating attribute list may be handed to the driver.
pub fn float_list_is_terminated(l: &Vec<FloatAttribPair>) -> (r: bool)
    ensures
        r == float_list_terminated(l@),
{
    l.len() == 0 || l[l.len() - 1].key_bits & 0x7FFF_FFFF == 0
}

/// The resolved extension entry points that the bootstrap pass found, each
/// an opaque address, `None` where resolution failed. A missing entry point
/// is expected and tolerated: the calls that need it report an application
/// error (or an empty answer, for the extensions string) instead of asking
/// the driver.
#[allow(non_snake_case)]
#[derive(Debug, Clone, Copy)]
pub struct WglExtFns {
    pub wglGetExtensionsStringARB_p: Option<usize>,
    pub wglGetPixelFormatAttribivARB_p: Option<usize>,
    pub wglGetPixelFormatAttribfvARB_p: Option<usize>,
    pub wglChoosePixelFormatARB_p: Option<usize>,
}

/// What a validated pixel-format query hands to the native call: the entry
/// point to call through, whether each attribute list is passed as a null
/// pointer (the lists' storage itself stays with the caller), and the
/// capacity of the result buffer.
#[derive(Debug, Clone, Copy, PartialEq, Eq, Structural)]
pub struct ChoosePixelFormatArbRequest {
    pub fn_address: usize,
    pub int_list_is_null: bool,
    pub float_list_is_null: bool,
    pub max_formats: u32,
}

impl WglExtFns {
    /// Bundles what the bootstrap pass resolved.
    pub fn from_resolved(
        ext_string: Option<usize>,
        attrib_iv: Option<usize>,
        attrib_fv: Option<usize>,
        choose: Option<usize>,
    ) -> (r: Self)
        ensures
            r.wglGetExtensionsStringARB_p == ext_string,
            r.wglGetPixelFormatAttribivARB_p == attrib_iv,
            r.wglGetPixelFormatAttribfvARB_p == attrib_fv,
            r.wglChoosePixelFormatARB_p == choose,
    {
        WglExtFns {
            wglGetExtensionsStringARB_p: ext_string,
            wglGetPixelFormatAttribivARB_p: attrib_iv,
            wglGetPixelFormatAttribfvARB_p: attrib_fv,
            wglChoosePixelFormatARB_p: choose,
        }
    }

    /// A bundle with nothing resolved.
    pub fn none_resolved() -> (r: Self)
        ensures
            r.wglGetExtensionsStringARB_p is None,
            r.wglGetPixelFormatAttribivARB_p is None,
            r.wglGetPixelFormatAttribfvARB_p is None,
            r.wglChoosePixelFormatARB_p is None,
    {
        WglExtFns {
            wglGetExtensionsStringARB_p: None,
            wglGetPixelFormatAttribivARB_p: None,
            wglGetPixelFormatAttribfvARB_p: None,
            wglChoosePixelFormatARB_p: None,
        }
    }

    /// Reads the extensions-string query's outcome. The caller passes `None`
    /// when the entry point was never resolved — that is no error, the
    /// extension list is simply empty. Otherwise it passes the queried
    /// bytes, or the last-error code when the native call returned null.
    pub fn get_extensions_string_arb(&self, outcome: Option<Win32Result<Vec<u8>>>) -> (r:
        Win32Result<String>)
        requires
            (outcome is Some) == (self.wglGetExtensionsStringARB_p is Some),
        ensures
            self.wglGetExtensionsStringARB_p is None ==> r is Ok && r->Ok_0@ == Seq::<
                char,
            >::empty(),
            outcome matches Some(o) ==> match o {
                Result::Ok(bytes) => r is Ok && r->Ok_0@ == utf8_lossy_of(bytes@),
                Result::Err(e) => r == Win32Result::<String>::Err(e),
            },
    {
        match outcome {
            None => Ok(String::new()),
            Some(Ok(bytes)) => Ok(min_alloc_lossy_into_string(bytes)),
            Some(Err(e)) => Err(e),
        }
    }

    /// Validates a pixel-format query before the driver sees it.
    ///
    /// The query is refused with an application error — without any native
    /// call — when the choosing entry point was never resolved, or when a
    /// non-empty attribute list does not end with the zero terminator key.
    /// An empty list is valid and is passed as a null pointer.
    pub fn choose_pixel_format_arb_request(
        &self,
        attrib_int_list: &Vec<AttribPair>,
        attrib_float_list: &Vec<FloatAttribPair>,
        out_len: usize,
    ) -> (r: Win32Result<ChoosePixelFormatArbRequest>)
        requires
            out_len <= u32::MAX,
        ensures
            self.wglChoosePixelFormatARB_p is None ==> r == Win32Result::<
                ChoosePixelFormatArbRequest,
            >::Err(Win32Error(0x2000_0000u32)),
            self.wglChoosePixelFormatARB_p matches Some(addr) ==> if int_list_terminated(
                attrib_int_list@,
            ) && float_list_terminated(attrib_float_list@) {
                r == Win32Result::<ChoosePixelFormatArbRequest>::Ok(
                    ChoosePixelFormatArbRequest {
                        fn_address: addr,
                        int_list_is_null: attrib_int_list@.len() == 0,
                        float_list_is_null: attrib_float_list@.len() == 0,
                        max_formats: out_len as u32,
                    },
                )
            } else {
                r == Win32Result::<ChoosePixelFormatArbRequest>::Err(Win32Error(0x2000_0000u32))
            },
    {
        match self.wglChoosePixelFormatARB_p {
            None => Err(Win32Error(0x2000_0000)),
            Some(addr) => {
                if !int_list_is_terminated(attrib_int_list) {
                    return Err(Win32Error(0x2000_0000));
                }
                if !float_list_is_terminated(attrib_float_list) {
                    return Err(Win32Error(0x2000_0000));
                }
                Ok(
                    ChoosePixelFormatArbRequest {
                        fn_address: addr,
                        int_list_is_null: attrib_int_list.len() == 0,
                        float_list_is_null: attrib_float_list.len() == 0,
                        max_formats: out_len as u32,
                    },
                )
            },
        }
    }

    /// Validates an attribute-information query (integer form): refused with
    /// an application error when the entry point was never resolved, else
    /// the driver is asked for exactly as many attributes as were queried.
    pub fn get_pixel_format_attrib_iv_arb_request(&self, query_count: usize) -> (r: Win32Result<
        u32,
    >)
        requires
            query_count <= u32::MAX,
        ensures
            self.wglGetPixelFormatAttribivARB_p is None ==> r == Win32Result::<u32>::Err(
                Win32Error(0x2000_0000u32),
            ),
            self.wglGetPixelFormatAttribivARB_p is Some ==> r == Win32Result::<u32>::Ok(
                query_count as u32,
            ),
    {
        match self.wglGetPixelFormatAttribivARB_p {
            None => Err(Win32Error(0x2000_0000)),
            Some(_) => Ok(query_count as u32),
        }
    }
}

/// Reads a multi-format query's raw outcome. On success, the driver filled
/// the first `num_formats` slots of the caller's buffer, best match first,
/// and zero matches is a valid answer. On failure the buffer is cleared to
/// all zeros and the last-error code explains the failure.
pub fn choose_pixel_format_arb_result(
    it_worked: BOOL,
    num_formats: u32,
    out_buffer: &mut Vec<i32>,
    last_error: u32,
) -> (r: Win32Result<usize>)
    requires
        it_worked.0 != 0 ==> num_formats as int <= old(out_buffer)@.len(),
    ensures
        it_worked.0 != 0 ==> r == Win32Result::<usize>::Ok(num_formats as usize)
            && final(out_buffer)@ == old(out_buffer)@,
        it_worked.0 == 0 ==> r == Win32Result::<usize>::Err(Win32Error(last_error))
            && final(out_buffer)@ =~= Seq::new(old(out_buffer)@.len(), |i: int| 0i32),
{
    if it_worked.is_truthy() {
        Ok(num_formats as usize)
    } else {
        let len = out_buffer.len();
        let zeroed: Vec<i32> = vec![0i32; len];
        *out_buffer = zeroed;
        proof {
            assert(final(out_buffer)@ =~= Seq::new(old(out_buffer)@.len(), |i: int| 0i32));
        }
        Err(Win32Error(last_error))
    }
}

/// Reads an attribute-information query's raw outcome: on success the
/// driver's answers are the values written into the caller's buffer, on
/// failure the last-error code explains it.
pub fn pixel_format_attribs_result(it_worked: BOOL, values: Vec<i32>, last_error: u32) -> (r:
    Win32Result<Vec<i32>>)
    ensures
        it_worked.0 != 0 ==> r is Ok && r->Ok_0@ == values@,
        it_worked.0 == 0 ==> r == Win32Result::<Vec<i32>>::Err(Win32Error(last_error)),
{
    if it_worked.is_truthy() {
        Ok(values)
    } else {
        Err(Win32Error(last_error))
    }
}

/// The advanced entry points, all four required: resolving any of them can
/// fail, and then this bundle is never built.
#[allow(non_snake_case)]
#[derive(Debug, Clone, Copy)]
pub struct WglAdvancedFns {
    pub wglChoosePixelFormatARB_p: usize,
    pub wglCreateContextAttribsARB_p: usize,
    pub wglSwapIntervalEXT_p: usize,
    pub wglGetSwapIntervalEXT_p: usize,
}

/// What a validated context-creation call hands to the native entry point.
#[derive(Debug, Clone, Copy, PartialEq, Eq, Structural)]
pub struct CreateContextAttribsRequest {
    pub fn_address: usize,
    pub share_context: HGLRC,
    pub list_is_null: bool,
}

impl WglAdvancedFns {
    /// Bundles four classified lookups; the first failure wins, and all four
    /// must succeed for the bundle to exist at all.
    pub fn from_lookups(
        choose: Win32Result<usize>,
        create: Win32Result<usize>,
        swap: Win32Result<usize>,
        get_swap: Win32Result<usize>,
    ) -> (r: Win32Result<Self>)
        ensures
            choose matches Err(e) ==> r == Win32Result::<Self>::Err(e),
            choose is Ok ==> (create matches Err(e) ==> r == Win32Result::<Self>::Err(e)),
            choose is Ok && create is Ok ==> (swap matches Err(e) ==> r == Win32Result::<
                Self,
            >::Err(e)),
            choose is Ok && create is Ok && swap is Ok ==> (get_swap matches Err(e) ==> r
                == Win32Result::<Self>::Err(e)),
            choose is Ok && create is Ok && swap is Ok && get_swap is Ok ==> r == Win32Result::<
                Self,
            >::Ok(
                WglAdvancedFns {
                    wglChoosePixelFormatARB_p: choose->Ok_0,
                    wglCreateContextAttribsARB_p: create->Ok_0,
                    wglSwapIntervalEXT_p: swap->Ok_0,
                    wglGetSwapIntervalEXT_p: get_swap->Ok_0,
                },
            ),
    {
        let choose_p = match choose {
            Ok(a) => a,
            Err(e) => {
                return Err(e);
            },
        };
        let create_p = match create {
            Ok(a) => a,
            Err(e) => {
                return Err(e);
            },
        };
        let swap_p = match swap {
            Ok(a) => a,
            Err(e) => {
                return Err(e);
            },
        };
        let get_swap_p = match get_swap {
            Ok(a) => a,
            Err(e) => {
                return Err(e);
            },
        };
        Ok(
            WglAdvancedFns {
                wglChoosePixelFormatARB_p: choose_p,
                wglCreateContextAttribsARB_p: create_p,
                wglSwapIntervalEXT_p: swap_p,
                wglGetSwapIntervalEXT_p: get_swap_p,
            },
        )
    }

    /// Validates a single-format query before the driver sees it: a
    /// non-empty attribute list whose last key is not the zero terminator is
    /// refused with an application error and no native call; empty lists are
    /// valid and are passed as null pointers.
    pub fn choose_pixel_format_arb_request(
        &self,
        int_attrs: &Vec<AttribPair>,
        float_attrs: &Vec<FloatAttribPair>,
    ) -> (r: Win32Result<ChoosePixelFormatArbRequest>)
        ensures
            int_list_terminated(int_attrs@) && float_list_terminated(float_attrs@) ==> r
                == Win32Result::<ChoosePixelFormatArbRequest>::Ok(
                ChoosePixelFormatArbRequest {
                    fn_address: self.wglChoosePixelFormatARB_p,
                    int_list_is_null: int_attrs@.len() == 0,
                    float_list_is_null: float_attrs@.len() == 0,
                    max_formats: 1u32,
                },
            ),
            !(int_list_terminated(int_attrs@) && float_list_terminated(float_attrs@)) ==> r
                == Win32Result::<ChoosePixelFormatArbRequest>::Err(Win32Error(0x2000_0000u32)),
    {
        if !int_list_is_terminated(int_attrs) {
            return Err(Win32Error(0x2000_0000));
        }
        if !float_list_is_terminated(float_attrs) {
            return Err(Win32Error(0x2000_0000));
        }
        Ok(
            ChoosePixelFormatArbRequest {
                fn_address: self.wglChoosePixelFormatARB_p,
                int_list_is_null: int_attrs.len() == 0,
                float_list_is_null: float_attrs.len() == 0,
                max_formats: 1,
            },
        )
    }

    /// Validates a context-creation call before the driver sees it: a
    /// non-empty attribute list whose last key is not the zero terminator is
    /// refused with an application error and no native call. A null share
    /// context is valid and means "no sharing".
    pub fn create_context_attribs_arb_request(
        &self,
        share_context: HGLRC,
        attribute_list: &Vec<AttribPair>,
    ) -> (r: Win32Result<CreateContextAttribsRequest>)
        ensures
            int_list_terminated(attribute_list@) ==> r == Win32Result::<
                CreateContextAttribsRequest,
            >::Ok(
                CreateContextAttribsRequest {
                    fn_address: self.wglCreateContextAttribsARB_p,
                    share_context: share_context,
                    list_is_null: attribute_list@.len() == 0,
                },
            ),
            !int_list_terminated(attribute_list@) ==> r == Win32Result::<
                CreateContextAttribsRequest,
            >::Err(Win32Error(0x2000_0000u32)),
    {
        if !int_list_is_terminated(attribute_list) {
            return Err(Win32Error(0x2000_0000));
        }
        Ok(
            CreateContextAttribsRequest {
                fn_address: self.wglCreateContextAttribsARB_p,
                share_context: share_context,
                list_is_null: attribute_list.len() == 0,
            },
        )
    }
}

/// Reads a single-format query's raw outcome: the query must both succeed
/// and report exactly one matching format, else the last-error code stands.
pub fn single_pixel_format_result(
    it_worked: BOOL,
    out_format: i32,
    out_format_count: u32,
    last_error: u32,
) -> (r: Win32Result<i32>)
    ensures
        it_worked.0 != 0 && out_format_count == 1 ==> r == Win32Result::<i32>::Ok(out_format),
        !(it_worked.0 != 0 && out_format_count == 1) ==> r == Win32Result::<i32>::Err(
            Win32Error(last_error),
        ),
{
    if it_worked.is_truthy() && out_format_count == 1 {
        Ok(out_format)
    } else {
        Err(Win32Error(last_error))
    }
}

/// Appends the optional pixel-format requirements that the advertised
/// extensions make meaningful: the sRGB capability flag when the
/// framebuffer-sRGB extension is listed, and one multisample buffer when the
/// multisample extension is. An extension string that could not be obtained
/// is passed empty and so reads as "assume unsupported", which is no error.
pub fn extend_attribs_for_extensions(attribs: &mut Vec<AttribPair>, ext_string: &str)
    ensures
        final(attribs)@ == old(attribs)@ + (if spec_contains(
            ext_string@,
            "WGL_EXT_framebuffer_sRGB"@,
        ) {
            seq![(AttribPair { key: WGL_FRAMEBUFFER_SRGB_CAPABLE_EXT, value: 1i32 })]
        } else {
            Seq::<AttribPair>::empty()
        }) + (if spec_contains(ext_string@, "WGL_ARB_multisample"@) {
            seq![(AttribPair { key: WGL_SAMPLE_BUFFERS_ARB, value: 1i32 })]
        } else {
            Seq::<AttribPair>::empty()
        }),
{
    let ghost mid = attribs@ + (if spec_contains(ext_string@, "WGL_EXT_framebuffer_sRGB"@) {
        seq![(AttribPair { key: WGL_FRAMEBUFFER_SRGB_CAPABLE_EXT, value: 1i32 })]
    } else {
        Seq::<AttribPair>::empty()
    });
    if contains_substring(ext_string, "WGL_EXT_framebuffer_sRGB") {
        attribs.push(AttribPair { key: WGL_FRAMEBUFFER_SRGB_CAPABLE_EXT, value: 1 });
    }
    proof {
        assert(attribs@ =~= mid);
    }
    if contains_substring(ext_string, "WGL_ARB_multisample") {
        attribs.push(AttribPair { key: WGL_SAMPLE_BUFFERS_ARB, value: 1 });
    }
    proof {
        assert(attribs@ =~= mid + (if spec_contains(ext_string@, "WGL_ARB_multisample"@) {
            seq![(AttribPair { key: WGL_SAMPLE_BUFFERS_ARB, value: 1i32 })]
        } else {
            Seq::<AttribPair>::empty()
        }));
    }
}

/// Reads a context-creation call's raw outcome: the driver returns the new
/// rendering context, or null with the last-error code explaining why.
pub fn context_or_last_error(context: usize, last_error: u32) -> (r: Win32Result<HGLRC>)
    ensures
        context != 0 ==> r == Win32Result::<HGLRC>::Ok(HGLRC(context)),
        context == 0 ==> r == Win32Result::<HGLRC>::Err(Win32Error(last_error)),
{
    if context != 0 {
        Ok(HGLRC(context))
    } else {
        Err(Win32Error(last_error))
    }
}

} // verus!
