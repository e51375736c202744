//! The error model of the binding layer.
//!
//! Two kinds of error share one code space: codes reported by the platform
//! ("system" errors) and codes raised inside this layer ("application"
//! errors), told apart by a reserved high bit. The functions here also fix
//! the layer's uniform convention for classifying a native call's result:
//! truthy results succeed, falsy results fail with the last-error code that
//! was fetched right after the call.

use vstd::prelude::*;

use crate::boolean::BOOL;

verus! {

/// A Win32 error code.
///
/// If bit 29 is set, the code was raised by this layer itself instead of
/// being reported by the platform.
#[derive(Debug, Clone, Copy, PartialEq, Eq, Structural)]
pub struct Win32Error(pub u32);

/// The result type of every fallible operation in this layer.
pub type Win32Result<T> = Result<T, Win32Error>;

impl Win32Error {
    /// Application errors have the 29th bit set.
    pub const APPLICATION_ERROR_BIT: u32 = 0x2000_0000;

    /// Whether this code was raised by the layer itself.
    pub open spec fn is_application(self) -> bool {
        self.0 & 0x2000_0000u32 != 0u32
    }

    /// The code of an application error with the tag bit removed.
    pub open spec fn application_code(self) -> u32 {
        self.0 ^ 0x2000_0000u32
    }

    /// A "blank" application error.
    pub fn app() -> (r: Win32Error)
        ensures
            r.0 == 0x2000_0000u32,
            r.is_application(),
            r.application_code() == 0u32,
    {
        proof {
            assert(0x2000_0000u32 & 0x2000_0000u32 != 0u32) by (bit_vector);
            assert(0x2000_0000u32 ^ 0x2000_0000u32 == 0u32) by (bit_vector);
        }
        Win32Error(0x2000_0000)
    }

    /// Whether this code was raised by the layer itself.
    pub fn is_application_error(&self) -> (r: bool)
        ensures
            r == self.is_application(),
    {
        self.0 & 0x2000_0000 != 0
    }

    /// The text of this code: `Win32Error(Application({code}))` for an
    /// application error (tag bit removed), `Win32Error({code})` for a
    /// system error.
    pub open spec fn spec_describe(self) -> Seq<char> {
        if self.is_application() {
            "Win32Error(Application("@ + spec_u32_dec(self.application_code() as nat) + "))"@
        } else {
            "Win32Error("@ + spec_u32_dec(self.0 as nat) + ")"@
        }
    }

    /// Renders the code alone, without any system message.
    pub fn describe(&self) -> (r: String)
        ensures
            r@ == self.spec_describe(),
    {
        if self.is_application_error() {
            let mut s = String::from_str("Win32Error(Application(");
            s.append(u32_to_dec_string(self.0 ^ 0x2000_0000).as_str());
            s.append("))");
            s
        } else {
            let mut s = String::from_str("Win32Error(");
            s.append(u32_to_dec_string(self.0).as_str());
            s.append(")");
            s
        }
    }

    /// Renders a system error code together with the platform's message for
    /// it: `Win32Error({code}): {message}`, with every carriage return and
    /// line feed of the message turned into one space. An application error
    /// has no system message and renders as [`Self::describe`] does.
    ///
    /// The caller obtains `message_utf16` from the platform's message
    /// formatter for this code; this function only decides how the text is
    /// presented.
    pub fn describe_with_system_message(&self, message_utf16: &Vec<u16>) -> (r: String)
        ensures
            self.is_application() ==> r@ == self.spec_describe(),
            !self.is_application() ==> r@ == "Win32Error("@ + spec_u32_dec(self.0 as nat) + "): "@
                + utf16_lossy_of(spec_flatten_units(message_utf16@)),
    {
        if self.is_application_error() {
            self.describe()
        } else {
            let mut s = String::from_str("Win32Error(");
            s.append(u32_to_dec_string(self.0).as_str());
            s.append("): ");
            let flat = flatten_message_units(message_utf16);
            s.append(utf16_lossy(&flat).as_str());
            s
        }
    }
}

/// The digit character for one decimal digit.
pub open spec fn spec_digit_char(d: nat) -> char {
    if d == 0 {
        '0'
    } else if d == 1 {
        '1'
    } else if d == 2 {
        '2'
    } else if d == 3 {
        '3'
    } else if d == 4 {
        '4'
    } else if d == 5 {
        '5'
    } else if d == 6 {
        '6'
    } else if d == 7 {
        '7'
    } else if d == 8 {
        '8'
    } else {
        '9'
    }
}

/// The decimal rendering of a number, most significant digit first.
pub open spec fn spec_u32_dec(n: nat) -> Seq<char>
    decreases n,
{
    if n < 10 {
        seq![spec_digit_char(n)]
    } else {
        spec_u32_dec(n / 10).push(spec_digit_char(n % 10))
    }
}

/// The one-character string for one decimal digit.
fn digit_str(d: u32) -> (r: &'static str)
    requires
        d < 10,
    ensures
        r@ =~= seq![spec_digit_char(d as nat)],
{
    proof {
        reveal_strlit("0");
        reveal_strlit("1");
        reveal_strlit("2");
        reveal_strlit("3");
        reveal_strlit("4");
        reveal_strlit("5");
        reveal_strlit("6");
        reveal_strlit("7");
        reveal_strlit("8");
        reveal_strlit("9");
    }
    match d {
        0 => "0",
        1 => "1",
        2 => "2",
        3 => "3",
        4 => "4",
        5 => "5",
        6 => "6",
        7 => "7",
        8 => "8",
        _ => "9",
    }
}

/// Renders a number in decimal.
pub fn u32_to_dec_string(n: u32) -> (r: String)
    ensures
        r@ == spec_u32_dec(n as nat),
    decreases n,
{
    if n < 10 {
        String::from_str(digit_str(n))
    } else {
        let mut s = u32_to_dec_string(n / 10);
        s.append(digit_str(n % 10));
        proof {
            assert(s@ =~= spec_u32_dec(n as nat));
        }
        s
    }
}

/// Each carriage return or line feed code unit replaced by one space.
pub open spec fn spec_flatten_units(units: Seq<u16>) -> Seq<u16> {
    units.map(|_i: int, u: u16| if u == 13 || u == 10 { 32u16 } else { u })
}

/// Replaces every carriage return and line feed code unit by one space, so a
/// multi-line platform message renders on a single line.
pub fn flatten_message_units(units: &Vec<u16>) -> (r: Vec<u16>)
    ensures
        r@ == spec_flatten_units(units@),
{
    let mut out: Vec<u16> = Vec::new();
    let mut i: usize = 0;
    while i < units.len()
        invariant
            i <= units@.len(),
            out@ =~= spec_flatten_units(units@.take(i as int)),
        decreases units@.len() - i,
    {
        let u = units[i];
        if u == 13 || u == 10 {
            out.push(32);
        } else {
            out.push(u);
        }
        proof {
            assert(units@.take(i + 1 as int).drop_last() =~= units@.take(i as int));
            assert(out@ =~= spec_flatten_units(units@.take(i + 1 as int)));
        }
        i = i + 1;
    }
    proof {
        assert(units@.take(units@.len() as int) =~= units@);
    }
    out
}

/// Whether every code unit of a sequence is below the surrogate range.
pub open spec fn all_below_surrogates(units: Seq<u16>) -> bool {
    forall|i: int| 0 <= i < units.len() ==> units[i] < 0xD800
}

/// What the lossy UTF-16 decoding of a code-unit sequence reads as.
pub uninterp spec fn utf16_lossy_of(units: Seq<u16>) -> Seq<char>;

/// Relies on `String::from_utf16_lossy`: decodes UTF-16, replacing invalid
/// data with the replacement character; the result depends on the code units
/// alone, and units below the surrogate range decode to their own code
/// points.
#[verifier::external_body]
fn utf16_lossy(units: &Vec<u16>) -> (r: String)
    ensures
        r@ == utf16_lossy_of(units@),
        units@.len() == 0 ==> r@.len() == 0,
        all_below_surrogates(units@) ==> r@.len() == units@.len(),
        all_below_surrogates(units@) ==> forall|i: int| 0 <= i < units@.len() ==> r@[i] as u32
            == units@[i] as u32,
{
    String::from_utf16_lossy(units)
}

/// Classifies a truthy/falsy native result, as the platform's convention
/// demands: non-zero is success, zero means the last-error code fetched
/// right after the call explains the failure.
pub fn ok_or_last_error(it_worked: BOOL, last_error: u32) -> (r: Win32Result<()>)
    ensures
        it_worked.0 != 0 ==> r == Win32Result::<()>::Ok(()),
        it_worked.0 == 0 ==> r == Win32Result::<()>::Err(Win32Error(last_error)),
{
    if it_worked.is_truthy() {
        Ok(())
    } else {
        Err(Win32Error(last_error))
    }
}

/// Classifies a pointer-returning native result: null is the failure
/// sentinel, anything else is the wanted handle or address.
pub fn handle_or_last_error(handle: usize, last_error: u32) -> (r: Win32Result<usize>)
    ensures
        handle != 0 ==> r == Win32Result::<usize>::Ok(handle),
        handle == 0 ==> r == Win32Result::<usize>::Err(Win32Error(last_error)),
{
    if handle != 0 {
        Ok(handle)
    } else {
        Err(Win32Error(last_error))
    }
}

/// Classifies an index-returning native result: zero is the failure
/// sentinel (indexes are 1-based), anything else is the wanted index.
pub fn index_or_last_error(index: i32, last_error: u32) -> (r: Win32Result<i32>)
    ensures
        index != 0 ==> r == Win32Result::<i32>::Ok(index),
        index == 0 ==> r == Win32Result::<i32>::Err(Win32Error(last_error)),
{
    if index != 0 {
        Ok(index)
    } else {
        Err(Win32Error(last_error))
    }
}

/// Classifies the result of reading or writing a window's user-data slot.
/// Zero is an ambiguous result there: it is a real failure only when the
/// last-error code (cleared before the call) reports one.
pub fn userdata_or_last_error(out: isize, last_error: u32) -> (r: Win32Result<isize>)
    ensures
        out != 0 ==> r == Win32Result::<isize>::Ok(out),
        out == 0 && last_error == 0 ==> r == Win32Result::<isize>::Ok(0isize),
        out == 0 && last_error != 0 ==> r == Win32Result::<isize>::Err(Win32Error(last_error)),
{
    if out == 0 {
        if last_error != 0 {
            Err(Win32Error(last_error))
        } else {
            Ok(0)
        }
    } else {
        Ok(out)
    }
}

} // verus!
