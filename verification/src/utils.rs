//! Text as it crosses the border to native code: the strings that native
//! code allocates and host code must free, the text that a terminated
//! buffer holds, and the rendering of numbers and addresses.

use vstd::prelude::*;
use vstd::string::*;
use vstd::utf8::*;

verus! {

/// The character that stands for the decimal digit `d`.
pub open spec fn digit_char(d: nat) -> char
    recommends
        d < 10,
{
    if d == 0 {
        '0'
    } else if d == 1 {
        '1'
    } else if d == 2 {
        '2'
    } else if d == 3 {
        '3'
    } else if d == 4 {
        '4'
    } else if d == 5 {
        '5'
    } else if d == 6 {
        '6'
    } else if d == 7 {
        '7'
    } else if d == 8 {
        '8'
    } else {
        '9'
    }
}

/// The decimal digits of `n`, most significant first, without leading zeros.
pub open spec fn decimal_digits(n: nat) -> Seq<char>
    decreases n,
{
    if n < 10 {
        seq![digit_char(n)]
    } else {
        decimal_digits(n / 10).push(digit_char(n % 10))
    }
}

/// The decimal text of `n`: a minus sign for a negative number, then the digits
/// of its magnitude.
pub open spec fn decimal_text(n: int) -> Seq<char> {
    if n < 0 {
        seq!['-'] + decimal_digits((-n) as nat)
    } else {
        decimal_digits(n as nat)
    }
}

/// The one-character string of a decimal digit.
fn digit_str(d: u32) -> (s: &'static str)
    requires
        d < 10,
    ensures
        s@ == seq![digit_char(d as nat)],
{
    proof {
        reveal_strlit("0");
        reveal_strlit("1");
        reveal_strlit("2");
        reveal_strlit("3");
        reveal_strlit("4");
        reveal_strlit("5");
        reveal_strlit("6");
        reveal_strlit("7");
        reveal_strlit("8");
        reveal_strlit("9");
    }
    let s = if d == 0 {
        "0"
    } else if d == 1 {
        "1"
    } else if d == 2 {
        "2"
    } else if d == 3 {
        "3"
    } else if d == 4 {
        "4"
    } else if d == 5 {
        "5"
    } else if d == 6 {
        "6"
    } else if d == 7 {
        "7"
    } else if d == 8 {
        "8"
    } else {
        "9"
    };
    assert(s@ =~= seq![digit_char(d as nat)]);
    s
}

/// Appends the decimal digits of `n` to `out`.
pub fn push_decimal(out: &mut String, n: u32)
    ensures
        final(out)@ == old(out)@ + decimal_digits(n as nat),
    decreases n,
{
    if n >= 10 {
        push_decimal(out, n / 10);
    }
    out.append(digit_str(n % 10));
}

/// Renders `n` in decimal.
pub fn decimal_string(n: i32) -> (s: String)
    ensures
        s@ == decimal_text(n as int),
{
    let mut out = String::new();
    let wide: i64 = n as i64;
    if wide < 0 {
        out.append("-");
        proof {
            reveal_strlit("-");
        }
        push_decimal(&mut out, (0 - wide) as u32);
    } else {
        push_decimal(&mut out, wide as u32);
    }
    out
}

/// The character that stands for the hexadecimal digit `d`, in lower case.
pub open spec fn hex_digit_char(d: nat) -> char
    recommends
        d < 16,
{
    if d < 10 {
        digit_char(d)
    } else if d == 10 {
        'a'
    } else if d == 11 {
        'b'
    } else if d == 12 {
        'c'
    } else if d == 13 {
        'd'
    } else if d == 14 {
        'e'
    } else {
        'f'
    }
}

/// The hexadecimal digits of `n`, most significant first, without leading
/// zeros.
pub open spec fn hex_digits(n: nat) -> Seq<char>
    decreases n,
{
    if n < 16 {
        seq![hex_digit_char(n)]
    } else {
        hex_digits(n / 16).push(hex_digit_char(n % 16))
    }
}

/// The text of an address: `0x` and its hexadecimal digits.
pub open spec fn address_text(address: nat) -> Seq<char> {
    seq!['0', 'x'] + hex_digits(address)
}

/// The one-character string of a hexadecimal digit.
fn hex_digit_str(d: usize) -> (s: &'static str)
    requires
        d < 16,
    ensures
        s@ == seq![hex_digit_char(d as nat)],
{
    if d < 10 {
        digit_str(d as u32)
    } else {
        proof {
            reveal_strlit("a");
            reveal_strlit("b");
            reveal_strlit("c");
            reveal_strlit("d");
            reveal_strlit("e");
            reveal_strlit("f");
        }
        let s = if d == 10 {
            "a"
        } else if d == 11 {
            "b"
        } else if d == 12 {
            "c"
        } else if d == 13 {
            "d"
        } else if d == 14 {
            "e"
        } else {
            "f"
        };
        assert(s@ =~= seq![hex_digit_char(d as nat)]);
        s
    }
}

/// Appends the hexadecimal digits of `n` to `out`.
pub fn push_hex(out: &mut String, n: usize)
    ensures
        final(out)@ == old(out)@ + hex_digits(n as nat),
    decreases n,
{
    if n >= 16 {
        push_hex(out, n / 16);
    }
    out.append(hex_digit_str(n % 16));
}

/// Appends the text of an address to `out`.
pub fn push_address(out: &mut String, address: usize)
    ensures
        final(out)@ == old(out)@ + address_text(address as nat),
{
    proof {
        reveal_strlit("0x");
    }
    out.append("0x");
    push_hex(out, address);
}

/// Appends the decimal text of `n` to `out`.
pub fn push_number(out: &mut String, n: i32)
    ensures
        final(out)@ == old(out)@ + decimal_text(n as int),
{
    let text = decimal_string(n);
    out.append(text.as_str());
}

/// Whether `text` begins with `prefix`.
pub fn starts_with(text: &str, prefix: &str) -> (found: bool)
    ensures
        found == prefix@.is_prefix_of(text@),
{
    let n = prefix.unicode_len();
    if text.unicode_len() < n {
        return false;
    }
    let mut i: usize = 0;
    while i < n
        invariant
            i <= n,
            n == prefix@.len(),
            n <= text@.len(),
            forall|j: int| 0 <= j < i ==> text@[j] == prefix@[j],
        decreases n - i,
    {
        if text.get_char(i) != prefix.get_char(i) {
            return false;
        }
        i += 1;
    }
    assert(prefix@ =~= text@.subrange(0, prefix@.len() as int));
    true
}

/// Whether two strings hold the same characters.
pub fn same_text(a: &str, b: &str) -> (same: bool)
    ensures
        same == (a@ == b@),
{
    if a.unicode_len() != b.unicode_len() {
        return false;
    }
    let found = starts_with(a, b);
    proof {
        if found {
            assert(a@ =~= b@);
        }
    }
    found
}

/// The number of bytes of `bytes` before its first zero byte, or the length
/// of `bytes` if none is zero.
pub open spec fn text_length(bytes: Seq<u8>) -> int
    decreases bytes.len(),
{
    if bytes.len() == 0 || bytes[0] == 0 {
        0
    } else {
        1 + text_length(bytes.drop_first())
    }
}

/// The bytes of `bytes` before its first zero byte: the text of a buffer
/// that holds a terminated string.
pub open spec fn terminated_prefix(bytes: Seq<u8>) -> Seq<u8> {
    bytes.take(text_length(bytes))
}

/// `text_length` is the one position that has no zero byte before it and
/// either a zero byte at it or the end of the bytes.
pub proof fn lemma_text_length(bytes: Seq<u8>, n: int)
    requires
        0 <= n <= bytes.len(),
        forall|i: int| 0 <= i < n ==> bytes[i] != 0,
        n == bytes.len() || bytes[n] == 0,
    ensures
        text_length(bytes) == n,
    decreases bytes.len(),
{
    if n > 0 {
        let rest = bytes.drop_first();
        assert forall|i: int| 0 <= i < n - 1 implies rest[i] != 0 by {
            assert(rest[i] == bytes[i + 1]);
        }
        lemma_text_length(rest, n - 1);
    }
}

/// The length of the terminated string at the start of `bytes`.
pub fn c_string_length(bytes: &[u8]) -> (n: usize)
    ensures
        n == text_length(bytes@),
        n <= bytes@.len(),
{
    let mut n: usize = 0;
    while n < bytes.len() && bytes[n] != 0
        invariant
            n <= bytes@.len(),
            forall|i: int| 0 <= i < n ==> bytes@[i] != 0,
        decreases bytes@.len() - n,
    {
        n += 1;
    }
    proof {
        lemma_text_length(bytes@, n as int);
    }
    n
}

/// The bytes of the terminated string at the start of `bytes`, without
/// the terminator.
pub fn c_string_bytes(bytes: &[u8]) -> (text: Vec<u8>)
    ensures
        text@ == terminated_prefix(bytes@),
{
    let n = c_string_length(bytes);
    let mut text: Vec<u8> = Vec::new();
    let mut i: usize = 0;
    while i < n
        invariant
            i <= n <= bytes@.len(),
            text@ == bytes@.take(i as int),
        decreases n - i,
    {
        text.push(bytes[i]);
        assert(bytes@.take(i + 1) =~= bytes@.take(i as int).push(bytes@[i as int]));
        i += 1;
    }
    text
}

/// Calls `core::str::from_utf8`, which gives the string that the bytes
/// encode where they are well-formed UTF-8, and fails where they are not.
#[verifier::external_body]
fn str_of_utf8(bytes: &[u8]) -> (text: Option<&str>)
    ensures
        text is Some <==> valid_utf8(bytes@),
        text matches Some(t) ==> t.spec_bytes() == bytes@,
{
    core::str::from_utf8(bytes).ok()
}

/// The text that `bytes` encode in UTF-8, if they encode one.
pub fn utf8_text(bytes: &[u8]) -> (text: Option<String>)
    ensures
        text is Some <==> valid_utf8(bytes@),
        text matches Some(t) ==> t@ == decode_utf8(bytes@),
{
    match str_of_utf8(bytes) {
        Some(t) => {
            proof {
                encode_utf8_decode_utf8(t@);
            }
            Some(String::from_str(t))
        },
        None => None,
    }
}

/// The text of the terminated string at the start of a buffer that native
/// code filled: the characters that the bytes before the terminator
/// encode. Native buffers need not hold UTF-8, and there is no text where
/// they do not.
pub fn foreign_text(buffer: &[u8]) -> (text: Option<String>)
    ensures
        text is Some <==> valid_utf8(terminated_prefix(buffer@)),
        text matches Some(t) ==> t@ == decode_utf8(terminated_prefix(buffer@)),
{
    let bytes = c_string_bytes(buffer);
    utf8_text(bytes.as_slice())
}

/// The native functions that free a buffer. A buffer must be freed by the
/// function that belongs to the allocator that made it.
#[derive(Debug, Copy, Clone, PartialEq, Eq, Hash, Structural)]
pub enum Deallocator {
    /// `g_free` of GLib.
    GLib,
    /// `free` of the C library.
    Libc,
}

/// A C-style string which was allocated using GLib: the address of its
/// buffer and the bytes of the string.
#[derive(Debug)]
pub struct GLibString {
    ptr: usize,
    bytes: Vec<u8>,
}

/// What a foreign string holds.
pub ghost struct ForeignStringView {
    /// The address of the buffer, which is never null.
    pub ptr: usize,
    /// The bytes of the string, without its terminator.
    pub bytes: Seq<u8>,
}

impl View for GLibString {
    type V = ForeignStringView;

    closed spec fn view(&self) -> ForeignStringView {
        ForeignStringView { ptr: self.ptr, bytes: self.bytes@ }
    }
}

impl GLibString {
    #[verifier::type_invariant]
    spec fn well_formed(self) -> bool {
        self.ptr != 0
    }

    /// Wraps the string that GLib allocated at the address `chars`, where
    /// `buffer` holds it with its terminator. There is no string at the
    /// null address.
    pub fn from_chars(chars: usize, buffer: &[u8]) -> (string: Option<Self>)
        ensures
            string is Some <==> chars != 0,
            string matches Some(s) ==> s@ == (ForeignStringView {
                ptr: chars,
                bytes: terminated_prefix(buffer@),
            }),
    {
        if chars == 0 {
            None
        } else {
            Some(GLibString { ptr: chars, bytes: c_string_bytes(buffer) })
        }
    }

    /// The bytes of the string, without its terminator.
    pub fn to_bytes(&self) -> (bytes: &[u8])
        ensures
            bytes@ == self@.bytes,
    {
        self.bytes.as_slice()
    }

    /// The text of the string, if its bytes are UTF-8.
    pub fn to_str(&self) -> (text: Option<String>)
        ensures
            text is Some <==> valid_utf8(self@.bytes),
            text matches Some(t) ==> t@ == decode_utf8(self@.bytes),
    {
        utf8_text(self.bytes.as_slice())
    }

    /// Ends the string: what is left to do is to free the buffer at the
    /// address that comes back, with the function that comes back, which
    /// is that of GLib.
    pub fn into_free(self) -> (free: (Deallocator, usize))
        ensures
            free == (Deallocator::GLib, self@.ptr),
            free.1 != 0,
    {
        proof {
            use_type_invariant(&self);
        }
        (Deallocator::GLib, self.ptr)
    }
}

/// A C-style string which was allocated using the C library: the address
/// of its buffer and the bytes of the string.
#[derive(Debug)]
pub struct LibcString {
    ptr: usize,
    bytes: Vec<u8>,
}

impl View for LibcString {
    type V = ForeignStringView;

    closed spec fn view(&self) -> ForeignStringView {
        ForeignStringView { ptr: self.ptr, bytes: self.bytes@ }
    }
}

impl LibcString {
    #[verifier::type_invariant]
    spec fn well_formed(self) -> bool {
        self.ptr != 0
    }

    /// Wraps the string that the C library allocated at the address
    /// `chars`, where `buffer` holds it with its terminator. There is no
    /// string at the null address.
    pub fn from_chars(chars: usize, buffer: &[u8]) -> (string: Option<Self>)
        ensures
            string is Some <==> chars != 0,
            string matches Some(s) ==> s@ == (ForeignStringView {
                ptr: chars,
                bytes: terminated_prefix(buffer@),
            }),
    {
        if chars == 0 {
            None
        } else {
            Some(LibcString { ptr: chars, bytes: c_string_bytes(buffer) })
        }
    }

    /// The bytes of the string, without its terminator.
    pub fn to_bytes(&self) -> (bytes: &[u8])
        ensures
            bytes@ == self@.bytes,
    {
        self.bytes.as_slice()
    }

    /// The text of the string, if its bytes are UTF-8.
    pub fn to_str(&self) -> (text: Option<String>)
        ensures
            text is Some <==> valid_utf8(self@.bytes),
            text matches Some(t) ==> t@ == decode_utf8(self@.bytes),
    {
        utf8_text(self.bytes.as_slice())
    }

    /// Ends the string: what is left to do is to free the buffer at the
    /// address that comes back, with the function that comes back, which
    /// is that of the C library.
    pub fn into_free(self) -> (free: (Deallocator, usize))
        ensures
            free == (Deallocator::Libc, self@.ptr),
            free.1 != 0,
    {
        proof {
            use_type_invariant(&self);
        }
        (Deallocator::Libc, self.ptr)
    }
}

} // verus!
