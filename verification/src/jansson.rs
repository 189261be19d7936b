//! Jansson JSON values as a plugin sees them: their kinds, the flag words
//! of the decoder and the encoder, the reference count that native and
//! host code share, and the error that a failed decoding leaves.

use crate::utils::{c_string_bytes, c_string_length, terminated_prefix, text_length, utf8_text};
use vstd::prelude::*;
use vstd::string::*;
use vstd::utf8::*;

verus! {

/// The type of a JSON value.
#[allow(non_camel_case_types)]
#[derive(Debug, Copy, Clone, PartialEq, Eq, Hash, Structural)]
pub enum json_type {
    JSON_OBJECT,
    JSON_ARRAY,
    JSON_STRING,
    JSON_INTEGER,
    JSON_REAL,
    JSON_TRUE,
    JSON_FALSE,
    JSON_NULL,
}

/// The number by which Jansson knows a type of value.
pub open spec fn json_type_code(kind: json_type) -> int {
    match kind {
        json_type::JSON_OBJECT => 0,
        json_type::JSON_ARRAY => 1,
        json_type::JSON_STRING => 2,
        json_type::JSON_INTEGER => 3,
        json_type::JSON_REAL => 4,
        json_type::JSON_TRUE => 5,
        json_type::JSON_FALSE => 6,
        json_type::JSON_NULL => 7,
    }
}

impl json_type {
    /// The number by which Jansson knows this type of value.
    pub fn code(self) -> (code: u32)
        ensures
            code == json_type_code(self),
    {
        match self {
            json_type::JSON_OBJECT => 0,
            json_type::JSON_ARRAY => 1,
            json_type::JSON_STRING => 2,
            json_type::JSON_INTEGER => 3,
            json_type::JSON_REAL => 4,
            json_type::JSON_TRUE => 5,
            json_type::JSON_FALSE => 6,
            json_type::JSON_NULL => 7,
        }
    }

    /// The type of value that Jansson knows by `code`, if there is one.
    pub fn from_code(code: u32) -> (kind: Option<json_type>)
        ensures
            kind is Some <==> code <= 7,
            kind matches Some(k) ==> json_type_code(k) == code,
    {
        if code == 0 {
            Some(json_type::JSON_OBJECT)
        } else if code == 1 {
            Some(json_type::JSON_ARRAY)
        } else if code == 2 {
            Some(json_type::JSON_STRING)
        } else if code == 3 {
            Some(json_type::JSON_INTEGER)
        } else if code == 4 {
            Some(json_type::JSON_REAL)
        } else if code == 5 {
            Some(json_type::JSON_TRUE)
        } else if code == 6 {
            Some(json_type::JSON_FALSE)
        } else if code == 7 {
            Some(json_type::JSON_NULL)
        } else {
            None
        }
    }
}

/// Flags that can be passed to JSON decoding functions.
#[allow(non_camel_case_types)]
#[derive(Debug, Copy, Clone, PartialEq, Eq, Hash, Structural)]
pub enum json_decoding_flags {
    JSON_REJECT_DUPLICATES,
    JSON_DISABLE_EOF_CHECK,
    JSON_DECODE_ANY,
    JSON_DECODE_INT_AS_REAL,
    JSON_ALLOW_NUL,
}

/// The bit of a decoding flag: the five flags take the bits 0 to 4.
pub open spec fn decoding_flag_bit(flag: json_decoding_flags) -> usize {
    match flag {
        json_decoding_flags::JSON_REJECT_DUPLICATES => 0x1,
        json_decoding_flags::JSON_DISABLE_EOF_CHECK => 0x2,
        json_decoding_flags::JSON_DECODE_ANY => 0x4,
        json_decoding_flags::JSON_DECODE_INT_AS_REAL => 0x8,
        json_decoding_flags::JSON_ALLOW_NUL => 0x10,
    }
}

impl json_decoding_flags {
    /// The bit of this flag in a word of decoding flags.
    pub fn bit(self) -> (bit: usize)
        ensures
            bit == decoding_flag_bit(self),
    {
        match self {
            json_decoding_flags::JSON_REJECT_DUPLICATES => 0x1,
            json_decoding_flags::JSON_DISABLE_EOF_CHECK => 0x2,
            json_decoding_flags::JSON_DECODE_ANY => 0x4,
            json_decoding_flags::JSON_DECODE_INT_AS_REAL => 0x8,
            json_decoding_flags::JSON_ALLOW_NUL => 0x10,
        }
    }
}

/// Flags that can be passed to JSON encoding functions.
#[allow(non_camel_case_types)]
#[derive(Debug, Copy, Clone, PartialEq, Eq, Hash, Structural)]
pub enum json_encoding_flags {
    JSON_COMPACT,
    JSON_ENSURE_ASCII,
    JSON_SORT_KEYS,
    JSON_PRESERVE_ORDER,
    JSON_ENCODE_ANY,
    JSON_ESCAPE_SLASH,
    JSON_EMBED,
}

/// The bit of an encoding flag: six flags take the bits 5 to 10, and the
/// embed mode takes bit 16.
pub open spec fn encoding_flag_bit(flag: json_encoding_flags) -> usize {
    match flag {
        json_encoding_flags::JSON_COMPACT => 0x20,
        json_encoding_flags::JSON_ENSURE_ASCII => 0x40,
        json_encoding_flags::JSON_SORT_KEYS => 0x80,
        json_encoding_flags::JSON_PRESERVE_ORDER => 0x100,
        json_encoding_flags::JSON_ENCODE_ANY => 0x200,
        json_encoding_flags::JSON_ESCAPE_SLASH => 0x400,
        json_encoding_flags::JSON_EMBED => 0x10000,
    }
}

impl json_encoding_flags {
    /// The bit of this flag in a word of encoding flags.
    pub fn bit(self) -> (bit: usize)
        ensures
            bit == encoding_flag_bit(self),
    {
        match self {
            json_encoding_flags::JSON_COMPACT => 0x20,
            json_encoding_flags::JSON_ENSURE_ASCII => 0x40,
            json_encoding_flags::JSON_SORT_KEYS => 0x80,
            json_encoding_flags::JSON_PRESERVE_ORDER => 0x100,
            json_encoding_flags::JSON_ENCODE_ANY => 0x200,
            json_encoding_flags::JSON_ESCAPE_SLASH => 0x400,
            json_encoding_flags::JSON_EMBED => 0x10000,
        }
    }
}

/// The maximum possible indentation when pretty-printing JSON.
pub const JSON_MAX_INDENT: u32 = 31;

/// The bits that a word of decoding flags may hold.
pub const DECODING_MASK: usize = 0x1f;

/// The bits that a word of encoding flags may hold.
pub const ENCODING_MASK: usize = 0x107e0;

/// Flags that can be passed to JSON decoding functions, as one word.
#[derive(Debug, Copy, Clone, PartialEq, Eq, Hash, Structural)]
pub struct JanssonDecodingFlags {
    bits: usize,
}

impl View for JanssonDecodingFlags {
    type V = usize;

    closed spec fn view(&self) -> usize {
        self.bits
    }
}

impl JanssonDecodingFlags {
    #[verifier::type_invariant]
    spec fn well_formed(self) -> bool {
        self.bits & !DECODING_MASK == 0
    }

    /// No flag.
    pub fn empty() -> (flags: Self)
        ensures
            flags@ == 0,
    {
        assert(0usize & !DECODING_MASK == 0) by (bit_vector);
        JanssonDecodingFlags { bits: 0 }
    }

    /// Every flag.
    pub fn all() -> (flags: Self)
        ensures
            flags@ == DECODING_MASK,
    {
        assert(DECODING_MASK & !DECODING_MASK == 0) by (bit_vector);
        JanssonDecodingFlags { bits: DECODING_MASK }
    }

    /// The set that holds `flag` alone.
    pub fn of(flag: json_decoding_flags) -> (flags: Self)
        ensures
            flags@ == decoding_flag_bit(flag),
    {
        let bits = flag.bit();
        assert(bits & !DECODING_MASK == 0) by (bit_vector)
            requires
                bits == 1 || bits == 2 || bits == 4 || bits == 8 || bits == 16,
        ;
        JanssonDecodingFlags { bits }
    }

    /// The word that native code takes for these flags. It holds no bit
    /// but those of the five decoding flags.
    pub fn bits(&self) -> (bits: usize)
        ensures
            bits == self@,
            bits & !DECODING_MASK == 0,
    {
        proof {
            use_type_invariant(self);
        }
        self.bits
    }

    /// The flags of a word, if the word holds no bit but those of the
    /// decoding flags.
    pub fn from_bits(bits: usize) -> (flags: Option<Self>)
        ensures
            flags is Some <==> bits & !DECODING_MASK == 0,
            flags matches Some(f) ==> f@ == bits,
    {
        if bits & !DECODING_MASK == 0 {
            Some(JanssonDecodingFlags { bits })
        } else {
            None
        }
    }

    /// Whether every flag of `other` is among these.
    pub fn contains(&self, other: Self) -> (yes: bool)
        ensures
            yes == (self@ & other@ == other@),
    {
        self.bits & other.bits == other.bits
    }

    /// The flags of either set.
    pub fn union(self, other: Self) -> (flags: Self)
        ensures
            flags@ == self@ | other@,
    {
        proof {
            use_type_invariant(self);
            use_type_invariant(other);
        }
        let a = self.bits;
        let b = other.bits;
        assert((a | b) & !DECODING_MASK == 0) by (bit_vector)
            requires
                a & !DECODING_MASK == 0,
                b & !DECODING_MASK == 0,
        ;
        JanssonDecodingFlags { bits: a | b }
    }
}

/// Flags that can be passed to JSON encoding functions, as one word.
#[derive(Debug, Copy, Clone, PartialEq, Eq, Hash, Structural)]
pub struct JanssonEncodingFlags {
    bits: usize,
}

impl View for JanssonEncodingFlags {
    type V = usize;

    closed spec fn view(&self) -> usize {
        self.bits
    }
}

impl JanssonEncodingFlags {
    #[verifier::type_invariant]
    spec fn well_formed(self) -> bool {
        self.bits & !ENCODING_MASK == 0
    }

    /// No flag.
    pub fn empty() -> (flags: Self)
        ensures
            flags@ == 0,
    {
        assert(0usize & !ENCODING_MASK == 0) by (bit_vector);
        JanssonEncodingFlags { bits: 0 }
    }

    /// Every flag.
    pub fn all() -> (flags: Self)
        ensures
            flags@ == ENCODING_MASK,
    {
        assert(ENCODING_MASK & !ENCODING_MASK == 0) by (bit_vector);
        JanssonEncodingFlags { bits: ENCODING_MASK }
    }

    /// The set that holds `flag` alone.
    pub fn of(flag: json_encoding_flags) -> (flags: Self)
        ensures
            flags@ == encoding_flag_bit(flag),
    {
        let bits = flag.bit();
        assert(bits & !ENCODING_MASK == 0) by (bit_vector)
            requires
                bits == 0x20 || bits == 0x40 || bits == 0x80 || bits == 0x100 || bits == 0x200
                    || bits == 0x400 || bits == 0x10000,
        ;
        JanssonEncodingFlags { bits }
    }

    /// The word that native code takes for these flags. It holds no bit
    /// but those of the seven encoding flags.
    pub fn bits(&self) -> (bits: usize)
        ensures
            bits == self@,
            bits & !ENCODING_MASK == 0,
    {
        proof {
            use_type_invariant(self);
        }
        self.bits
    }

    /// The flags of a word, if the word holds no bit but those of the
    /// encoding flags.
    pub fn from_bits(bits: usize) -> (flags: Option<Self>)
        ensures
            flags is Some <==> bits & !ENCODING_MASK == 0,
            flags matches Some(f) ==> f@ == bits,
    {
        if bits & !ENCODING_MASK == 0 {
            Some(JanssonEncodingFlags { bits })
        } else {
            None
        }
    }

    /// Whether every flag of `other` is among these.
    pub fn contains(&self, other: Self) -> (yes: bool)
        ensures
            yes == (self@ & other@ == other@),
    {
        self.bits & other.bits == other.bits
    }

    /// The flags of either set.
    pub fn union(self, other: Self) -> (flags: Self)
        ensures
            flags@ == self@ | other@,
    {
        proof {
            use_type_invariant(self);
            use_type_invariant(other);
        }
        let a = self.bits;
        let b = other.bits;
        assert((a | b) & !ENCODING_MASK == 0) by (bit_vector)
            requires
                a & !ENCODING_MASK == 0,
                b & !ENCODING_MASK == 0,
        ;
        JanssonEncodingFlags { bits: a | b }
    }
}

/// A JSON value as native code lays it out: its type and the count of the
/// references that native and host code hold to it.
#[allow(non_camel_case_types)]
#[derive(Debug)]
pub struct json_t {
    pub type_: json_type,
    pub refcount: usize,
}

/// A raw Jansson value.
pub type RawJanssonValue = json_t;

/// Adds a reference to a native value.
pub fn json_incref(json: &mut json_t)
    requires
        old(json).refcount < usize::MAX,
    ensures
        final(json).refcount == old(json).refcount + 1,
        final(json).type_ == old(json).type_,
{
    json.refcount = json.refcount + 1;
}

/// Gives up a reference to a native value, and says whether it was the
/// last one, on which native code deletes the value.
pub fn json_decref(json: &mut json_t) -> (deleted: bool)
    requires
        old(json).refcount > 0,
    ensures
        final(json).refcount == old(json).refcount - 1,
        final(json).type_ == old(json).type_,
        deleted == (old(json).refcount == 1),
{
    json.refcount = json.refcount - 1;
    json.refcount == 0
}

/// What host code does with the wrappers of one native value.
#[derive(Debug, Copy, Clone, PartialEq, Eq, Hash, Structural)]
pub enum WrapperOp {
    /// A wrapper takes over a reference that native code made (`from_raw`).
    Adopt,
    /// A wrapper is made with a new reference (`from_and_incref`).
    Retain,
    /// A wrapper is copied (`duplicate`).
    Duplicate,
    /// A wrapper is given up (`release`).
    Release,
    /// A wrapper hands its value to native code (`into_raw`).
    IntoRaw,
}

/// How often an operation adds one to the count of the native value.
pub open spec fn increments_of(op: WrapperOp) -> int {
    match op {
        WrapperOp::Adopt => 0,
        WrapperOp::Retain => 1,
        WrapperOp::Duplicate => 1,
        WrapperOp::Release => 0,
        WrapperOp::IntoRaw => 1,
    }
}

/// How often an operation takes one from the count of the native value.
pub open spec fn decrements_of(op: WrapperOp) -> int {
    match op {
        WrapperOp::Adopt => 0,
        WrapperOp::Retain => 0,
        WrapperOp::Duplicate => 0,
        WrapperOp::Release => 1,
        WrapperOp::IntoRaw => 1,
    }
}

/// By how much an operation changes the count of the native value.
pub open spec fn count_change(op: WrapperOp) -> int {
    increments_of(op) - decrements_of(op)
}

/// By how much an operation changes the number of wrappers.
pub open spec fn wrapper_change(op: WrapperOp) -> int {
    match op {
        WrapperOp::Adopt => 1,
        WrapperOp::Retain => 1,
        WrapperOp::Duplicate => 1,
        WrapperOp::Release => -1,
        WrapperOp::IntoRaw => -1,
    }
}

/// How many references an operation takes over from native code.
pub open spec fn adopted_by(op: WrapperOp) -> int {
    if op == WrapperOp::Adopt {
        1
    } else {
        0
    }
}

/// How many references an operation hands over to native code.
pub open spec fn handed_over_by(op: WrapperOp) -> int {
    if op == WrapperOp::IntoRaw {
        1
    } else {
        0
    }
}

/// The sum of `measure` over a sequence of operations.
pub open spec fn total(ops: Seq<WrapperOp>, measure: spec_fn(WrapperOp) -> int) -> int
    decreases ops.len(),
{
    if ops.len() == 0 {
        0
    } else {
        total(ops.drop_last(), measure) + measure(ops.last())
    }
}

/// The increments that a sequence of operations makes.
pub open spec fn increments(ops: Seq<WrapperOp>) -> int {
    total(ops, |op: WrapperOp| increments_of(op))
}

/// The decrements that a sequence of operations makes.
pub open spec fn decrements(ops: Seq<WrapperOp>) -> int {
    total(ops, |op: WrapperOp| decrements_of(op))
}

/// The number of wrappers that a sequence of operations leaves, where
/// there was none before it.
pub open spec fn wrappers(ops: Seq<WrapperOp>) -> int {
    total(ops, |op: WrapperOp| wrapper_change(op))
}

/// The references that a sequence of operations takes over from native code.
pub open spec fn adopted(ops: Seq<WrapperOp>) -> int {
    total(ops, |op: WrapperOp| adopted_by(op))
}

/// The references that a sequence of operations hands over to native code.
pub open spec fn handed_over(ops: Seq<WrapperOp>) -> int {
    total(ops, |op: WrapperOp| handed_over_by(op))
}

/// The count of a native value after a sequence of operations.
pub open spec fn count_after(count: int, ops: Seq<WrapperOp>) -> int {
    count + increments(ops) - decrements(ops)
}

/// Every reference is accounted for: the references that the wrappers
/// made or took over are those that they gave up, those that they handed
/// to native code, and one for each wrapper that is left.
pub proof fn lemma_references_accounted(ops: Seq<WrapperOp>)
    ensures
        increments(ops) + adopted(ops) == decrements(ops) + handed_over(ops) + wrappers(ops),
    decreases ops.len(),
{
    if ops.len() > 0 {
        lemma_references_accounted(ops.drop_last());
    }
}

/// No leak and no double free: once every wrapper is gone, and native code
/// was handed as many references as it gave, the wrappers have taken from
/// the count exactly as often as they have added to it, and the count is
/// what it was.
pub proof fn lemma_counts_balance(count: int, ops: Seq<WrapperOp>)
    requires
        wrappers(ops) == 0,
        adopted(ops) == handed_over(ops),
    ensures
        decrements(ops) == increments(ops),
        count_after(count, ops) == count,
{
    lemma_references_accounted(ops);
}

/// While its wrappers live the value does: the count of a native value is
/// the count it had without them, and one for each wrapper.
pub proof fn lemma_count_covers_wrappers(count: int, ops: Seq<WrapperOp>)
    ensures
        count_after(count, ops) == count - adopted(ops) + handed_over(ops) + wrappers(ops),
{
    lemma_references_accounted(ops);
}

/// One reference to a native JSON value, held by host code. A wrapper is
/// made by adopting a reference that native code handed over or by
/// retaining a value that native code still owns; it is given up by
/// `release`, or handed back to native code by `into_raw`.
#[derive(Debug)]
pub struct JanssonValue {
    ptr: usize,
}

impl View for JanssonValue {
    type V = usize;

    /// The address of the native value.
    closed spec fn view(&self) -> usize {
        self.ptr
    }
}

impl JanssonValue {
    #[verifier::type_invariant]
    spec fn well_formed(self) -> bool {
        self.ptr != 0
    }

    /// Wraps the reference that native code handed over with the value at
    /// address `ptr`; the count of the value is left as it is. There is no
    /// wrapper for the null address.
    pub fn from_raw(ptr: usize) -> (value: Option<Self>)
        ensures
            value is Some <==> ptr != 0,
            value matches Some(v) ==> v@ == ptr,
    {
        if ptr == 0 {
            None
        } else {
            Some(JanssonValue { ptr })
        }
    }

    /// Retains the value at address `ptr`, whose record is `native`, and
    /// wraps the new reference. For the null address there is no wrapper
    /// and the record is not touched.
    pub fn from_and_incref(ptr: usize, native: &mut json_t) -> (value: Option<Self>)
        requires
            ptr != 0 ==> old(native).refcount < usize::MAX,
        ensures
            value is Some <==> ptr != 0,
            value matches Some(v) ==> v@ == ptr,
            final(native).type_ == old(native).type_,
            final(native).refcount == if ptr != 0 {
                old(native).refcount + count_change(WrapperOp::Retain)
            } else {
                old(native).refcount as int
            },
    {
        if ptr == 0 {
            None
        } else {
            json_incref(native);
            Some(JanssonValue { ptr })
        }
    }

    /// The address of the native value, which is never null.
    pub fn as_ptr(&self) -> (ptr: usize)
        ensures
            ptr == self@,
            ptr != 0,
    {
        proof {
            use_type_invariant(self);
        }
        self.ptr
    }

    /// A second wrapper of the same value, with a reference of its own.
    pub fn duplicate(&self, native: &mut json_t) -> (copy: Self)
        requires
            old(native).refcount < usize::MAX,
        ensures
            copy@ == self@,
            final(native).type_ == old(native).type_,
            final(native).refcount == old(native).refcount + count_change(WrapperOp::Duplicate),
    {
        proof {
            use_type_invariant(self);
        }
        json_incref(native);
        JanssonValue { ptr: self.ptr }
    }

    /// Gives up the reference of this wrapper, and says whether native
    /// code deleted the value because it was the last one.
    pub fn release(self, native: &mut json_t) -> (deleted: bool)
        requires
            old(native).refcount > 0,
        ensures
            final(native).type_ == old(native).type_,
            final(native).refcount == old(native).refcount + count_change(WrapperOp::Release),
            deleted == (final(native).refcount == 0),
    {
        json_decref(native)
    }

    /// Hands the value over to native code that takes ownership of a
    /// reference: a reference is added for the receiver before the one of
    /// this wrapper is given up, so that the count is what it was and the
    /// value is never deleted on the way.
    pub fn into_raw(self, native: &mut json_t) -> (ptr: usize)
        requires
            0 < old(native).refcount < usize::MAX,
        ensures
            ptr == self@,
            ptr != 0,
            final(native).type_ == old(native).type_,
            final(native).refcount == old(native).refcount + count_change(WrapperOp::IntoRaw),
    {
        let ptr = self.as_ptr();
        json_incref(native);
        self.release(native);
        ptr
    }
}

/// What the decoder reports of an input that it refuses.
#[derive(Debug)]
pub struct JanssonError {
    /// The line of the input at which decoding failed.
    pub line: i32,
    /// The column of that line.
    pub column: i32,
    /// The number of bytes of the input before that place.
    pub position: i32,
    /// The message of the decoder.
    pub text: String,
}

/// Why a text was not decoded into a JSON value.
#[derive(Debug)]
pub enum DecodeError {
    /// The text holds a zero byte, at this position, and cannot be handed
    /// to the decoder as a terminated string.
    InteriorNul(usize),
    /// The decoder refused the text.
    Malformed(JanssonError),
    /// The decoder refused the text, and its message is not UTF-8.
    Encoding,
}

/// Whether `error` is the failure that the decoder's report stands for:
/// the report with the message as text, where the terminated string in
/// `text` is UTF-8, and an encoding error where it is not.
pub open spec fn is_decode_failure(
    error: DecodeError,
    line: i32,
    column: i32,
    position: i32,
    text: Seq<u8>,
) -> bool {
    if valid_utf8(terminated_prefix(text)) {
        error matches DecodeError::Malformed(report) && report.line == line && report.column
            == column && report.position == position && report.text@ == decode_utf8(
            terminated_prefix(text),
        )
    } else {
        error is Encoding
    }
}

/// Tells whether `input` can be handed to the decoder, which takes a
/// terminated string: it can unless it holds a zero byte.
pub fn check_input(input: &str) -> (checked: Result<(), DecodeError>)
    ensures
        checked is Ok <==> !input.spec_bytes().contains(0u8),
        checked matches Err(e) ==> e == DecodeError::InteriorNul(
            text_length(input.spec_bytes()) as usize,
        ),
{
    let bytes = input.as_bytes();
    let n = c_string_length(bytes);
    proof {
        lemma_text_length_finds_zero(bytes@);
    }
    if n < bytes.len() {
        Err(DecodeError::InteriorNul(n))
    } else {
        Ok(())
    }
}

/// The bytes hold a zero byte exactly if their text ends before they do.
pub proof fn lemma_text_length_finds_zero(bytes: Seq<u8>)
    ensures
        0 <= text_length(bytes) <= bytes.len(),
        bytes.contains(0u8) <==> text_length(bytes) < bytes.len(),
        text_length(bytes) < bytes.len() ==> bytes[text_length(bytes)] == 0,
        forall|i: int| 0 <= i < text_length(bytes) ==> bytes[i] != 0,
    decreases bytes.len(),
{
    if bytes.len() == 0 || bytes[0] == 0 {
        if bytes.len() > 0 {
            assert(bytes.contains(0u8));
        }
    } else {
        let rest = bytes.drop_first();
        lemma_text_length_finds_zero(rest);
        let n = text_length(bytes);
        assert forall|i: int| 0 <= i < n implies bytes[i] != 0 by {
            if i > 0 {
                assert(bytes[i] == rest[i - 1]);
            }
        }
        if n < bytes.len() {
            assert(bytes[n] == rest[n - 1]);
            assert(bytes.contains(0u8));
        }
        if bytes.contains(0u8) {
            let k = choose|k: int| 0 <= k < bytes.len() && bytes[k] == 0u8;
            assert(rest[k - 1] == 0u8);
            assert(rest.contains(0u8));
        }
    }
}

/// The failure that the decoder's report stands for. `text` is the buffer
/// that holds the message of the decoder as a terminated string.
pub fn decode_failure(line: i32, column: i32, position: i32, text: &[u8]) -> (error: DecodeError)
    ensures
        is_decode_failure(error, line, column, position, text@),
{
    let message = c_string_bytes(text);
    match utf8_text(message.as_slice()) {
        Some(text) => DecodeError::Malformed(JanssonError { line, column, position, text }),
        None => DecodeError::Encoding,
    }
}

/// What a call of the decoder came to: the wrapper of the value at `ptr`,
/// where the decoder gave a value, and the failure that its report stands
/// for where it gave the null address.
pub fn decode_outcome(ptr: usize, line: i32, column: i32, position: i32, text: &[u8]) -> (outcome:
    Result<JanssonValue, DecodeError>)
    ensures
        outcome is Ok <==> ptr != 0,
        outcome matches Ok(value) ==> value@ == ptr,
        outcome matches Err(error) ==> is_decode_failure(error, line, column, position, text@),
{
    match JanssonValue::from_raw(ptr) {
        Some(value) => Ok(value),
        None => Err(decode_failure(line, column, position, text)),
    }
}

} // verus!
