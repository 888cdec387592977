//! The strings that cross the boundary to the runtime: null-terminated C strings going in,
//! byte strings coming back out, and the wide module name that locates the runtime.
use vstd::prelude::*;
use vstd::utf8::*;

use crate::error::MonoError;

verus! {

broadcast use {vstd::utf8::group_utf8_lib, vstd::seq_lib::group_seq_properties};

/// The bytes of the C string that stands for `text`: its UTF-8 encoding followed by the
/// terminating null byte.
pub open spec fn c_string_bytes(text: Seq<char>) -> Seq<u8> {
    encode_utf8(text).push(0u8)
}

/// `true` when `text` contains the null character, which a C string cannot hold.
pub open spec fn has_interior_null(text: Seq<char>) -> bool {
    text.contains('\0')
}

/// A scalar's UTF-8 encoding holds a zero byte exactly when the scalar is zero: every byte of a
/// multi-byte encoding has its high bit set.
proof fn lemma_encode_scalar_zero(v: u32)
    requires
        is_scalar(v),
    ensures
        encode_scalar(v).contains(0u8) <==> v == 0,
{
    let e = encode_scalar(v);
    if has_width_1_encoding(v) {
        assert(((v & 0x7F) as u8 == 0) <==> v == 0) by (bit_vector)
            requires
                v <= 0x7F,
        ;
        if v == 0 {
            assert(e[0] == 0u8);
        }
    } else {
        assert(0xC0 | ((v >> 6) & 0x1F) as u8 != 0) by (bit_vector);
        assert(0xE0 | ((v >> 12) & 0x0F) as u8 != 0) by (bit_vector);
        assert(0xF0 | ((v >> 18) & 0x7) as u8 != 0) by (bit_vector);
        assert(0x80 | (v & 0x3F) as u8 != 0) by (bit_vector);
        assert(0x80 | ((v >> 6) & 0x3F) as u8 != 0) by (bit_vector);
        assert(0x80 | ((v >> 12) & 0x3F) as u8 != 0) by (bit_vector);
        assert forall|i: int| 0 <= i < e.len() implies e[i] != 0u8 by {}
    }
}

/// The UTF-8 encoding of a string holds a zero byte exactly when the string holds the null
/// character.
pub proof fn lemma_encode_utf8_zero(text: Seq<char>)
    ensures
        encode_utf8(text).contains(0u8) <==> has_interior_null(text),
    decreases text.len(),
{
    if text.len() > 0 {
        let first = encode_scalar(text[0] as u32);
        let rest = encode_utf8(text.drop_first());
        let all = encode_utf8(text);
        assert(all == first + rest);
        char_is_scalar(text[0]);
        lemma_encode_scalar_zero(text[0] as u32);
        lemma_encode_utf8_zero(text.drop_first());
        if all.contains(0u8) {
            let k = choose|k: int| 0 <= k < all.len() && all[k] == 0u8;
            if k < first.len() {
                assert(first[k] == 0u8);
                char_u32_cast(text[0], text[0] as u32);
                assert((0u32 as char) == '\0');
                assert(text[0] == '\0');
                assert(text.contains('\0'));
            } else {
                assert(rest[k - first.len()] == 0u8);
                let j = choose|j: int|
                    0 <= j < text.drop_first().len() && text.drop_first()[j] == '\0';
                assert(text[j + 1] == '\0');
            }
        }
        if text.contains('\0') {
            let j = choose|j: int| 0 <= j < text.len() && text[j] == '\0';
            if j == 0 {
                let k = choose|k: int| 0 <= k < first.len() && first[k] == 0u8;
                assert(all[k] == 0u8);
            } else {
                assert(text.drop_first()[j - 1] == '\0');
                let k = choose|k: int| 0 <= k < rest.len() && rest[k] == 0u8;
                assert(all[first.len() + k] == 0u8);
            }
        }
    }
}

/// Converts `text` to the null-terminated byte string a C function expects.
///
/// # Errors
///
/// Returns [`MonoError::NullByteInName`] if `text` contains an interior null byte.
pub fn c_string(text: &str) -> (r: Result<Vec<u8>, MonoError>)
    ensures
        r is Err <==> has_interior_null(text@),
        r matches Err(e) ==> e == MonoError::NullByteInName,
        r matches Ok(bytes) ==> bytes@ == c_string_bytes(text@),
{
    let bytes = text.as_bytes();
    proof {
        lemma_encode_utf8_zero(text@);
    }
    let mut out: Vec<u8> = Vec::new();
    let mut i: usize = 0;
    while i < bytes.len()
        invariant
            i <= bytes@.len(),
            bytes@ == encode_utf8(text@),
            out@ == bytes@.subrange(0, i as int),
            forall|j: int| 0 <= j < i ==> bytes@[j] != 0u8,
            encode_utf8(text@).contains(0u8) <==> has_interior_null(text@),
        decreases bytes@.len() - i,
    {
        if bytes[i] == 0 {
            assert(bytes@[i as int] == 0u8);
            return Err(MonoError::NullByteInName);
        }
        out.push(bytes[i]);
        i = i + 1;
        assert(out@ == bytes@.subrange(0, i as int));
    }
    proof {
        assert(out@ == bytes@);
        if encode_utf8(text@).contains(0u8) {
            let k = choose|k: int| 0 <= k < bytes@.len() && bytes@[k] == 0u8;
            assert(false);
        }
    }
    out.push(0);
    Ok(out)
}

/// The C string to hand to the runtime for `text`, or `None` when the runtime must not be
/// asked at all: when no runtime is bound (`bound` is false), or when `text` holds a null
/// character (the operation then reports `NullByteInName` without asking).
pub fn c_string_argument(text: &str, bound: bool) -> (arg: Option<Vec<u8>>)
    ensures
        arg is Some <==> bound && !has_interior_null(text@),
        arg matches Some(bytes) ==> bytes@ == c_string_bytes(text@),
{
    if !bound {
        return None;
    }
    match c_string(text) {
        Ok(bytes) => Some(bytes),
        Err(_) => None,
    }
}

/// The two C strings to hand to the runtime for a lookup by namespace and name, or `None`
/// when the runtime must not be asked: no runtime is bound, or either text holds a null
/// character.
pub fn c_string_arguments(first: &str, second: &str, bound: bool) -> (args: Option<(Vec<u8>, Vec<u8>)>)
    ensures
        args is Some <==> bound && !has_interior_null(first@) && !has_interior_null(second@),
        args matches Some((a, b)) ==> a@ == c_string_bytes(first@) && b@ == c_string_bytes(second@),
{
    match c_string_argument(first, bound) {
        None => None,
        Some(a) => match c_string_argument(second, bound) {
            None => None,
            Some(b) => Some((a, b)),
        },
    }
}

/// Whether the UTF-8 buffer the runtime answered (`mono_string_to_utf8`) must be handed back
/// to `mono_free`: exactly when the answer is not null, since a null answer owns nothing.
pub fn frees_answer(answer: usize) -> (free: bool)
    ensures
        free == (answer != 0),
{
    answer != 0
}

/// A C string made from text without null characters holds exactly that text: its only zero
/// byte is the terminator, and the bytes before it decode back to the text.
pub proof fn lemma_c_string_round_trip(text: Seq<char>)
    requires
        !has_interior_null(text),
    ensures
        c_string_bytes(text).last() == 0u8,
        forall|i: int|
            0 <= i < c_string_bytes(text).len() - 1 ==> #[trigger] c_string_bytes(text)[i] != 0u8,
        decode_utf8(c_string_bytes(text).drop_last()) == text,
{
    lemma_encode_utf8_zero(text);
    let bytes = c_string_bytes(text);
    assert(bytes.drop_last() == encode_utf8(text));
    assert forall|i: int| 0 <= i < bytes.len() - 1 implies #[trigger] bytes[i] != 0u8 by {
        if bytes[i] == 0u8 {
            assert(encode_utf8(text)[i] == 0u8);
            assert(encode_utf8(text).contains(0u8));
        }
    }
}

/// The UTF-16 code units of one Unicode scalar: the scalar itself when it fits in 16 bits,
/// otherwise its surrogate pair.
pub open spec fn utf16_units(v: u32) -> Seq<u16> {
    if v < 0x10000 {
        seq![v as u16]
    } else {
        seq![(0xD800 + ((v - 0x10000) as u32 >> 10)) as u16, (0xDC00 + ((v - 0x10000) as u32 & 0x3FF)) as u16]
    }
}

/// The UTF-16 encoding of a string.
pub open spec fn encode_utf16(text: Seq<char>) -> Seq<u16>
    decreases text.len(),
{
    if text.len() == 0 {
        seq![]
    } else {
        encode_utf16(text.drop_last()) + utf16_units(text.last() as u32)
    }
}

/// A scalar's UTF-16 units hold a zero unit exactly when the scalar is zero: the units of a
/// surrogate pair are never zero.
proof fn lemma_utf16_units_zero(v: u32)
    requires
        is_scalar(v),
    ensures
        utf16_units(v).contains(0u16) <==> v == 0,
{
    let u = utf16_units(v);
    if v < 0x10000 {
        assert(u[0] == v as u16);
        if v == 0 {
            assert(u[0] == 0u16);
        }
    } else {
        let w = (v - 0x10000) as u32;
        assert(w >> 10 <= 0x3FF && w & 0x3FF <= 0x3FF) by (bit_vector)
            requires
                w <= 0xFFFFF,
        ;
        assert forall|i: int| 0 <= i < u.len() implies u[i] != 0u16 by {}
    }
}

/// The wide string of a module name without null characters holds exactly one zero unit,
/// its terminator: the name reaches `GetModuleHandleW` whole.
pub proof fn lemma_wide_name_terminated(name: Seq<char>)
    requires
        !has_interior_null(name),
    ensures
        !encode_utf16(name).contains(0u16),
        encode_utf16(name).push(0u16).last() == 0u16,
    decreases name.len(),
{
    if name.len() > 0 {
        let init = name.drop_last();
        assert(!has_interior_null(init)) by {
            if init.contains('\0') {
                let j = choose|j: int| 0 <= j < init.len() && init[j] == '\0';
                assert(name[j] == '\0');
            }
        }
        lemma_wide_name_terminated(init);
        char_is_scalar(name.last());
        lemma_utf16_units_zero(name.last() as u32);
        if name.last() as u32 == 0 {
            char_u32_cast(name.last(), name.last() as u32);
            assert((0u32 as char) == '\0');
            assert(name[name.len() - 1] == '\0');
        }
        let head = encode_utf16(init);
        let tail = utf16_units(name.last() as u32);
        assert(encode_utf16(name) == head + tail);
        if (head + tail).contains(0u16) {
            let k = choose|k: int| 0 <= k < (head + tail).len() && (head + tail)[k] == 0u16;
            if k < head.len() {
                assert(head[k] == 0u16);
            } else {
                assert(tail[k - head.len()] == 0u16);
            }
        }
    }
}

/// The text a well-formed UTF-16 sequence stands for, read from the front: a high surrogate
/// followed by a low surrogate is one scalar above `0xFFFF`, any other unit is the scalar of
/// its own value.
pub open spec fn decode_utf16(units: Seq<u16>) -> Seq<char>
    decreases units.len(),
{
    if units.len() == 0 {
        Seq::empty()
    } else if units.len() >= 2 && 0xD800 <= units[0] < 0xDC00 && 0xDC00 <= units[1] < 0xE000 {
        seq![
            (0x10000 + (units[0] - 0xD800) * 0x400 + (units[1] - 0xDC00)) as u32 as char,
        ] + decode_utf16(units.subrange(2, units.len() as int))
    } else {
        seq![units[0] as u32 as char] + decode_utf16(units.drop_first())
    }
}

/// The UTF-16 encoding of a string, read from the front: the units of the first character,
/// then the encoding of the rest.
proof fn lemma_encode_utf16_front(text: Seq<char>)
    requires
        text.len() > 0,
    ensures
        encode_utf16(text) == utf16_units(text[0] as u32) + encode_utf16(text.drop_first()),
    decreases text.len(),
{
    if text.len() == 1 {
        assert(text.drop_last() == Seq::<char>::empty());
        assert(text.drop_first() == Seq::<char>::empty());
        assert(encode_utf16(text.drop_first()) == Seq::<u16>::empty());
        assert(encode_utf16(text.drop_last()) == Seq::<u16>::empty());
    } else {
        let init = text.drop_last();
        lemma_encode_utf16_front(init);
        assert(init[0] == text[0]);
        assert(init.drop_first() == text.drop_first().drop_last());
        assert(text.drop_first().last() == text.last());
        assert(text.drop_first().len() > 0);
        assert(encode_utf16(text.drop_first()) == encode_utf16(text.drop_first().drop_last())
            + utf16_units(text.drop_first().last() as u32));
    }
}

/// Decoding the units of one character, followed by anything, gives that character first.
proof fn lemma_decode_units(c: char, rest: Seq<u16>)
    ensures
        decode_utf16(utf16_units(c as u32) + rest) == seq![c] + decode_utf16(rest),
{
    let v = c as u32;
    char_is_scalar(c);
    char_u32_cast(c, v);
    let all = utf16_units(v) + rest;
    if v < 0x10000 {
        assert(!(0xD800 <= v <= 0xDFFF));
        assert((v as u16) as u32 == v);
        assert(all[0] == v as u16);
        assert(all.drop_first() == rest);
    } else {
        let w = (v - 0x10000) as u32;
        assert(w >> 10 <= 0x3FF && w & 0x3FF <= 0x3FF && (w >> 10) * 0x400 + (w & 0x3FF) == w)
            by (bit_vector)
            requires
                w <= 0xFFFFF,
        ;
        let hi = (0xD800 + (w >> 10)) as u16;
        let lo = (0xDC00 + (w & 0x3FF)) as u16;
        assert(hi == 0xD800 + (w >> 10));
        assert(lo == 0xDC00 + (w & 0x3FF));
        assert(all[0] == hi && all[1] == lo);
        assert(0x10000 + (hi - 0xD800) * 0x400 + (lo - 0xDC00) == v);
        assert(all.subrange(2, all.len() as int) == rest);
    }
}

/// The UTF-16 encoding loses nothing: it decodes back to the text it encodes. So the wide
/// module name, without its terminator, names exactly the module `init` was given.
pub proof fn lemma_utf16_round_trip(text: Seq<char>)
    ensures
        decode_utf16(encode_utf16(text)) == text,
    decreases text.len(),
{
    if text.len() > 0 {
        lemma_encode_utf16_front(text);
        lemma_decode_units(text[0], encode_utf16(text.drop_first()));
        lemma_utf16_round_trip(text.drop_first());
        assert(seq![text[0]] + text.drop_first() == text);
    } else {
        assert(encode_utf16(text) == Seq::<u16>::empty());
    }
}

/// A character below `0x10000` is written as the one unit of its own value; any other as a
/// surrogate pair that recombines to it.
pub proof fn lemma_utf16_units_of_scalar(c: char)
    ensures
        (c as u32) < 0x10000 ==> utf16_units(c as u32) == seq![(c as u32) as u16],
        (c as u32) < 0x10000 ==> utf16_units(c as u32)[0] as u32 == c as u32,
        (c as u32) >= 0x10000 ==> {
            let u = utf16_units(c as u32);
            &&& u.len() == 2
            &&& 0xD800 <= u[0] < 0xDC00
            &&& 0xDC00 <= u[1] < 0xE000
            &&& 0x10000 + (u[0] - 0xD800) * 0x400 + (u[1] - 0xDC00) == c as u32
        },
{
    let v = c as u32;
    char_is_scalar(c);
    if v >= 0x10000 {
        let w = (v - 0x10000) as u32;
        assert(w >> 10 <= 0x3FF && w & 0x3FF <= 0x3FF && (w >> 10) * 0x400 + (w & 0x3FF) == w)
            by (bit_vector)
            requires
                w <= 0xFFFFF,
        ;
    }
}

/// The null-terminated wide string that names a module to `GetModuleHandleW`: the UTF-16
/// encoding of `name` followed by a zero unit.
pub fn wide_module_name(name: &str) -> (wide: Vec<u16>)
    ensures
        wide@ == encode_utf16(name@).push(0u16),
{
    let mut out: Vec<u16> = Vec::new();
    for c in it: name.chars()
        invariant
            it.seq() == name@,
            out@ == encode_utf16(name@.take(it.index() as int)),
    {
        let ghost done = name@.take(it.index() as int);
        let v = c as u32;
        proof {
            char_is_scalar(c);
        }
        if v < 0x10000 {
            out.push(v as u16);
        } else {
            let w = v - 0x10000;
            assert(w >> 10 <= 0x3FF) by (bit_vector)
                requires
                    w <= 0xFFFFF,
            ;
            assert(w & 0x3FF <= 0x3FF) by (bit_vector);
            out.push((0xD800 + (w >> 10)) as u16);
            out.push((0xDC00 + (w & 0x3FF)) as u16);
        }
        proof {
            let next = name@.take(it.index() + 1);
            assert(next.drop_last() == done);
            assert(next.last() == c);
        }
    }
    proof {
        assert(name@.take(name@.len() as int) == name@);
    }
    out.push(0);
    out
}

/// What `String::from_utf8_lossy` makes of a byte string: its text, with each malformed
/// sequence replaced by U+FFFD.
pub uninterp spec fn lossy_utf8(bytes: Seq<u8>) -> Seq<char>;

/// Calls `String::from_utf8_lossy` and takes ownership of the text it returns. The contract
/// names the result by the bytes and claims one documented fact: well-formed UTF-8 comes back
/// unchanged. How malformed sequences are replaced is left unsaid.
#[verifier::external_body]
fn string_from_utf8_lossy(bytes: &[u8]) -> (s: String)
    ensures
        s@ == lossy_utf8(bytes@),
        valid_utf8(bytes@) ==> s@ == decode_utf8(bytes@),
{
    String::from_utf8_lossy(bytes).into_owned()
}

/// Calls `std::str::from_utf8`: the text of `bytes` when they are well-formed UTF-8, and
/// nothing otherwise (the error's details are dropped).
#[verifier::external_body]
fn str_from_utf8(bytes: &[u8]) -> (s: Option<&str>)
    ensures
        s is Some <==> valid_utf8(bytes@),
        s matches Some(s) ==> s@ == decode_utf8(bytes@),
{
    std::str::from_utf8(bytes).ok()
}

/// The text of a C string read back from the runtime, decoded as `to_string_lossy` does.
pub open spec fn lossy_text(bytes: Seq<u8>) -> Seq<char> {
    lossy_utf8(bytes)
}

/// The text of a byte string that must be UTF-8, read as `CStr::to_str(..).unwrap_or("")`
/// reads it: malformed bytes count as the empty string.
pub open spec fn strict_text(bytes: Seq<u8>) -> Seq<char> {
    if valid_utf8(bytes) {
        decode_utf8(bytes)
    } else {
        Seq::empty()
    }
}

/// A well-formed UTF-8 name reads as its own text, whatever characters it holds; only
/// malformed bytes read as the empty string.
pub proof fn lemma_strict_text_of_valid(bytes: Seq<u8>)
    ensures
        valid_utf8(bytes) ==> strict_text(bytes) == decode_utf8(bytes),
        !valid_utf8(bytes) ==> strict_text(bytes) == Seq::<char>::empty(),
{
}

/// The name of a loaded image read back as the text it was written from: the UTF-8 bytes of
/// any text read as that text.
pub proof fn lemma_strict_text_of_encoding(text: Seq<char>)
    ensures
        strict_text(encode_utf8(text)) == text,
{
    encode_utf8_valid_utf8(text);
    encode_utf8_decode_utf8(text);
}

/// The outcome of a runtime call that answers with a C string: `Uninitialized` when no
/// runtime is bound, the empty string for a null answer, and otherwise the answered bytes
/// decoded lossily.
pub open spec fn text_outcome(r: Result<String, MonoError>, reply: Option<Option<Vec<u8>>>) -> bool {
    match reply {
        None => r == Err::<String, MonoError>(MonoError::Uninitialized),
        Some(None) => r matches Ok(s) && s@ == Seq::<char>::empty(),
        Some(Some(bytes)) => r matches Ok(s) && s@ == lossy_text(bytes@) && (valid_utf8(bytes@)
            ==> s@ == decode_utf8(bytes@)),
    }
}

/// A runtime call answered with a C string gives its text: `Uninitialized` only when no
/// runtime answered, the empty string for a null answer, and for well-formed UTF-8 bytes
/// exactly the text they encode, whatever characters it holds.
pub proof fn lemma_text_answer(r: Result<String, MonoError>, reply: Option<Option<Vec<u8>>>)
    requires
        text_outcome(r, reply),
    ensures
        reply is None ==> r == Err::<String, MonoError>(MonoError::Uninitialized),
        reply == Some(None::<Vec<u8>>) ==> (r matches Ok(s) && s@.len() == 0),
        forall|bytes: Vec<u8>|
            reply == Some(Some(bytes)) && valid_utf8(bytes@) ==> (r matches Ok(s) && s@
                == decode_utf8(bytes@) && encode_utf8(s@) == bytes@),
{
    match reply {
        Some(Some(bytes)) => {
            if valid_utf8(bytes@) {
                decode_utf8_encode_utf8(bytes@);
            }
        },
        _ => {},
    }
}

/// Text handed to the runtime as a C string reads back as that text: when the runtime answers
/// with the bytes of the C string of `text` (without the terminator), the text made from the
/// answer is `text` itself.
pub proof fn lemma_text_reads_back(text: Seq<char>, r: Result<String, MonoError>, bytes: Vec<u8>)
    requires
        !has_interior_null(text),
        bytes@ == c_string_bytes(text).drop_last(),
        text_outcome(r, Some(Some(bytes))),
    ensures
        r matches Ok(s) && s@ == text,
{
    assert(c_string_bytes(text).drop_last() == encode_utf8(text));
    encode_utf8_valid_utf8(text);
    encode_utf8_decode_utf8(text);
}

/// Turns the answer of a runtime call that returns a C string into owned text: `reply` is
/// `None` when no runtime is bound, `Some(None)` for a null answer, and otherwise the bytes
/// the answer points at, without the terminating null.
pub fn text_from_reply(reply: Option<Option<Vec<u8>>>) -> (r: Result<String, MonoError>)
    ensures
        text_outcome(r, reply),
{
    match reply {
        None => Err(MonoError::Uninitialized),
        Some(None) => Ok(String::new()),
        Some(Some(bytes)) => Ok(string_from_utf8_lossy(bytes.as_slice())),
    }
}

/// Reads a byte string as UTF-8 text, with malformed bytes reading as the empty string.
pub fn strict_str(bytes: &[u8]) -> (s: &str)
    ensures
        s@ == strict_text(bytes@),
{
    match str_from_utf8(bytes) {
        Some(s) => s,
        None => {
            let e = "";
            proof {
                reveal_strlit("");
            }
            e
        },
    }
}

/// `true` when the two strings hold the same text.
pub fn same_text(a: &str, b: &str) -> (r: bool)
    ensures
        r == (a@ == b@),
{
    let x = a.as_bytes();
    let y = b.as_bytes();
    proof {
        encode_utf8_decode_utf8(a@);
        encode_utf8_decode_utf8(b@);
    }
    if x.len() != y.len() {
        return false;
    }
    let mut i: usize = 0;
    while i < x.len()
        invariant
            x@ == encode_utf8(a@),
            y@ == encode_utf8(b@),
            x@.len() == y@.len(),
            i <= x@.len(),
            forall|j: int| 0 <= j < i ==> x@[j] == y@[j],
        decreases x@.len() - i,
    {
        if x[i] != y[i] {
            assert(x@[i as int] != y@[i as int]);
            assert(x@ != y@);
            return false;
        }
        i = i + 1;
    }
    assert(x@ == y@);
    true
}

} // verus!
