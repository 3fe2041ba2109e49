//! Byte buffers and text as they cross the boundary: a count with exactly
//! that many bytes, and null-terminated byte strings.

use vstd::prelude::*;

verus! {

/// A transferred byte allocation: `size` is authoritative and equals the
/// number of bytes held.
pub struct physis_Buffer {
    pub size: u32,
    pub data: Vec<u8>,
}

impl physis_Buffer {
    /// The count agrees with the bytes held.
    pub open spec fn wf(&self) -> bool {
        self.size as int == self.data@.len()
    }

    /// The empty buffer: no bytes, zero count.
    pub fn empty() -> (r: physis_Buffer)
        ensures
            r.wf(),
            r.size == 0,
            r.data@ == Seq::<u8>::empty(),
    {
        physis_Buffer { size: 0, data: Vec::new() }
    }

    /// Hands a byte vector over as a buffer; spare capacity is not part of it.
    pub fn from_vec(data: Vec<u8>) -> (r: physis_Buffer)
        requires
            data@.len() <= u32::MAX,
        ensures
            r.wf(),
            r.data@ == data@,
            r.size as int == data@.len(),
    {
        let size = data.len() as u32;
        physis_Buffer { size, data }
    }

    /// The bytes held, in order.
    pub fn as_slice(&self) -> (r: &[u8])
        ensures
            r@ == self.data@,
    {
        self.data.as_slice()
    }
}

/// Releases a buffer, returning how many elements were destroyed.
/// The empty buffer releases nothing.
pub fn physis_free_buffer(buffer: physis_Buffer) -> (released: usize)
    requires
        buffer.wf(),
    ensures
        released as int == buffer.data@.len(),
{
    buffer.data.len()
}

/// No byte of `s` is NUL.
pub open spec fn no_nul(s: Seq<u8>) -> bool {
    forall|i: int| 0 <= i < s.len() ==> s[i] != 0u8
}

/// The null-terminated form of `s`, or `None` (a null string) when `s`
/// holds a NUL byte and so cannot be told apart from its terminator.
pub open spec fn c_string_of(s: Seq<u8>) -> Option<Seq<u8>> {
    if no_nul(s) {
        Some(s.push(0u8))
    } else {
        None
    }
}

/// A well-formed exported string: a null pointer, or bytes whose only NUL
/// is the last one.
pub open spec fn c_string_wf(c: Option<Vec<u8>>) -> bool {
    match c {
        None => true,
        Some(b) => b@.len() > 0 && b@.last() == 0u8 && no_nul(b@.drop_last()),
    }
}

/// The view of an exported string.
pub open spec fn c_string_view(c: Option<Vec<u8>>) -> Option<Seq<u8>> {
    match c {
        None => None,
        Some(b) => Some(b@),
    }
}

/// Converts text to a null-terminated byte string; a NUL inside the text is
/// a conversion failure and yields a null string.
pub fn ffi_to_c_string(s: &Vec<u8>) -> (r: Option<Vec<u8>>)
    ensures
        c_string_view(r) == c_string_of(s@),
        c_string_wf(r),
{
    let mut out: Vec<u8> = Vec::new();
    let mut i: usize = 0;
    while i < s.len()
        invariant
            i <= s@.len(),
            out@ == s@.subrange(0, i as int),
            no_nul(out@),
        decreases s@.len() - i,
    {
        if s[i] == 0u8 {
            assert(!no_nul(s@));
            return None;
        }
        out.push(s[i]);
        i = i + 1;
    }
    assert(out@ == s@);
    out.push(0u8);
    assert(out@.drop_last() == s@);
    Some(out)
}

/// A continuation byte of UTF-8.
pub open spec fn is_continuation(b: u8) -> bool {
    0x80 <= b <= 0xBF
}

/// The bytes of `s` from position `i` on are well-formed UTF-8: each
/// character is one of the byte sequences Unicode allows, with no overlong
/// form, no surrogate and nothing above U+10FFFF.
pub open spec fn utf8_from(s: Seq<u8>, i: int) -> bool
    decreases s.len() - i,
{
    if i < 0 || i >= s.len() {
        i >= 0
    } else {
        let b0 = s[i];
        let more = s.len() - i;
        if b0 < 0x80 {
            utf8_from(s, i + 1)
        } else if 0xC2 <= b0 <= 0xDF {
            more >= 2 && is_continuation(s[i + 1]) && utf8_from(s, i + 2)
        } else if b0 == 0xE0 {
            more >= 3 && 0xA0 <= s[i + 1] <= 0xBF && is_continuation(s[i + 2]) && utf8_from(s, i + 3)
        } else if (0xE1 <= b0 <= 0xEC) || (0xEE <= b0 <= 0xEF) {
            more >= 3 && is_continuation(s[i + 1]) && is_continuation(s[i + 2]) && utf8_from(s, i + 3)
        } else if b0 == 0xED {
            more >= 3 && 0x80 <= s[i + 1] <= 0x9F && is_continuation(s[i + 2]) && utf8_from(s, i + 3)
        } else if b0 == 0xF0 {
            more >= 4 && 0x90 <= s[i + 1] <= 0xBF && is_continuation(s[i + 2]) && is_continuation(s[i + 3])
                && utf8_from(s, i + 4)
        } else if 0xF1 <= b0 <= 0xF3 {
            more >= 4 && is_continuation(s[i + 1]) && is_continuation(s[i + 2]) && is_continuation(s[i + 3])
                && utf8_from(s, i + 4)
        } else if b0 == 0xF4 {
            more >= 4 && 0x80 <= s[i + 1] <= 0x8F && is_continuation(s[i + 2]) && is_continuation(s[i + 3])
                && utf8_from(s, i + 4)
        } else {
            false
        }
    }
}

/// `s` is well-formed UTF-8.
pub open spec fn utf8_valid(s: Seq<u8>) -> bool {
    utf8_from(s, 0)
}

/// Whether `s` is well-formed UTF-8.
pub fn is_utf8(s: &[u8]) -> (r: bool)
    ensures
        r == utf8_valid(s@),
{
    let n = s.len();
    let mut i: usize = 0;
    while i < n
        invariant
            n == s@.len(),
            i <= n,
            utf8_from(s@, 0) == utf8_from(s@, i as int),
        decreases n - i,
    {
        let b0 = s[i];
        let more = n - i;
        if b0 < 0x80 {
            i = i + 1;
        } else if 0xC2 <= b0 && b0 <= 0xDF {
            if more < 2 || !(0x80 <= s[i + 1] && s[i + 1] <= 0xBF) {
                return false;
            }
            i = i + 2;
        } else if b0 == 0xE0 {
            if more < 3 || !(0xA0 <= s[i + 1] && s[i + 1] <= 0xBF) || !(0x80 <= s[i + 2] && s[i + 2] <= 0xBF) {
                return false;
            }
            i = i + 3;
        } else if (0xE1 <= b0 && b0 <= 0xEC) || (0xEE <= b0 && b0 <= 0xEF) {
            if more < 3 || !(0x80 <= s[i + 1] && s[i + 1] <= 0xBF) || !(0x80 <= s[i + 2] && s[i + 2] <= 0xBF) {
                return false;
            }
            i = i + 3;
        } else if b0 == 0xED {
            if more < 3 || !(0x80 <= s[i + 1] && s[i + 1] <= 0x9F) || !(0x80 <= s[i + 2] && s[i + 2] <= 0xBF) {
                return false;
            }
            i = i + 3;
        } else if b0 == 0xF0 {
            if more < 4 || !(0x90 <= s[i + 1] && s[i + 1] <= 0xBF) || !(0x80 <= s[i + 2] && s[i + 2] <= 0xBF)
                || !(0x80 <= s[i + 3] && s[i + 3] <= 0xBF) {
                return false;
            }
            i = i + 4;
        } else if 0xF1 <= b0 && b0 <= 0xF3 {
            if more < 4 || !(0x80 <= s[i + 1] && s[i + 1] <= 0xBF) || !(0x80 <= s[i + 2] && s[i + 2] <= 0xBF)
                || !(0x80 <= s[i + 3] && s[i + 3] <= 0xBF) {
                return false;
            }
            i = i + 4;
        } else if b0 == 0xF4 {
            if more < 4 || !(0x80 <= s[i + 1] && s[i + 1] <= 0x8F) || !(0x80 <= s[i + 2] && s[i + 2] <= 0xBF)
                || !(0x80 <= s[i + 3] && s[i + 3] <= 0xBF) {
                return false;
            }
            i = i + 4;
        } else {
            return false;
        }
    }
    true
}

/// The text of an exported string, without its terminator. `None` for a
/// null string, and for bytes that are not well-formed UTF-8: invalid text
/// is absence.
pub fn ffi_from_c_string(c: &Option<Vec<u8>>) -> (r: Option<Vec<u8>>)
    requires
        c_string_wf(*c),
    ensures
        match *c {
            None => r is None,
            Some(b) => if utf8_valid(b@.drop_last()) {
                r is Some && r->0@ == b@.drop_last()
            } else {
                r is None
            },
        },
{
    match c {
        None => None,
        Some(b) => {
            let n = b.len() - 1;
            let mut out: Vec<u8> = Vec::new();
            let mut i: usize = 0;
            while i < n
                invariant
                    n == b@.len() - 1,
                    i <= n,
                    out@ == b@.subrange(0, i as int),
                decreases n - i,
            {
                out.push(b[i]);
                i = i + 1;
            }
            assert(out@ =~= b@.drop_last());
            if is_utf8(out.as_slice()) {
                Some(out)
            } else {
                None
            }
        },
    }
}

/// Releases an exported string, returning how many allocations were
/// reclaimed: one for a string, none for a null one.
pub fn ffi_free_string(c: Option<Vec<u8>>) -> (released: usize)
    ensures
        released == (if c is Some { 1usize } else { 0usize }),
{
    match c {
        None => 0,
        Some(_) => 1,
    }
}

/// The views of a list of texts.
pub open spec fn texts_view(texts: Seq<Vec<u8>>) -> Seq<Seq<u8>> {
    texts.map_values(|t: Vec<u8>| t@)
}

/// No text of the list holds a NUL byte.
pub open spec fn texts_convert(texts: Seq<Seq<u8>>) -> bool {
    forall|i: int| 0 <= i < texts.len() ==> no_nul(#[trigger] texts[i])
}

/// The exported strings are the texts' null-terminated forms, in order.
pub open spec fn c_strings_match(cs: Seq<Vec<u8>>, texts: Seq<Seq<u8>>) -> bool {
    &&& cs.len() == texts.len()
    &&& forall|i: int| 0 <= i < texts.len() ==> c_string_of(texts[i]) == Some((#[trigger] cs[i])@)
}

/// Converts a list of texts to null-terminated strings; `None`, with
/// nothing half-built, when any text holds a NUL byte.
pub fn to_c_strings(texts: &Vec<Vec<u8>>) -> (r: Option<Vec<Vec<u8>>>)
    ensures
        match r {
            None => !texts_convert(texts_view(texts@)),
            Some(cs) => texts_convert(texts_view(texts@)) && c_strings_match(cs@, texts_view(texts@)),
        },
{
    let ghost src = texts_view(texts@);
    let mut out: Vec<Vec<u8>> = Vec::new();
    let mut i: usize = 0;
    while i < texts.len()
        invariant
            src == texts_view(texts@),
            i <= texts@.len(),
            out@.len() == i,
            forall|m: int| 0 <= m < i ==> c_string_of(src[m]) == Some((#[trigger] out@[m])@),
        decreases texts@.len() - i,
    {
        assert(src[i as int] == texts@[i as int]@);
        match ffi_to_c_string(&texts[i]) {
            Some(c) => {
                out.push(c);
                assert(out@[i as int] == c);
            },
            None => {
                assert(!no_nul(src[i as int]));
                return None;
            },
        }
        i = i + 1;
    }
    assert forall|m: int| 0 <= m < src.len() implies no_nul(#[trigger] src[m]) by {
        assert(c_string_of(src[m]) == Some(out@[m]@));
    }
    Some(out)
}

/// A copy of a vector of plain values.
pub fn copy_vec<T: Copy>(v: &Vec<T>) -> (r: Vec<T>)
    ensures
        r@ == v@,
{
    let mut out: Vec<T> = Vec::new();
    let mut i: usize = 0;
    while i < v.len()
        invariant
            i <= v@.len(),
            out@ == v@.subrange(0, i as int),
        decreases v@.len() - i,
    {
        out.push(v[i]);
        i = i + 1;
    }
    assert(out@ =~= v@);
    out
}

} // verus!
