//! Owned, terminated UTF-16 buffers: the form in which names cross into and
//! out of the operating system's identity lookup.
use vstd::prelude::*;
use crate::paths::chars_of;

verus! {

/// The UTF-16 code units of one character: one unit below `0x10000`, else a
/// high and a low surrogate.
pub open spec fn char_units(c: char) -> Seq<u16> {
    let cp = c as u32 as int;
    if cp < 0x10000 {
        seq![cp as u16]
    } else {
        seq![(0xD800 + (cp - 0x10000) / 0x400) as u16, (0xDC00 + (cp - 0x10000) % 0x400) as u16]
    }
}

/// The UTF-16 encoding of a text.
pub open spec fn utf16_of(cs: Seq<char>) -> Seq<u16>
    decreases cs.len(),
{
    if cs.len() == 0 {
        Seq::empty()
    } else {
        utf16_of(cs.drop_last()) + char_units(cs.last())
    }
}

/// Why a buffer could not be read back as text.
#[derive(Debug, Clone, Copy, PartialEq, Eq, Structural)]
pub enum WideStringError {
    /// The buffer is empty or its last unit is not the terminating zero.
    MissingTerminator,
    /// The units before the terminator are not well-formed UTF-16.
    InvalidUtf16,
}

/// A buffer of UTF-16 code units, terminated by a zero unit once filled.
#[derive(Debug)]
pub struct WideString(Vec<u16>);

impl View for WideString {
    type V = Seq<u16>;

    closed spec fn view(&self) -> Seq<u16> {
        self.0@
    }
}

/// Relies on String::from_utf16: it succeeds exactly on well-formed UTF-16,
/// with the text those units encode.
#[verifier::external_body]
fn decode_utf16(units: &[u16]) -> (r: Option<String>)
    ensures
        r matches Some(t) ==> utf16_of(t@) == units@,
        r is None ==> forall|t: Seq<char>| utf16_of(t) != units@,
{
    String::from_utf16(units).ok()
}

impl WideString {
    /// A buffer of `capacity` zero units, to be filled by the operating system.
    pub fn new(capacity: usize) -> (r: Self)
        ensures
            r@ == Seq::new(capacity as nat, |i: int| 0u16),
    {
        let v: Vec<u16> = vec![0u16; capacity];
        assert(v@ =~= Seq::new(capacity as nat, |i: int| 0u16));
        WideString(v)
    }

    /// A buffer that the operating system filled.
    pub fn from_units(units: Vec<u16>) -> (r: Self)
        ensures
            r@ == units@,
    {
        WideString(units)
    }

    /// The UTF-16 encoding of `s`, followed by the terminating zero.
    pub fn from_str(s: &str) -> (r: Self)
        ensures
            r@ == utf16_of(s@).push(0),
    {
        let cs = chars_of(s);
        let mut v: Vec<u16> = Vec::new();
        let mut i: usize = 0;
        while i < cs.len()
            invariant
                i <= cs.len(),
                cs@ == s@,
                v@ == utf16_of(cs@.take(i as int)),
            decreases cs.len() - i,
        {
            let c = cs[i];
            let cp = c as u32;
            assert(cs@.take(i + 1).drop_last() =~= cs@.take(i as int));
            if cp < 0x10000 {
                v.push(cp as u16);
            } else {
                let x = cp - 0x10000;
                v.push((0xD800 + x / 0x400) as u16);
                v.push((0xDC00 + x % 0x400) as u16);
            }
            assert(v@ =~= utf16_of(cs@.take(i + 1)));
            i = i + 1;
        }
        assert(cs@.take(i as int) =~= s@);
        v.push(0);
        WideString(v)
    }

    /// The units of the buffer.
    pub fn as_slice(&self) -> (r: &[u16])
        ensures
            r@ == self@,
    {
        self.0.as_slice()
    }

    /// The text held in a filled buffer, without its terminating zero.
    pub fn to_string(&self) -> (r: Result<String, WideStringError>)
        ensures
            match r {
                Ok(t) => self@.len() > 0 && self@.last() == 0 && utf16_of(t@) == self@.drop_last(),
                Err(WideStringError::MissingTerminator) => self@.len() == 0 || self@.last() != 0,
                Err(WideStringError::InvalidUtf16) => {
                    &&& self@.len() > 0
                    &&& self@.last() == 0
                    &&& forall|t: Seq<char>| utf16_of(t) != self@.drop_last()
                },
            },
    {
        let n = self.0.len();
        if n == 0 || self.0[n - 1] != 0 {
            return Err(WideStringError::MissingTerminator);
        }
        let body = &self.0.as_slice()[0..n - 1];
        assert(body@ =~= self@.drop_last());
        match decode_utf16(body) {
            Some(t) => Ok(t),
            None => Err(WideStringError::InvalidUtf16),
        }
    }
}

} // verus!
