//! Wide (UTF-16) strings as the OS sees them: the NUL-terminated payload that
//! carries the library path into the target, and the trimming of fixed-width
//! name buffers that come back out of snapshots.

use vstd::prelude::*;

verus! {

/// The UTF-16 code units of one character: a single unit below 0x10000,
/// otherwise a surrogate pair.
pub open spec fn utf16_char(c: char) -> Seq<u16> {
    if (c as u32) < 0x10000 {
        seq![c as u16]
    } else {
        seq![
            ((0xD800 + ((c as u32 - 0x10000) / 0x400)) as u16),
            ((0xDC00 + ((c as u32 - 0x10000) % 0x400)) as u16),
        ]
    }
}

/// The UTF-16 encoding of a character sequence.
pub open spec fn utf16_of(s: Seq<char>) -> Seq<u16>
    decreases s.len(),
{
    if s.len() == 0 {
        Seq::empty()
    } else {
        utf16_char(s[0]) + utf16_of(s.drop_first())
    }
}

/// A string can become a NUL-terminated wide string when no NUL unit stands
/// anywhere but in the final position of its encoding.
pub open spec fn encodable(s: Seq<char>) -> bool {
    forall|i: int| 0 <= i < utf16_of(s).len() - 1 ==> utf16_of(s)[i] != 0
}

/// The NUL-terminated wide form of a string: its UTF-16 encoding with a
/// terminating NUL unit appended, unless the encoding already ends in one.
pub open spec fn wide_nul_of(s: Seq<char>) -> Seq<u16> {
    let u = utf16_of(s);
    if u.len() > 0 && u[u.len() - 1] == 0 {
        u
    } else {
        u.push(0)
    }
}

/// Relies on widestring::U16CString::from_str and into_vec_with_nul: the
/// UTF-16 encoding of the string with a single terminating NUL unit, and an
/// error exactly when a NUL unit stands anywhere but in the final position.
#[verifier::external_body]
fn encode_wide_nul(s: &str) -> (r: Option<Vec<u16>>)
    ensures
        r is Some <==> encodable(s@),
        r matches Some(v) ==> v@ == wide_nul_of(s@),
        r matches Some(v) ==> 1 <= v@.len() && v@[v@.len() - 1] == 0 && (forall|i: int|
            0 <= i < v@.len() - 1 ==> v@[i] != 0),
{
    widestring::U16CString::from_str(s).ok().map(|c| c.into_vec_with_nul())
}

/// A resolved library path in the exact shape the target consumes it: UTF-16
/// units ending in one NUL, with no interior NUL, small enough that its byte
/// length fits a machine word.
pub struct WidePath {
    units: Vec<u16>,
}

impl View for WidePath {
    type V = Seq<u16>;

    closed spec fn view(&self) -> Seq<u16> {
        self.units@
    }
}

impl WidePath {
    #[verifier::type_invariant]
    spec fn inv(&self) -> bool {
        &&& 1 <= self.units@.len() <= usize::MAX as int / 2
        &&& self.units@[self.units@.len() - 1] == 0
        &&& forall|i: int| 0 <= i < self.units@.len() - 1 ==> self.units@[i] != 0
    }

    /// The units without the terminating NUL: the form in which the OS reports
    /// a loaded module's path.
    pub open spec fn interior(self) -> Seq<u16> {
        self@.drop_last()
    }

    /// Encode a path string as a NUL-terminated wide string. `None` exactly
    /// when the string cannot be encoded (a NUL unit before the final
    /// position) or its wide form is too long for a byte length to fit.
    pub fn new(s: &str) -> (r: Option<WidePath>)
        ensures
            r is Some <==> encodable(s@) && wide_nul_of(s@).len() <= usize::MAX as int / 2,
            r matches Some(w) ==> w@ == wide_nul_of(s@),
    {
        match encode_wide_nul(s) {
            None => None,
            Some(units) => {
                if units.len() <= usize::MAX / 2 {
                    Some(WidePath { units })
                } else {
                    None
                }
            },
        }
    }

    /// How many units the payload holds, terminator included.
    pub fn unit_len(&self) -> (r: usize)
        ensures
            r == self@.len(),
    {
        self.units.len()
    }

    /// How many bytes the payload occupies, terminator included: the exact
    /// size of the remote region to allocate.
    pub fn byte_len(&self) -> (r: usize)
        ensures
            r == 2 * self@.len(),
    {
        proof {
            use_type_invariant(&*self);
        }
        self.units.len() * 2
    }

    /// The units themselves, for the caller that performs the copy.
    pub fn as_units(&self) -> (r: &[u16])
        ensures
            r@ == self@,
    {
        self.units.as_slice()
    }

    /// The units without the terminating NUL, for comparison against module
    /// paths reported by a snapshot.
    pub fn interior_units(&self) -> (r: &[u16])
        ensures
            r@ == self.interior(),
    {
        proof {
            use_type_invariant(&*self);
        }
        let n = self.units.len();
        let r = vstd::slice::slice_subrange(self.units.as_slice(), 0, n - 1);
        proof {
            assert(r@ =~= self@.drop_last());
        }
        r
    }

    /// The payload as raw bytes, as they are copied into the target: two per
    /// unit, the exact content of the remote region.
    pub fn payload_bytes(&self) -> (r: Vec<u8>)
        ensures
            r@.len() == 2 * self@.len(),
    {
        cast_units(self.units.as_slice())
    }
}

/// Relies on bytemuck::cast_slice: reinterprets the units' storage as bytes,
/// two for each unit.
#[verifier::external_body]
fn cast_units(units: &[u16]) -> (r: Vec<u8>)
    ensures
        r@.len() == 2 * units@.len(),
{
    bytemuck::cast_slice::<u16, u8>(units).to_vec()
}

/// Where trimming a fixed-width buffer stops: at the first NUL unit, or at the
/// buffer's end when no NUL occurs.
pub open spec fn nul_limit(s: Seq<u16>) -> int
    decreases s.len(),
{
    if s.len() == 0 {
        0
    } else if s[0] == 0 {
        0
    } else {
        1 + nul_limit(s.drop_first())
    }
}

/// The trimming point is the position characterized by: everything before it
/// is non-NUL, and it is the buffer's end or a NUL.
pub proof fn lemma_nul_limit_is(s: Seq<u16>, k: int)
    requires
        0 <= k <= s.len(),
        forall|j: int| 0 <= j < k ==> s[j] != 0,
        k < s.len() ==> s[k] == 0,
    ensures
        nul_limit(s) == k,
    decreases s.len(),
{
    if s.len() == 0 {
    } else if k == 0 {
    } else {
        assert(s[0] != 0);
        lemma_nul_limit_is(s.drop_first(), k - 1);
    }
}

/// The trimming point never passes the buffer's end, and never passes a NUL.
pub proof fn lemma_nul_limit_bounds(s: Seq<u16>)
    ensures
        0 <= nul_limit(s) <= s.len(),
        forall|j: int| 0 <= j < nul_limit(s) ==> s[j] != 0,
        nul_limit(s) < s.len() ==> s[nul_limit(s)] == 0,
    decreases s.len(),
{
    if s.len() == 0 {
    } else if s[0] == 0 {
    } else {
        lemma_nul_limit_bounds(s.drop_first());
        assert forall|j: int| 0 <= j < nul_limit(s) implies s[j] != 0 by {
            if j > 0 {
                assert(s.drop_first()[j - 1] != 0);
            }
        }
    }
}

/// Copy a fixed-width buffer up to its first NUL unit: the executable form of
/// `nul_limit`. Stops at the first NUL or at the buffer's end, whichever comes
/// first, and so never reads past either.
pub fn trim_at_nul(buf: &[u16]) -> (r: Vec<u16>)
    ensures
        r@ == buf@.take(nul_limit(buf@)),
{
    let mut out: Vec<u16> = Vec::new();
    let mut i: usize = 0;
    while i < buf.len() && buf[i] != 0
        invariant
            0 <= i <= buf@.len(),
            out@ == buf@.take(i as int),
            forall|j: int| 0 <= j < i ==> buf@[j] != 0,
        decreases buf@.len() - i,
    {
        let u = buf[i];
        out.push(u);
        i = i + 1;
        assert(out@ == buf@.take(i as int));
    }
    proof {
        lemma_nul_limit_is(buf@, i as int);
    }
    out
}

} // verus!
