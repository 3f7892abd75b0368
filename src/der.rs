use vstd::prelude::*;
use vstd::std_specs::cmp::PartialEqSpec;
use vstd::std_specs::convert::FromSpec;

verus! {

/// DER-encoded data, either owned or borrowed.
///
/// Both representations expose the same bytes; equality compares the bytes
/// alone, never how they are stored.
#[derive(Debug)]
pub struct Der<'a>(DerInner<'a>);

#[derive(Debug)]
enum DerInner<'a> {
    Owned(Vec<u8>),
    Borrowed(&'a [u8]),
}

impl<'a> View for Der<'a> {
    type V = Seq<u8>;

    closed spec fn view(&self) -> Seq<u8> {
        match self.0 {
            DerInner::Owned(v) => v@,
            DerInner::Borrowed(s) => s@,
        }
    }
}

impl<'a> Der<'a> {
    /// Whether the bytes are held in an owned buffer rather than borrowed.
    pub closed spec fn is_owned(&self) -> bool {
        self.0 is Owned
    }

    /// A constructor that borrows `der` without copying it.
    pub fn from_slice(der: &'a [u8]) -> (r: Self)
        ensures
            r@ == der@,
            !r.is_owned(),
    {
        Der(DerInner::Borrowed(der))
    }

    /// The encoded bytes, whatever the representation.
    pub fn as_bytes(&self) -> (r: &[u8])
        ensures
            r@ == self@,
    {
        match &self.0 {
            DerInner::Owned(v) => v.as_slice(),
            DerInner::Borrowed(s) => s,
        }
    }
}

impl<'a> Der<'a> {
    /// Takes ownership of `vec` without copying it.
    pub fn from_vec(vec: Vec<u8>) -> (r: Der<'static>)
        ensures
            r@ == vec@,
            r.is_owned(),
    {
        Der(DerInner::Owned(vec))
    }
}

/// A fresh owned buffer with the same bytes as `s`.
pub fn copy_bytes(s: &[u8]) -> (r: Vec<u8>)
    ensures
        r@ == s@,
{
    let mut out: Vec<u8> = Vec::with_capacity(s.len());
    let mut i: usize = 0;
    while i < s.len()
        invariant
            i <= s@.len(),
            out@ == s@.subrange(0, i as int),
        decreases s@.len() - i,
    {
        out.push(s[i]);
        i = i + 1;
    }
    assert(out@ == s@);
    out
}

impl<'a> Der<'a> {
    /// An owned copy of these bytes, independent of the memory they borrow.
    pub fn to_owned_der(&self) -> (r: Der<'static>)
        ensures
            r@ == self@,
            r.is_owned(),
    {
        Der::from_vec(copy_bytes(self.as_bytes()))
    }
}

impl<'a> Clone for Der<'a> {
    /// A duplicate that keeps the representation: a borrowed view is shared, an
    /// owned buffer is copied.
    fn clone(&self) -> (r: Self)
        ensures
            r@ == self@,
            r.is_owned() == self.is_owned(),
    {
        match &self.0 {
            DerInner::Owned(v) => Der(DerInner::Owned(copy_bytes(v.as_slice()))),
            DerInner::Borrowed(s) => Der(DerInner::Borrowed(s)),
        }
    }
}

impl<'a> AsRef<[u8]> for Der<'a> {
    fn as_ref(&self) -> (r: &[u8])
        ensures
            r@ == self@,
    {
        self.as_bytes()
    }
}

impl<'a> core::ops::Deref for Der<'a> {
    type Target = [u8];

    fn deref(&self) -> (r: &[u8])
        ensures
            r@ == self@,
    {
        self.as_bytes()
    }
}

impl<'a> From<&'a [u8]> for Der<'a> {
    fn from(slice: &'a [u8]) -> (r: Self)
        ensures
            r@ == slice@,
    {
        Der(DerInner::Borrowed(slice))
    }
}

impl<'a> vstd::std_specs::convert::FromSpecImpl<&'a [u8]> for Der<'a> {
    open spec fn obeys_from_spec() -> bool {
        true
    }

    closed spec fn from_spec(slice: &'a [u8]) -> Self {
        Der(DerInner::Borrowed(slice))
    }
}

impl From<Vec<u8>> for Der<'static> {
    fn from(vec: Vec<u8>) -> (r: Self)
        ensures
            r@ == vec@,
    {
        Der(DerInner::Owned(vec))
    }
}

impl vstd::std_specs::convert::FromSpecImpl<Vec<u8>> for Der<'static> {
    open spec fn obeys_from_spec() -> bool {
        true
    }

    closed spec fn from_spec(vec: Vec<u8>) -> Self {
        Der(DerInner::Owned(vec))
    }
}

impl<'a> PartialEq for Der<'a> {
    fn eq(&self, other: &Der<'a>) -> (r: bool) {
        bytes_equal(self.as_bytes(), other.as_bytes())
    }
}

impl<'a> vstd::std_specs::cmp::PartialEqSpecImpl for Der<'a> {
    open spec fn obeys_eq_spec() -> bool {
        true
    }

    open spec fn eq_spec(&self, other: &Der<'a>) -> bool {
        self@ == other@
    }
}

/// Converting bytes into a `Der` keeps them exactly, whether the bytes are
/// borrowed or owned.
pub proof fn lemma_der_from_keeps_bytes<'a>(slice: &'a [u8], vec: Vec<u8>)
    ensures
        <Der<'a> as FromSpec<&'a [u8]>>::from_spec(slice)@ == slice@,
        <Der<'static> as FromSpec<Vec<u8>>>::from_spec(vec)@ == vec@,
{
}

/// A borrowed view of some bytes and an owned copy of them are
/// indistinguishable: they compare equal and expose the same bytes.
pub proof fn lemma_representation_transparent<'a>(slice: &'a [u8], vec: Vec<u8>)
    requires
        vec@ == slice@,
    ensures
        ({
            let borrowed = <Der<'a> as FromSpec<&'a [u8]>>::from_spec(slice);
            let owned = <Der<'static> as FromSpec<Vec<u8>>>::from_spec(vec);
            &&& !borrowed.is_owned()
            &&& owned.is_owned()
            &&& borrowed@ == owned@
            &&& borrowed.eq_spec(&owned)
        }),
{
}

/// Whether `a` and `b` hold the same bytes.
pub fn bytes_equal(a: &[u8], b: &[u8]) -> (r: bool)
    ensures
        r == (a@ == b@),
{
    if a.len() != b.len() {
        return false;
    }
    let mut i: usize = 0;
    while i < a.len()
        invariant
            i <= a@.len(),
            a@.len() == b@.len(),
            a@.subrange(0, i as int) == b@.subrange(0, i as int),
        decreases a@.len() - i,
    {
        if a[i] != b[i] {
            assert(a@[i as int] != b@[i as int]);
            return false;
        }
        assert(a@.subrange(0, i + 1) == a@.subrange(0, i as int).push(a@[i as int]));
        assert(b@.subrange(0, i + 1) == b@.subrange(0, i as int).push(b@[i as int]));
        i = i + 1;
    }
    assert(a@ == a@.subrange(0, a@.len() as int));
    assert(b@ == b@.subrange(0, b@.len() as int));
    true
}

} // verus!
