//! Nul-terminated strings stored in fixed-size buffers.
use vstd::prelude::*;

use vstd::std_specs::cmp::PartialEqSpecImpl;

verus! {

/// `i` is the position of the first nul byte of `s`.
pub open spec fn is_first_nul(s: Seq<u8>, i: int) -> bool {
    &&& 0 <= i < s.len()
    &&& s[i] == 0
    &&& forall|j: int| 0 <= j < i ==> s[j] != 0
}

/// `s` holds a nul byte.
pub open spec fn has_nul(s: Seq<u8>) -> bool {
    exists|i: int| 0 <= i < s.len() && s[i] == 0
}

/// Position of the first nul byte of `s`.
pub open spec fn first_nul(s: Seq<u8>) -> int {
    choose|i: int| is_first_nul(s, i)
}

/// Bytes of the C string that `s` holds: those before the first nul.
pub open spec fn cstr_bytes(s: Seq<u8>) -> Seq<u8> {
    s.take(first_nul(s))
}

/// A buffer that holds a nul byte has a first one.
pub proof fn lemma_first_nul(s: Seq<u8>)
    requires
        has_nul(s),
    ensures
        is_first_nul(s, first_nul(s)),
{
    let i = choose|i: int| 0 <= i < s.len() && s[i] == 0;
    lemma_first_nul_below(s, i);
}

proof fn lemma_first_nul_below(s: Seq<u8>, i: int)
    requires
        0 <= i < s.len(),
        s[i] == 0,
    ensures
        exists|k: int| is_first_nul(s, k),
    decreases i,
{
    if exists|j: int| 0 <= j < i && s[j] == 0 {
        let j = choose|j: int| 0 <= j < i && s[j] == 0;
        lemma_first_nul_below(s, j);
    } else {
        assert(is_first_nul(s, i));
    }
}

/// The bytes of the C string held in a buffer with a nul byte are those before its first nul.
pub proof fn lemma_cstr_bytes(s: Seq<u8>)
    requires
        has_nul(s),
    ensures
        is_first_nul(s, cstr_bytes(s).len() as int),
        cstr_bytes(s) == s.take(cstr_bytes(s).len() as int),
{
    lemma_first_nul(s);
}

/// The first nul byte is unique.
pub proof fn lemma_first_nul_unique(s: Seq<u8>, i: int)
    requires
        is_first_nul(s, i),
    ensures
        first_nul(s) == i,
{
    assert(exists|k: int| is_first_nul(s, k));
    let k = first_nul(s);
    assert(is_first_nul(s, k));
    if k < i {
        assert(s[k] != 0);
    } else if i < k {
        assert(s[i] != 0);
    }
}

/// Lexicographic order of byte strings as a sign (-1, 0 or 1): the first differing byte
/// decides, and a proper prefix comes first.
pub open spec fn lex_sign(a: Seq<u8>, b: Seq<u8>) -> int
    decreases a.len(),
{
    if a.len() == 0 {
        if b.len() == 0 {
            0
        } else {
            -1
        }
    } else if b.len() == 0 {
        1
    } else if a[0] < b[0] {
        -1
    } else if a[0] > b[0] {
        1
    } else {
        lex_sign(a.drop_first(), b.drop_first())
    }
}

/// Lexicographic order puts exactly the equal strings level, and swapping the strings
/// reverses it.
pub proof fn lemma_lex_sign_antisymmetric(a: Seq<u8>, b: Seq<u8>)
    ensures
        (lex_sign(a, b) == 0) <==> a == b,
        lex_sign(b, a) == -lex_sign(a, b),
        -1 <= lex_sign(a, b) <= 1,
    decreases a.len(),
{
    if a.len() > 0 && b.len() > 0 && a[0] == b[0] {
        lemma_lex_sign_antisymmetric(a.drop_first(), b.drop_first());
        if a.drop_first() == b.drop_first() {
            assert(a =~= seq![a[0]] + a.drop_first());
            assert(b =~= seq![b[0]] + b.drop_first());
        }
    } else if a.len() > 0 && b.len() > 0 {
        assert(a[0] != b[0]);
    } else if a.len() == 0 && b.len() == 0 {
        assert(a =~= b);
    }
}

/// Lexicographic order is transitive.
pub proof fn lemma_lex_sign_transitive(a: Seq<u8>, b: Seq<u8>, c: Seq<u8>)
    requires
        lex_sign(a, b) < 0,
        lex_sign(b, c) < 0,
    ensures
        lex_sign(a, c) < 0,
    decreases a.len(),
{
    if a.len() > 0 && b.len() > 0 && c.len() > 0 && a[0] == b[0] && b[0] == c[0] {
        lemma_lex_sign_transitive(a.drop_first(), b.drop_first(), c.drop_first());
    }
}

/// C string stored in a buffer of `N` bytes, nul included.
#[derive(Clone, Copy, Debug)]
pub struct StaticCString<const N: usize> {
    data: [u8; N],
}

impl<const N: usize> View for StaticCString<N> {
    type V = Seq<u8>;

    /// The bytes of the string, nul excluded.
    closed spec fn view(&self) -> Seq<u8> {
        cstr_bytes(self.data@)
    }
}

impl<const N: usize> StaticCString<N> {
    #[verifier::type_invariant]
    spec fn inv(self) -> bool {
        has_nul(self.data@)
    }

    /// Greatest length of a string that the buffer holds, the nul left out; a buffer holds at
    /// least its nul.
    pub fn max_len() -> (r: usize)
        requires
            N >= 1,
        ensures
            r == N - 1,
    {
        N - 1
    }

    /// The whole buffer, bytes after the first nul included.
    pub closed spec fn spec_data(self) -> Seq<u8> {
        self.data@
    }

    /// Length of the string, nul excluded.
    pub fn len(&self) -> (r: Option<usize>)
        ensures
            r == Some(self@.len() as usize),
            self@.len() < N,
    {
        proof {
            use_type_invariant(self);
            lemma_cstr_bytes(self.data@);
        }
        let mut i: usize = 0;
        while i < N
            invariant
                i <= N,
                N == self.data@.len(),
                forall|j: int| 0 <= j < i ==> self.data@[j] != 0,
                is_first_nul(self.data@, self@.len() as int),
            decreases N - i,
        {
            if self.data[i] == 0 {
                proof {
                    lemma_first_nul_unique(self.data@, i as int);
                }
                return Some(i);
            }
            i = i + 1;
        }
        proof {
            assert(self.data@[self@.len() as int] == 0);
        }
        None
    }

    /// Whether the string is empty.
    pub fn is_empty(&self) -> (r: bool)
        ensures
            r == (self@.len() == 0),
    {
        proof {
            use_type_invariant(self);
            lemma_cstr_bytes(self.data@);
        }
        let r = self.data[0] == 0;
        proof {
            if r {
                lemma_first_nul_unique(self.data@, 0);
            }
        }
        r
    }

    /// The empty string, every byte of its buffer zero; a buffer holds at least its nul.
    pub fn empty() -> (r: Self)
        requires
            N >= 1,
        ensures
            r@.len() == 0,
            r.spec_data().len() == N,
            forall|j: int| 0 <= j < N ==> r.spec_data()[j] == 0,
    {
        let data = [0u8; N];
        proof {
            assert(is_first_nul(data@, 0));
            lemma_first_nul_unique(data@, 0);
        }
        StaticCString { data }
    }

    /// String stored in `data`; `None` when `data` holds no nul byte.
    pub fn from_array(data: [u8; N]) -> (r: Option<Self>)
        ensures
            r is Some <==> has_nul(data@),
            r matches Some(s) ==> s.spec_data() == data@ && s@ == cstr_bytes(data@),
    {
        let mut i: usize = 0;
        while i < N
            invariant
                i <= N,
                N == data@.len(),
                forall|j: int| 0 <= j < i ==> data@[j] != 0,
            decreases N - i,
        {
            if data[i] == 0 {
                return Some(StaticCString { data });
            }
            i = i + 1;
        }
        None
    }

    /// String holding `bytes`, which hold no nul; `None` when they do not fit with their nul.
    pub fn from_cstr(bytes: &[u8]) -> (r: Option<Self>)
        requires
            forall|j: int| 0 <= j < bytes@.len() ==> bytes@[j] != 0,
        ensures
            r is Some <==> bytes@.len() < N,
            r matches Some(s) ==> {
                &&& s@ == bytes@
                &&& forall|j: int| bytes@.len() <= j < N ==> s.spec_data()[j] == 0
            },
    {
        if bytes.len() < N {
            let mut data = [0u8; N];
            let len = bytes.len();
            let mut i: usize = 0;
            while i < len
                invariant
                    i <= len,
                    len == bytes@.len(),
                    len < N,
                    data@.len() == N,
                    forall|j: int| 0 <= j < i ==> data@[j] == bytes@[j],
                    forall|j: int| i <= j < N ==> data@[j] == 0,
                decreases len - i,
            {
                data[i] = bytes[i];
                i = i + 1;
            }
            proof {
                assert forall|j: int| 0 <= j < len implies data@[j] != 0 by {
                    assert(data@[j] == bytes@[j]);
                }
                assert(is_first_nul(data@, len as int));
                lemma_first_nul_unique(data@, len as int);
                assert(cstr_bytes(data@) =~= bytes@);
            }
            Some(StaticCString { data })
        } else {
            None
        }
    }

    /// The whole buffer.
    pub fn to_array(&self) -> (r: [u8; N])
        ensures
            r@ == self.spec_data(),
    {
        self.data
    }

    /// The bytes of the string, nul excluded.
    pub fn to_bytes(&self) -> (r: Vec<u8>)
        ensures
            r@ == self@,
    {
        proof {
            use_type_invariant(self);
            lemma_cstr_bytes(self.data@);
        }
        let mut out: Vec<u8> = Vec::new();
        let mut i: usize = 0;
        while i < N && self.data[i] != 0
            invariant
                i <= N,
                N == self.data@.len(),
                forall|j: int| 0 <= j < i ==> self.data@[j] != 0,
                out@ == self.data@.take(i as int),
                is_first_nul(self.data@, self@.len() as int),
            decreases N - i,
        {
            out.push(self.data[i]);
            i = i + 1;
            assert(out@ =~= self.data@.take(i as int));
        }
        proof {
            if i < N {
                lemma_first_nul_unique(self.data@, i as int);
            } else {
                assert(self.data@[self@.len() as int] == 0);
            }
        }
        out
    }
}

impl<const N: usize> StaticCString<N> {
    /// Sign of the lexicographic order of two strings over their bytes, nul excluded.
    pub(crate) fn compare_sign(&self, other: &Self) -> (r: i8)
        ensures
            r == lex_sign(self@, other@),
    {
        proof {
            use_type_invariant(self);
            use_type_invariant(other);
            lemma_cstr_bytes(self.data@);
            lemma_cstr_bytes(other.data@);
        }
        let ghost a = self@;
        let ghost b = other@;
        assert(a.skip(0) =~= a);
        assert(b.skip(0) =~= b);
        let mut i: usize = 0;
        while i < N
            invariant
                i <= N,
                N == self.data@.len(),
                N == other.data@.len(),
                forall|j: int| 0 <= j < i ==> self.data@[j] == other.data@[j] && self.data@[j] != 0,
                is_first_nul(self.data@, a.len() as int),
                is_first_nul(other.data@, b.len() as int),
                a == self.data@.take(a.len() as int),
                b == other.data@.take(b.len() as int),
                i <= a.len(),
                i <= b.len(),
                lex_sign(a, b) == lex_sign(a.skip(i as int), b.skip(i as int)),
            decreases N - i,
        {
            let x = self.data[i];
            let y = other.data[i];
            if x < y {
                proof {
                    assert(b.skip(i as int).len() > 0);
                    if x != 0 {
                        assert(a.skip(i as int)[0] == x);
                    }
                    assert(b.skip(i as int)[0] == y);
                }
                return -1;
            }
            if x > y {
                proof {
                    assert(a.skip(i as int).len() > 0);
                    if y != 0 {
                        assert(b.skip(i as int)[0] == y);
                    }
                    assert(a.skip(i as int)[0] == x);
                }
                return 1;
            }
            if x == 0 {
                proof {
                    assert(a.skip(i as int).len() == 0);
                    assert(b.skip(i as int).len() == 0);
                }
                return 0;
            }
            proof {
                assert(a.skip(i as int)[0] == x);
                assert(b.skip(i as int)[0] == y);
                assert(a.skip(i as int).drop_first() =~= a.skip(i + 1));
                assert(b.skip(i as int).drop_first() =~= b.skip(i + 1));
            }
            i = i + 1;
        }
        proof {
            assert(self.data@[a.len() as int] == 0);
        }
        0
    }
}

impl<const N: usize> PartialEq for StaticCString<N> {
    fn eq(&self, other: &Self) -> (r: bool) {
        proof {
            use_type_invariant(self);
            use_type_invariant(other);
            lemma_cstr_bytes(self.data@);
            lemma_cstr_bytes(other.data@);
        }
        let mut i: usize = 0;
        while i < N
            invariant
                i <= N,
                N == self.data@.len(),
                N == other.data@.len(),
                forall|j: int| 0 <= j < i ==> self.data@[j] == other.data@[j] && self.data@[j] != 0,
                is_first_nul(self.data@, self@.len() as int),
                is_first_nul(other.data@, other@.len() as int),
                self@ == self.data@.take(self@.len() as int),
                other@ == other.data@.take(other@.len() as int),
            decreases N - i,
        {
            let a = self.data[i];
            let b = other.data[i];
            if a != b {
                proof {
                    if a == 0 {
                        lemma_first_nul_unique(self.data@, i as int);
                        assert(other@.len() > i);
                    } else if b == 0 {
                        lemma_first_nul_unique(other.data@, i as int);
                        assert(self@.len() > i);
                    } else {
                        if self@.len() == other@.len() {
                            assert(self@[i as int] != other@[i as int]);
                        }
                    }
                }
                return false;
            }
            if a == 0 {
                proof {
                    lemma_first_nul_unique(self.data@, i as int);
                    lemma_first_nul_unique(other.data@, i as int);
                    assert(self@ =~= other@);
                }
                return true;
            }
            i = i + 1;
        }
        proof {
            assert(self.data@[self@.len() as int] == 0);
        }
        false
    }
}

impl<const N: usize> PartialEqSpecImpl for StaticCString<N> {
    open spec fn obeys_eq_spec() -> bool {
        true
    }

    open spec fn eq_spec(&self, other: &Self) -> bool {
        self@ == other@
    }
}

impl<const N: usize> Eq for StaticCString<N> {

}

} // verus!
