//! Hashes, what they stand for, and the names that are given to them.

use crate::buf::{bytes_clone, bytes_content};
use crate::key::{same_bytes, Key};
use bytes::Bytes;
use vstd::prelude::*;

verus! {

/// The hash of a blob, which is how the blob is found.
#[derive(Clone, Copy, Debug, Eq, Hash)]
pub struct BlobHash(pub [u8; 32]);

impl PartialEq for BlobHash {
    fn eq(&self, other: &Self) -> (r: bool) {
        same_bytes(&self.0, &other.0)
    }
}

impl vstd::std_specs::cmp::PartialEqSpecImpl for BlobHash {
    open spec fn obeys_eq_spec() -> bool {
        true
    }

    open spec fn eq_spec(&self, other: &Self) -> bool {
        *self == *other
    }
}

impl Key for BlobHash {
    fn same(&self, other: &Self) -> (r: bool) {
        same_bytes(&self.0, &other.0)
    }
}

/// The hexadecimal digit for a number below 16.
pub open spec fn hex_digit(n: int) -> char {
    if n < 10 {
        ('0' as int + n) as char
    } else {
        ('a' as int + (n - 10)) as char
    }
}

/// The number that byte `i / 2` has in its upper half, for even `i`, or in its
/// lower half.
pub open spec fn nibble(s: Seq<u8>, i: int) -> int {
    if i % 2 == 0 {
        (s[i / 2] / 16) as int
    } else {
        (s[i / 2] % 16) as int
    }
}

/// Bytes in hexadecimal: two lower-case digits for each.
pub open spec fn hex(s: Seq<u8>) -> Seq<char> {
    Seq::new(2 * s.len(), |i: int| hex_digit(nibble(s, i)))
}

/// The hexadecimal digit for a number below 16.
fn digit(n: u8) -> (r: &'static str)
    requires
        n < 16,
    ensures
        r@ == seq![hex_digit(n as int)],
{
    proof {
        reveal_strlit("0");
        reveal_strlit("1");
        reveal_strlit("2");
        reveal_strlit("3");
        reveal_strlit("4");
        reveal_strlit("5");
        reveal_strlit("6");
        reveal_strlit("7");
        reveal_strlit("8");
        reveal_strlit("9");
        reveal_strlit("a");
        reveal_strlit("b");
        reveal_strlit("c");
        reveal_strlit("d");
        reveal_strlit("e");
        reveal_strlit("f");
    }
    match n {
        0 => "0",
        1 => "1",
        2 => "2",
        3 => "3",
        4 => "4",
        5 => "5",
        6 => "6",
        7 => "7",
        8 => "8",
        9 => "9",
        10 => "a",
        11 => "b",
        12 => "c",
        13 => "d",
        14 => "e",
        _ => "f",
    }
}

impl BlobHash {
    /// The hash in hexadecimal.
    pub fn to_hex(&self) -> (r: String)
        ensures
            r@ == hex(self.0@),
    {
        let mut out: String = String::new();
        let ghost s = self.0@;
        let mut i: usize = 0;
        assert(out@ =~= hex(s).take(0));
        while i < 32
            invariant
                i <= 32,
                s == self.0@,
                s.len() == 32,
                out@ == hex(s).take(2 * i as int),
            decreases 32 - i,
        {
            let b = self.0[i];
            out.append(digit(b / 16));
            out.append(digit(b % 16));
            assert(nibble(s, 2 * i as int) == b / 16);
            assert(nibble(s, 2 * i + 1) == b % 16);
            assert(out@ =~= hex(s).take(2 * i + 2));
            i += 1;
        }
        assert(out@ =~= hex(s));
        out
    }
}

/// Different bytes have different hexadecimal forms.
pub proof fn hex_is_injective(a: Seq<u8>, b: Seq<u8>)
    requires
        hex(a) == hex(b),
    ensures
        a == b,
{
    assert(hex(a).len() == 2 * a.len() && hex(b).len() == 2 * b.len());
    assert forall|i: int| 0 <= i < a.len() implies a[i] == b[i] by {
        assert(hex(a)[2 * i] == hex_digit(nibble(a, 2 * i)));
        assert(hex(b)[2 * i] == hex_digit(nibble(b, 2 * i)));
        assert(hex(a)[2 * i + 1] == hex_digit(nibble(a, 2 * i + 1)));
        assert(hex(b)[2 * i + 1] == hex_digit(nibble(b, 2 * i + 1)));
        assert(nibble(a, 2 * i) == a[i] / 16 && nibble(a, 2 * i + 1) == a[i] % 16);
        assert(nibble(b, 2 * i) == b[i] / 16 && nibble(b, 2 * i + 1) == b[i] % 16);
        lemma_digits_differ(nibble(a, 2 * i), nibble(b, 2 * i));
        lemma_digits_differ(nibble(a, 2 * i + 1), nibble(b, 2 * i + 1));
    }
    assert(a =~= b);
}

/// Different numbers have different digits.
proof fn lemma_digits_differ(m: int, n: int)
    requires
        0 <= m < 16,
        0 <= n < 16,
        hex_digit(m) == hex_digit(n),
    ensures
        m == n,
{
}

/// How the data of a blob is to be read.
#[derive(Clone, Copy, Debug, PartialEq, Eq, Hash, Structural)]
pub enum BlobFormat {
    /// As it is.
    Raw,
    /// As a sequence of hashes.
    HashSeq,
}

/// A hash, and how the data is to be read.
#[derive(Clone, Copy, Debug, PartialEq, Eq, Hash)]
pub struct HashAndFormat {
    pub hash: BlobHash,
    pub format: BlobFormat,
}

impl HashAndFormat {
    /// A blob that is read as it is.
    pub fn raw(hash: BlobHash) -> (r: Self)
        ensures
            r == (HashAndFormat { hash, format: BlobFormat::Raw }),
    {
        HashAndFormat { hash, format: BlobFormat::Raw }
    }
}

impl Key for HashAndFormat {
    fn same(&self, other: &Self) -> (r: bool) {
        self.hash.same(&other.hash) && self.format == other.format
    }
}

/// A name that is given to a blob.
#[derive(Debug)]
pub struct Tag(pub Bytes);

impl View for Tag {
    type V = Seq<u8>;

    open spec fn view(&self) -> Seq<u8> {
        bytes_content(self.0)
    }
}

impl Tag {
    /// A copy of the name.
    pub fn copy(&self) -> (r: Tag)
        ensures
            r@ == self@,
    {
        Tag(bytes_clone(&self.0))
    }
}

/// Each byte is two digits, the upper half first, and each digit stands for its
/// number: `0` to `9`, and then `a` to `f`.
pub proof fn hex_spells_each_byte(s: Seq<u8>, i: int)
    requires
        0 <= i < s.len(),
    ensures
        hex(s).len() == 2 * s.len(),
        ({
            let value = |c: char|
                if '0' <= c && c <= '9' {
                    c as int - '0' as int
                } else if 'a' <= c && c <= 'f' {
                    10 + (c as int - 'a' as int)
                } else {
                    -1
                };
            s[i] == 16 * value(hex(s)[2 * i]) + value(hex(s)[2 * i + 1]) && 0 <= value(
                hex(s)[2 * i],
            ) < 16 && 0 <= value(hex(s)[2 * i + 1]) < 16
        }),
{
    assert(hex(s)[2 * i] == hex_digit(nibble(s, 2 * i)));
    assert(hex(s)[2 * i + 1] == hex_digit(nibble(s, 2 * i + 1)));
    assert(nibble(s, 2 * i) == s[i] / 16 && nibble(s, 2 * i + 1) == s[i] % 16);
}

} // verus!
