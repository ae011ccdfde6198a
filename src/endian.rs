//! Byte order and the coding of storage words as bytes.
use vstd::prelude::*;

verus! {

/// The byte order of a peripheral's registers and addresses.
#[derive(Copy, Clone, Debug, PartialEq, Eq, Structural)]
pub enum Endian {
    Big,
    Little,
}

/// The word that bytes denote, most significant byte first.
pub open spec fn be_word(s: Seq<u8>) -> u64
    decreases s.len(),
{
    if s.len() == 0 {
        0
    } else {
        (be_word(s.drop_last()) << 8u64) | (s.last() as u64)
    }
}

/// The word that bytes denote, least significant byte first.
pub open spec fn le_word(s: Seq<u8>) -> u64
    decreases s.len(),
{
    if s.len() == 0 {
        0
    } else {
        (le_word(s.drop_first()) << 8u64) | (s[0] as u64)
    }
}

/// The word that bytes denote in a byte order.
pub open spec fn word_of(s: Seq<u8>, endian: Endian) -> u64 {
    match endian {
        Endian::Big => be_word(s),
        Endian::Little => le_word(s),
    }
}

/// Byte `i` of the `n`-byte coding of `value`.
pub open spec fn byte_at(value: u64, n: nat, i: int, endian: Endian) -> u8 {
    let shift = match endian {
        Endian::Big => 8 * (n - 1 - i),
        Endian::Little => 8 * i,
    };
    ((value >> (shift as u64)) & 0xffu64) as u8
}

/// The `n` low bytes of `value`, in a byte order.
pub open spec fn bytes_of(value: u64, n: nat, endian: Endian) -> Seq<u8> {
    Seq::new(n, |i: int| byte_at(value, n, i, endian))
}

proof fn lemma_push_byte_fits(x: u64, b: u8, k: u64)
    requires
        k < 8,
        x >> (8 * k) == 0,
    ensures
        ((x << 8u64) | (b as u64)) >> (8 * (k + 1)) == 0,
{
    let bb = b as u64;
    assert(((x << 8u64) | bb) >> (8 * (k + 1)) == 0) by (bit_vector)
        requires
            k < 8,
            x >> (8 * k) == 0,
            bb < 256,
    ;
}

/// Fewer than eight bytes denote a word below `2^(8 * len)`.
pub proof fn lemma_word_fits(s: Seq<u8>, endian: Endian)
    requires
        s.len() < 8,
    ensures
        word_of(s, endian) >> (8 * s.len()) as u64 == 0,
    decreases s.len(),
{
    if s.len() == 0 {
        assert(0u64 >> 0u64 == 0) by (bit_vector);
    } else {
        match endian {
            Endian::Big => {
                lemma_word_fits(s.drop_last(), endian);
                lemma_push_byte_fits(be_word(s.drop_last()), s.last(), (s.len() - 1) as u64);
            },
            Endian::Little => {
                lemma_word_fits(s.drop_first(), endian);
                lemma_push_byte_fits(le_word(s.drop_first()), s[0], (s.len() - 1) as u64);
            },
        }
    }
}

/// One byte denotes itself, in either order, and codes as itself.
pub proof fn lemma_one_byte(b: u8, endian: Endian)
    ensures
        word_of(seq![b], endian) == b as u64,
        bytes_of(b as u64, 1, endian) == seq![b],
{
    let w = b as u64;
    assert(seq![b].drop_last() =~= Seq::<u8>::empty());
    assert(seq![b].drop_first() =~= Seq::<u8>::empty());
    assert(((0u64 << 8u64) | w) == w && ((w >> 0u64) & 0xffu64) as u8 == b) by (bit_vector)
        requires
            w == b as u64,
    ;
    assert(bytes_of(w, 1, endian) =~= seq![b]);
    assert(be_word(seq![b]) == (be_word(Seq::<u8>::empty()) << 8u64) | w);
    assert(le_word(seq![b]) == (le_word(Seq::<u8>::empty()) << 8u64) | w);
}

impl Endian {
    /// The abbreviation used in std's conversions (`from_be_bytes`, `to_le_bytes`).
    pub fn abbrev(self) -> (r: &'static str)
        ensures
            r@ == (if self == Endian::Big {
                "be"@
            } else {
                "le"@
            }),
    {
        match self {
            Endian::Big => "be",
            Endian::Little => "le",
        }
    }
}

/// Decodes bytes received from a transport into a storage word.
pub fn word_from_bytes(buf: &[u8], endian: Endian) -> (r: u64)
    ensures
        r == word_of(buf@, endian),
{
    let n = buf.len();
    let mut acc: u64 = 0;
    match endian {
        Endian::Big => {
            let mut i: usize = 0;
            while i < n
                invariant
                    n == buf@.len(),
                    i <= n,
                    acc == be_word(buf@.subrange(0, i as int)),
                decreases n - i,
            {
                proof {
                    assert(buf@.subrange(0, i + 1).drop_last() =~= buf@.subrange(0, i as int));
                }
                acc = (acc << 8u64) | (buf[i] as u64);
                i = i + 1;
            }
            proof {
                assert(buf@.subrange(0, n as int) =~= buf@);
            }
        },
        Endian::Little => {
            let mut i: usize = n;
            while i > 0
                invariant
                    n == buf@.len(),
                    i <= n,
                    acc == le_word(buf@.subrange(i as int, n as int)),
                decreases i,
            {
                i = i - 1;
                proof {
                    assert(buf@.subrange(i as int, n as int).drop_first() =~= buf@.subrange(
                        i + 1,
                        n as int,
                    ));
                }
                acc = (acc << 8u64) | (buf[i] as u64);
            }
            proof {
                assert(buf@.subrange(0, n as int) =~= buf@);
            }
        },
    }
    acc
}

/// Encodes the `n` low bytes of a storage word for a transport.
pub fn word_to_bytes(value: u64, n: usize, endian: Endian) -> (r: Vec<u8>)
    requires
        n <= 8,
    ensures
        r@ == bytes_of(value, n as nat, endian),
{
    let mut out: Vec<u8> = Vec::new();
    let mut i: usize = 0;
    while i < n
        invariant
            i <= n <= 8,
            out@ =~= bytes_of(value, n as nat, endian).subrange(0, i as int),
        decreases n - i,
    {
        let shift: u64 = match endian {
            Endian::Big => 8 * (n - 1 - i) as u64,
            Endian::Little => 8 * i as u64,
        };
        out.push(((value >> shift) & 0xffu64) as u8);
        i = i + 1;
    }
    out
}

} // verus!
