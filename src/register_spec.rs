//! The register model: address, size, capabilities, fields and special kinds.
use vstd::prelude::*;
use vstd::string::StringExecFns;
use crate::endian::{Endian, bytes_of, word_of, be_word, le_word};
use crate::field_spec::{FieldSpec, word_type_name};
use crate::names::{snake_case, pascal_case, snake_case_of, pascal_case_of};
use crate::numeral::{append_numeral, decimal};

verus! {

/// A register that is not a plain structured value.
#[derive(Debug)]
pub enum SpecialRegType {
    /// A byte-stream port (a FIFO, say): transfers move raw bytes of any length.
    DataPort,
    /// A composite block whose sub-registers sit at offsets inside it.
    Struct(StructSpec),
}

/// A composite register: named sub-registers addressed by their offset in a block of
/// `bufsize` bytes.
#[derive(Debug)]
pub struct StructSpec {
    pub struct_name: String,
    pub sub_registers: Vec<RegisterSpec>,
    pub bufsize: usize,
}

/// One register of a peripheral.
#[derive(Debug)]
pub struct RegisterSpec {
    pub name: String,
    pub address: u64,
    /// Size in bytes, from 1 to 8.
    pub size: u8,
    pub readable: bool,
    pub writable: bool,
    pub reset_val: Option<u64>,
    pub fields: Option<Vec<FieldSpec>>,
    pub access_proc: Option<String>,
    pub special_type: Option<SpecialRegType>,
}

/// The storage width in bytes for a register of `size` bytes: the smallest of 1, 2, 4 and 8
/// that holds it.
pub open spec fn word_bytes(size: int) -> nat {
    if size <= 1 {
        1
    } else if size <= 2 {
        2
    } else if size <= 4 {
        4
    } else {
        8
    }
}

/// The part `[low, high)` of the storage buffer that is exchanged with the transport: the
/// padding bytes go at the low-address end in big-endian order and at the high end in
/// little-endian order.
pub open spec fn buf_window(size: int, endian: Endian) -> (int, int) {
    let word = word_bytes(size) as int;
    if word == size {
        (0, word)
    } else if endian == Endian::Big {
        (word - size, word)
    } else {
        (0, size)
    }
}

/// The slice subscript a generated accessor writes for the window, empty when the register
/// fills its storage word.
pub open spec fn subscript_text(size: int, endian: Endian) -> Seq<char> {
    let (low, high) = buf_window(size, endian);
    if word_bytes(size) == size {
        Seq::empty()
    } else {
        seq!['['] + decimal(low as nat) + seq!['.', '.'] + decimal(high as nat) + seq![']']
    }
}

/// Where the exchanged bytes sit when a register is narrower than its storage word: the
/// window is as long as the register, at the high-index end of the buffer in big-endian
/// order and at the low-index end in little-endian order.
pub proof fn lemma_padding_placement(size: int, endian: Endian)
    requires
        1 <= size <= 8,
    ensures
        buf_window(size, endian).1 - buf_window(size, endian).0 == size,
        0 <= buf_window(size, endian).0,
        buf_window(size, endian).1 <= word_bytes(size),
        size < word_bytes(size) && endian == Endian::Big ==> buf_window(size, endian).1
            == word_bytes(size),
        size < word_bytes(size) && endian == Endian::Little ==> buf_window(size, endian).0 == 0,
{
}

/// The bytes a register exchanges are the window of its storage word's coding: the low
/// `size` bytes of the value in the peripheral's byte order.
pub proof fn lemma_window_bytes(value: u64, size: int, endian: Endian)
    requires
        1 <= size <= 8,
    ensures
        bytes_of(value, word_bytes(size), endian).subrange(
            buf_window(size, endian).0,
            buf_window(size, endian).1,
        ) == bytes_of(value, size as nat, endian),
{
    assert(bytes_of(value, word_bytes(size), endian).subrange(
        buf_window(size, endian).0,
        buf_window(size, endian).1,
    ) =~= bytes_of(value, size as nat, endian));
}

proof fn lemma_zeros_word(n: nat, endian: Endian)
    ensures
        word_of(Seq::new(n, |i: int| 0u8), endian) == 0,
    decreases n,
{
    let z = Seq::new(n, |i: int| 0u8);
    if n > 0 {
        lemma_zeros_word((n - 1) as nat, endian);
        assert(z.drop_last() =~= Seq::new((n - 1) as nat, |i: int| 0u8));
        assert(z.drop_first() =~= Seq::new((n - 1) as nat, |i: int| 0u8));
        assert(((0u64 << 8u64) | 0u64) == 0) by (bit_vector);
    }
}

proof fn lemma_be_leading_zeros(pad: nat, s: Seq<u8>)
    ensures
        be_word(Seq::new(pad, |i: int| 0u8) + s) == be_word(s),
    decreases s.len(),
{
    let z = Seq::new(pad, |i: int| 0u8);
    if s.len() == 0 {
        assert(z + s =~= z);
        lemma_zeros_word(pad, Endian::Big);
    } else {
        lemma_be_leading_zeros(pad, s.drop_last());
        assert((z + s).drop_last() =~= z + s.drop_last());
    }
}

proof fn lemma_le_trailing_zeros(s: Seq<u8>, pad: nat)
    ensures
        le_word(s + Seq::new(pad, |i: int| 0u8)) == le_word(s),
    decreases s.len(),
{
    let z = Seq::new(pad, |i: int| 0u8);
    if s.len() == 0 {
        assert(s + z =~= z);
        lemma_zeros_word(pad, Endian::Little);
    } else {
        lemma_le_trailing_zeros(s.drop_first(), pad);
        assert((s + z).drop_first() =~= s.drop_first() + z);
    }
}

/// Decoding a zeroed storage buffer whose window holds the received bytes gives the same
/// word as decoding the received bytes alone.
pub proof fn lemma_window_decode(received: Seq<u8>, size: int, endian: Endian)
    requires
        1 <= size <= 8,
        received.len() == size,
    ensures
        ({
            let (low, high) = buf_window(size, endian);
            let buf = Seq::new(low as nat, |i: int| 0u8) + received + Seq::new(
                (word_bytes(size) - high) as nat,
                |i: int| 0u8,
            );
            buf.len() == word_bytes(size) && buf.subrange(low, high) == received && word_of(
                buf,
                endian,
            ) == word_of(received, endian)
        }),
{
    let (low, high) = buf_window(size, endian);
    let zl = Seq::new(low as nat, |i: int| 0u8);
    let zh = Seq::new((word_bytes(size) - high) as nat, |i: int| 0u8);
    let buf = zl + received + zh;
    assert(buf.subrange(low, high) =~= received);
    if endian == Endian::Big {
        assert(zh.len() == 0);
        assert(buf =~= zl + received);
        lemma_be_leading_zeros(low as nat, received);
    } else {
        assert(zl.len() == 0);
        assert(buf =~= received + zh);
        lemma_le_trailing_zeros(received, zh.len());
    }
}

impl RegisterSpec {
    /// Whether the register is a byte-stream port.
    pub open spec fn spec_is_data_port(&self) -> bool {
        self.special_type matches Some(SpecialRegType::DataPort)
    }

    /// The size lies in 1 to 8 bytes.
    pub open spec fn size_ok(&self) -> bool {
        1 <= self.size <= 8
    }

    /// The register's module identifier (lower_snake).
    pub fn reg_mod_name(&self) -> (r: String)
        ensures
            r@ == snake_case_of(self.name@),
    {
        snake_case(self.name.as_str())
    }

    /// The peripheral's accessor method for the register (lower_snake).
    pub fn reg_method_name(&self) -> (r: String)
        ensures
            r@ == snake_case_of(self.name@),
    {
        snake_case(self.name.as_str())
    }

    /// The register's accessor type (UpperCamel).
    pub fn reg_struct_name(&self) -> (r: String)
        ensures
            r@ == pascal_case_of(self.name@),
    {
        pascal_case(self.name.as_str())
    }

    /// The register's value type: its UpperCamel name with `Val` after it.
    pub fn regval_struct_name(&self) -> (r: String)
        ensures
            r@ == pascal_case_of(self.name@) + "Val"@,
    {
        let mut out = pascal_case(self.name.as_str());
        out.append("Val");
        out
    }

    pub fn is_data_port(&self) -> (r: bool)
        ensures
            r == self.spec_is_data_port(),
    {
        match self.special_type {
            Some(SpecialRegType::DataPort) => true,
            _ => false,
        }
    }

    /// The storage word's width in bytes.
    pub fn regval_word_size(&self) -> (r: u8)
        requires
            self.size_ok(),
        ensures
            r == word_bytes(self.size as int),
    {
        let len = self.size;
        if len <= 2 {
            len
        } else if len <= 4 {
            4
        } else {
            8
        }
    }

    /// The name of the storage word's integer type.
    pub fn regval_word_name(&self) -> (r: &'static str)
        requires
            self.size_ok(),
        ensures
            r@ == word_type_name(8 * word_bytes(self.size as int)),
    {
        match self.regval_word_size() {
            1 => "u8",
            2 => "u16",
            4 => "u32",
            _ => "u64",
        }
    }

    /// The window `[low, high)` of the storage buffer exchanged with the transport.
    pub fn commsbuf_window(&self, endian: Endian) -> (r: (usize, usize))
        requires
            self.size_ok(),
        ensures
            r.0 as int == buf_window(self.size as int, endian).0,
            r.1 as int == buf_window(self.size as int, endian).1,
    {
        let word_size = self.regval_word_size();
        let padding_len = word_size - self.size;
        if padding_len == 0 {
            (0, word_size as usize)
        } else {
            match endian {
                Endian::Big => (padding_len as usize, word_size as usize),
                Endian::Little => (0, self.size as usize),
            }
        }
    }

    /// The slice subscript of the window, or nothing when the register fills its word.
    pub fn commsbuf_subscript(&self, endian: Endian) -> (r: String)
        requires
            self.size_ok(),
        ensures
            r@ == subscript_text(self.size as int, endian),
    {
        let (low, high) = self.commsbuf_window(endian);
        let mut out = String::new();
        if self.regval_word_size() != self.size {
            out.append("[");
            append_numeral(&mut out, low as u64, 10);
            out.append("..");
            append_numeral(&mut out, high as u64, 10);
            out.append("]");
            proof {
                reveal_strlit("[");
                reveal_strlit("..");
                reveal_strlit("]");
                assert(out@ =~= subscript_text(self.size as int, endian));
            }
        }
        out
    }
}

} // verus!
