//! Fields of a register and the textual grammar of their positions.
use vstd::prelude::*;
use vstd::string::StringExecFns;
use vstd::string::StrSliceExecFns;
use crate::numeral::{append_numeral, decimal, numeral, digit_char};
use crate::names::{snake_case, pascal_case, snake_case_of, pascal_case_of};

verus! {

/// Where a field sits in its register: one bit, or the inclusive range `[high:low]`.
#[derive(Copy, Clone, Debug, PartialEq, Eq, Structural)]
pub enum FieldPos {
    Bit(u8),
    Field(u8, u8),
}

/// Why a position text was refused.
#[derive(Copy, Clone, Debug, PartialEq, Eq, Structural)]
pub enum FieldPosError {
    /// A bound inside the brackets is not a decimal number from 0 to 255.
    InvalidNumber,
    /// The range is written with its high bound below its low bound.
    HighBelowLow { high: u8, low: u8 },
    /// The text is neither a number nor a bracketed `[high:low]` range.
    InvalidFormat,
}

/// A named field of a register.
#[derive(Clone, Debug)]
pub struct FieldSpec {
    pub name: String,
    pub field_pos: FieldPos,
}

pub open spec fn is_digit(c: char) -> bool {
    '0' <= c && c <= '9'
}

pub open spec fn digit_value(c: char) -> nat {
    (c as nat - 48) as nat
}

pub open spec fn all_digits(s: Seq<char>) -> bool {
    forall|i: int| 0 <= i < s.len() ==> is_digit(#[trigger] s[i])
}

/// The number that a string of decimal digits denotes.
pub open spec fn digits_value(s: Seq<char>) -> nat
    decreases s.len(),
{
    if s.len() == 0 {
        0
    } else {
        digits_value(s.drop_last()) * 10 + digit_value(s.last())
    }
}

/// A bare decimal number from 0 to 255.
pub open spec fn dec_u8(s: Seq<char>) -> Option<u8> {
    if s.len() >= 1 && all_digits(s) && digits_value(s) <= 255 {
        Some(digits_value(s) as u8)
    } else {
        None
    }
}

/// `k` is the one and only colon of `s`.
pub open spec fn only_colon_at(s: Seq<char>, k: int) -> bool {
    0 <= k < s.len() && s[k] == ':' && forall|j: int| 0 <= j < s.len() && j != k ==> s[j] != ':'
}

/// What `[high:low]` parses to, given the text between the brackets.
pub open spec fn parse_range(inner: Seq<char>) -> Result<FieldPos, FieldPosError> {
    if exists|k: int| only_colon_at(inner, k) {
        let k = choose|k: int| only_colon_at(inner, k);
        match (dec_u8(inner.subrange(0, k)), dec_u8(inner.subrange(k + 1, inner.len() as int))) {
            (Some(high), Some(low)) => if low > high {
                Err(FieldPosError::HighBelowLow { high, low })
            } else {
                Ok(FieldPos::Field(high, low))
            },
            _ => Err(FieldPosError::InvalidNumber),
        }
    } else {
        Err(FieldPosError::InvalidFormat)
    }
}

/// The position grammar: a decimal number is one bit, `[high:low]` a range.
pub open spec fn parse_pos(s: Seq<char>) -> Result<FieldPos, FieldPosError> {
    match dec_u8(s) {
        Some(b) => Ok(FieldPos::Bit(b)),
        None => if s.len() >= 2 && s[0] == '[' && s.last() == ']' {
            parse_range(s.subrange(1, s.len() - 1))
        } else {
            Err(FieldPosError::InvalidFormat)
        },
    }
}

/// The text of a position: the inverse of `parse_pos`.
pub open spec fn pos_text(p: FieldPos) -> Seq<char> {
    match p {
        FieldPos::Bit(b) => decimal(b as nat),
        FieldPos::Field(high, low) => seq!['['] + decimal(high as nat) + seq![':'] + decimal(
            low as nat,
        ) + seq![']'],
    }
}

/// The number of bits a position covers.
pub open spec fn pos_len(p: FieldPos) -> int {
    match p {
        FieldPos::Bit(_) => 1,
        FieldPos::Field(high, low) => high - low + 1,
    }
}

/// The lowest bit a position covers.
pub open spec fn pos_low(p: FieldPos) -> u8 {
    match p {
        FieldPos::Bit(b) => b,
        FieldPos::Field(_, low) => low,
    }
}

/// The smallest of 8, 16, 32 and 64 bits that holds `len` bits.
pub open spec fn word_bits(len: int) -> nat {
    if len <= 8 {
        8
    } else if len <= 16 {
        16
    } else if len <= 32 {
        32
    } else {
        64
    }
}

/// The name of the unsigned integer type of `bits` bits.
pub open spec fn word_type_name(bits: nat) -> Seq<char> {
    if bits == 8 {
        "u8"@
    } else if bits == 16 {
        "u16"@
    } else if bits == 32 {
        "u32"@
    } else {
        "u64"@
    }
}

impl FieldPos {
    /// A range has its high bound at or above its low bound.
    pub open spec fn wf(self) -> bool {
        match self {
            FieldPos::Bit(_) => true,
            FieldPos::Field(high, low) => low <= high,
        }
    }

    /// The integer type that holds the field's value.
    pub fn fieldpos_word(self) -> (r: &'static str)
        requires
            self.wf(),
            pos_len(self) <= 64,
        ensures
            r@ == word_type_name(word_bits(pos_len(self))),
    {
        match self {
            FieldPos::Bit(_) => "u8",
            FieldPos::Field(high, low) => {
                let field_len: u8 = high - low + 1;
                if field_len <= 8 {
                    "u8"
                } else if field_len <= 16 {
                    "u16"
                } else if field_len <= 32 {
                    "u32"
                } else {
                    "u64"
                }
            },
        }
    }

    /// Writes the position in its textual form.
    pub fn serialize(&self) -> (r: String)
        ensures
            r@ == pos_text(*self),
    {
        let mut out = String::new();
        match *self {
            FieldPos::Bit(bit) => {
                append_numeral(&mut out, bit as u64, 10);
            },
            FieldPos::Field(high, low) => {
                out.append("[");
                append_numeral(&mut out, high as u64, 10);
                out.append(":");
                append_numeral(&mut out, low as u64, 10);
                out.append("]");
                proof {
                    reveal_strlit("[");
                    reveal_strlit(":");
                    reveal_strlit("]");
                }
            },
        }
        proof {
            assert(out@ =~= pos_text(*self));
        }
        out
    }

    /// Reads a position from its textual form.
    pub fn parse(text: &str) -> (r: Result<FieldPos, FieldPosError>)
        ensures
            r == parse_pos(text@),
            r is Ok ==> r->Ok_0.wf(),
    {
        let n = text.unicode_len();
        if let Some(single) = parse_dec_u8(text, 0, n) {
            proof {
                assert(text@.subrange(0, n as int) =~= text@);
            }
            return Ok(FieldPos::Bit(single));
        }
        proof {
            assert(text@.subrange(0, n as int) =~= text@);
        }
        if n >= 2 && text.get_char(0) == '[' && text.get_char(n - 1) == ']' {
            let ghost inner = text@.subrange(1, n - 1);
            let mut colon: usize = 0;
            let mut colons: usize = 0;
            let mut i: usize = 1;
            while i < n - 1
                invariant
                    n == text@.len(),
                    n >= 2,
                    inner == text@.subrange(1, n - 1),
                    1 <= i <= n - 1,
                    colons <= 2,
                    colons == 0 ==> forall|j: int| 0 <= j < i - 1 ==> inner[j] != ':',
                    colons == 1 ==> only_colon_at(inner.subrange(0, i - 1), colon - 1),
                    colons == 1 ==> 1 <= colon < i,
                    colons == 2 ==> !(exists|k: int| only_colon_at(inner, k)),
                decreases n - 1 - i,
            {
                if text.get_char(i) == ':' {
                    if colons == 0 {
                        colon = i;
                        colons = 1;
                    } else if colons == 1 {
                        proof {
                            assert forall|k: int| !only_colon_at(inner, k) by {
                                if only_colon_at(inner, k) {
                                    if k == colon - 1 {
                                        assert(inner[i - 1] == ':');
                                    } else {
                                        assert(inner.subrange(0, i - 1)[colon - 1] == ':');
                                    }
                                }
                            }
                        }
                        colons = 2;
                    }
                }
                i = i + 1;
            }
            if colons == 1 {
                proof {
                    assert(inner.subrange(0, i - 1) =~= inner);
                    assert(only_colon_at(inner, colon - 1));
                    let k = choose|k: int| only_colon_at(inner, k);
                    assert(k == colon - 1);
                    assert(inner.subrange(0, colon - 1) =~= text@.subrange(1, colon as int));
                    assert(inner.subrange(colon as int, inner.len() as int) =~= text@.subrange(
                        colon + 1,
                        n - 1,
                    ));
                }
                let high = parse_dec_u8(text, 1, colon);
                let low = parse_dec_u8(text, colon + 1, n - 1);
                match (high, low) {
                    (Some(high), Some(low)) => {
                        if low > high {
                            return Err(FieldPosError::HighBelowLow { high, low });
                        }
                        return Ok(FieldPos::Field(high, low));
                    },
                    _ => {
                        return Err(FieldPosError::InvalidNumber);
                    },
                }
            } else {
                proof {
                    if colons == 0 {
                        assert forall|k: int| !only_colon_at(inner, k) by {
                            if only_colon_at(inner, k) {
                                assert(inner[k] == ':');
                            }
                        }
                    }
                }
                return Err(FieldPosError::InvalidFormat);
            }
        }
        Err(FieldPosError::InvalidFormat)
    }
}

/// Reading a longer run of digits never gives a smaller number.
proof fn lemma_digits_value_grows(s: Seq<char>, i: int)
    requires
        0 <= i <= s.len(),
    ensures
        digits_value(s) >= digits_value(s.subrange(0, i)),
    decreases s.len(),
{
    if i < s.len() {
        assert(s.drop_last() =~= s.subrange(0, s.len() - 1));
        lemma_digits_value_grows(s.drop_last(), i);
        assert(s.drop_last().subrange(0, i) =~= s.subrange(0, i));
    } else {
        assert(s.subrange(0, i) =~= s);
    }
}

/// Parses `text[from..to]` as a bare decimal number from 0 to 255.
fn parse_dec_u8(text: &str, from: usize, to: usize) -> (r: Option<u8>)
    requires
        from <= to <= text@.len(),
    ensures
        r == dec_u8(text@.subrange(from as int, to as int)),
{
    let ghost s = text@.subrange(from as int, to as int);
    if from == to {
        return None;
    }
    let mut acc: u64 = 0;
    let mut i: usize = from;
    while i < to
        invariant
            from <= i <= to <= text@.len(),
            s == text@.subrange(from as int, to as int),
            all_digits(s.subrange(0, i - from)),
            acc == digits_value(s.subrange(0, i - from)),
            acc <= 255,
        decreases to - i,
    {
        let c = text.get_char(i);
        if !('0' <= c && c <= '9') {
            proof {
                assert(s[i - from] == c);
            }
            return None;
        }
        let ghost prev = s.subrange(0, i - from);
        proof {
            assert(s.subrange(0, i + 1 - from).drop_last() =~= prev);
            assert(s.subrange(0, i + 1 - from).last() == c);
        }
        acc = acc * 10 + (c as u64 - 48);
        i = i + 1;
        if acc > 255 {
            proof {
                if all_digits(s) {
                    lemma_digits_value_grows(s, i - from);
                }
            }
            return None;
        }
    }
    proof {
        assert(s.subrange(0, i - from) =~= s);
    }
    Some(acc as u8)
}

/// The digits of a decimal numeral read back as the number.
proof fn lemma_decimal_digits(n: nat)
    ensures
        all_digits(decimal(n)),
        digits_value(decimal(n)) == n,
        decimal(n).len() >= 1,
    decreases n,
{
    if n >= 10 {
        lemma_decimal_digits(n / 10);
        assert(decimal(n).drop_last() =~= decimal(n / 10));
        assert(decimal(n) == decimal(n / 10).push(digit_char(n % 10)));
        assert(decimal(n).last() == digit_char(n % 10));
        assert(digit_value(digit_char(n % 10)) == n % 10);
        assert(digits_value(decimal(n)) == digits_value(decimal(n / 10)) * 10 + n % 10);
        assert((n / 10) * 10 + n % 10 == n) by (nonlinear_arith);
    } else {
        assert(digit_value(digit_char(n % 16)) == n);
        assert(decimal(n).drop_last() =~= Seq::<char>::empty());
        assert(digits_value(decimal(n).drop_last()) == 0);
    }
}

/// Writing a well-formed position and reading the text back gives the same position.
pub proof fn lemma_parse_serialize(p: FieldPos)
    requires
        p.wf(),
    ensures
        parse_pos(pos_text(p)) == Ok::<FieldPos, FieldPosError>(p),
{
    match p {
        FieldPos::Bit(b) => {
            lemma_decimal_digits(b as nat);
        },
        FieldPos::Field(high, low) => {
            let s = pos_text(p);
            let h = decimal(high as nat);
            let l = decimal(low as nat);
            lemma_decimal_digits(high as nat);
            lemma_decimal_digits(low as nat);
            assert(!is_digit(s[0]));
            let inner = s.subrange(1, s.len() - 1);
            assert(inner =~= h + seq![':'] + l);
            let k = h.len() as int;
            assert(only_colon_at(inner, k)) by {
                assert forall|j: int| 0 <= j < inner.len() && j != k implies inner[j] != ':' by {
                    if j < k {
                        assert(is_digit(h[j]));
                    } else {
                        assert(is_digit(l[j - k - 1]));
                    }
                }
            }
            let k2 = choose|k2: int| only_colon_at(inner, k2);
            assert(k2 == k);
            assert(inner.subrange(0, k) =~= h);
            assert(inner.subrange(k + 1, inner.len() as int) =~= l);
        },
    }
}

impl FieldSpec {
    /// The field's accessor identifier (lower_snake).
    pub fn method_name(&self) -> (r: String)
        ensures
            r@ == snake_case_of(self.name@),
    {
        snake_case(self.name.as_str())
    }

    /// The field's type identifier (UpperCamel).
    pub fn struct_name(&self) -> (r: String)
        ensures
            r@ == pascal_case_of(self.name@),
    {
        pascal_case(self.name.as_str())
    }
}

} // verus!
