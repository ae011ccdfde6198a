//! The text blocks that generated accessor sources are made of, each with the exact text
//! it appends.
use vstd::prelude::*;
use vstd::string::StringExecFns;
use crate::numeral::{append_numeral, decimal, hexadecimal};

verus! {

/// The value type of a register and its raw getter.
pub open spec fn regval_head_text(v: Seq<char>, w: Seq<char>) -> Seq<char> {
    "pub struct "@
        + v
        + "(pub "@
        + w
        + ");\nimpl "@
        + v
        + " {\n    pub fn get(&self) -> "@
        + w
        + " {\n        self.0\n    }\n"@
}

pub(crate) fn push_regval_head(out: &mut String, v: &str, w: &str)
    ensures
        final(out)@ == old(out)@ + regval_head_text(v@, w@),
{
    let ghost start = out@;
    out.append("pub struct ");
    out.append(v);
    out.append("(pub ");
    out.append(w);
    out.append(");\nimpl ");
    out.append(v);
    out.append(" {\n    pub fn get(&self) -> ");
    out.append(w);
    out.append(" {\n        self.0\n    }\n");
    proof {
        assert(out@ =~= start + regval_head_text(v@, w@));
    }
}

/// The zero value and the raw setter of a writable register.
pub open spec fn regval_writable_text(w: Seq<char>) -> Seq<char> {
    "    pub fn zero() -> Self {\n        Self(0)\n    }\n    pub fn set(&mut self, val: "@
        + w
        + ") {\n        self.0 = val;\n    }\n"@
}

pub(crate) fn push_regval_writable(out: &mut String, w: &str)
    ensures
        final(out)@ == old(out)@ + regval_writable_text(w@),
{
    let ghost start = out@;
    out.append("    pub fn zero() -> Self {\n        Self(0)\n    }\n    pub fn set(&mut self, val: ");
    out.append(w);
    out.append(") {\n        self.0 = val;\n    }\n");
    proof {
        assert(out@ =~= start + regval_writable_text(w@));
    }
}

/// The reset value of a register that declares one.
pub open spec fn regval_reset_text(val: nat) -> Seq<char> {
    "    pub fn reset_val() -> Self {\n        Self(0x"@
        + hexadecimal(val)
        + ")\n    }\n"@
}

pub(crate) fn push_regval_reset(out: &mut String, val: u64)
    ensures
        final(out)@ == old(out)@ + regval_reset_text(val as nat),
{
    let ghost start = out@;
    out.append("    pub fn reset_val() -> Self {\n        Self(0x");
    append_numeral(out, val, 16);
    out.append(")\n    }\n");
    proof {
        assert(out@ =~= start + regval_reset_text(val as nat));
    }
}

/// The method that opens a field of a register value.
pub open spec fn field_method_text(m: Seq<char>, f: Seq<char>) -> Seq<char> {
    "    pub fn "@
        + m
        + "<'a>(&'a mut self) -> "@
        + f
        + "<'a> {\n        "@
        + f
        + "(self)\n    }\n"@
}

pub(crate) fn push_field_method(out: &mut String, m: &str, f: &str)
    ensures
        final(out)@ == old(out)@ + field_method_text(m@, f@),
{
    let ghost start = out@;
    out.append("    pub fn ");
    out.append(m);
    out.append("<'a>(&'a mut self) -> ");
    out.append(f);
    out.append("<'a> {\n        ");
    out.append(f);
    out.append("(self)\n    }\n");
    proof {
        assert(out@ =~= start + field_method_text(m@, f@));
    }
}

/// The start of a field type and its methods.
pub open spec fn field_open_text(f: Seq<char>, v: Seq<char>) -> Seq<char> {
    "pub struct "@
        + f
        + "<'a>(pub &'a mut "@
        + v
        + ");\nimpl<'a> "@
        + f
        + "<'a> {\n"@
}

pub(crate) fn push_field_open(out: &mut String, f: &str, v: &str)
    ensures
        final(out)@ == old(out)@ + field_open_text(f@, v@),
{
    let ghost start = out@;
    out.append("pub struct ");
    out.append(f);
    out.append("<'a>(pub &'a mut ");
    out.append(v);
    out.append(");\nimpl<'a> ");
    out.append(f);
    out.append("<'a> {\n");
    proof {
        assert(out@ =~= start + field_open_text(f@, v@));
    }
}

/// The queries of a one-bit field.
pub open spec fn bit_read_text(b: nat) -> Seq<char> {
    "    pub fn bit(&self) -> bool {\n        ((self.0.0 >> "@
        + decimal(b)
        + ") & 1) != 0\n    }\n    pub fn bit_is_set(&self) -> bool {\n        self.bit()\n    }\n"@
}

pub(crate) fn push_bit_read(out: &mut String, b: u64)
    ensures
        final(out)@ == old(out)@ + bit_read_text(b as nat),
{
    let ghost start = out@;
    out.append("    pub fn bit(&self) -> bool {\n        ((self.0.0 >> ");
    append_numeral(out, b, 10);
    out.append(") & 1) != 0\n    }\n    pub fn bit_is_set(&self) -> bool {\n        self.bit()\n    }\n");
    proof {
        assert(out@ =~= start + bit_read_text(b as nat));
    }
}

/// Part 1 of: the mutators of a one-bit field.
pub open spec fn bit_write_1_text(v: Seq<char>, w: Seq<char>, b: nat) -> Seq<char> {
    "    pub fn assign(self, val: bool) -> &'a mut "@
        + v
        + " {\n        self.0.0 &= !(1 << "@
        + decimal(b)
        + ");\n        self.0.0 |= (val as "@
        + w
        + ") << "@
        + decimal(b)
        + ";\n        self.0\n    }\n    pub fn set_bit(self) -> &'a mut "@
}

pub(crate) fn push_bit_write_1(out: &mut String, v: &str, w: &str, b: u64)
    ensures
        final(out)@ == old(out)@ + bit_write_1_text(v@, w@, b as nat),
{
    let ghost start = out@;
    out.append("    pub fn assign(self, val: bool) -> &'a mut ");
    out.append(v);
    out.append(" {\n        self.0.0 &= !(1 << ");
    append_numeral(out, b, 10);
    out.append(");\n        self.0.0 |= (val as ");
    out.append(w);
    out.append(") << ");
    append_numeral(out, b, 10);
    out.append(";\n        self.0\n    }\n    pub fn set_bit(self) -> &'a mut ");
    proof {
        assert(out@ =~= start + bit_write_1_text(v@, w@, b as nat));
    }
}

/// Part 2 of: the mutators of a one-bit field.
pub open spec fn bit_write_2_text(v: Seq<char>, w: Seq<char>, b: nat) -> Seq<char> {
    v
        + " {\n        self.assign(true)\n    }\n    pub fn clear_bit(self) -> &'a mut "@
        + v
        + " {\n        self.assign(false)\n    }\n"@
}

pub(crate) fn push_bit_write_2(out: &mut String, v: &str, w: &str, b: u64)
    ensures
        final(out)@ == old(out)@ + bit_write_2_text(v@, w@, b as nat),
{
    let ghost start = out@;
    out.append(v);
    out.append(" {\n        self.assign(true)\n    }\n    pub fn clear_bit(self) -> &'a mut ");
    out.append(v);
    out.append(" {\n        self.assign(false)\n    }\n");
    proof {
        assert(out@ =~= start + bit_write_2_text(v@, w@, b as nat));
    }
}

/// The mutators of a one-bit field.
pub open spec fn bit_write_text(v: Seq<char>, w: Seq<char>, b: nat) -> Seq<char> {
    bit_write_1_text(v, w, b)
        + bit_write_2_text(v, w, b)
}

pub(crate) fn push_bit_write(out: &mut String, v: &str, w: &str, b: u64)
    ensures
        final(out)@ == old(out)@ + bit_write_text(v@, w@, b as nat),
{
    let ghost start = out@;
    push_bit_write_1(out, v, w, b);
    push_bit_write_2(out, v, w, b);
    proof {
        assert(out@ =~= start + bit_write_text(v@, w@, b as nat));
    }
}

/// The reset of a one-bit field.
pub open spec fn bit_reset_text(v: Seq<char>, b: nat, val: nat) -> Seq<char> {
    "    pub fn reset(self) -> &'a mut "@
        + v
        + " {\n        self.0.0 &= !(1 << "@
        + decimal(b)
        + ");\n        self.0.0 |= (1 << "@
        + decimal(b)
        + ") & 0x"@
        + hexadecimal(val)
        + ";\n        self.0\n    }\n"@
}

pub(crate) fn push_bit_reset(out: &mut String, v: &str, b: u64, val: u64)
    ensures
        final(out)@ == old(out)@ + bit_reset_text(v@, b as nat, val as nat),
{
    let ghost start = out@;
    out.append("    pub fn reset(self) -> &'a mut ");
    out.append(v);
    out.append(" {\n        self.0.0 &= !(1 << ");
    append_numeral(out, b, 10);
    out.append(");\n        self.0.0 |= (1 << ");
    append_numeral(out, b, 10);
    out.append(") & 0x");
    append_numeral(out, val, 16);
    out.append(";\n        self.0\n    }\n");
    proof {
        assert(out@ =~= start + bit_reset_text(v@, b as nat, val as nat));
    }
}

/// The getter of a field that fills its register.
pub open spec fn range_read_full_text(fw: Seq<char>) -> Seq<char> {
    "    pub fn bits(&self) -> "@
        + fw
        + " {\n        self.0.0\n    }\n"@
}

pub(crate) fn push_range_read_full(out: &mut String, fw: &str)
    ensures
        final(out)@ == old(out)@ + range_read_full_text(fw@),
{
    let ghost start = out@;
    out.append("    pub fn bits(&self) -> ");
    out.append(fw);
    out.append(" {\n        self.0.0\n    }\n");
    proof {
        assert(out@ =~= start + range_read_full_text(fw@));
    }
}

/// The getter of a field: shift down, then mask.
pub open spec fn range_read_text(fw: Seq<char>, low: nat, len: nat) -> Seq<char> {
    "    pub fn bits(&self) -> "@
        + fw
        + " {\n        ((self.0.0 >> "@
        + decimal(low)
        + ") & !(!0 << "@
        + decimal(len)
        + ")) as "@
        + fw
        + "\n    }\n"@
}

pub(crate) fn push_range_read(out: &mut String, fw: &str, low: u64, len: u64)
    ensures
        final(out)@ == old(out)@ + range_read_text(fw@, low as nat, len as nat),
{
    let ghost start = out@;
    out.append("    pub fn bits(&self) -> ");
    out.append(fw);
    out.append(" {\n        ((self.0.0 >> ");
    append_numeral(out, low, 10);
    out.append(") & !(!0 << ");
    append_numeral(out, len, 10);
    out.append(")) as ");
    out.append(fw);
    out.append("\n    }\n");
    proof {
        assert(out@ =~= start + range_read_text(fw@, low as nat, len as nat));
    }
}

/// The setter of a field that fills its register.
pub open spec fn range_set_full_text(fw: Seq<char>, v: Seq<char>) -> Seq<char> {
    "    pub fn set(self, val: "@
        + fw
        + ") -> &'a mut "@
        + v
        + " {\n        self.0.0 = val;\n        self.0\n    }\n"@
}

pub(crate) fn push_range_set_full(out: &mut String, fw: &str, v: &str)
    ensures
        final(out)@ == old(out)@ + range_set_full_text(fw@, v@),
{
    let ghost start = out@;
    out.append("    pub fn set(self, val: ");
    out.append(fw);
    out.append(") -> &'a mut ");
    out.append(v);
    out.append(" {\n        self.0.0 = val;\n        self.0\n    }\n");
    proof {
        assert(out@ =~= start + range_set_full_text(fw@, v@));
    }
}

/// Part 1 of: the setter of a field: clear it, then or in the value cut to its width.
pub open spec fn range_set_1_text(fw: Seq<char>, v: Seq<char>, w: Seq<char>, low: nat, len: nat) -> Seq<char> {
    "    pub fn set(self, val: "@
        + fw
        + ") -> &'a mut "@
        + v
        + " {\n        self.0.0 &= !(!(!0 << "@
        + decimal(len)
        + ") << "@
        + decimal(low)
        + ");\n        self.0.0 |= ((val as "@
}

pub(crate) fn push_range_set_1(out: &mut String, fw: &str, v: &str, w: &str, low: u64, len: u64)
    ensures
        final(out)@ == old(out)@ + range_set_1_text(fw@, v@, w@, low as nat, len as nat),
{
    let ghost start = out@;
    out.append("    pub fn set(self, val: ");
    out.append(fw);
    out.append(") -> &'a mut ");
    out.append(v);
    out.append(" {\n        self.0.0 &= !(!(!0 << ");
    append_numeral(out, len, 10);
    out.append(") << ");
    append_numeral(out, low, 10);
    out.append(");\n        self.0.0 |= ((val as ");
    proof {
        assert(out@ =~= start + range_set_1_text(fw@, v@, w@, low as nat, len as nat));
    }
}

/// Part 2 of: the setter of a field: clear it, then or in the value cut to its width.
pub open spec fn range_set_2_text(fw: Seq<char>, v: Seq<char>, w: Seq<char>, low: nat, len: nat) -> Seq<char> {
    w
        + ") & !(!0 << "@
        + decimal(len)
        + ")) << "@
        + decimal(low)
        + ";\n        self.0\n    }\n"@
}

pub(crate) fn push_range_set_2(out: &mut String, fw: &str, v: &str, w: &str, low: u64, len: u64)
    ensures
        final(out)@ == old(out)@ + range_set_2_text(fw@, v@, w@, low as nat, len as nat),
{
    let ghost start = out@;
    out.append(w);
    out.append(") & !(!0 << ");
    append_numeral(out, len, 10);
    out.append(")) << ");
    append_numeral(out, low, 10);
    out.append(";\n        self.0\n    }\n");
    proof {
        assert(out@ =~= start + range_set_2_text(fw@, v@, w@, low as nat, len as nat));
    }
}

/// The setter of a field: clear it, then or in the value cut to its width.
pub open spec fn range_set_text(fw: Seq<char>, v: Seq<char>, w: Seq<char>, low: nat, len: nat) -> Seq<char> {
    range_set_1_text(fw, v, w, low, len)
        + range_set_2_text(fw, v, w, low, len)
}

pub(crate) fn push_range_set(out: &mut String, fw: &str, v: &str, w: &str, low: u64, len: u64)
    ensures
        final(out)@ == old(out)@ + range_set_text(fw@, v@, w@, low as nat, len as nat),
{
    let ghost start = out@;
    push_range_set_1(out, fw, v, w, low, len);
    push_range_set_2(out, fw, v, w, low, len);
    proof {
        assert(out@ =~= start + range_set_text(fw@, v@, w@, low as nat, len as nat));
    }
}

/// The reset of a field that fills its register.
pub open spec fn range_reset_full_text(v: Seq<char>, val: nat) -> Seq<char> {
    "    pub fn reset(self) -> &'a mut "@
        + v
        + " {\n        self.0.0 = 0x"@
        + hexadecimal(val)
        + ";\n        self.0\n    }\n"@
}

pub(crate) fn push_range_reset_full(out: &mut String, v: &str, val: u64)
    ensures
        final(out)@ == old(out)@ + range_reset_full_text(v@, val as nat),
{
    let ghost start = out@;
    out.append("    pub fn reset(self) -> &'a mut ");
    out.append(v);
    out.append(" {\n        self.0.0 = 0x");
    append_numeral(out, val, 16);
    out.append(";\n        self.0\n    }\n");
    proof {
        assert(out@ =~= start + range_reset_full_text(v@, val as nat));
    }
}

/// Part 1 of: the reset of a field: clear it, then or in the reset value's bits of it.
pub open spec fn range_reset_1_text(v: Seq<char>, val: nat, low: nat, len: nat) -> Seq<char> {
    "    pub fn reset(self) -> &'a mut "@
        + v
        + " {\n        self.0.0 &= !(!(!0 << "@
        + decimal(len)
        + ") << "@
        + decimal(low)
        + ");\n        self.0.0 |= 0x"@
        + hexadecimal(val)
        + " & (!(!0 << "@
}

pub(crate) fn push_range_reset_1(out: &mut String, v: &str, val: u64, low: u64, len: u64)
    ensures
        final(out)@ == old(out)@ + range_reset_1_text(v@, val as nat, low as nat, len as nat),
{
    let ghost start = out@;
    out.append("    pub fn reset(self) -> &'a mut ");
    out.append(v);
    out.append(" {\n        self.0.0 &= !(!(!0 << ");
    append_numeral(out, len, 10);
    out.append(") << ");
    append_numeral(out, low, 10);
    out.append(");\n        self.0.0 |= 0x");
    append_numeral(out, val, 16);
    out.append(" & (!(!0 << ");
    proof {
        assert(out@ =~= start + range_reset_1_text(v@, val as nat, low as nat, len as nat));
    }
}

/// Part 2 of: the reset of a field: clear it, then or in the reset value's bits of it.
pub open spec fn range_reset_2_text(v: Seq<char>, val: nat, low: nat, len: nat) -> Seq<char> {
    decimal(len)
        + ") << "@
        + decimal(low)
        + ");\n        self.0\n    }\n"@
}

pub(crate) fn push_range_reset_2(out: &mut String, v: &str, val: u64, low: u64, len: u64)
    ensures
        final(out)@ == old(out)@ + range_reset_2_text(v@, val as nat, low as nat, len as nat),
{
    let ghost start = out@;
    append_numeral(out, len, 10);
    out.append(") << ");
    append_numeral(out, low, 10);
    out.append(");\n        self.0\n    }\n");
    proof {
        assert(out@ =~= start + range_reset_2_text(v@, val as nat, low as nat, len as nat));
    }
}

/// The reset of a field: clear it, then or in the reset value's bits of it.
pub open spec fn range_reset_text(v: Seq<char>, val: nat, low: nat, len: nat) -> Seq<char> {
    range_reset_1_text(v, val, low, len)
        + range_reset_2_text(v, val, low, len)
}

pub(crate) fn push_range_reset(out: &mut String, v: &str, val: u64, low: u64, len: u64)
    ensures
        final(out)@ == old(out)@ + range_reset_text(v@, val as nat, low as nat, len as nat),
{
    let ghost start = out@;
    push_range_reset_1(out, v, val, low, len);
    push_range_reset_2(out, v, val, low, len);
    proof {
        assert(out@ =~= start + range_reset_text(v@, val as nat, low as nat, len as nat));
    }
}

/// Part 1 of: the imports and accessor type of a register file.
pub open spec fn reg_head_1_text(p: Seq<char>, r: Seq<char>, g: Seq<char>, pt: Seq<char>, bf: Seq<char>) -> Seq<char> {
    "use core::result::Result;\nuse regcomms::{RegCommsError, RegComms, RegCommsAccessProc};\nuse crate::"@
        + p
        + ";\npub struct "@
        + r
        + "<'a, "@
        + g
        + ">(pub &'a mut "@
        + pt
        + ");\nimpl<'a, "@
}

pub(crate) fn push_reg_head_1(out: &mut String, p: &str, r: &str, g: &str, pt: &str, bf: &str)
    ensures
        final(out)@ == old(out)@ + reg_head_1_text(p@, r@, g@, pt@, bf@),
{
    let ghost start = out@;
    out.append("use core::result::Result;\nuse regcomms::{RegCommsError, RegComms, RegCommsAccessProc};\nuse crate::");
    out.append(p);
    out.append(";\npub struct ");
    out.append(r);
    out.append("<'a, ");
    out.append(g);
    out.append(">(pub &'a mut ");
    out.append(pt);
    out.append(");\nimpl<'a, ");
    proof {
        assert(out@ =~= start + reg_head_1_text(p@, r@, g@, pt@, bf@));
    }
}

/// Part 2 of: the imports and accessor type of a register file.
pub open spec fn reg_head_2_text(p: Seq<char>, r: Seq<char>, g: Seq<char>, pt: Seq<char>, bf: Seq<char>) -> Seq<char> {
    g
        + "> "@
        + r
        + "<'a, "@
        + bf
        + "> {\n"@
}

pub(crate) fn push_reg_head_2(out: &mut String, p: &str, r: &str, g: &str, pt: &str, bf: &str)
    ensures
        final(out)@ == old(out)@ + reg_head_2_text(p@, r@, g@, pt@, bf@),
{
    let ghost start = out@;
    out.append(g);
    out.append("> ");
    out.append(r);
    out.append("<'a, ");
    out.append(bf);
    out.append("> {\n");
    proof {
        assert(out@ =~= start + reg_head_2_text(p@, r@, g@, pt@, bf@));
    }
}

/// The imports and accessor type of a register file.
pub open spec fn reg_head_text(p: Seq<char>, r: Seq<char>, g: Seq<char>, pt: Seq<char>, bf: Seq<char>) -> Seq<char> {
    reg_head_1_text(p, r, g, pt, bf)
        + reg_head_2_text(p, r, g, pt, bf)
}

pub(crate) fn push_reg_head(out: &mut String, p: &str, r: &str, g: &str, pt: &str, bf: &str)
    ensures
        final(out)@ == old(out)@ + reg_head_text(p@, r@, g@, pt@, bf@),
{
    let ghost start = out@;
    push_reg_head_1(out, p, r, g, pt, bf);
    push_reg_head_2(out, p, r, g, pt, bf);
    proof {
        assert(out@ =~= start + reg_head_text(p@, r@, g@, pt@, bf@));
    }
}

/// Part 1 of: the reads of a readable register, through its access procedure.
pub open spec fn reg_read_1_text(v: Seq<char>, size: nat, member: Seq<char>, addr: nat, sub: Seq<char>, wn: Seq<char>, ab: Seq<char>) -> Seq<char> {
    "    pub fn read(&mut self) -> Result<"@
        + v
        + ", RegCommsError> {\n        let mut buf = [0u8; "@
        + decimal(size)
        + "];\n        let proc = self.0."@
        + member
        + ";\n        proc.proc_read(&mut self.0, 0x"@
        + hexadecimal(addr)
        + ", &mut buf"@
}

pub(crate) fn push_reg_read_1(out: &mut String, v: &str, size: u64, member: &str, addr: u64, sub: &str, wn: &str, ab: &str)
    ensures
        final(out)@ == old(out)@ + reg_read_1_text(v@, size as nat, member@, addr as nat, sub@, wn@, ab@),
{
    let ghost start = out@;
    out.append("    pub fn read(&mut self) -> Result<");
    out.append(v);
    out.append(", RegCommsError> {\n        let mut buf = [0u8; ");
    append_numeral(out, size, 10);
    out.append("];\n        let proc = self.0.");
    out.append(member);
    out.append(";\n        proc.proc_read(&mut self.0, 0x");
    append_numeral(out, addr, 16);
    out.append(", &mut buf");
    proof {
        assert(out@ =~= start + reg_read_1_text(v@, size as nat, member@, addr as nat, sub@, wn@, ab@));
    }
}

/// Part 2 of: the reads of a readable register, through its access procedure.
pub open spec fn reg_read_2_text(v: Seq<char>, size: nat, member: Seq<char>, addr: nat, sub: Seq<char>, wn: Seq<char>, ab: Seq<char>) -> Seq<char> {
    sub
        + ")?;\n        let val = "@
        + wn
        + "::from_"@
        + ab
        + "_bytes(buf);\n        Ok("@
        + v
        + "(val))\n    }\n"@
        + "    pub async fn read_async(&mut self) -> Result<"@
}

pub(crate) fn push_reg_read_2(out: &mut String, v: &str, size: u64, member: &str, addr: u64, sub: &str, wn: &str, ab: &str)
    ensures
        final(out)@ == old(out)@ + reg_read_2_text(v@, size as nat, member@, addr as nat, sub@, wn@, ab@),
{
    let ghost start = out@;
    out.append(sub);
    out.append(")?;\n        let val = ");
    out.append(wn);
    out.append("::from_");
    out.append(ab);
    out.append("_bytes(buf);\n        Ok(");
    out.append(v);
    out.append("(val))\n    }\n");
    out.append("    pub async fn read_async(&mut self) -> Result<");
    proof {
        assert(out@ =~= start + reg_read_2_text(v@, size as nat, member@, addr as nat, sub@, wn@, ab@));
    }
}

/// Part 3 of: the reads of a readable register, through its access procedure.
pub open spec fn reg_read_3_text(v: Seq<char>, size: nat, member: Seq<char>, addr: nat, sub: Seq<char>, wn: Seq<char>, ab: Seq<char>) -> Seq<char> {
    v
        + ", RegCommsError> {\n        let mut buf = [0u8; "@
        + decimal(size)
        + "];\n        let proc = self.0."@
        + member
        + ";\n        proc.proc_read_async(&mut self.0, 0x"@
        + hexadecimal(addr)
        + ", &mut buf"@
        + sub
}

pub(crate) fn push_reg_read_3(out: &mut String, v: &str, size: u64, member: &str, addr: u64, sub: &str, wn: &str, ab: &str)
    ensures
        final(out)@ == old(out)@ + reg_read_3_text(v@, size as nat, member@, addr as nat, sub@, wn@, ab@),
{
    let ghost start = out@;
    out.append(v);
    out.append(", RegCommsError> {\n        let mut buf = [0u8; ");
    append_numeral(out, size, 10);
    out.append("];\n        let proc = self.0.");
    out.append(member);
    out.append(";\n        proc.proc_read_async(&mut self.0, 0x");
    append_numeral(out, addr, 16);
    out.append(", &mut buf");
    out.append(sub);
    proof {
        assert(out@ =~= start + reg_read_3_text(v@, size as nat, member@, addr as nat, sub@, wn@, ab@));
    }
}

/// Part 4 of: the reads of a readable register, through its access procedure.
pub open spec fn reg_read_4_text(v: Seq<char>, size: nat, member: Seq<char>, addr: nat, sub: Seq<char>, wn: Seq<char>, ab: Seq<char>) -> Seq<char> {
    ").await?;\n        let val = "@
        + wn
        + "::from_"@
        + ab
        + "_bytes(buf);\n        Ok("@
        + v
        + "(val))\n    }\n"@
}

pub(crate) fn push_reg_read_4(out: &mut String, v: &str, size: u64, member: &str, addr: u64, sub: &str, wn: &str, ab: &str)
    ensures
        final(out)@ == old(out)@ + reg_read_4_text(v@, size as nat, member@, addr as nat, sub@, wn@, ab@),
{
    let ghost start = out@;
    out.append(").await?;\n        let val = ");
    out.append(wn);
    out.append("::from_");
    out.append(ab);
    out.append("_bytes(buf);\n        Ok(");
    out.append(v);
    out.append("(val))\n    }\n");
    proof {
        assert(out@ =~= start + reg_read_4_text(v@, size as nat, member@, addr as nat, sub@, wn@, ab@));
    }
}

/// The reads of a readable register, through its access procedure.
pub open spec fn reg_read_text(v: Seq<char>, size: nat, member: Seq<char>, addr: nat, sub: Seq<char>, wn: Seq<char>, ab: Seq<char>) -> Seq<char> {
    reg_read_1_text(v, size, member, addr, sub, wn, ab)
        + reg_read_2_text(v, size, member, addr, sub, wn, ab)
        + reg_read_3_text(v, size, member, addr, sub, wn, ab)
        + reg_read_4_text(v, size, member, addr, sub, wn, ab)
}

pub(crate) fn push_reg_read(out: &mut String, v: &str, size: u64, member: &str, addr: u64, sub: &str, wn: &str, ab: &str)
    ensures
        final(out)@ == old(out)@ + reg_read_text(v@, size as nat, member@, addr as nat, sub@, wn@, ab@),
{
    let ghost start = out@;
    push_reg_read_1(out, v, size, member, addr, sub, wn, ab);
    push_reg_read_2(out, v, size, member, addr, sub, wn, ab);
    push_reg_read_3(out, v, size, member, addr, sub, wn, ab);
    push_reg_read_4(out, v, size, member, addr, sub, wn, ab);
    proof {
        assert(out@ =~= start + reg_read_text(v@, size as nat, member@, addr as nat, sub@, wn@, ab@));
    }
}

/// Part 1 of: the writes of a writable register, through its access procedure.
pub open spec fn reg_write_1_text(v: Seq<char>, member: Seq<char>, addr: nat, sub: Seq<char>, wn: Seq<char>, ab: Seq<char>) -> Seq<char> {
    "    pub fn write(&mut self, val: "@
        + v
        + ") -> Result<(), RegCommsError> {\n        let buf = val.0.to_"@
        + ab
        + "_bytes();\n        let proc = self.0."@
        + member
        + ";\n        proc.proc_write(&mut self.0, 0x"@
        + hexadecimal(addr)
        + ", &buf"@
}

pub(crate) fn push_reg_write_1(out: &mut String, v: &str, member: &str, addr: u64, sub: &str, wn: &str, ab: &str)
    ensures
        final(out)@ == old(out)@ + reg_write_1_text(v@, member@, addr as nat, sub@, wn@, ab@),
{
    let ghost start = out@;
    out.append("    pub fn write(&mut self, val: ");
    out.append(v);
    out.append(") -> Result<(), RegCommsError> {\n        let buf = val.0.to_");
    out.append(ab);
    out.append("_bytes();\n        let proc = self.0.");
    out.append(member);
    out.append(";\n        proc.proc_write(&mut self.0, 0x");
    append_numeral(out, addr, 16);
    out.append(", &buf");
    proof {
        assert(out@ =~= start + reg_write_1_text(v@, member@, addr as nat, sub@, wn@, ab@));
    }
}

/// Part 2 of: the writes of a writable register, through its access procedure.
pub open spec fn reg_write_2_text(v: Seq<char>, member: Seq<char>, addr: nat, sub: Seq<char>, wn: Seq<char>, ab: Seq<char>) -> Seq<char> {
    sub
        + ")?;\n        Ok(())\n    }\n"@
        + "    pub fn write_raw(&mut self, raw_val: "@
        + wn
        + ") -> Result<(), RegCommsError> {\n        self.write("@
        + v
        + "(raw_val))\n    }\n"@
        + "    pub async fn write_async(&mut self, val: "@
        + v
}

pub(crate) fn push_reg_write_2(out: &mut String, v: &str, member: &str, addr: u64, sub: &str, wn: &str, ab: &str)
    ensures
        final(out)@ == old(out)@ + reg_write_2_text(v@, member@, addr as nat, sub@, wn@, ab@),
{
    let ghost start = out@;
    out.append(sub);
    out.append(")?;\n        Ok(())\n    }\n");
    out.append("    pub fn write_raw(&mut self, raw_val: ");
    out.append(wn);
    out.append(") -> Result<(), RegCommsError> {\n        self.write(");
    out.append(v);
    out.append("(raw_val))\n    }\n");
    out.append("    pub async fn write_async(&mut self, val: ");
    out.append(v);
    proof {
        assert(out@ =~= start + reg_write_2_text(v@, member@, addr as nat, sub@, wn@, ab@));
    }
}

/// Part 3 of: the writes of a writable register, through its access procedure.
pub open spec fn reg_write_3_text(v: Seq<char>, member: Seq<char>, addr: nat, sub: Seq<char>, wn: Seq<char>, ab: Seq<char>) -> Seq<char> {
    ") -> Result<(), RegCommsError> {\n        let buf = val.0.to_"@
        + ab
        + "_bytes();\n        let proc = self.0."@
        + member
        + ";\n        proc.proc_write_async(&mut self.0, 0x"@
        + hexadecimal(addr)
        + ", &buf"@
        + sub
        + ").await?;\n        Ok(())\n    }\n"@
}

pub(crate) fn push_reg_write_3(out: &mut String, v: &str, member: &str, addr: u64, sub: &str, wn: &str, ab: &str)
    ensures
        final(out)@ == old(out)@ + reg_write_3_text(v@, member@, addr as nat, sub@, wn@, ab@),
{
    let ghost start = out@;
    out.append(") -> Result<(), RegCommsError> {\n        let buf = val.0.to_");
    out.append(ab);
    out.append("_bytes();\n        let proc = self.0.");
    out.append(member);
    out.append(";\n        proc.proc_write_async(&mut self.0, 0x");
    append_numeral(out, addr, 16);
    out.append(", &buf");
    out.append(sub);
    out.append(").await?;\n        Ok(())\n    }\n");
    proof {
        assert(out@ =~= start + reg_write_3_text(v@, member@, addr as nat, sub@, wn@, ab@));
    }
}

/// Part 4 of: the writes of a writable register, through its access procedure.
pub open spec fn reg_write_4_text(v: Seq<char>, member: Seq<char>, addr: nat, sub: Seq<char>, wn: Seq<char>, ab: Seq<char>) -> Seq<char> {
    "    pub async fn write_raw_async(&mut self, raw_val: "@
        + wn
        + ") -> Result<(), RegCommsError> {\n        self.write_async("@
        + v
        + "(raw_val)).await\n    }\n"@
}

pub(crate) fn push_reg_write_4(out: &mut String, v: &str, member: &str, addr: u64, sub: &str, wn: &str, ab: &str)
    ensures
        final(out)@ == old(out)@ + reg_write_4_text(v@, member@, addr as nat, sub@, wn@, ab@),
{
    let ghost start = out@;
    out.append("    pub async fn write_raw_async(&mut self, raw_val: ");
    out.append(wn);
    out.append(") -> Result<(), RegCommsError> {\n        self.write_async(");
    out.append(v);
    out.append("(raw_val)).await\n    }\n");
    proof {
        assert(out@ =~= start + reg_write_4_text(v@, member@, addr as nat, sub@, wn@, ab@));
    }
}

/// The writes of a writable register, through its access procedure.
pub open spec fn reg_write_text(v: Seq<char>, member: Seq<char>, addr: nat, sub: Seq<char>, wn: Seq<char>, ab: Seq<char>) -> Seq<char> {
    reg_write_1_text(v, member, addr, sub, wn, ab)
        + reg_write_2_text(v, member, addr, sub, wn, ab)
        + reg_write_3_text(v, member, addr, sub, wn, ab)
        + reg_write_4_text(v, member, addr, sub, wn, ab)
}

pub(crate) fn push_reg_write(out: &mut String, v: &str, member: &str, addr: u64, sub: &str, wn: &str, ab: &str)
    ensures
        final(out)@ == old(out)@ + reg_write_text(v@, member@, addr as nat, sub@, wn@, ab@),
{
    let ghost start = out@;
    push_reg_write_1(out, v, member, addr, sub, wn, ab);
    push_reg_write_2(out, v, member, addr, sub, wn, ab);
    push_reg_write_3(out, v, member, addr, sub, wn, ab);
    push_reg_write_4(out, v, member, addr, sub, wn, ab);
    proof {
        assert(out@ =~= start + reg_write_text(v@, member@, addr as nat, sub@, wn@, ab@));
    }
}

/// Part 1 of: the read-modify-write of a register that is readable and writable.
pub open spec fn reg_modify_1_text(v: Seq<char>) -> Seq<char> {
    "    pub fn modify<F: FnOnce("@
        + v
        + ") -> "@
        + v
        + ">(&mut self, f: F) -> Result<(), RegCommsError> {\n        let orig_val = self.read()?;\n        self.write(f(orig_val))\n    }\n"@
        + "    pub async fn modify_async<F: FnOnce("@
        + v
        + ") -> "@
        + v
}

pub(crate) fn push_reg_modify_1(out: &mut String, v: &str)
    ensures
        final(out)@ == old(out)@ + reg_modify_1_text(v@),
{
    let ghost start = out@;
    out.append("    pub fn modify<F: FnOnce(");
    out.append(v);
    out.append(") -> ");
    out.append(v);
    out.append(">(&mut self, f: F) -> Result<(), RegCommsError> {\n        let orig_val = self.read()?;\n        self.write(f(orig_val))\n    }\n");
    out.append("    pub async fn modify_async<F: FnOnce(");
    out.append(v);
    out.append(") -> ");
    out.append(v);
    proof {
        assert(out@ =~= start + reg_modify_1_text(v@));
    }
}

/// Part 2 of: the read-modify-write of a register that is readable and writable.
pub open spec fn reg_modify_2_text(v: Seq<char>) -> Seq<char> {
    ">(&mut self, f: F) -> Result<(), RegCommsError> {\n        let orig_val = self.read_async().await?;\n        self.write_async(f(orig_val)).await\n    }\n"@
}

pub(crate) fn push_reg_modify_2(out: &mut String, v: &str)
    ensures
        final(out)@ == old(out)@ + reg_modify_2_text(v@),
{
    let ghost start = out@;
    out.append(">(&mut self, f: F) -> Result<(), RegCommsError> {\n        let orig_val = self.read_async().await?;\n        self.write_async(f(orig_val)).await\n    }\n");
    proof {
        assert(out@ =~= start + reg_modify_2_text(v@));
    }
}

/// The read-modify-write of a register that is readable and writable.
pub open spec fn reg_modify_text(v: Seq<char>) -> Seq<char> {
    reg_modify_1_text(v)
        + reg_modify_2_text(v)
}

pub(crate) fn push_reg_modify(out: &mut String, v: &str)
    ensures
        final(out)@ == old(out)@ + reg_modify_text(v@),
{
    let ghost start = out@;
    push_reg_modify_1(out, v);
    push_reg_modify_2(out, v);
    proof {
        assert(out@ =~= start + reg_modify_text(v@));
    }
}

/// Part 1 of: the reset of a writable register that declares a reset value.
pub open spec fn reg_reset_1_text(v: Seq<char>, val: nat) -> Seq<char> {
    "    pub fn reset(&mut self) -> Result<(), RegCommsError> {\n        self.write("@
        + v
        + "(0x"@
        + hexadecimal(val)
        + "))\n    }\n"@
        + "    pub async fn reset_async(&mut self) -> Result<(), RegCommsError> {\n        self.write_async("@
        + v
        + "(0x"@
        + hexadecimal(val)
}

pub(crate) fn push_reg_reset_1(out: &mut String, v: &str, val: u64)
    ensures
        final(out)@ == old(out)@ + reg_reset_1_text(v@, val as nat),
{
    let ghost start = out@;
    out.append("    pub fn reset(&mut self) -> Result<(), RegCommsError> {\n        self.write(");
    out.append(v);
    out.append("(0x");
    append_numeral(out, val, 16);
    out.append("))\n    }\n");
    out.append("    pub async fn reset_async(&mut self) -> Result<(), RegCommsError> {\n        self.write_async(");
    out.append(v);
    out.append("(0x");
    append_numeral(out, val, 16);
    proof {
        assert(out@ =~= start + reg_reset_1_text(v@, val as nat));
    }
}

/// Part 2 of: the reset of a writable register that declares a reset value.
pub open spec fn reg_reset_2_text(v: Seq<char>, val: nat) -> Seq<char> {
    ")).await\n    }\n"@
}

pub(crate) fn push_reg_reset_2(out: &mut String, v: &str, val: u64)
    ensures
        final(out)@ == old(out)@ + reg_reset_2_text(v@, val as nat),
{
    let ghost start = out@;
    out.append(")).await\n    }\n");
    proof {
        assert(out@ =~= start + reg_reset_2_text(v@, val as nat));
    }
}

/// The reset of a writable register that declares a reset value.
pub open spec fn reg_reset_text(v: Seq<char>, val: nat) -> Seq<char> {
    reg_reset_1_text(v, val)
        + reg_reset_2_text(v, val)
}

pub(crate) fn push_reg_reset(out: &mut String, v: &str, val: u64)
    ensures
        final(out)@ == old(out)@ + reg_reset_text(v@, val as nat),
{
    let ghost start = out@;
    push_reg_reset_1(out, v, val);
    push_reg_reset_2(out, v, val);
    proof {
        assert(out@ =~= start + reg_reset_text(v@, val as nat));
    }
}

/// Part 1 of: the raw byte-stream reads of a readable data port.
pub open spec fn port_read_1_text(member: Seq<char>, addr: nat) -> Seq<char> {
    "    pub fn data_port_read(&mut self, buf: &mut [u8]) -> Result<usize, RegCommsError> {\n        let proc = self.0."@
        + member
        + ";\n        proc.proc_read(&mut self.0, 0x"@
        + hexadecimal(addr)
        + ", buf)\n    }\n"@
        + "    pub async fn data_port_read_async(&mut self, buf: &mut [u8]) -> Result<usize, RegCommsError> {\n        let proc = self.0."@
        + member
        + ";\n        proc.proc_read_async(&mut self.0, 0x"@
        + hexadecimal(addr)
}

pub(crate) fn push_port_read_1(out: &mut String, member: &str, addr: u64)
    ensures
        final(out)@ == old(out)@ + port_read_1_text(member@, addr as nat),
{
    let ghost start = out@;
    out.append("    pub fn data_port_read(&mut self, buf: &mut [u8]) -> Result<usize, RegCommsError> {\n        let proc = self.0.");
    out.append(member);
    out.append(";\n        proc.proc_read(&mut self.0, 0x");
    append_numeral(out, addr, 16);
    out.append(", buf)\n    }\n");
    out.append("    pub async fn data_port_read_async(&mut self, buf: &mut [u8]) -> Result<usize, RegCommsError> {\n        let proc = self.0.");
    out.append(member);
    out.append(";\n        proc.proc_read_async(&mut self.0, 0x");
    append_numeral(out, addr, 16);
    proof {
        assert(out@ =~= start + port_read_1_text(member@, addr as nat));
    }
}

/// Part 2 of: the raw byte-stream reads of a readable data port.
pub open spec fn port_read_2_text(member: Seq<char>, addr: nat) -> Seq<char> {
    ", buf).await\n    }\n"@
}

pub(crate) fn push_port_read_2(out: &mut String, member: &str, addr: u64)
    ensures
        final(out)@ == old(out)@ + port_read_2_text(member@, addr as nat),
{
    let ghost start = out@;
    out.append(", buf).await\n    }\n");
    proof {
        assert(out@ =~= start + port_read_2_text(member@, addr as nat));
    }
}

/// The raw byte-stream reads of a readable data port.
pub open spec fn port_read_text(member: Seq<char>, addr: nat) -> Seq<char> {
    port_read_1_text(member, addr)
        + port_read_2_text(member, addr)
}

pub(crate) fn push_port_read(out: &mut String, member: &str, addr: u64)
    ensures
        final(out)@ == old(out)@ + port_read_text(member@, addr as nat),
{
    let ghost start = out@;
    push_port_read_1(out, member, addr);
    push_port_read_2(out, member, addr);
    proof {
        assert(out@ =~= start + port_read_text(member@, addr as nat));
    }
}

/// Part 1 of: the raw byte-stream writes of a writable data port.
pub open spec fn port_write_1_text(member: Seq<char>, addr: nat) -> Seq<char> {
    "    pub fn data_port_write(&mut self, buf: &[u8]) -> Result<usize, RegCommsError> {\n        let proc = self.0."@
        + member
        + ";\n        proc.proc_write(&mut self.0, 0x"@
        + hexadecimal(addr)
        + ", buf)\n    }\n"@
        + "    pub async fn data_port_write_async(&mut self, buf: &[u8]) -> Result<usize, RegCommsError> {\n        let proc = self.0."@
        + member
        + ";\n        proc.proc_write_async(&mut self.0, 0x"@
        + hexadecimal(addr)
}

pub(crate) fn push_port_write_1(out: &mut String, member: &str, addr: u64)
    ensures
        final(out)@ == old(out)@ + port_write_1_text(member@, addr as nat),
{
    let ghost start = out@;
    out.append("    pub fn data_port_write(&mut self, buf: &[u8]) -> Result<usize, RegCommsError> {\n        let proc = self.0.");
    out.append(member);
    out.append(";\n        proc.proc_write(&mut self.0, 0x");
    append_numeral(out, addr, 16);
    out.append(", buf)\n    }\n");
    out.append("    pub async fn data_port_write_async(&mut self, buf: &[u8]) -> Result<usize, RegCommsError> {\n        let proc = self.0.");
    out.append(member);
    out.append(";\n        proc.proc_write_async(&mut self.0, 0x");
    append_numeral(out, addr, 16);
    proof {
        assert(out@ =~= start + port_write_1_text(member@, addr as nat));
    }
}

/// Part 2 of: the raw byte-stream writes of a writable data port.
pub open spec fn port_write_2_text(member: Seq<char>, addr: nat) -> Seq<char> {
    ", buf).await\n    }\n"@
}

pub(crate) fn push_port_write_2(out: &mut String, member: &str, addr: u64)
    ensures
        final(out)@ == old(out)@ + port_write_2_text(member@, addr as nat),
{
    let ghost start = out@;
    out.append(", buf).await\n    }\n");
    proof {
        assert(out@ =~= start + port_write_2_text(member@, addr as nat));
    }
}

/// The raw byte-stream writes of a writable data port.
pub open spec fn port_write_text(member: Seq<char>, addr: nat) -> Seq<char> {
    port_write_1_text(member, addr)
        + port_write_2_text(member, addr)
}

pub(crate) fn push_port_write(out: &mut String, member: &str, addr: u64)
    ensures
        final(out)@ == old(out)@ + port_write_text(member@, addr as nat),
{
    let ghost start = out@;
    push_port_write_1(out, member, addr);
    push_port_write_2(out, member, addr);
    proof {
        assert(out@ =~= start + port_write_text(member@, addr as nat));
    }
}

/// The crate attributes and imports of a generated peripheral crate.
pub open spec fn lib_head_text() -> Seq<char> {
    "#![no_std]\nuse core::result::Result;\nuse core::default::Default;\n"@
}

pub(crate) fn push_lib_head(out: &mut String)
    ensures
        final(out)@ == old(out)@ + lib_head_text(),
{
    let ghost start = out@;
    out.append("#![no_std]\nuse core::result::Result;\nuse core::default::Default;\n");
    proof {
        assert(out@ =~= start + lib_head_text());
    }
}

/// A module declaration.
pub open spec fn mod_decl_text(m: Seq<char>) -> Seq<char> {
    "mod "@
        + m
        + ";\n"@
}

pub(crate) fn push_mod_decl(out: &mut String, m: &str)
    ensures
        final(out)@ == old(out)@ + mod_decl_text(m@),
{
    let ghost start = out@;
    out.append("mod ");
    out.append(m);
    out.append(";\n");
    proof {
        assert(out@ =~= start + mod_decl_text(m@));
    }
}

/// Part 1 of: the direct access procedure of a generated peripheral.
pub open spec fn lib_standard_1_text(sp: Seq<char>, g: Seq<char>, pt: Seq<char>, an: nat, aw: Seq<char>) -> Seq<char> {
    "use regcomms::{RegComms, RegCommsError, RegCommsAccessProc};\nuse spin::once::Once;\n#[derive(Default)]\npub struct "@
        + sp
        + ";\n"@
        + "impl<"@
        + g
        + "> RegCommsAccessProc<"@
        + pt
        + ", "@
        + decimal(an)
}

pub(crate) fn push_lib_standard_1(out: &mut String, sp: &str, g: &str, pt: &str, an: u64, aw: &str)
    ensures
        final(out)@ == old(out)@ + lib_standard_1_text(sp@, g@, pt@, an as nat, aw@),
{
    let ghost start = out@;
    out.append("use regcomms::{RegComms, RegCommsError, RegCommsAccessProc};\nuse spin::once::Once;\n#[derive(Default)]\npub struct ");
    out.append(sp);
    out.append(";\n");
    out.append("impl<");
    out.append(g);
    out.append("> RegCommsAccessProc<");
    out.append(pt);
    out.append(", ");
    append_numeral(out, an, 10);
    proof {
        assert(out@ =~= start + lib_standard_1_text(sp@, g@, pt@, an as nat, aw@));
    }
}

/// Part 2 of: the direct access procedure of a generated peripheral.
pub open spec fn lib_standard_2_text(sp: Seq<char>, g: Seq<char>, pt: Seq<char>, an: nat, aw: Seq<char>) -> Seq<char> {
    ", "@
        + aw
        + "> for "@
        + sp
        + " {\n"@
        + "    fn proc_read(&self, peripheral: &mut "@
        + pt
        + ", reg_address: "@
        + aw
}

pub(crate) fn push_lib_standard_2(out: &mut String, sp: &str, g: &str, pt: &str, an: u64, aw: &str)
    ensures
        final(out)@ == old(out)@ + lib_standard_2_text(sp@, g@, pt@, an as nat, aw@),
{
    let ghost start = out@;
    out.append(", ");
    out.append(aw);
    out.append("> for ");
    out.append(sp);
    out.append(" {\n");
    out.append("    fn proc_read(&self, peripheral: &mut ");
    out.append(pt);
    out.append(", reg_address: ");
    out.append(aw);
    proof {
        assert(out@ =~= start + lib_standard_2_text(sp@, g@, pt@, an as nat, aw@));
    }
}

/// Part 3 of: the direct access procedure of a generated peripheral.
pub open spec fn lib_standard_3_text(sp: Seq<char>, g: Seq<char>, pt: Seq<char>, an: nat, aw: Seq<char>) -> Seq<char> {
    ", buf: &mut [u8]) -> Result<usize, RegCommsError> {\n        peripheral.comms.comms_read(reg_address, buf)\n    }\n"@
        + "    async fn proc_read_async(&self, peripheral: &mut "@
        + pt
        + ", reg_address: "@
        + aw
        + ", buf: &mut [u8]) -> Result<usize, RegCommsError> {\n        peripheral.comms.comms_read_async(reg_address, buf).await\n    }\n"@
        + "    fn proc_write(&self, peripheral: &mut "@
        + pt
        + ", reg_address: "@
}

pub(crate) fn push_lib_standard_3(out: &mut String, sp: &str, g: &str, pt: &str, an: u64, aw: &str)
    ensures
        final(out)@ == old(out)@ + lib_standard_3_text(sp@, g@, pt@, an as nat, aw@),
{
    let ghost start = out@;
    out.append(", buf: &mut [u8]) -> Result<usize, RegCommsError> {\n        peripheral.comms.comms_read(reg_address, buf)\n    }\n");
    out.append("    async fn proc_read_async(&self, peripheral: &mut ");
    out.append(pt);
    out.append(", reg_address: ");
    out.append(aw);
    out.append(", buf: &mut [u8]) -> Result<usize, RegCommsError> {\n        peripheral.comms.comms_read_async(reg_address, buf).await\n    }\n");
    out.append("    fn proc_write(&self, peripheral: &mut ");
    out.append(pt);
    out.append(", reg_address: ");
    proof {
        assert(out@ =~= start + lib_standard_3_text(sp@, g@, pt@, an as nat, aw@));
    }
}

/// Part 4 of: the direct access procedure of a generated peripheral.
pub open spec fn lib_standard_4_text(sp: Seq<char>, g: Seq<char>, pt: Seq<char>, an: nat, aw: Seq<char>) -> Seq<char> {
    aw
        + ", buf: &[u8]) -> Result<usize, RegCommsError> {\n        peripheral.comms.comms_write(reg_address, buf)\n    }\n"@
        + "    async fn proc_write_async(&self, peripheral: &mut "@
        + pt
        + ", reg_address: "@
        + aw
        + ", buf: &[u8]) -> Result<usize, RegCommsError> {\n        peripheral.comms.comms_write_async(reg_address, buf).await\n    }\n}\n"@
}

pub(crate) fn push_lib_standard_4(out: &mut String, sp: &str, g: &str, pt: &str, an: u64, aw: &str)
    ensures
        final(out)@ == old(out)@ + lib_standard_4_text(sp@, g@, pt@, an as nat, aw@),
{
    let ghost start = out@;
    out.append(aw);
    out.append(", buf: &[u8]) -> Result<usize, RegCommsError> {\n        peripheral.comms.comms_write(reg_address, buf)\n    }\n");
    out.append("    async fn proc_write_async(&self, peripheral: &mut ");
    out.append(pt);
    out.append(", reg_address: ");
    out.append(aw);
    out.append(", buf: &[u8]) -> Result<usize, RegCommsError> {\n        peripheral.comms.comms_write_async(reg_address, buf).await\n    }\n}\n");
    proof {
        assert(out@ =~= start + lib_standard_4_text(sp@, g@, pt@, an as nat, aw@));
    }
}

/// The direct access procedure of a generated peripheral.
pub open spec fn lib_standard_text(sp: Seq<char>, g: Seq<char>, pt: Seq<char>, an: nat, aw: Seq<char>) -> Seq<char> {
    lib_standard_1_text(sp, g, pt, an, aw)
        + lib_standard_2_text(sp, g, pt, an, aw)
        + lib_standard_3_text(sp, g, pt, an, aw)
        + lib_standard_4_text(sp, g, pt, an, aw)
}

pub(crate) fn push_lib_standard(out: &mut String, sp: &str, g: &str, pt: &str, an: u64, aw: &str)
    ensures
        final(out)@ == old(out)@ + lib_standard_text(sp@, g@, pt@, an as nat, aw@),
{
    let ghost start = out@;
    push_lib_standard_1(out, sp, g, pt, an, aw);
    push_lib_standard_2(out, sp, g, pt, an, aw);
    push_lib_standard_3(out, sp, g, pt, an, aw);
    push_lib_standard_4(out, sp, g, pt, an, aw);
    proof {
        assert(out@ =~= start + lib_standard_text(sp@, g@, pt@, an as nat, aw@));
    }
}

/// The shared instance of an access procedure.
pub open spec fn proc_static_text(sn: Seq<char>, sp: Seq<char>) -> Seq<char> {
    "static "@
        + sn
        + ": Once<"@
        + sp
        + "> = Once::new();\n"@
}

pub(crate) fn push_proc_static(out: &mut String, sn: &str, sp: &str)
    ensures
        final(out)@ == old(out)@ + proc_static_text(sn@, sp@),
{
    let ghost start = out@;
    out.append("static ");
    out.append(sn);
    out.append(": Once<");
    out.append(sp);
    out.append("> = Once::new();\n");
    proof {
        assert(out@ =~= start + proc_static_text(sn@, sp@));
    }
}

/// The start of the peripheral type.
pub open spec fn periph_open_text(p: Seq<char>, g: Seq<char>) -> Seq<char> {
    "pub struct "@
        + p
        + "<"@
        + g
        + "> {\n"@
}

pub(crate) fn push_periph_open(out: &mut String, p: &str, g: &str)
    ensures
        final(out)@ == old(out)@ + periph_open_text(p@, g@),
{
    let ghost start = out@;
    out.append("pub struct ");
    out.append(p);
    out.append("<");
    out.append(g);
    out.append("> {\n");
    proof {
        assert(out@ =~= start + periph_open_text(p@, g@));
    }
}

/// A capability field of the peripheral.
pub open spec fn member_field_text(m: Seq<char>, t: Seq<char>) -> Seq<char> {
    "    pub "@
        + m
        + ": "@
        + t
        + ",\n"@
}

pub(crate) fn push_member_field(out: &mut String, m: &str, t: &str)
    ensures
        final(out)@ == old(out)@ + member_field_text(m@, t@),
{
    let ghost start = out@;
    out.append("    pub ");
    out.append(m);
    out.append(": ");
    out.append(t);
    out.append(",\n");
    proof {
        assert(out@ =~= start + member_field_text(m@, t@));
    }
}

/// An access-procedure field of the peripheral.
pub open spec fn proc_field_text(m: Seq<char>, sp: Seq<char>) -> Seq<char> {
    "    pub "@
        + m
        + ": &'static "@
        + sp
        + ",\n"@
}

pub(crate) fn push_proc_field(out: &mut String, m: &str, sp: &str)
    ensures
        final(out)@ == old(out)@ + proc_field_text(m@, sp@),
{
    let ghost start = out@;
    out.append("    pub ");
    out.append(m);
    out.append(": &'static ");
    out.append(sp);
    out.append(",\n");
    proof {
        assert(out@ =~= start + proc_field_text(m@, sp@));
    }
}

/// The end of the peripheral type and the start of its constructor.
pub open spec fn periph_impl_text(g: Seq<char>, p: Seq<char>, bf: Seq<char>, args: Seq<char>) -> Seq<char> {
    "}\nimpl<"@
        + g
        + "> "@
        + p
        + "<"@
        + bf
        + "> {\n    pub fn new("@
        + args
        + ") -> Self {\n        Self {\n"@
}

pub(crate) fn push_periph_impl(out: &mut String, g: &str, p: &str, bf: &str, args: &str)
    ensures
        final(out)@ == old(out)@ + periph_impl_text(g@, p@, bf@, args@),
{
    let ghost start = out@;
    out.append("}\nimpl<");
    out.append(g);
    out.append("> ");
    out.append(p);
    out.append("<");
    out.append(bf);
    out.append("> {\n    pub fn new(");
    out.append(args);
    out.append(") -> Self {\n        Self {\n");
    proof {
        assert(out@ =~= start + periph_impl_text(g@, p@, bf@, args@));
    }
}

/// A capability taken by the constructor.
pub open spec fn member_init_text(m: Seq<char>) -> Seq<char> {
    "             "@
        + m
        + ",\n"@
}

pub(crate) fn push_member_init(out: &mut String, m: &str)
    ensures
        final(out)@ == old(out)@ + member_init_text(m@),
{
    let ghost start = out@;
    out.append("             ");
    out.append(m);
    out.append(",\n");
    proof {
        assert(out@ =~= start + member_init_text(m@));
    }
}

/// An access procedure set up by the constructor.
pub open spec fn proc_init_text(m: Seq<char>, sn: Seq<char>) -> Seq<char> {
    "            "@
        + m
        + ": "@
        + sn
        + ".call_once(|| Default::default()),\n"@
}

pub(crate) fn push_proc_init(out: &mut String, m: &str, sn: &str)
    ensures
        final(out)@ == old(out)@ + proc_init_text(m@, sn@),
{
    let ghost start = out@;
    out.append("            ");
    out.append(m);
    out.append(": ");
    out.append(sn);
    out.append(".call_once(|| Default::default()),\n");
    proof {
        assert(out@ =~= start + proc_init_text(m@, sn@));
    }
}

/// The end of the constructor.
pub open spec fn ctor_close_text() -> Seq<char> {
    "        }\n    }\n"@
}

pub(crate) fn push_ctor_close(out: &mut String)
    ensures
        final(out)@ == old(out)@ + ctor_close_text(),
{
    let ghost start = out@;
    out.append("        }\n    }\n");
    proof {
        assert(out@ =~= start + ctor_close_text());
    }
}

/// Part 1 of: the peripheral method that opens a register.
pub open spec fn reg_accessor_1_text(rm: Seq<char>, md: Seq<char>, rs: Seq<char>, bf: Seq<char>) -> Seq<char> {
    "    pub fn "@
        + rm
        + "<'a>(&'a mut self) -> "@
        + md
        + "::"@
        + rs
        + "<'a, "@
        + bf
        + "> {\n        "@
}

pub(crate) fn push_reg_accessor_1(out: &mut String, rm: &str, md: &str, rs: &str, bf: &str)
    ensures
        final(out)@ == old(out)@ + reg_accessor_1_text(rm@, md@, rs@, bf@),
{
    let ghost start = out@;
    out.append("    pub fn ");
    out.append(rm);
    out.append("<'a>(&'a mut self) -> ");
    out.append(md);
    out.append("::");
    out.append(rs);
    out.append("<'a, ");
    out.append(bf);
    out.append("> {\n        ");
    proof {
        assert(out@ =~= start + reg_accessor_1_text(rm@, md@, rs@, bf@));
    }
}

/// Part 2 of: the peripheral method that opens a register.
pub open spec fn reg_accessor_2_text(rm: Seq<char>, md: Seq<char>, rs: Seq<char>, bf: Seq<char>) -> Seq<char> {
    md
        + "::"@
        + rs
        + "(self)\n    }\n"@
}

pub(crate) fn push_reg_accessor_2(out: &mut String, rm: &str, md: &str, rs: &str, bf: &str)
    ensures
        final(out)@ == old(out)@ + reg_accessor_2_text(rm@, md@, rs@, bf@),
{
    let ghost start = out@;
    out.append(md);
    out.append("::");
    out.append(rs);
    out.append("(self)\n    }\n");
    proof {
        assert(out@ =~= start + reg_accessor_2_text(rm@, md@, rs@, bf@));
    }
}

/// The peripheral method that opens a register.
pub open spec fn reg_accessor_text(rm: Seq<char>, md: Seq<char>, rs: Seq<char>, bf: Seq<char>) -> Seq<char> {
    reg_accessor_1_text(rm, md, rs, bf)
        + reg_accessor_2_text(rm, md, rs, bf)
}

pub(crate) fn push_reg_accessor(out: &mut String, rm: &str, md: &str, rs: &str, bf: &str)
    ensures
        final(out)@ == old(out)@ + reg_accessor_text(rm@, md@, rs@, bf@),
{
    let ghost start = out@;
    push_reg_accessor_1(out, rm, md, rs, bf);
    push_reg_accessor_2(out, rm, md, rs, bf);
    proof {
        assert(out@ =~= start + reg_accessor_text(rm@, md@, rs@, bf@));
    }
}

/// A closing brace.
pub open spec fn close_text() -> Seq<char> {
    "}\n"@
}

pub(crate) fn push_close(out: &mut String)
    ensures
        final(out)@ == old(out)@ + close_text(),
{
    let ghost start = out@;
    out.append("}\n");
    proof {
        assert(out@ =~= start + close_text());
    }
}

/// Part 1 of: the peripheral type and direct transfers of a single-procedure peripheral.
pub open spec fn modrs_head_1_text(p: Seq<char>, an: nat, aw: Seq<char>, params: Seq<char>) -> Seq<char> {
    "use reg_comms::{RegComms, RegCommsError};\npub enum AccessProc {\n    Standard,\n}\n"@
        + "pub struct "@
        + p
        + "<C: RegComms<"@
        + decimal(an)
        + ", "@
        + aw
        + ">>(C);\nimpl<C: RegComms"@
        + params
}

pub(crate) fn push_modrs_head_1(out: &mut String, p: &str, an: u64, aw: &str, params: &str)
    ensures
        final(out)@ == old(out)@ + modrs_head_1_text(p@, an as nat, aw@, params@),
{
    let ghost start = out@;
    out.append("use reg_comms::{RegComms, RegCommsError};\npub enum AccessProc {\n    Standard,\n}\n");
    out.append("pub struct ");
    out.append(p);
    out.append("<C: RegComms<");
    append_numeral(out, an, 10);
    out.append(", ");
    out.append(aw);
    out.append(">>(C);\nimpl<C: RegComms");
    out.append(params);
    proof {
        assert(out@ =~= start + modrs_head_1_text(p@, an as nat, aw@, params@));
    }
}

/// Part 2 of: the peripheral type and direct transfers of a single-procedure peripheral.
pub open spec fn modrs_head_2_text(p: Seq<char>, an: nat, aw: Seq<char>, params: Seq<char>) -> Seq<char> {
    "> "@
        + p
        + "<C> {\n"@
        + "    pub fn comms_read(&mut self, reg_address: "@
        + aw
        + ", buf: &mut [u8], _access_proc: AccessProc) -> Result<(), RegCommsError> {\n        self.0.comms_read(reg_address, buf)\n    }\n"@
        + "    pub fn comms_write(&mut self, reg_address: "@
        + aw
        + ", buf: &[u8], _access_proc: AccessProc) -> Result<(), RegCommsError> {\n        self.0.comms_write(reg_address, buf)\n    }\n"@
}

pub(crate) fn push_modrs_head_2(out: &mut String, p: &str, an: u64, aw: &str, params: &str)
    ensures
        final(out)@ == old(out)@ + modrs_head_2_text(p@, an as nat, aw@, params@),
{
    let ghost start = out@;
    out.append("> ");
    out.append(p);
    out.append("<C> {\n");
    out.append("    pub fn comms_read(&mut self, reg_address: ");
    out.append(aw);
    out.append(", buf: &mut [u8], _access_proc: AccessProc) -> Result<(), RegCommsError> {\n        self.0.comms_read(reg_address, buf)\n    }\n");
    out.append("    pub fn comms_write(&mut self, reg_address: ");
    out.append(aw);
    out.append(", buf: &[u8], _access_proc: AccessProc) -> Result<(), RegCommsError> {\n        self.0.comms_write(reg_address, buf)\n    }\n");
    proof {
        assert(out@ =~= start + modrs_head_2_text(p@, an as nat, aw@, params@));
    }
}

/// The peripheral type and direct transfers of a single-procedure peripheral.
pub open spec fn modrs_head_text(p: Seq<char>, an: nat, aw: Seq<char>, params: Seq<char>) -> Seq<char> {
    modrs_head_1_text(p, an, aw, params)
        + modrs_head_2_text(p, an, aw, params)
}

pub(crate) fn push_modrs_head(out: &mut String, p: &str, an: u64, aw: &str, params: &str)
    ensures
        final(out)@ == old(out)@ + modrs_head_text(p@, an as nat, aw@, params@),
{
    let ghost start = out@;
    push_modrs_head_1(out, p, an, aw, params);
    push_modrs_head_2(out, p, an, aw, params);
    proof {
        assert(out@ =~= start + modrs_head_text(p@, an as nat, aw@, params@));
    }
}

/// Part 1 of: the peripheral method that opens a register of a single-procedure peripheral.
pub open spec fn modrs_accessor_1_text(rm: Seq<char>, md: Seq<char>, rs: Seq<char>) -> Seq<char> {
    "    pub fn "@
        + rm
        + "<'a>(&'a mut self) -> "@
        + md
        + "::"@
        + rs
        + "<'a, C> {\n        "@
        + md
        + "::"@
}

pub(crate) fn push_modrs_accessor_1(out: &mut String, rm: &str, md: &str, rs: &str)
    ensures
        final(out)@ == old(out)@ + modrs_accessor_1_text(rm@, md@, rs@),
{
    let ghost start = out@;
    out.append("    pub fn ");
    out.append(rm);
    out.append("<'a>(&'a mut self) -> ");
    out.append(md);
    out.append("::");
    out.append(rs);
    out.append("<'a, C> {\n        ");
    out.append(md);
    out.append("::");
    proof {
        assert(out@ =~= start + modrs_accessor_1_text(rm@, md@, rs@));
    }
}

/// Part 2 of: the peripheral method that opens a register of a single-procedure peripheral.
pub open spec fn modrs_accessor_2_text(rm: Seq<char>, md: Seq<char>, rs: Seq<char>) -> Seq<char> {
    rs
        + "(self)\n    }\n"@
}

pub(crate) fn push_modrs_accessor_2(out: &mut String, rm: &str, md: &str, rs: &str)
    ensures
        final(out)@ == old(out)@ + modrs_accessor_2_text(rm@, md@, rs@),
{
    let ghost start = out@;
    out.append(rs);
    out.append("(self)\n    }\n");
    proof {
        assert(out@ =~= start + modrs_accessor_2_text(rm@, md@, rs@));
    }
}

/// The peripheral method that opens a register of a single-procedure peripheral.
pub open spec fn modrs_accessor_text(rm: Seq<char>, md: Seq<char>, rs: Seq<char>) -> Seq<char> {
    modrs_accessor_1_text(rm, md, rs)
        + modrs_accessor_2_text(rm, md, rs)
}

pub(crate) fn push_modrs_accessor(out: &mut String, rm: &str, md: &str, rs: &str)
    ensures
        final(out)@ == old(out)@ + modrs_accessor_text(rm@, md@, rs@),
{
    let ghost start = out@;
    push_modrs_accessor_1(out, rm, md, rs);
    push_modrs_accessor_2(out, rm, md, rs);
    proof {
        assert(out@ =~= start + modrs_accessor_text(rm@, md@, rs@));
    }
}

/// The imports and block type of a composite register.
pub open spec fn struct_head_text(p: Seq<char>, sn: Seq<char>, size: nat) -> Seq<char> {
    "use core::result::Result;\nuse regcomms::{RegCommsError, RegComms, RegCommsAccessProc};\nuse crate::"@
        + p
        + ";\npub struct "@
        + sn
        + "([u8;"@
        + decimal(size)
        + "]);\nimpl "@
        + sn
        + " {\n"@
}

pub(crate) fn push_struct_head(out: &mut String, p: &str, sn: &str, size: u64)
    ensures
        final(out)@ == old(out)@ + struct_head_text(p@, sn@, size as nat),
{
    let ghost start = out@;
    out.append("use core::result::Result;\nuse regcomms::{RegCommsError, RegComms, RegCommsAccessProc};\nuse crate::");
    out.append(p);
    out.append(";\npub struct ");
    out.append(sn);
    out.append("([u8;");
    append_numeral(out, size, 10);
    out.append("]);\nimpl ");
    out.append(sn);
    out.append(" {\n");
    proof {
        assert(out@ =~= start + struct_head_text(p@, sn@, size as nat));
    }
}

/// The method that opens a sub-register of a composite register.
pub open spec fn struct_accessor_text(rm: Seq<char>, rs: Seq<char>) -> Seq<char> {
    "    pub fn "@
        + rm
        + "<'a>(&'a mut self) -> "@
        + rs
        + "<'a> {\n        "@
        + rs
        + "(self)\n    }\n"@
}

pub(crate) fn push_struct_accessor(out: &mut String, rm: &str, rs: &str)
    ensures
        final(out)@ == old(out)@ + struct_accessor_text(rm@, rs@),
{
    let ghost start = out@;
    out.append("    pub fn ");
    out.append(rm);
    out.append("<'a>(&'a mut self) -> ");
    out.append(rs);
    out.append("<'a> {\n        ");
    out.append(rs);
    out.append("(self)\n    }\n");
    proof {
        assert(out@ =~= start + struct_accessor_text(rm@, rs@));
    }
}

/// The manifest of a generated peripheral crate.
pub open spec fn cargo_toml_text(name: Seq<char>, dep: Seq<char>) -> Seq<char> {
    "[package]\nname = \""@
        + name
        + "\"\nedition = \"2024\"\nversion = \"0.1.0\"\n\n[dependencies]\nregcomms = "@
        + dep
        + "\n"@
}

pub(crate) fn push_cargo_toml(out: &mut String, name: &str, dep: &str)
    ensures
        final(out)@ == old(out)@ + cargo_toml_text(name@, dep@),
{
    let ghost start = out@;
    out.append("[package]\nname = \"");
    out.append(name);
    out.append("\"\nedition = \"2024\"\nversion = \"0.1.0\"\n\n[dependencies]\nregcomms = ");
    out.append(dep);
    out.append("\n");
    proof {
        assert(out@ =~= start + cargo_toml_text(name@, dep@));
    }
}

} // verus!
