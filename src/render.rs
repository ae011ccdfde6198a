//! Rendering of accessor sources from the register and peripheral model. Every generator
//! is a pure function of the model; its result is stated as the exact text it produces.
use vstd::prelude::*;
use vstd::string::StringExecFns;
use crate::endian::Endian;
use crate::field_spec::{FieldPos, FieldSpec, pos_len, word_bits, word_type_name};
use crate::names::{pascal_case_of, snake_case_of, macro_case_of};
use crate::register_spec::{RegisterSpec, word_bytes, subscript_text};
use crate::peripheral_spec::{
    PeripheralSpec, SpecError, AccessProcSpec, TraitMember, address_len_ok, standard_proc_name,
    standard_proc_path, string_views,
};
use crate::templates::{
    bit_read_text, bit_reset_text, bit_write_text, cargo_toml_text, close_text,
    ctor_close_text, field_method_text, field_open_text, lib_head_text, lib_standard_text,
    member_field_text, member_init_text, mod_decl_text, modrs_accessor_text, modrs_head_text,
    periph_impl_text, periph_open_text, port_read_text, port_write_text, proc_field_text,
    proc_init_text, proc_static_text, push_bit_read, push_bit_reset, push_bit_write,
    push_cargo_toml, push_close, push_ctor_close, push_field_method, push_field_open,
    push_lib_head, push_lib_standard, push_member_field, push_member_init, push_mod_decl,
    push_modrs_accessor, push_modrs_head, push_periph_impl, push_periph_open, push_port_read,
    push_port_write, push_proc_field, push_proc_init, push_proc_static, push_range_read,
    push_range_read_full, push_range_reset, push_range_reset_full, push_range_set,
    push_range_set_full, push_reg_accessor, push_reg_head, push_reg_modify, push_reg_read,
    push_reg_reset, push_reg_write, push_regval_head, push_regval_reset, push_regval_writable,
    push_struct_accessor, push_struct_head, range_read_full_text, range_read_text,
    range_reset_full_text, range_reset_text, range_set_full_text, range_set_text,
    reg_accessor_text, reg_head_text, reg_modify_text, reg_read_text, reg_reset_text,
    reg_write_text, regval_head_text, regval_reset_text, regval_writable_text,
    struct_accessor_text, struct_head_text,
};

verus! {

/// The texts that `f` gives each item, one after the other.
pub open spec fn lines<T>(s: Seq<T>, f: spec_fn(T) -> Seq<char>) -> Seq<char>
    decreases s.len(),
{
    if s.len() == 0 {
        Seq::empty()
    } else {
        lines(s.drop_last(), f) + f(s.last())
    }
}

proof fn lemma_lines_step<T>(s: Seq<T>, i: int, f: spec_fn(T) -> Seq<char>)
    requires
        0 <= i < s.len(),
    ensures
        lines(s.subrange(0, i + 1), f) == lines(s.subrange(0, i), f) + f(s[i]),
{
    assert(s.subrange(0, i + 1).drop_last() =~= s.subrange(0, i));
}

/// The fields a register declares.
pub open spec fn reg_fields(r: RegisterSpec) -> Seq<FieldSpec> {
    match r.fields {
        Some(v) => v@,
        None => Seq::empty(),
    }
}

/// The register's value type name.
pub open spec fn regval_name(r: RegisterSpec) -> Seq<char> {
    pascal_case_of(r.name@) + "Val"@
}

/// The register's storage word type name.
pub open spec fn word_name(r: RegisterSpec) -> Seq<char> {
    word_type_name(8 * word_bytes(r.size as int))
}

/// Every field is a well-formed position of at most 64 bits.
pub open spec fn fields_ok(r: RegisterSpec) -> bool {
    forall|i: int|
        0 <= i < reg_fields(r).len() ==> (#[trigger] reg_fields(r)[i]).field_pos.wf() && pos_len(
            reg_fields(r)[i].field_pos,
        ) <= 64
}

/// The method of the value type that opens a field.
pub open spec fn field_method_line(f: FieldSpec) -> Seq<char> {
    field_method_text(snake_case_of(f.name@), pascal_case_of(f.name@))
}

/// The methods of a one-bit field at `b`.
pub open spec fn bit_field_body(r: RegisterSpec, b: u8) -> Seq<char> {
    (if r.readable {
        bit_read_text(b as nat)
    } else {
        Seq::empty()
    }) + (if r.writable {
        bit_write_text(regval_name(r), word_name(r), b as nat) + match r.reset_val {
            Some(val) => bit_reset_text(regval_name(r), b as nat, val as nat),
            None => Seq::empty(),
        }
    } else {
        Seq::empty()
    })
}

/// The methods of the field `[high:low]`.
pub open spec fn range_field_body(r: RegisterSpec, high: u8, low: u8) -> Seq<char> {
    let len = high - low + 1;
    let fw = word_type_name(word_bits(len));
    let full = len == 8 * word_bytes(r.size as int);
    (if r.readable {
        if full {
            range_read_full_text(fw)
        } else {
            range_read_text(fw, low as nat, len as nat)
        }
    } else {
        Seq::empty()
    }) + (if r.writable {
        (if full {
            range_set_full_text(fw, regval_name(r))
        } else {
            range_set_text(fw, regval_name(r), word_name(r), low as nat, len as nat)
        }) + match r.reset_val {
            Some(val) => if full {
                range_reset_full_text(regval_name(r), val as nat)
            } else {
                range_reset_text(regval_name(r), val as nat, low as nat, len as nat)
            },
            None => Seq::empty(),
        }
    } else {
        Seq::empty()
    })
}

/// The type of a field and its methods.
pub open spec fn field_impl(r: RegisterSpec, f: FieldSpec) -> Seq<char> {
    field_open_text(pascal_case_of(f.name@), regval_name(r)) + match f.field_pos {
        FieldPos::Bit(b) => bit_field_body(r, b),
        FieldPos::Field(high, low) => range_field_body(r, high, low),
    } + close_text()
}

/// The value type of a register, its methods, and the types of its fields.
pub open spec fn regval_struct_text(r: RegisterSpec) -> Seq<char> {
    regval_head_text(regval_name(r), word_name(r)) + (if r.writable {
        regval_writable_text(word_name(r))
    } else {
        Seq::empty()
    }) + match r.reset_val {
        Some(val) => regval_reset_text(val as nat),
        None => Seq::empty(),
    } + lines(reg_fields(r), |f: FieldSpec| field_method_line(f)) + close_text() + lines(
        reg_fields(r),
        |f: FieldSpec| field_impl(r, f),
    )
}

impl RegisterSpec {
    fn push_bit_body(&self, out: &mut String, b: u8, v: &str, w: &str)
        requires
            v@ == regval_name(*self),
            w@ == word_name(*self),
        ensures
            final(out)@ == old(out)@ + bit_field_body(*self, b),
    {
        let ghost mid = out@;
        if self.readable {
            push_bit_read(out, b as u64);
        }
        if self.writable {
            push_bit_write(out, v, w, b as u64);
            if let Some(val) = self.reset_val {
                push_bit_reset(out, v, b as u64, val);
            }
        }
        proof {
            assert(out@ =~= mid + bit_field_body(*self, b));
        }
    }

    fn push_range_body(&self, out: &mut String, pos: &FieldPos, high: u8, low: u8, v: &str, w: &str)
        requires
            self.size_ok(),
            *pos == FieldPos::Field(high, low),
            pos.wf(),
            pos_len(*pos) <= 64,
            v@ == regval_name(*self),
            w@ == word_name(*self),
        ensures
            final(out)@ == old(out)@ + range_field_body(*self, high, low),
    {
        let ghost mid = out@;
        let field_len: u8 = high - low + 1;
        let fw = pos.fieldpos_word();
        let full = field_len == self.regval_word_size() * 8;
        if self.readable {
            if full {
                push_range_read_full(out, fw);
            } else {
                push_range_read(out, fw, low as u64, field_len as u64);
            }
        }
        let ghost after_read = out@;
        if self.writable {
            if full {
                push_range_set_full(out, fw, v);
            } else {
                push_range_set(out, fw, v, w, low as u64, field_len as u64);
            }
            if let Some(val) = self.reset_val {
                if full {
                    push_range_reset_full(out, v, val);
                } else {
                    push_range_reset(out, v, val, low as u64, field_len as u64);
                }
            }
        }
        proof {
            assert(out@ =~= mid + range_field_body(*self, high, low));
        }
    }

    fn push_field_impl(&self, out: &mut String, f: &FieldSpec, v: &str, w: &str)
        requires
            self.size_ok(),
            f.field_pos.wf(),
            pos_len(f.field_pos) <= 64,
            v@ == regval_name(*self),
            w@ == word_name(*self),
        ensures
            final(out)@ == old(out)@ + field_impl(*self, *f),
    {
        let ghost start = out@;
        let fname = f.struct_name();
        push_field_open(out, fname.as_str(), v);
        let ghost mid = out@;
        match f.field_pos {
            FieldPos::Bit(b) => {
                self.push_bit_body(out, b, v, w);
            },
            FieldPos::Field(high, low) => {
                self.push_range_body(out, &f.field_pos, high, low, v, w);
            },
        }
        push_close(out);
        proof {
            assert(out@ =~= start + field_impl(*self, *f));
        }
    }

    /// Renders the register's value type: raw access, constructors, one method per field
    /// that opens it, and one type per field with its bit-packing operations.
    pub fn generate_regval_struct(&self) -> (r: String)
        requires
            self.size_ok(),
            fields_ok(*self),
        ensures
            r@ == regval_struct_text(*self),
    {
        let mut out = String::new();
        let v = self.regval_struct_name();
        let w = self.regval_word_name();
        push_regval_head(&mut out, v.as_str(), w);
        if self.writable {
            push_regval_writable(&mut out, w);
        }
        if let Some(val) = self.reset_val {
            push_regval_reset(&mut out, val);
        }
        let ghost head = out@;
        let ghost fs = reg_fields(*self);
        let ghost fm = |f: FieldSpec| field_method_line(f);
        let ghost fi = |f: FieldSpec| field_impl(*self, f);
        let empty: Vec<FieldSpec> = Vec::new();
        let fields = match &self.fields {
            Some(fields) => fields,
            None => &empty,
        };
        assert(fields@ == fs);
        let mut i: usize = 0;
        while i < fields.len()
            invariant
                fields@ == fs,
                i <= fields@.len(),
                fm == (|f: FieldSpec| field_method_line(f)),
                out@ == head + lines(fs.subrange(0, i as int), fm),
            decreases fields.len() - i,
        {
            let m = fields[i].method_name();
            let f = fields[i].struct_name();
            push_field_method(&mut out, m.as_str(), f.as_str());
            proof {
                lemma_lines_step(fs, i as int, fm);
                assert(out@ =~= head + lines(fs.subrange(0, i + 1), fm));
            }
            i = i + 1;
        }
        push_close(&mut out);
        proof {
            assert(fs.subrange(0, fs.len() as int) =~= fs);
        }
        let ghost mid = out@;
        let mut i: usize = 0;
        while i < fields.len()
            invariant
                fields@ == fs,
                fs == reg_fields(*self),
                self.size_ok(),
                fields_ok(*self),
                v@ == regval_name(*self),
                w@ == word_name(*self),
                i <= fields@.len(),
                fi == (|f: FieldSpec| field_impl(*self, f)),
                out@ == mid + lines(fs.subrange(0, i as int), fi),
            decreases fields.len() - i,
        {
            self.push_field_impl(&mut out, &fields[i], v.as_str(), w);
            proof {
                lemma_lines_step(fs, i as int, fi);
                assert(out@ =~= mid + lines(fs.subrange(0, i + 1), fi));
            }
            i = i + 1;
        }
        proof {
            assert(fs.subrange(0, fs.len() as int) =~= fs);
            assert(out@ =~= regval_struct_text(*self));
        }
        out
    }
}

/// A register can be rendered for a peripheral: a supported address width and register
/// size, fields of at most 64 bits, a data port of one byte, and an access procedure the
/// peripheral knows.
pub open spec fn reg_gen_ok(r: RegisterSpec, p: PeripheralSpec) -> bool {
    address_len_ok(p.address_len) && r.size_ok() && fields_ok(r) && !(r.spec_is_data_port() && (
    r.readable || r.writable) && r.size != 1) && (r.access_proc is None || p.knows_proc(
        r.access_proc->Some_0@,
    ))
}

/// The register names an access procedure that the peripheral does not know. Whatever else
/// is wrong with the register, this is the error reported: it names the register, the
/// procedure and every known procedure (`describes`).
pub open spec fn unresolved(r: RegisterSpec, p: PeripheralSpec) -> bool {
    r.access_proc is Some && !p.knows_proc(r.access_proc->Some_0@)
}

/// The peripheral field holding the register's access procedure.
pub open spec fn proc_member(r: RegisterSpec) -> Seq<char> {
    match r.access_proc {
        Some(n) => snake_case_of(n@),
        None => snake_case_of(standard_proc_name()),
    }
}

/// An error names what is wrong with a register or its peripheral.
pub open spec fn describes(e: SpecError, r: RegisterSpec, p: PeripheralSpec) -> bool {
    match e {
        SpecError::InvalidAddressLen { len } => len == p.address_len && !address_len_ok(len),
        SpecError::InvalidRegisterSize { register, size } => register@ == r.name@ && size == r.size
            && !r.size_ok(),
        SpecError::UnsupportedField { register, field } => register@ == r.name@ && exists|i: int|
            0 <= i < reg_fields(r).len() && (#[trigger] reg_fields(r)[i]).name@ == field@ && !(
            reg_fields(r)[i].field_pos.wf() && pos_len(reg_fields(r)[i].field_pos) <= 64),
        SpecError::DataPortSize { register } => register@ == r.name@ && r.spec_is_data_port() && (
        r.readable || r.writable) && r.size != 1,
        SpecError::UnresolvedAccessProc { register, access_proc, known_procs } => register@
            == r.name@ && r.access_proc is Some && access_proc@ == r.access_proc->Some_0@
            && !p.knows_proc(access_proc@) && string_views(known_procs@) == p.proc_names(),
    }
}

/// The source file of a register: its accessor type with the transfers it supports,
/// then its value type.
pub open spec fn reg_file_text(r: RegisterSpec, p: PeripheralSpec) -> Seq<char> {
    let v = regval_name(r);
    let member = proc_member(r);
    let sub = subscript_text(r.size as int, p.byte_order);
    let wn = word_name(r);
    let ab = if p.byte_order == Endian::Big {
        "be"@
    } else {
        "le"@
    };
    let port = r.spec_is_data_port();
    reg_head_text(
        pascal_case_of(p.name@),
        pascal_case_of(r.name@),
        p.generics_text(),
        p.typename_text(),
        p.boundfree_text(),
    ) + (if r.readable {
        reg_read_text(v, word_bytes(r.size as int), member, r.address as nat, sub, wn, ab)
    } else {
        Seq::empty()
    }) + (if r.writable {
        reg_write_text(v, member, r.address as nat, sub, wn, ab)
    } else {
        Seq::empty()
    }) + (if r.readable && r.writable {
        reg_modify_text(v)
    } else {
        Seq::empty()
    }) + (if r.writable && r.reset_val is Some {
        reg_reset_text(v, r.reset_val->Some_0 as nat)
    } else {
        Seq::empty()
    }) + (if port && r.readable {
        port_read_text(member, r.address as nat)
    } else {
        Seq::empty()
    }) + (if port && r.writable {
        port_write_text(member, r.address as nat)
    } else {
        Seq::empty()
    }) + close_text() + regval_struct_text(r)
}

impl RegisterSpec {
    /// The first field that is reversed or wider than 64 bits, if any.
    fn first_bad_field(&self) -> (r: Option<usize>)
        ensures
            r is None <==> fields_ok(*self),
            r is Some ==> r->Some_0 < reg_fields(*self).len() && !(reg_fields(
                *self,
            )[r->Some_0 as int].field_pos.wf() && pos_len(
                reg_fields(*self)[r->Some_0 as int].field_pos,
            ) <= 64),
    {
        match &self.fields {
            None => None,
            Some(fields) => {
                let mut i: usize = 0;
                while i < fields.len()
                    invariant
                        fields@ == reg_fields(*self),
                        i <= fields@.len(),
                        forall|j: int|
                            0 <= j < i ==> (#[trigger] fields@[j]).field_pos.wf() && pos_len(
                                fields@[j].field_pos,
                            ) <= 64,
                    decreases fields.len() - i,
                {
                    let ok = match fields[i].field_pos {
                        FieldPos::Bit(_) => true,
                        FieldPos::Field(high, low) => low <= high && high - low < 64,
                    };
                    if !ok {
                        return Some(i);
                    }
                    i = i + 1;
                }
                None
            },
        }
    }

    /// Checks that the register can be rendered for the peripheral, naming what is wrong
    /// when it cannot.
    pub fn check_for(&self, pspec: &PeripheralSpec) -> (r: Result<String, SpecError>)
        ensures
            r is Ok <==> reg_gen_ok(*self, *pspec),
            r is Ok ==> r->Ok_0@ == proc_member(*self),
            r is Err ==> describes(r->Err_0, *self, *pspec),
            unresolved(*self, *pspec) ==> r is Err && r->Err_0 is UnresolvedAccessProc,
    {
        let member = match pspec.get_access_proc_member_name(self) {
            Ok(m) => m,
            Err(e) => return Err(e),
        };
        if !(pspec.address_len == 1 || pspec.address_len == 2 || pspec.address_len == 4
            || pspec.address_len == 8) {
            return Err(SpecError::InvalidAddressLen { len: pspec.address_len });
        }
        if !(1 <= self.size && self.size <= 8) {
            return Err(SpecError::InvalidRegisterSize { register: self.name.clone(), size: self.size });
        }
        if let Some(i) = self.first_bad_field() {
            let fields = self.fields.as_ref().unwrap();
            return Err(
                SpecError::UnsupportedField {
                    register: self.name.clone(),
                    field: fields[i].name.clone(),
                },
            );
        }
        if self.is_data_port() && (self.readable || self.writable) && self.size != 1 {
            return Err(SpecError::DataPortSize { register: self.name.clone() });
        }
        Ok(member)
    }

    /// Renders the register's source file for a peripheral: the accessor type with read,
    /// write, modify, reset and data-port transfers as the register's capabilities allow,
    /// each through the register's access procedure, then the value type.
    pub fn generate_file(&self, pspec: &PeripheralSpec) -> (r: Result<String, SpecError>)
        ensures
            r is Ok <==> reg_gen_ok(*self, *pspec),
            r is Ok ==> r->Ok_0@ == reg_file_text(*self, *pspec),
            r is Err ==> describes(r->Err_0, *self, *pspec),
            unresolved(*self, *pspec) ==> r is Err && r->Err_0 is UnresolvedAccessProc,
    {
        let member = match self.check_for(pspec) {
            Ok(m) => m,
            Err(e) => return Err(e),
        };
        let mut out = String::new();
        let p = pspec.peripheral_struct_name();
        let rs = self.reg_struct_name();
        let g = pspec.get_generics_string();
        let pt = pspec.get_parameterized_typename();
        let bf = pspec.get_boundfree_generics();
        push_reg_head(&mut out, p.as_str(), rs.as_str(), g.as_str(), pt.as_str(), bf.as_str());
        let endian = pspec.endian();
        let v = self.regval_struct_name();
        let sub = self.commsbuf_subscript(endian);
        let wn = self.regval_word_name();
        let ab = endian.abbrev();
        let ghost head = out@;
        if self.readable {
            push_reg_read(
                &mut out,
                v.as_str(),
                self.regval_word_size() as u64,
                member.as_str(),
                self.address,
                sub.as_str(),
                wn,
                ab,
            );
        }
        if self.writable {
            push_reg_write(&mut out, v.as_str(), member.as_str(), self.address, sub.as_str(), wn, ab);
        }
        if self.readable && self.writable {
            push_reg_modify(&mut out, v.as_str());
        }
        if self.writable {
            if let Some(val) = self.reset_val {
                push_reg_reset(&mut out, v.as_str(), val);
            }
        }
        let port = self.is_data_port();
        if port && self.readable {
            push_port_read(&mut out, member.as_str(), self.address);
        }
        if port && self.writable {
            push_port_write(&mut out, member.as_str(), self.address);
        }
        push_close(&mut out);
        let body = self.generate_regval_struct();
        out.append(body.as_str());
        proof {
            assert(ab@ == (if pspec.byte_order == Endian::Big {
                "be"@
            } else {
                "le"@
            }));
            assert(out@ =~= reg_file_text(*self, *pspec));
        }
        Ok(out)
    }
}

/// One module declaration per register.
pub open spec fn reg_mod_decls_lines(xs: Seq<RegisterSpec>) -> Seq<char> {
    lines(xs, |x: RegisterSpec| mod_decl_text(snake_case_of(x.name@)))
}

fn push_reg_mod_decls(out: &mut String, xs: &Vec<RegisterSpec>)
    ensures
        final(out)@ == old(out)@ + reg_mod_decls_lines(xs@),
{
    let ghost start = out@;
    let ghost f = |x: RegisterSpec| mod_decl_text(snake_case_of(x.name@));
    let mut i: usize = 0;
    while i < xs.len()
        invariant
            i <= xs@.len(),
            f == (|x: RegisterSpec| mod_decl_text(snake_case_of(x.name@))),
            out@ == start + lines(xs@.subrange(0, i as int), f),
        decreases xs.len() - i,
    {
        let m = xs[i].reg_mod_name();
            push_mod_decl(out, m.as_str());
        proof {
            lemma_lines_step(xs@, i as int, f);
            assert(out@ =~= start + lines(xs@.subrange(0, i + 1), f));
        }
        i = i + 1;
    }
    proof {
        assert(xs@.subrange(0, xs@.len() as int) =~= xs@);
    }
}

/// One module declaration per extra module.
pub open spec fn extra_mod_decls_lines(xs: Seq<String>) -> Seq<char> {
    lines(xs, |x: String| mod_decl_text(x@))
}

fn push_extra_mod_decls(out: &mut String, xs: &Vec<String>)
    ensures
        final(out)@ == old(out)@ + extra_mod_decls_lines(xs@),
{
    let ghost start = out@;
    let ghost f = |x: String| mod_decl_text(x@);
    let mut i: usize = 0;
    while i < xs.len()
        invariant
            i <= xs@.len(),
            f == (|x: String| mod_decl_text(x@)),
            out@ == start + lines(xs@.subrange(0, i as int), f),
        decreases xs.len() - i,
    {
        push_mod_decl(out, xs[i].as_str());
        proof {
            lemma_lines_step(xs@, i as int, f);
            assert(out@ =~= start + lines(xs@.subrange(0, i + 1), f));
        }
        i = i + 1;
    }
    proof {
        assert(xs@.subrange(0, xs@.len() as int) =~= xs@);
    }
}

/// The shared instance of each access procedure.
pub open spec fn proc_statics_lines(xs: Seq<AccessProcSpec>) -> Seq<char> {
    lines(xs, |x: AccessProcSpec| proc_static_text(macro_case_of(x.proc_name@), x.struct_path@))
}

fn push_proc_statics(out: &mut String, xs: &Vec<AccessProcSpec>)
    ensures
        final(out)@ == old(out)@ + proc_statics_lines(xs@),
{
    let ghost start = out@;
    let ghost f = |x: AccessProcSpec| proc_static_text(macro_case_of(x.proc_name@), x.struct_path@);
    let mut i: usize = 0;
    while i < xs.len()
        invariant
            i <= xs@.len(),
            f == (|x: AccessProcSpec| proc_static_text(macro_case_of(x.proc_name@), x.struct_path@)),
            out@ == start + lines(xs@.subrange(0, i as int), f),
        decreases xs.len() - i,
    {
        let sn = xs[i].static_name();
            push_proc_static(out, sn.as_str(), xs[i].struct_path());
        proof {
            lemma_lines_step(xs@, i as int, f);
            assert(out@ =~= start + lines(xs@.subrange(0, i + 1), f));
        }
        i = i + 1;
    }
    proof {
        assert(xs@.subrange(0, xs@.len() as int) =~= xs@);
    }
}

/// The peripheral field of each access procedure.
pub open spec fn proc_fields_lines(xs: Seq<AccessProcSpec>) -> Seq<char> {
    lines(xs, |x: AccessProcSpec| proc_field_text(snake_case_of(x.proc_name@), x.struct_path@))
}

fn push_proc_fields(out: &mut String, xs: &Vec<AccessProcSpec>)
    ensures
        final(out)@ == old(out)@ + proc_fields_lines(xs@),
{
    let ghost start = out@;
    let ghost f = |x: AccessProcSpec| proc_field_text(snake_case_of(x.proc_name@), x.struct_path@);
    let mut i: usize = 0;
    while i < xs.len()
        invariant
            i <= xs@.len(),
            f == (|x: AccessProcSpec| proc_field_text(snake_case_of(x.proc_name@), x.struct_path@)),
            out@ == start + lines(xs@.subrange(0, i as int), f),
        decreases xs.len() - i,
    {
        let m = xs[i].member_name();
            push_proc_field(out, m.as_str(), xs[i].struct_path());
        proof {
            lemma_lines_step(xs@, i as int, f);
            assert(out@ =~= start + lines(xs@.subrange(0, i + 1), f));
        }
        i = i + 1;
    }
    proof {
        assert(xs@.subrange(0, xs@.len() as int) =~= xs@);
    }
}

/// The constructor's setup of each access procedure.
pub open spec fn proc_inits_lines(xs: Seq<AccessProcSpec>) -> Seq<char> {
    lines(xs, |x: AccessProcSpec| proc_init_text(snake_case_of(x.proc_name@), macro_case_of(x.proc_name@)))
}

fn push_proc_inits(out: &mut String, xs: &Vec<AccessProcSpec>)
    ensures
        final(out)@ == old(out)@ + proc_inits_lines(xs@),
{
    let ghost start = out@;
    let ghost f = |x: AccessProcSpec| proc_init_text(snake_case_of(x.proc_name@), macro_case_of(x.proc_name@));
    let mut i: usize = 0;
    while i < xs.len()
        invariant
            i <= xs@.len(),
            f == (|x: AccessProcSpec| proc_init_text(snake_case_of(x.proc_name@), macro_case_of(x.proc_name@))),
            out@ == start + lines(xs@.subrange(0, i as int), f),
        decreases xs.len() - i,
    {
        let m = xs[i].member_name();
            let sn = xs[i].static_name();
            push_proc_init(out, m.as_str(), sn.as_str());
        proof {
            lemma_lines_step(xs@, i as int, f);
            assert(out@ =~= start + lines(xs@.subrange(0, i + 1), f));
        }
        i = i + 1;
    }
    proof {
        assert(xs@.subrange(0, xs@.len() as int) =~= xs@);
    }
}

/// The peripheral field of each capability.
pub open spec fn member_fields_lines(xs: Seq<TraitMember>) -> Seq<char> {
    lines(xs, |x: TraitMember| member_field_text(snake_case_of(x.name@), pascal_case_of(x.name@)))
}

fn push_member_fields(out: &mut String, xs: &Vec<TraitMember>)
    ensures
        final(out)@ == old(out)@ + member_fields_lines(xs@),
{
    let ghost start = out@;
    let ghost f = |x: TraitMember| member_field_text(snake_case_of(x.name@), pascal_case_of(x.name@));
    let mut i: usize = 0;
    while i < xs.len()
        invariant
            i <= xs@.len(),
            f == (|x: TraitMember| member_field_text(snake_case_of(x.name@), pascal_case_of(x.name@))),
            out@ == start + lines(xs@.subrange(0, i as int), f),
        decreases xs.len() - i,
    {
        let m = xs[i].member_name();
            let g = xs[i].generic();
            push_member_field(out, m.as_str(), g.as_str());
        proof {
            lemma_lines_step(xs@, i as int, f);
            assert(out@ =~= start + lines(xs@.subrange(0, i + 1), f));
        }
        i = i + 1;
    }
    proof {
        assert(xs@.subrange(0, xs@.len() as int) =~= xs@);
    }
}

/// The constructor's taking of each capability.
pub open spec fn member_inits_lines(xs: Seq<TraitMember>) -> Seq<char> {
    lines(xs, |x: TraitMember| member_init_text(snake_case_of(x.name@)))
}

fn push_member_inits(out: &mut String, xs: &Vec<TraitMember>)
    ensures
        final(out)@ == old(out)@ + member_inits_lines(xs@),
{
    let ghost start = out@;
    let ghost f = |x: TraitMember| member_init_text(snake_case_of(x.name@));
    let mut i: usize = 0;
    while i < xs.len()
        invariant
            i <= xs@.len(),
            f == (|x: TraitMember| member_init_text(snake_case_of(x.name@))),
            out@ == start + lines(xs@.subrange(0, i as int), f),
        decreases xs.len() - i,
    {
        let m = xs[i].member_name();
            push_member_init(out, m.as_str());
        proof {
            lemma_lines_step(xs@, i as int, f);
            assert(out@ =~= start + lines(xs@.subrange(0, i + 1), f));
        }
        i = i + 1;
    }
    proof {
        assert(xs@.subrange(0, xs@.len() as int) =~= xs@);
    }
}

/// The peripheral method that opens each register.
pub open spec fn reg_accessors_lines(xs: Seq<RegisterSpec>, bf: Seq<char>) -> Seq<char> {
    lines(xs, |x: RegisterSpec| reg_accessor_text(snake_case_of(x.name@), snake_case_of(x.name@), pascal_case_of(x.name@), bf))
}

fn push_reg_accessors(out: &mut String, xs: &Vec<RegisterSpec>, bf_str: &str)
    ensures
        final(out)@ == old(out)@ + reg_accessors_lines(xs@, bf_str@),
{
    let ghost start = out@;
    let ghost f = |x: RegisterSpec| reg_accessor_text(snake_case_of(x.name@), snake_case_of(x.name@), pascal_case_of(x.name@), bf_str@);
    let mut i: usize = 0;
    while i < xs.len()
        invariant
            i <= xs@.len(),
            f == (|x: RegisterSpec| reg_accessor_text(snake_case_of(x.name@), snake_case_of(x.name@), pascal_case_of(x.name@), bf_str@)),
            out@ == start + lines(xs@.subrange(0, i as int), f),
        decreases xs.len() - i,
    {
        let rm = xs[i].reg_method_name();
            let md = xs[i].reg_mod_name();
            let rs = xs[i].reg_struct_name();
            push_reg_accessor(out, rm.as_str(), md.as_str(), rs.as_str(), bf_str);
        proof {
            lemma_lines_step(xs@, i as int, f);
            assert(out@ =~= start + lines(xs@.subrange(0, i + 1), f));
        }
        i = i + 1;
    }
    proof {
        assert(xs@.subrange(0, xs@.len() as int) =~= xs@);
    }
}

/// The peripheral method that opens each register of a single-procedure peripheral.
pub open spec fn modrs_accessors_lines(xs: Seq<RegisterSpec>) -> Seq<char> {
    lines(xs, |x: RegisterSpec| modrs_accessor_text(snake_case_of(x.name@), snake_case_of(x.name@), pascal_case_of(x.name@)))
}

fn push_modrs_accessors(out: &mut String, xs: &Vec<RegisterSpec>)
    ensures
        final(out)@ == old(out)@ + modrs_accessors_lines(xs@),
{
    let ghost start = out@;
    let ghost f = |x: RegisterSpec| modrs_accessor_text(snake_case_of(x.name@), snake_case_of(x.name@), pascal_case_of(x.name@));
    let mut i: usize = 0;
    while i < xs.len()
        invariant
            i <= xs@.len(),
            f == (|x: RegisterSpec| modrs_accessor_text(snake_case_of(x.name@), snake_case_of(x.name@), pascal_case_of(x.name@))),
            out@ == start + lines(xs@.subrange(0, i as int), f),
        decreases xs.len() - i,
    {
        let rm = xs[i].reg_method_name();
            let md = xs[i].reg_mod_name();
            let rs = xs[i].reg_struct_name();
            push_modrs_accessor(out, rm.as_str(), md.as_str(), rs.as_str());
        proof {
            lemma_lines_step(xs@, i as int, f);
            assert(out@ =~= start + lines(xs@.subrange(0, i + 1), f));
        }
        i = i + 1;
    }
    proof {
        assert(xs@.subrange(0, xs@.len() as int) =~= xs@);
    }
}

/// The method that opens each sub-register of a composite register.
pub open spec fn struct_accessors_lines(xs: Seq<RegisterSpec>) -> Seq<char> {
    lines(xs, |x: RegisterSpec| struct_accessor_text(snake_case_of(x.name@), pascal_case_of(x.name@)))
}

fn push_struct_accessors(out: &mut String, xs: &Vec<RegisterSpec>)
    ensures
        final(out)@ == old(out)@ + struct_accessors_lines(xs@),
{
    let ghost start = out@;
    let ghost f = |x: RegisterSpec| struct_accessor_text(snake_case_of(x.name@), pascal_case_of(x.name@));
    let mut i: usize = 0;
    while i < xs.len()
        invariant
            i <= xs@.len(),
            f == (|x: RegisterSpec| struct_accessor_text(snake_case_of(x.name@), pascal_case_of(x.name@))),
            out@ == start + lines(xs@.subrange(0, i as int), f),
        decreases xs.len() - i,
    {
        let rm = xs[i].reg_method_name();
            let rs = xs[i].reg_struct_name();
            push_struct_accessor(out, rm.as_str(), rs.as_str());
        proof {
            lemma_lines_step(xs@, i as int, f);
            assert(out@ =~= start + lines(xs@.subrange(0, i + 1), f));
        }
        i = i + 1;
    }
    proof {
        assert(xs@.subrange(0, xs@.len() as int) =~= xs@);
    }
}

/// The extra modules a peripheral declares.
pub open spec fn extra_mods_of(p: PeripheralSpec) -> Seq<String> {
    match p.extra_mods {
        Some(v) => v@,
        None => Seq::empty(),
    }
}

/// The root source file of a generated peripheral crate: module declarations, the direct
/// access procedure, one shared instance per procedure, the peripheral type holding its
/// capabilities and procedures, its constructor, and one method per register.
pub open spec fn librs_text(p: PeripheralSpec) -> Seq<char> {
    let std_name = standard_proc_name();
    let std_path = standard_proc_path();
    lib_head_text() + reg_mod_decls_lines(p.registers@) + extra_mod_decls_lines(extra_mods_of(p))
        + lib_standard_text(
        std_path,
        p.generics_text(),
        p.typename_text(),
        p.address_len as nat,
        word_type_name(8 * p.address_len as nat),
    ) + proc_statics_lines(p.declared_procs()) + proc_static_text(macro_case_of(std_name), std_path)
        + periph_open_text(pascal_case_of(p.name@), p.generics_text()) + member_fields_lines(
        p.declared_members(),
    ) + member_field_text(snake_case_of("comms"@), pascal_case_of("comms"@)) + proc_fields_lines(
        p.declared_procs(),
    ) + proc_field_text(snake_case_of(std_name), std_path) + periph_impl_text(
        p.generics_text(),
        pascal_case_of(p.name@),
        p.boundfree_text(),
        p.ctor_args_text(),
    ) + member_inits_lines(p.declared_members()) + member_init_text(snake_case_of("comms"@))
        + proc_inits_lines(p.declared_procs()) + proc_init_text(
        snake_case_of(std_name),
        macro_case_of(std_name),
    ) + ctor_close_text() + reg_accessors_lines(p.registers@, p.boundfree_text()) + close_text()
}

/// The module root of a peripheral that has only the direct access procedure.
pub open spec fn modrs_text(p: PeripheralSpec) -> Seq<char> {
    reg_mod_decls_lines(p.registers@) + modrs_head_text(
        pascal_case_of(p.name@),
        p.address_len as nat,
        word_type_name(8 * p.address_len as nat),
        p.params_text(),
    ) + modrs_accessors_lines(p.registers@) + close_text()
}

/// Every register can be rendered for the peripheral.
pub open spec fn module_ok(p: PeripheralSpec) -> bool {
    forall|i: int| 0 <= i < p.registers@.len() ==> reg_gen_ok(#[trigger] p.registers@[i], p)
}

impl PeripheralSpec {
    /// Renders the root source file of the peripheral's crate.
    #[verifier::rlimit(60)]
    pub fn generate_librs(&self) -> (r: String)
        requires
            address_len_ok(self.address_len),
        ensures
            r@ == librs_text(*self),
    {
        let mut out = String::new();
        push_lib_head(&mut out);
        push_reg_mod_decls(&mut out, &self.registers);
        let no_mods: Vec<String> = Vec::new();
        let mods = match &self.extra_mods {
            Some(m) => m,
            None => &no_mods,
        };
        push_extra_mod_decls(&mut out, mods);
        let standard = self.get_standard_access_proc_spec();
        let g = self.get_generics_string();
        let pt = self.get_parameterized_typename();
        push_lib_standard(
            &mut out,
            standard.struct_path(),
            g.as_str(),
            pt.as_str(),
            self.address_word_size() as u64,
            self.address_word_name(),
        );
        let procs = self.get_access_procs_map();
        push_proc_statics(&mut out, &procs);
        let p = self.peripheral_struct_name();
        push_periph_open(&mut out, p.as_str(), g.as_str());
        let members = self.get_trait_members_list();
        push_member_fields(&mut out, &members);
        push_proc_fields(&mut out, &procs);
        let bf = self.get_boundfree_generics();
        let args = self.get_constructor_args_list();
        push_periph_impl(&mut out, g.as_str(), p.as_str(), bf.as_str(), args.as_str());
        push_member_inits(&mut out, &members);
        push_proc_inits(&mut out, &procs);
        push_ctor_close(&mut out);
        push_reg_accessors(&mut out, &self.registers, bf.as_str());
        push_close(&mut out);
        proof {
            assert(out@ =~= librs_text(*self));
        }
        out
    }

    /// Renders the module root of a peripheral that has only the direct access procedure:
    /// its register modules, the peripheral type with direct transfers, and one method per
    /// register.
    pub fn generate_modrs(&self) -> (r: String)
        requires
            address_len_ok(self.address_len),
        ensures
            r@ == modrs_text(*self),
    {
        let mut out = String::new();
        push_reg_mod_decls(&mut out, &self.registers);
        let p = self.peripheral_struct_name();
        let params = self.regcomms_params();
        push_modrs_head(
            &mut out,
            p.as_str(),
            self.address_word_size() as u64,
            self.address_word_name(),
            params.as_str(),
        );
        push_modrs_accessors(&mut out, &self.registers);
        push_close(&mut out);
        proof {
            assert(out@ =~= modrs_text(*self));
        }
        out
    }

    /// Renders the manifest of the peripheral's crate; the `regcomms` dependency is the
    /// given text, or `{{ }}`.
    pub fn generate_cargo_toml(&self, regcomms_override: Option<String>) -> (r: String)
        ensures
            r@ == cargo_toml_text(
                snake_case_of(self.name@),
                match regcomms_override {
                    Some(o) => o@,
                    None => "{{ }}"@,
                },
            ),
    {
        let mut out = String::new();
        let name = self.peripheral_mod_name();
        let rc_configs = match regcomms_override {
            Some(o) => o,
            None => String::from_str("{{ }}"),
        };
        push_cargo_toml(&mut out, name.as_str(), rc_configs.as_str());
        out
    }

    /// Renders every source file of the peripheral's crate: `lib.rs` first, then one file
    /// per register, in order. The first register that cannot be rendered gives the error.
    pub fn generate_module(&self) -> (r: Result<Vec<(String, String)>, SpecError>)
        ensures
            r is Ok <==> address_len_ok(self.address_len) && module_ok(*self),
            r is Ok ==> r->Ok_0@.len() == self.registers@.len() + 1 && r->Ok_0@[0].0@ == "lib.rs"@
                && r->Ok_0@[0].1@ == librs_text(*self) && forall|i: int|
                0 <= i < self.registers@.len() ==> (#[trigger] r->Ok_0@[i + 1]).0@ == snake_case_of(
                self.registers@[i].name@,
            ) + ".rs"@ && r->Ok_0@[i + 1].1@ == reg_file_text(self.registers@[i], *self),
            r is Err ==> (exists|i: int|
                0 <= i < self.registers@.len() && describes(
                    r->Err_0,
                    #[trigger] self.registers@[i],
                    *self,
                )) || (r->Err_0 matches SpecError::InvalidAddressLen { len } && len
                == self.address_len && !address_len_ok(len)),
    {
        let mut out: Vec<(String, String)> = Vec::new();
        let mut i: usize = 0;
        while i < self.registers.len()
            invariant
                i <= self.registers@.len(),
                out@.len() == i,
                forall|j: int| 0 <= j < i ==> reg_gen_ok(#[trigger] self.registers@[j], *self),
                forall|j: int|
                    0 <= j < i ==> (#[trigger] out@[j]).0@ == snake_case_of(
                        self.registers@[j].name@,
                    ) + ".rs"@ && out@[j].1@ == reg_file_text(self.registers@[j], *self),
            decreases self.registers.len() - i,
        {
            let register = &self.registers[i];
            match register.generate_file(self) {
                Ok(source) => {
                    let mut file_name = register.reg_mod_name();
                    file_name.append(".rs");
                    out.push((file_name, source));
                },
                Err(e) => {
                    return Err(e);
                },
            }
            i = i + 1;
        }
        if !(self.address_len == 1 || self.address_len == 2 || self.address_len == 4
            || self.address_len == 8) {
            return Err(SpecError::InvalidAddressLen { len: self.address_len });
        }
        let lib = self.generate_librs();
        let mut files: Vec<(String, String)> = Vec::new();
        files.push((String::from_str("lib.rs"), lib));
        files.append(&mut out);
        Ok(files)
    }
}

impl crate::register_spec::StructSpec {
    /// Renders the source of a composite register: its block type and one method per
    /// sub-register.
    pub fn generate_struct_file(&self, pspec: &PeripheralSpec) -> (r: String)
        requires
            self.bufsize <= u64::MAX,
        ensures
            r@ == struct_head_text(
                pascal_case_of(pspec.name@),
                self.struct_name@,
                self.bufsize as nat,
            ) + struct_accessors_lines(self.sub_registers@) + close_text(),
    {
        let mut out = String::new();
        let p = pspec.peripheral_struct_name();
        push_struct_head(&mut out, p.as_str(), self.struct_name.as_str(), self.bufsize as u64);
        push_struct_accessors(&mut out, &self.sub_registers);
        push_close(&mut out);
        out
    }
}

} // verus!
