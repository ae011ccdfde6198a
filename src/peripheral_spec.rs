//! The peripheral model: registers, address width, byte order, access procedures and the
//! extra capabilities the generated peripheral type carries.
use vstd::prelude::*;
use vstd::string::StringExecFns;
use crate::endian::Endian;
use crate::field_spec::word_type_name;
use crate::names::{snake_case, pascal_case, macro_case, snake_case_of, pascal_case_of, macro_case_of};
use crate::numeral::{append_numeral, decimal};
use crate::register_spec::RegisterSpec;

verus! {

/// A named access procedure and the path of the type that carries it out.
#[derive(Clone, Debug)]
pub struct AccessProcSpec {
    pub proc_name: String,
    pub struct_path: String,
}

/// A generic capability the generated peripheral holds and takes at construction.
#[derive(Clone, Debug)]
pub struct TraitMember {
    pub name: String,
    pub generic_type: String,
    pub trait_bound: String,
}

/// Why a peripheral description cannot be turned into accessors.
#[derive(Debug)]
pub enum SpecError {
    /// A register names an access procedure that the peripheral does not declare.
    UnresolvedAccessProc { register: String, access_proc: String, known_procs: Vec<String> },
    /// The peripheral's address width is not 1, 2, 4 or 8 bytes.
    InvalidAddressLen { len: u8 },
    /// A register's size is not 1 to 8 bytes.
    InvalidRegisterSize { register: String, size: u8 },
    /// A field's range is reversed or wider than 64 bits.
    UnsupportedField { register: String, field: String },
    /// A data-port register is more than one byte wide.
    DataPortSize { register: String },
}

/// A peripheral: its registers, how they are addressed and reached.
#[derive(Debug)]
pub struct PeripheralSpec {
    pub name: String,
    pub address_len: u8,
    pub byte_order: Endian,
    pub registers: Vec<RegisterSpec>,
    /// Access procedures besides the direct one, by name and implementing type.
    pub non_standard_access_procs: Option<Vec<AccessProcSpec>>,
    /// Extra modules the generated crate declares (for the procedures' implementations).
    pub extra_mods: Option<Vec<String>>,
    /// Extra generic capabilities the generated peripheral holds (a delay provider, say).
    pub trait_members: Option<Vec<TraitMember>>,
    pub struct_defns: Option<Vec<crate::register_spec::StructSpec>>,
}

/// Items joined with `sep` between each two.
pub open spec fn joined(items: Seq<Seq<char>>, sep: Seq<char>) -> Seq<char>
    decreases items.len(),
{
    if items.len() == 0 {
        Seq::empty()
    } else if items.len() == 1 {
        items[0]
    } else {
        joined(items.drop_last(), sep) + sep + items.last()
    }
}

/// The views of a list of strings.
pub open spec fn string_views(v: Seq<String>) -> Seq<Seq<char>> {
    v.map_values(|s: String| s@)
}

/// Relies on `itertools::join`: the items' texts, with `sep` between each two.
#[verifier::external_body]
fn join_strings(items: &Vec<String>, sep: &str) -> (r: String)
    ensures
        r@ == joined(string_views(items@), sep@),
{
    itertools::join(items.iter(), sep)
}

impl AccessProcSpec {
    /// The peripheral field that holds the procedure (lower_snake).
    pub fn member_name(&self) -> (r: String)
        ensures
            r@ == snake_case_of(self.proc_name@),
    {
        snake_case(self.proc_name.as_str())
    }

    pub fn struct_path(&self) -> (r: &str)
        ensures
            r@ == self.struct_path@,
    {
        self.struct_path.as_str()
    }

    /// The procedure's name as a constant (UPPER_SNAKE).
    pub fn static_name(&self) -> (r: String)
        ensures
            r@ == macro_case_of(self.proc_name@),
    {
        macro_case(self.proc_name.as_str())
    }

    fn duplicate(&self) -> (r: AccessProcSpec)
        ensures
            r == *self,
    {
        AccessProcSpec { proc_name: self.proc_name.clone(), struct_path: self.struct_path.clone() }
    }
}

impl TraitMember {
    /// The peripheral field and constructor argument (lower_snake).
    pub fn member_name(&self) -> (r: String)
        ensures
            r@ == snake_case_of(self.name@),
    {
        snake_case(self.name.as_str())
    }

    /// The generic parameter (UpperCamel).
    pub fn generic(&self) -> (r: String)
        ensures
            r@ == pascal_case_of(self.name@),
    {
        pascal_case(self.name.as_str())
    }

    pub fn bound(&self) -> (r: &str)
        ensures
            r@ == self.trait_bound@,
    {
        self.trait_bound.as_str()
    }

    fn duplicate(&self) -> (r: TraitMember)
        ensures
            r == *self,
    {
        TraitMember {
            name: self.name.clone(),
            generic_type: self.generic_type.clone(),
            trait_bound: self.trait_bound.clone(),
        }
    }
}

/// The name of the direct access procedure, present in every peripheral.
pub open spec fn standard_proc_name() -> Seq<char> {
    "Standard"@
}

/// The type of the direct access procedure.
pub open spec fn standard_proc_path() -> Seq<char> {
    "StandardAccessProc"@
}

/// An address width the transport capability supports: 1, 2, 4 or 8 bytes.
pub open spec fn address_len_ok(len: u8) -> bool {
    len == 1 || len == 2 || len == 4 || len == 8
}

impl PeripheralSpec {
    /// The declared non-standard procedures.
    pub open spec fn declared_procs(&self) -> Seq<AccessProcSpec> {
        match self.non_standard_access_procs {
            Some(l) => l@,
            None => Seq::empty(),
        }
    }

    /// The names of all procedures, the declared ones first and `Standard` last.
    pub open spec fn proc_names(&self) -> Seq<Seq<char>> {
        self.declared_procs().map_values(|a: AccessProcSpec| a.proc_name@).push(
            standard_proc_name(),
        )
    }

    /// Whether a procedure of that name is known.
    pub open spec fn knows_proc(&self, name: Seq<char>) -> bool {
        exists|i: int| 0 <= i < self.proc_names().len() && #[trigger] self.proc_names()[i] == name
    }

    /// The declared extra capabilities.
    pub open spec fn declared_members(&self) -> Seq<TraitMember> {
        match self.trait_members {
            Some(l) => l@,
            None => Seq::empty(),
        }
    }

    pub fn peripheral_struct_name(&self) -> (r: String)
        ensures
            r@ == pascal_case_of(self.name@),
    {
        pascal_case(self.name.as_str())
    }

    pub fn peripheral_mod_name(&self) -> (r: String)
        ensures
            r@ == snake_case_of(self.name@),
    {
        snake_case(self.name.as_str())
    }

    pub fn endian(&self) -> (r: Endian)
        ensures
            r == self.byte_order,
    {
        self.byte_order
    }

    /// The address width in bytes.
    pub fn address_word_size(&self) -> (r: u8)
        requires
            address_len_ok(self.address_len),
        ensures
            r == self.address_len,
    {
        self.address_len
    }

    /// The integer type of an address.
    pub fn address_word_name(&self) -> (r: &'static str)
        requires
            address_len_ok(self.address_len),
        ensures
            r@ == word_type_name(8 * self.address_len as nat),
    {
        match self.address_word_size() {
            1 => "u8",
            2 => "u16",
            4 => "u32",
            _ => "u64",
        }
    }

    /// The transport trait's parameters: `<width, type>`.
    pub fn regcomms_params(&self) -> (r: String)
        requires
            address_len_ok(self.address_len),
        ensures
            r@ == self.params_text(),
    {
        let mut out = String::new();
        out.append("<");
        append_numeral(&mut out, self.address_word_size() as u64, 10);
        out.append(", ");
        out.append(self.address_word_name());
        out.append(">");
        proof {
            reveal_strlit("<");
            reveal_strlit(">");
            assert(out@ =~= self.params_text());
        }
        out
    }

    /// The transport trait's parameters, as text.
    pub open spec fn params_text(&self) -> Seq<char> {
        seq!['<'] + decimal(self.address_len as nat) + ", "@ + word_type_name(
            8 * self.address_len as nat,
        ) + seq!['>']
    }

    /// Every capability as (name, bound): the declared ones, then the transport `comms`.
    pub open spec fn all_members(&self) -> Seq<(Seq<char>, Seq<char>)> {
        self.declared_members().map_values(|t: TraitMember| (t.name@, t.trait_bound@)).push(
            ("comms"@, "RegComms"@ + self.params_text()),
        )
    }

    /// `G: Bound` for every capability, comma separated.
    pub open spec fn generics_text(&self) -> Seq<char> {
        joined(
            self.all_members().map_values(
                |m: (Seq<char>, Seq<char>)| pascal_case_of(m.0) + ": "@ + m.1,
            ),
            ", "@,
        )
    }

    /// The generic parameters, comma separated.
    pub open spec fn boundfree_text(&self) -> Seq<char> {
        joined(
            self.all_members().map_values(|m: (Seq<char>, Seq<char>)| pascal_case_of(m.0)),
            ", "@,
        )
    }

    /// The constructor's parameters, comma separated.
    pub open spec fn ctor_args_text(&self) -> Seq<char> {
        joined(
            self.all_members().map_values(
                |m: (Seq<char>, Seq<char>)| snake_case_of(m.0) + ": "@ + pascal_case_of(m.0),
            ),
            ", "@,
        )
    }

    /// The peripheral type with its generic parameters.
    pub open spec fn typename_text(&self) -> Seq<char> {
        pascal_case_of(self.name@) + seq!['<'] + self.boundfree_text() + seq!['>']
    }

    /// The transport capability every peripheral holds.
    pub fn get_regcomms_trait_member(&self) -> (r: TraitMember)
        requires
            address_len_ok(self.address_len),
        ensures
            r.name@ == "comms"@,
            r.generic_type@ == "C"@,
            r.trait_bound@ == "RegComms"@ + self.params_text(),
    {
        let mut bound = String::from_str("RegComms");
        let params = self.regcomms_params();
        bound.append(params.as_str());
        TraitMember {
            name: String::from_str("comms"),
            generic_type: String::from_str("C"),
            trait_bound: bound,
        }
    }

    /// Every capability: the declared ones in order, then the transport.
    pub fn get_trait_members_list(&self) -> (r: Vec<TraitMember>)
        requires
            address_len_ok(self.address_len),
        ensures
            r@.map_values(|t: TraitMember| (t.name@, t.trait_bound@)) == self.all_members(),
            r@.len() == self.declared_members().len() + 1,
            r@.drop_last() == self.declared_members(),
            r@.last().name@ == "comms"@,
            r@.last().generic_type@ == "C"@,
            r@.last().trait_bound@ == "RegComms"@ + self.params_text(),
    {
        let mut full_list: Vec<TraitMember> = Vec::new();
        if let Some(list) = &self.trait_members {
            let mut i: usize = 0;
            while i < list.len()
                invariant
                    list@ == self.declared_members(),
                    i <= list.len(),
                    full_list@ == list@.subrange(0, i as int),
                decreases list.len() - i,
            {
                full_list.push(list[i].duplicate());
                i = i + 1;
                proof {
                    assert(full_list@ =~= list@.subrange(0, i as int));
                }
            }
            proof {
                assert(full_list@ =~= list@);
            }
        }
        let ghost before = full_list@;
        full_list.push(self.get_regcomms_trait_member());
        proof {
            assert(before == self.declared_members());
            assert(full_list@.drop_last() =~= before);
            assert(full_list@.map_values(|t: TraitMember| (t.name@, t.trait_bound@)) =~= self.all_members());
        }
        full_list
    }

    /// `G: Bound` for every capability, comma separated.
    pub fn get_generics_string(&self) -> (r: String)
        requires
            address_len_ok(self.address_len),
        ensures
            r@ == self.generics_text(),
    {
        let members = self.get_trait_members_list();
        let mut parts: Vec<String> = Vec::new();
        let mut i: usize = 0;
        while i < members.len()
            invariant
                i <= members@.len(),
                parts@.len() == i,
                forall|k: int|
                    0 <= k < i ==> (#[trigger] parts@[k])@ == pascal_case_of(members@[k].name@)
                        + ": "@ + members@[k].trait_bound@,
            decreases members.len() - i,
        {
            let mut part = members[i].generic();
            part.append(": ");
            part.append(members[i].bound());
            parts.push(part);
            i = i + 1;
        }
        proof {
            let f = |m: (Seq<char>, Seq<char>)| pascal_case_of(m.0) + ": "@ + m.1;
            let g = |t: TraitMember| (t.name@, t.trait_bound@);
            assert forall|k: int| 0 <= k < parts@.len() implies #[trigger] string_views(parts@)[k]
                == self.all_members().map_values(f)[k] by {
                assert(self.all_members()[k] == members@.map_values(g)[k]);
            }
            assert(string_views(parts@) =~= self.all_members().map_values(f));
        }
        join_strings(&parts, ", ")
    }

    /// The generic parameters, comma separated.
    pub fn get_boundfree_generics(&self) -> (r: String)
        requires
            address_len_ok(self.address_len),
        ensures
            r@ == self.boundfree_text(),
    {
        let members = self.get_trait_members_list();
        let mut parts: Vec<String> = Vec::new();
        let mut i: usize = 0;
        while i < members.len()
            invariant
                i <= members@.len(),
                parts@.len() == i,
                forall|k: int|
                    0 <= k < i ==> (#[trigger] parts@[k])@ == pascal_case_of(members@[k].name@),
            decreases members.len() - i,
        {
            parts.push(members[i].generic());
            i = i + 1;
        }
        proof {
            let f = |m: (Seq<char>, Seq<char>)| pascal_case_of(m.0);
            let g = |t: TraitMember| (t.name@, t.trait_bound@);
            assert forall|k: int| 0 <= k < parts@.len() implies #[trigger] string_views(parts@)[k]
                == self.all_members().map_values(f)[k] by {
                assert(self.all_members()[k] == members@.map_values(g)[k]);
            }
            assert(string_views(parts@) =~= self.all_members().map_values(f));
        }
        join_strings(&parts, ", ")
    }

    /// The constructor's parameters, `member: G`, comma separated.
    pub fn get_constructor_args_list(&self) -> (r: String)
        requires
            address_len_ok(self.address_len),
        ensures
            r@ == self.ctor_args_text(),
    {
        let members = self.get_trait_members_list();
        let mut parts: Vec<String> = Vec::new();
        let mut i: usize = 0;
        while i < members.len()
            invariant
                i <= members@.len(),
                parts@.len() == i,
                forall|k: int|
                    0 <= k < i ==> (#[trigger] parts@[k])@ == snake_case_of(members@[k].name@)
                        + ": "@ + pascal_case_of(members@[k].name@),
            decreases members.len() - i,
        {
            let mut part = members[i].member_name();
            part.append(": ");
            let generic = members[i].generic();
            part.append(generic.as_str());
            parts.push(part);
            i = i + 1;
        }
        proof {
            let f = |m: (Seq<char>, Seq<char>)| snake_case_of(m.0) + ": "@ + pascal_case_of(m.0);
            let g = |t: TraitMember| (t.name@, t.trait_bound@);
            assert forall|k: int| 0 <= k < parts@.len() implies #[trigger] string_views(parts@)[k]
                == self.all_members().map_values(f)[k] by {
                assert(self.all_members()[k] == members@.map_values(g)[k]);
            }
            assert(string_views(parts@) =~= self.all_members().map_values(f));
        }
        join_strings(&parts, ", ")
    }

    /// The peripheral type with its generic parameters: `Name<G1, G2>`.
    pub fn get_parameterized_typename(&self) -> (r: String)
        requires
            address_len_ok(self.address_len),
        ensures
            r@ == self.typename_text(),
    {
        let mut out = self.peripheral_struct_name();
        out.append("<");
        let generics = self.get_boundfree_generics();
        out.append(generics.as_str());
        out.append(">");
        proof {
            reveal_strlit("<");
            reveal_strlit(">");
        }
        out
    }

    /// The direct procedure, `Standard`, carried out by `StandardAccessProc`.
    pub fn get_standard_access_proc_spec(&self) -> (r: AccessProcSpec)
        ensures
            r.proc_name@ == standard_proc_name(),
            r.struct_path@ == standard_proc_path(),
    {
        AccessProcSpec {
            proc_name: String::from_str("Standard"),
            struct_path: String::from_str("StandardAccessProc"),
        }
    }

    /// All procedures: the declared ones in order, then `Standard`.
    pub fn get_access_procs_map(&self) -> (r: Vec<AccessProcSpec>)
        ensures
            r@.len() == self.declared_procs().len() + 1,
            r@.drop_last() == self.declared_procs(),
            r@.last().proc_name@ == standard_proc_name(),
            r@.last().struct_path@ == standard_proc_path(),
    {
        let mut full_list: Vec<AccessProcSpec> = Vec::new();
        if let Some(list) = &self.non_standard_access_procs {
            let mut i: usize = 0;
            while i < list.len()
                invariant
                    list@ == self.declared_procs(),
                    i <= list.len(),
                    full_list@ == list@.subrange(0, i as int),
                decreases list.len() - i,
            {
                full_list.push(list[i].duplicate());
                i = i + 1;
                proof {
                    assert(full_list@ =~= list@.subrange(0, i as int));
                }
            }
            proof {
                assert(full_list@ =~= list@);
            }
        }
        full_list.push(self.get_standard_access_proc_spec());
        proof {
            assert(full_list@.drop_last() =~= self.declared_procs());
        }
        full_list
    }

    /// The names of all procedures, as strings.
    pub fn access_proc_names(&self) -> (r: Vec<String>)
        ensures
            string_views(r@) == self.proc_names(),
    {
        let procs = self.get_access_procs_map();
        let mut names: Vec<String> = Vec::new();
        let mut i: usize = 0;
        while i < procs.len()
            invariant
                i <= procs@.len(),
                names@.len() == i,
                forall|k: int| 0 <= k < i ==> (#[trigger] names@[k])@ == procs@[k].proc_name@,
            decreases procs.len() - i,
        {
            names.push(procs[i].proc_name.clone());
            i = i + 1;
        }
        proof {
            assert forall|k: int| 0 <= k < names@.len() implies #[trigger] string_views(names@)[k]
                == self.proc_names()[k] by {
                if k < self.declared_procs().len() {
                    assert(procs@[k] == procs@.drop_last()[k]);
                }
            }
            assert(string_views(names@) =~= self.proc_names());
        }
        names
    }

    /// The peripheral field that holds the procedure a register goes through: the one it
    /// names, or `Standard` when it names none. A name that matches no procedure is an
    /// error that names the register and every known procedure.
    pub fn get_access_proc_member_name(&self, reg: &RegisterSpec) -> (r: Result<String, SpecError>)
        ensures
            reg.access_proc is None ==> r is Ok && r->Ok_0@ == snake_case_of(standard_proc_name()),
            reg.access_proc is Some ==> (r is Ok <==> self.knows_proc(reg.access_proc->Some_0@)),
            reg.access_proc is Some && r is Ok ==> r->Ok_0@ == snake_case_of(
                reg.access_proc->Some_0@,
            ),
            reg.access_proc is Some && r is Err ==> (r matches Err(
                SpecError::UnresolvedAccessProc { register, access_proc, known_procs },
            ) && register@ == reg.name@ && access_proc@ == reg.access_proc->Some_0@
                && string_views(known_procs@) == self.proc_names()),
    {
        match reg.access_proc {
            None => Ok(self.get_standard_access_proc_spec().member_name()),
            Some(ref access_proc_name) => {
                let names = self.access_proc_names();
                let mut i: usize = 0;
                while i < names.len()
                    invariant
                        reg.access_proc == Some(*access_proc_name),
                        string_views(names@) == self.proc_names(),
                        i <= names@.len(),
                        forall|j: int| 0 <= j < i ==> names@[j]@ != access_proc_name@,
                    decreases names.len() - i,
                {
                    if names[i] == *access_proc_name {
                        proof {
                            assert(string_views(names@)[i as int] == names@[i as int]@);
                            assert(self.proc_names()[i as int] == access_proc_name@);
                            assert(self.knows_proc(access_proc_name@));
                        }
                        return Ok(snake_case(access_proc_name.as_str()));
                    }
                    i = i + 1;
                }
                proof {
                    assert forall|j: int| 0 <= j < self.proc_names().len() implies #[trigger] self.proc_names()[j]
                        != access_proc_name@ by {
                        assert(string_views(names@)[j] == names@[j]@);
                    }
                }
                Err(
                    SpecError::UnresolvedAccessProc {
                        register: reg.name.clone(),
                        access_proc: access_proc_name.clone(),
                        known_procs: names,
                    },
                )
            },
        }
    }
}

} // verus!
