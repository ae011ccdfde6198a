use regcomms::endian::Endian;
use regcomms::field_spec::{FieldPos, FieldSpec};
use regcomms::peripheral_spec::{AccessProcSpec, PeripheralSpec, SpecError};
use regcomms::register_spec::{RegisterSpec, SpecialRegType, StructSpec};

fn field(name: &str, pos: FieldPos) -> FieldSpec {
    FieldSpec { name: name.to_string(), field_pos: pos }
}

fn status_reg() -> RegisterSpec {
    RegisterSpec {
        name: "status".to_string(),
        address: 0x2a,
        size: 1,
        readable: true,
        writable: true,
        reset_val: None,
        fields: Some(vec![field("ready", FieldPos::Bit(0)), field("count", FieldPos::Field(3, 1))]),
        access_proc: None,
        special_type: None,
    }
}

fn periph(registers: Vec<RegisterSpec>, address_len: u8, byte_order: Endian) -> PeripheralSpec {
    PeripheralSpec {
        name: "MyPeripheral".to_string(),
        address_len,
        byte_order,
        registers,
        non_standard_access_procs: Some(vec![AccessProcSpec {
            proc_name: "Mreg1".to_string(),
            struct_path: "crate::handwritten::Mreg1".to_string(),
        }]),
        extra_mods: Some(vec!["handwritten".to_string()]),
        trait_members: None,
        struct_defns: None,
    }
}

const STATUS_VAL: &str = "pub struct StatusVal(pub u8);
impl StatusVal {
    pub fn get(&self) -> u8 {
        self.0
    }
    pub fn zero() -> Self {
        Self(0)
    }
    pub fn set(&mut self, val: u8) {
        self.0 = val;
    }
    pub fn ready<'a>(&'a mut self) -> Ready<'a> {
        Ready(self)
    }
    pub fn count<'a>(&'a mut self) -> Count<'a> {
        Count(self)
    }
}
pub struct Ready<'a>(pub &'a mut StatusVal);
impl<'a> Ready<'a> {
    pub fn bit(&self) -> bool {
        ((self.0.0 >> 0) & 1) != 0
    }
    pub fn bit_is_set(&self) -> bool {
        self.bit()
    }
    pub fn assign(self, val: bool) -> &'a mut StatusVal {
        self.0.0 &= !(1 << 0);
        self.0.0 |= (val as u8) << 0;
        self.0
    }
    pub fn set_bit(self) -> &'a mut StatusVal {
        self.assign(true)
    }
    pub fn clear_bit(self) -> &'a mut StatusVal {
        self.assign(false)
    }
}
pub struct Count<'a>(pub &'a mut StatusVal);
impl<'a> Count<'a> {
    pub fn bits(&self) -> u8 {
        ((self.0.0 >> 1) & !(!0 << 3)) as u8
    }
    pub fn set(self, val: u8) -> &'a mut StatusVal {
        self.0.0 &= !(!(!0 << 3) << 1);
        self.0.0 |= ((val as u8) & !(!0 << 3)) << 1;
        self.0
    }
}
";

#[test]
fn regval_struct_text() {
    assert_eq!(status_reg().generate_regval_struct(), STATUS_VAL);
}

#[test]
fn regval_struct_with_reset_and_full_width_field() {
    let mut r = status_reg();
    r.size = 2;
    r.reset_val = Some(0xbeef);
    r.fields = Some(vec![field("all", FieldPos::Field(15, 0))]);
    let text = r.generate_regval_struct();
    assert!(text.contains("    pub fn reset_val() -> Self {\n        Self(0xbeef)\n    }\n"));
    assert!(text.contains("    pub fn bits(&self) -> u16 {\n        self.0.0\n    }\n"));
    assert!(text.contains("        self.0.0 = 0xbeef;\n"));
}

#[test]
fn register_file_text() {
    let p = periph(vec![], 2, Endian::Big);
    let text = status_reg().generate_file(&p).unwrap();
    assert!(text.starts_with("use core::result::Result;\nuse regcomms::{RegCommsError, RegComms, RegCommsAccessProc};\nuse crate::MyPeripheral;\npub struct Status<'a, Comms: RegComms<2, u16>>(pub &'a mut MyPeripheral<Comms>);\nimpl<'a, Comms: RegComms<2, u16>> Status<'a, Comms> {\n"));
    assert!(text.contains("        let proc = self.0.standard;\n        proc.proc_read(&mut self.0, 0x2a, &mut buf)?;\n        let val = u8::from_be_bytes(buf);\n"));
    assert!(text.contains("    pub fn modify<F: FnOnce(StatusVal) -> StatusVal>"));
    assert!(!text.contains("pub fn reset(&mut self)"));
    assert!(text.ends_with(STATUS_VAL));
}

#[test]
fn register_file_padding_and_procedure() {
    let p = periph(vec![], 4, Endian::Little);
    let mut r = status_reg();
    r.size = 3;
    r.fields = None;
    r.reset_val = Some(0x73);
    r.access_proc = Some("Mreg1".to_string());
    let text = r.generate_file(&p).unwrap();
    assert!(text.contains("        let mut buf = [0u8; 4];\n        let proc = self.0.mreg1;\n        proc.proc_read(&mut self.0, 0x2a, &mut buf[0..3])?;\n        let val = u32::from_le_bytes(buf);\n"));
    assert!(text.contains("        let buf = val.0.to_le_bytes();\n"));
    assert!(text.contains("        self.write(StatusVal(0x73))\n"));
}

#[test]
fn data_port_register() {
    let p = periph(vec![], 1, Endian::Big);
    let mut r = status_reg();
    r.special_type = Some(SpecialRegType::DataPort);
    let text = r.generate_file(&p).unwrap();
    assert!(text.contains("    pub fn data_port_read(&mut self, buf: &mut [u8]) -> Result<usize, RegCommsError> {\n        let proc = self.0.standard;\n        proc.proc_read(&mut self.0, 0x2a, buf)\n    }\n"));
    assert!(text.contains("pub fn data_port_write(&mut self, buf: &[u8])"));
    r.size = 2;
    assert!(matches!(r.generate_file(&p), Err(SpecError::DataPortSize { .. })));
}

#[test]
fn unresolved_procedure_fails_generation() {
    let mut r = status_reg();
    r.access_proc = Some("Banked".to_string());
    let p = periph(vec![r], 2, Endian::Big);
    match p.generate_module() {
        Err(SpecError::UnresolvedAccessProc { register, access_proc, known_procs }) => {
            assert_eq!(register, "status");
            assert_eq!(access_proc, "Banked");
            assert_eq!(known_procs, vec!["Mreg1".to_string(), "Standard".to_string()]);
        }
        other => panic!("expected an unresolved procedure, got {:?}", other.map(|v| v.len())),
    }
}

#[test]
fn invalid_descriptions_are_errors() {
    let mut r = status_reg();
    r.size = 9;
    assert!(matches!(r.generate_file(&periph(vec![], 2, Endian::Big)), Err(SpecError::InvalidRegisterSize { size: 9, .. })));
    let mut r = status_reg();
    r.fields = Some(vec![field("wide", FieldPos::Field(70, 0))]);
    match r.generate_file(&periph(vec![], 2, Endian::Big)) {
        Err(SpecError::UnsupportedField { register, field }) => {
            assert_eq!(register, "status");
            assert_eq!(field, "wide");
        }
        _ => panic!("expected an unsupported field"),
    }
    assert!(matches!(periph(vec![], 3, Endian::Big).generate_module(), Err(SpecError::InvalidAddressLen { len: 3 })));
}

#[test]
fn module_files() {
    let p = periph(vec![status_reg()], 2, Endian::Big);
    let files = p.generate_module().unwrap();
    assert_eq!(files.len(), 2);
    assert_eq!(files[0].0, "lib.rs");
    assert_eq!(files[1].0, "status.rs");
    let lib = &files[0].1;
    assert!(lib.starts_with("#![no_std]\nuse core::result::Result;\nuse core::default::Default;\nmod status;\nmod handwritten;\n"));
    assert!(lib.contains("static MREG1: Once<crate::handwritten::Mreg1> = Once::new();\nstatic STANDARD: Once<StandardAccessProc> = Once::new();\n"));
    assert!(lib.contains("pub struct MyPeripheral<Comms: RegComms<2, u16>> {\n    pub comms: Comms,\n    pub mreg1: &'static crate::handwritten::Mreg1,\n    pub standard: &'static StandardAccessProc,\n}\n"));
    assert!(lib.contains("    pub fn new(comms: Comms) -> Self {\n"));
    assert!(lib.contains("            standard: STANDARD.call_once(|| Default::default()),\n"));
    assert!(lib.ends_with("    pub fn status<'a>(&'a mut self) -> status::Status<'a, Comms> {\n        status::Status(self)\n    }\n}\n"));
}

#[test]
fn single_procedure_module_root() {
    let p = periph(vec![status_reg()], 1, Endian::Big);
    let text = p.generate_modrs();
    assert!(text.starts_with("mod status;\nuse reg_comms::{RegComms, RegCommsError};\npub enum AccessProc {\n    Standard,\n}\npub struct MyPeripheral<C: RegComms<1, u8>>(C);\nimpl<C: RegComms<1, u8>> MyPeripheral<C> {\n"));
    assert!(text.ends_with("    pub fn status<'a>(&'a mut self) -> status::Status<'a, C> {\n        status::Status(self)\n    }\n}\n"));
}

#[test]
fn cargo_manifest() {
    let p = periph(vec![], 1, Endian::Big);
    assert_eq!(
        p.generate_cargo_toml(Some("{ path = \"../regcomms\" }".to_string())),
        "[package]\nname = \"my_peripheral\"\nedition = \"2024\"\nversion = \"0.1.0\"\n\n[dependencies]\nregcomms = { path = \"../regcomms\" }\n"
    );
}

#[test]
fn composite_register_file() {
    let p = periph(vec![], 1, Endian::Big);
    let s = StructSpec { struct_name: "Block".to_string(), sub_registers: vec![status_reg()], bufsize: 16 };
    assert_eq!(
        s.generate_struct_file(&p),
        "use core::result::Result;\nuse regcomms::{RegCommsError, RegComms, RegCommsAccessProc};\nuse crate::MyPeripheral;\npub struct Block([u8;16]);\nimpl Block {\n    pub fn status<'a>(&'a mut self) -> Status<'a> {\n        Status(self)\n    }\n}\n"
    );
}

#[test]
fn unresolved_procedure_is_reported_before_other_errors() {
    let mut r = status_reg();
    r.size = 9;
    r.access_proc = Some("Banked".to_string());
    match r.generate_file(&periph(vec![], 3, Endian::Big)) {
        Err(SpecError::UnresolvedAccessProc { register, known_procs, .. }) => {
            assert_eq!(register, "status");
            assert_eq!(known_procs, vec!["Mreg1".to_string(), "Standard".to_string()]);
        }
        _ => panic!("expected an unresolved procedure"),
    }
}
