use regcomms::bits::{get_field, restore_field, set_field};
use regcomms::endian::{word_from_bytes, word_to_bytes, Endian};
use regcomms::example::my_reg::MyRegVal;
use regcomms::field_spec::{FieldPos, FieldPosError, FieldSpec};
use regcomms::lsm6dsv::pin_ctrl::PinCtrlVal;
use regcomms::peripheral_spec::{AccessProcSpec, PeripheralSpec, SpecError, TraitMember};
use regcomms::register_spec::{RegisterSpec, SpecialRegType};
use regcomms::RegCommsAddress;

#[test]
fn it_works() {
    let result = u32::from_big_endian((2u32 + 2).to_big_endian());
    assert_eq!(result, 4);
}

fn reg(name: &str, size: u8, access_proc: Option<&str>) -> RegisterSpec {
    RegisterSpec {
        name: name.to_string(),
        address: 0x20,
        size,
        readable: true,
        writable: true,
        reset_val: None,
        fields: None,
        access_proc: access_proc.map(|s| s.to_string()),
        special_type: None,
    }
}

fn periph(procs: Option<Vec<AccessProcSpec>>) -> PeripheralSpec {
    PeripheralSpec {
        name: "quantum_flux_sensor".to_string(),
        address_len: 4,
        byte_order: Endian::Big,
        registers: vec![],
        non_standard_access_procs: procs,
        extra_mods: None,
        trait_members: None,
        struct_defns: None,
    }
}

#[test]
fn parse_single_bit() {
    assert_eq!(FieldPos::parse("4"), Ok(FieldPos::Bit(4)));
    assert_eq!(FieldPos::parse("255"), Ok(FieldPos::Bit(255)));
}

#[test]
fn parse_range() {
    assert_eq!(FieldPos::parse("[7:5]"), Ok(FieldPos::Field(7, 5)));
    assert_eq!(FieldPos::parse("[3:3]"), Ok(FieldPos::Field(3, 3)));
}

#[test]
fn parse_errors() {
    assert_eq!(FieldPos::parse("[4:6]"), Err(FieldPosError::HighBelowLow { high: 4, low: 6 }));
    assert_eq!(FieldPos::parse("[a:1]"), Err(FieldPosError::InvalidNumber));
    assert_eq!(FieldPos::parse("[300:1]"), Err(FieldPosError::InvalidNumber));
    assert_eq!(FieldPos::parse("256"), Err(FieldPosError::InvalidFormat));
    assert_eq!(FieldPos::parse("[1:2:3]"), Err(FieldPosError::InvalidFormat));
    assert_eq!(FieldPos::parse("[12]"), Err(FieldPosError::InvalidFormat));
    assert_eq!(FieldPos::parse(""), Err(FieldPosError::InvalidFormat));
    assert_eq!(FieldPos::parse("x"), Err(FieldPosError::InvalidFormat));
}

#[test]
fn serialize_and_parse_back() {
    assert_eq!(FieldPos::Bit(0).serialize(), "0");
    assert_eq!(FieldPos::Field(15, 0).serialize(), "[15:0]");
    for p in [FieldPos::Bit(7), FieldPos::Bit(200), FieldPos::Field(63, 0), FieldPos::Field(5, 3)] {
        assert_eq!(FieldPos::parse(&p.serialize()), Ok(p));
    }
}

#[test]
fn field_word_widths() {
    assert_eq!(FieldPos::Bit(3).fieldpos_word(), "u8");
    assert_eq!(FieldPos::Field(8, 0).fieldpos_word(), "u16");
    assert_eq!(FieldPos::Field(31, 0).fieldpos_word(), "u32");
    assert_eq!(FieldPos::Field(63, 31).fieldpos_word(), "u64");
}

#[test]
fn field_names() {
    let f = FieldSpec { name: "fifoSrc".to_string(), field_pos: FieldPos::Bit(0) };
    assert_eq!(f.method_name(), "fifo_src");
    assert_eq!(f.struct_name(), "FifoSrc");
}

#[test]
fn set_truncates_and_keeps_other_bits() {
    assert_eq!(set_field(0xe3, 0, 2, 0xff), 0xe3);
    assert_eq!(set_field(0xe3, 5, 3, 0x5), 0xa3);
    assert_eq!(get_field(set_field(0, 4, 4, 0x1ff), 4, 4), 0xf);
    assert_eq!(set_field(0x1234, 0, 64, 7), 7);
    assert_eq!(get_field(u64::MAX, 0, 64), u64::MAX);
    assert_eq!(restore_field(0xff, 4, 2, 0x73), 0xff & !0x30 | 0x30);
}

#[test]
fn single_bit_set_and_clear() {
    let mut v = PinCtrlVal(0);
    v.sdo_pu_en().set_bit();
    assert!(v.sdo_pu_en().bit_is_set());
    assert_eq!(v.get(), 0x40);
    v.ibhr_por_en().assign(true).sdo_pu_en().clear_bit();
    assert_eq!(v.get(), 0x20);
    v.io_pad_strength().set(7);
    assert_eq!(v.get(), 0x23);
}

#[test]
fn field_reset_restores_declared_bits() {
    let mut v = MyRegVal::zeroed();
    v.n_toasted().set(2).toasty_bit().set_bit();
    assert_eq!(v.get(), 0x24);
    assert!(!v.toasty_bit().bit_is_clear());
    v.n_toasted().reset();
    assert_eq!(v.get(), 0x34);
    v.n_toasted().reset();
    assert_eq!(v.get(), 0x34);
    assert_eq!(MyRegVal::reset_val().get(), 0x73);
}

#[test]
fn word_coding() {
    assert_eq!(word_from_bytes(&[0x12, 0x34, 0x56], Endian::Big), 0x123456);
    assert_eq!(word_from_bytes(&[0x12, 0x34, 0x56], Endian::Little), 0x563412);
    assert_eq!(word_to_bytes(0x123456, 3, Endian::Big), vec![0x12, 0x34, 0x56]);
    assert_eq!(word_to_bytes(0x123456, 3, Endian::Little), vec![0x56, 0x34, 0x12]);
    assert_eq!(u16::from_little_endian(0x1234u16.to_little_endian()), 0x1234);
    assert_eq!(0x1234u16.to_big_endian(), [0x12, 0x34]);
    assert_eq!(0x01020304u32.to_little_endian(), [4, 3, 2, 1]);
    assert_eq!(u64::from_big_endian([0, 0, 0, 0, 0, 0, 1, 2]), 0x102);
    assert_eq!(Endian::Big.abbrev(), "be");
    assert_eq!(Endian::Little.abbrev(), "le");
}

#[test]
fn register_word_sizes() {
    assert_eq!(reg("a", 1, None).regval_word_size(), 1);
    assert_eq!(reg("a", 2, None).regval_word_size(), 2);
    assert_eq!(reg("a", 3, None).regval_word_size(), 4);
    assert_eq!(reg("a", 5, None).regval_word_size(), 8);
    assert_eq!(reg("a", 8, None).regval_word_name(), "u64");
    assert_eq!(reg("a", 3, None).regval_word_name(), "u32");
}

#[test]
fn padding_window_depends_on_byte_order() {
    let r = reg("a", 3, None);
    assert_eq!(r.commsbuf_window(Endian::Big), (1, 4));
    assert_eq!(r.commsbuf_window(Endian::Little), (0, 3));
    assert_eq!(r.commsbuf_subscript(Endian::Big), "[1..4]");
    assert_eq!(r.commsbuf_subscript(Endian::Little), "[0..3]");
    assert_eq!(reg("b", 6, None).commsbuf_subscript(Endian::Big), "[2..8]");
    assert_eq!(reg("c", 4, None).commsbuf_subscript(Endian::Big), "");
}

#[test]
fn register_names_and_kind() {
    let mut r = reg("FifoConfig", 1, None);
    assert_eq!(r.reg_mod_name(), "fifo_config");
    assert_eq!(r.reg_method_name(), "fifo_config");
    assert_eq!(r.reg_struct_name(), "FifoConfig");
    assert_eq!(r.regval_struct_name(), "FifoConfigVal");
    assert!(!r.is_data_port());
    r.special_type = Some(SpecialRegType::DataPort);
    assert!(r.is_data_port());
}

#[test]
fn access_proc_resolution() {
    let p = periph(Some(vec![AccessProcSpec { proc_name: "Mreg1".to_string(), struct_path: "crate::Mreg1".to_string() }]));
    assert_eq!(p.get_access_proc_member_name(&reg("a", 1, None)).unwrap(), "standard");
    assert_eq!(p.get_access_proc_member_name(&reg("a", 1, Some("Mreg1"))).unwrap(), "mreg1");
    assert_eq!(p.get_access_proc_member_name(&reg("a", 1, Some("Standard"))).unwrap(), "standard");
    let procs = p.get_access_procs_map();
    assert_eq!(procs.len(), 2);
    assert_eq!(procs[1].proc_name, "Standard");
    assert_eq!(procs[1].struct_path(), "StandardAccessProc");
    assert_eq!(procs[0].static_name(), "MREG1");
}

#[test]
fn unresolved_access_proc_names_register_and_procs() {
    let p = periph(Some(vec![AccessProcSpec { proc_name: "Mreg1".to_string(), struct_path: "crate::Mreg1".to_string() }]));
    match p.get_access_proc_member_name(&reg("fifo_config5", 1, Some("Banked"))) {
        Err(SpecError::UnresolvedAccessProc { register, access_proc, known_procs }) => {
            assert_eq!(register, "fifo_config5");
            assert_eq!(access_proc, "Banked");
            assert_eq!(known_procs, vec!["Mreg1".to_string(), "Standard".to_string()]);
        }
        other => panic!("expected an unresolved procedure, got {:?}", other),
    }
}

#[test]
fn generics_strings() {
    let mut p = periph(None);
    p.trait_members = Some(vec![TraitMember {
        name: "delay".to_string(),
        generic_type: "D".to_string(),
        trait_bound: "DelayNs".to_string(),
    }]);
    assert_eq!(p.regcomms_params(), "<4, u32>");
    assert_eq!(p.address_word_name(), "u32");
    assert_eq!(p.get_generics_string(), "Delay: DelayNs, Comms: RegComms<4, u32>");
    assert_eq!(p.get_boundfree_generics(), "Delay, Comms");
    assert_eq!(p.get_constructor_args_list(), "delay: Delay, comms: Comms");
    assert_eq!(p.get_parameterized_typename(), "QuantumFluxSensor<Delay, Comms>");
    assert_eq!(p.get_trait_members_list()[1].bound(), "RegComms<4, u32>");
    assert_eq!(p.get_trait_members_list()[0].member_name(), "delay");
}

/// A flat byte memory, addressed from 0, that logs every transfer.
struct FlatMemory {
    bytes: Vec<u8>,
    log: Vec<(bool, u64, Vec<u8>)>,
}

impl<const N: usize, R: RegCommsAddress<N>> regcomms::RegComms<N, R> for FlatMemory {
    fn comms_read(&mut self, reg_address: R, buf: &mut [u8]) -> Result<usize, regcomms::RegCommsError> {
        let le = reg_address.to_little_endian();
        let a = le.iter().rev().fold(0u64, |acc, b| acc * 256 + *b as u64) as usize;
        buf.copy_from_slice(&self.bytes[a..a + buf.len()]);
        self.log.push((false, a as u64, buf.to_vec()));
        Ok(buf.len())
    }

    fn comms_write(&mut self, reg_address: R, buf: &[u8]) -> Result<usize, regcomms::RegCommsError> {
        let le = reg_address.to_little_endian();
        let a = le.iter().rev().fold(0u64, |acc, b| acc * 256 + *b as u64) as usize;
        self.bytes[a..a + buf.len()].copy_from_slice(buf);
        self.log.push((true, a as u64, buf.to_vec()));
        Ok(buf.len())
    }
}

#[test]
fn direct_peripheral_modify_reads_then_writes() {
    let mem = FlatMemory { bytes: vec![0, 0, 0x41, 0], log: vec![] };
    let mut imu = regcomms::lsm6dsv::Lsm6Dsv::new(mem);
    imu.pin_ctrl()
        .modify(|mut v| {
            v.io_pad_strength().set(2).sdo_pu_en().set_bit();
            v
        })
        .unwrap();
    assert_eq!(imu.0.bytes[2], 0x42);
    assert_eq!(imu.0.log, vec![(false, 2, vec![0x41]), (true, 2, vec![0x42])]);
    let mut v = imu.func_cfg_access().read().unwrap();
    assert!(!v.sw_por().bit_is_set());
    v.sw_por().set_bit();
    imu.func_cfg_access().write(v).unwrap();
    assert_eq!(imu.0.bytes[1], 0x04);
}

#[test]
fn three_byte_register_moves_three_bytes() {
    let mut bytes = vec![0u8; 0x20];
    bytes[0x0f..0x12].copy_from_slice(&[0x12, 0x34, 0x56]);
    let mut dev = regcomms::example::MyPeripheral::new(FlatMemory { bytes, log: vec![] });
    let mut v = dev.my_reg().read().unwrap();
    assert_eq!(v.get(), 0x123456);
    assert_eq!(v.n_toasted().bits(), 0x1);
    dev.my_reg().reset().unwrap();
    assert_eq!(dev.0.log.last().unwrap(), &(true, 0x0f, vec![0x00, 0x00, 0x73]));
    assert_eq!(dev.my_reg().read().unwrap().get(), 0x73);
}
