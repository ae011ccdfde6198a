use regcomms::quantum_flux_sensor::QuantumFluxSensor;
use regcomms::{RegComms, RegCommsAddress, RegCommsError};

pub struct MockedQuantumFluxComms {
    address_space: Vec<Vec<(u64, Vec<u8>)>>,
    log: Vec<(char, u64, Vec<u8>)>,
}

const BLK_SEL_W_ADDRESS: u64 = 0x100;
const MADDR_W_ADDRESS: u64 = 0x101;
const M_W_ADDRESS: u64 = 0x105;

const BLK_SEL_R_ADDRESS: u64 = 0x110;
const MADDR_R_ADDRESS: u64 = 0x111;
const M_R_ADDRESS: u64 = 0x115;

impl MockedQuantumFluxComms {
    fn new(v: Vec<Vec<(u64, Vec<u8>)>>) -> Self {
        Self { address_space: v, log: Vec::new() }
    }

    fn read_address_in_block(&self, address: u64, buf: &mut [u8], block_sel: usize) -> Result<usize, RegCommsError> {
        let Some((segaddr, seg)) = self.address_space[block_sel]
            .iter()
            .find(|(segaddr, seg)| address >= *segaddr && address < (*segaddr + seg.len() as u64))
        else {
            return Err(RegCommsError::Other);
        };
        let seg_offset = (address - segaddr) as usize;
        let bytes_available = seg.len() - seg_offset;
        let read_len = std::cmp::min(buf.len(), bytes_available);
        let read_end = seg_offset + read_len;
        buf[0..read_len].copy_from_slice(&seg[seg_offset..read_end]);
        Ok(read_len)
    }

    fn read_address(&self, address: u64, buf: &mut [u8]) -> Result<usize, RegCommsError> {
        if address == M_R_ADDRESS {
            let mut blksel_buf = [0u8];
            let mut maddr_r_buf = [0u8; 4];
            self.read_address_in_block(BLK_SEL_R_ADDRESS, &mut blksel_buf, 0).unwrap();
            self.read_address_in_block(MADDR_R_ADDRESS, &mut maddr_r_buf, 0).unwrap();
            let maddress_r = u64_from_be_buf(&maddr_r_buf);
            self.read_address_in_block(maddress_r, buf, blksel_buf[0] as usize)
        } else {
            self.read_address_in_block(address, buf, 0)
        }
    }

    fn write_address_in_block(&mut self, address: u64, buf: &[u8], block_sel: usize) -> Result<usize, RegCommsError> {
        let Some((segaddr, seg)) = self.address_space[block_sel]
            .iter_mut()
            .find(|(segaddr, seg)| address >= *segaddr && address < (*segaddr + seg.len() as u64))
        else {
            return Err(RegCommsError::Other);
        };
        let seg_offset = (address - *segaddr) as usize;
        let bytes_available = seg.len() - seg_offset;
        let write_len = std::cmp::min(buf.len(), bytes_available);
        let write_end = seg_offset + write_len;
        seg[seg_offset..write_end].copy_from_slice(&buf[0..write_len]);
        Ok(write_len)
    }

    fn write_address(&mut self, address: u64, buf: &[u8]) -> Result<usize, RegCommsError> {
        if address == M_W_ADDRESS {
            let mut blksel_buf = [0u8];
            let mut maddr_w_buf = [0u8; 4];
            self.read_address_in_block(BLK_SEL_W_ADDRESS, &mut blksel_buf, 0).unwrap();
            self.read_address_in_block(MADDR_W_ADDRESS, &mut maddr_w_buf, 0).unwrap();
            let maddress_w = u64_from_be_buf(&maddr_w_buf);
            self.write_address_in_block(maddress_w, buf, blksel_buf[0] as usize)
        } else {
            self.write_address_in_block(address, buf, 0)
        }
    }
}

fn u64_from_be_buf(buf: &[u8]) -> u64 {
    u64_from_le_iter(buf.iter().rev())
}

fn u64_from_le_iter<'a, I: IntoIterator<Item = &'a u8>>(it: I) -> u64 {
    it.into_iter().enumerate().fold(0, |acc, (index, &byte)| acc + byte as u64 * 256u64.pow(index as u32))
}

fn u64_from_regcommaddress<const N: usize, R: RegCommsAddress<N>>(num: R) -> u64 {
    let reg_arr = num.to_little_endian();
    u64_from_le_iter(reg_arr.as_slice())
}

impl<const N: usize, R: RegCommsAddress<N>> RegComms<N, R> for MockedQuantumFluxComms {
    fn comms_read(&mut self, reg_address: R, buf: &mut [u8]) -> Result<usize, RegCommsError> {
        let u64_address = u64_from_regcommaddress(reg_address);
        let r = self.read_address(u64_address, buf);
        self.log.push(('r', u64_address, buf.to_vec()));
        r
    }

    fn comms_write(&mut self, reg_address: R, buf: &[u8]) -> Result<usize, RegCommsError> {
        let u64_address = u64_from_regcommaddress(reg_address);
        self.log.push(('w', u64_address, buf.to_vec()));
        self.write_address(u64_address, buf)
    }
}

#[test]
fn test_alternative_access_proc() {
    let comm_peripheral = MockedQuantumFluxComms::new(vec![
        vec![(0x1, vec![0x0]), (0x16, vec![0xe0, 0xe0, 0xe0]), (0x20, vec![0xe3]), (0x100, vec![0x00; 6]), (0x110, vec![0x00; 6])],
        vec![(0x1, vec![0x55])],
    ]);
    let mut sensor = QuantumFluxSensor::new(comm_peripheral);
    let mut fifo_config5 = sensor.fifo_config5().read().unwrap();
    assert_eq!(fifo_config5.get(), 0b01010101);
    fifo_config5.fifo_20_bit_ext().set_bit();
    assert_eq!(fifo_config5.get(), 0b11010101);
    fifo_config5.fifo_excludes().set(0);
    assert_eq!(fifo_config5.get(), 0b11000000);
    sensor
        .fifo_config5()
        .modify(|mut val| {
            val.fifo_20_bit_ext().set_bit().fifo_excludes().set(0);
            val
        })
        .unwrap();
    let fifo_config5 = sensor.fifo_config5().read().unwrap();
    assert_eq!(fifo_config5.get(), 0b11000000);
}

#[test]
fn test_quantum_flux_sensor() {
    let comm_peripheral = MockedQuantumFluxComms::new(vec![vec![(0x1, vec![0x0]), (0x16, vec![0xe0, 0xe0, 0xe0]), (0x20, vec![0xe3])]]);
    let mut sensor = QuantumFluxSensor::new(comm_peripheral);
    let mut power_mode = sensor.power_mode().read().unwrap();
    assert_eq!(power_mode.pulsed().bit_is_set(), false);
    assert_eq!(power_mode.poweron_mode().bits(), 0);
    let mut fifo_config = sensor.fifo_config().read().unwrap();
    assert_eq!(fifo_config.fifo_src().bits(), 0x7);
    assert_eq!(fifo_config.fifo_en().bit_is_set(), false);
    assert_eq!(fifo_config.fifo_fmt().bits(), 0x3);
    assert_eq!(fifo_config.get(), 0b11100011);
    fifo_config.fifo_src().set(0x5);
    assert_eq!(fifo_config.get(), 0b10100011);
    fifo_config.fifo_fmt().set(0);
    assert_eq!(fifo_config.get(), 0b10100000);
    // Bits beyond the field's width are dropped.
    fifo_config.fifo_fmt().set(0xff);
    assert_eq!(fifo_config.get(), 0b10100011);
    fifo_config.fifo_en().set_bit();
    assert_eq!(fifo_config.get(), 0b10100111);
    fifo_config.fifo_fmt().set(0);
    assert_eq!(fifo_config.get(), 0b10100100);
    fifo_config.fifo_fmt().reset();
    assert_eq!(fifo_config.get(), 0b10100111);
    fifo_config.fifo_src().set(0b010);
    assert_eq!(fifo_config.get(), 0b01000111);
    fifo_config.fifo_fmt().set(0b10);
    assert_eq!(fifo_config.get(), 0b01000110);
    fifo_config.fifo_src().reset();
    assert_eq!(fifo_config.get(), 0b11100110);
    fifo_config.fifo_en().reset();
    assert_eq!(fifo_config.get(), 0b11100010);
    fifo_config.fifo_decimation().set(0b11);
    assert_eq!(fifo_config.get(), 0b11111010);
    fifo_config.fifo_decimation().reset();
    assert_eq!(fifo_config.get(), 0b11100010);
    fifo_config.set(0);
    assert_eq!(fifo_config.get(), 0);
    sensor.fifo_config().write(fifo_config).unwrap();
    let fifo_config = sensor.fifo_config().read().unwrap();
    assert_eq!(fifo_config.get(), 0);
    sensor.fifo_config().reset().unwrap();
    let fifo_config = sensor.fifo_config().read().unwrap();
    assert_eq!(fifo_config.get(), 0b11100011);
}

#[test]
fn direct_access_decodes_and_encodes_fifo_config() {
    let comms = MockedQuantumFluxComms::new(vec![vec![(0x20, vec![0xe3])]]);
    let mut sensor = QuantumFluxSensor::new(comms);
    let mut val = sensor.fifo_config().read().unwrap();
    assert_eq!(val.fifo_src().bits(), 0x7);
    assert_eq!(val.fifo_en().bit_is_set(), false);
    assert_eq!(val.fifo_fmt().bits(), 0x3);
    val.fifo_fmt().set(0);
    sensor.fifo_config().write(val).unwrap();
    assert_eq!(sensor.comms.log.last().unwrap(), &('w', 0x20, vec![0xe0]));
    assert_eq!(sensor.comms.address_space[0][0].1, vec![0xe0]);
}

#[test]
fn banked_read_selects_bank_then_restores() {
    let comms = MockedQuantumFluxComms::new(vec![
        vec![(0x100, vec![0x00; 6]), (0x110, vec![0x00; 6])],
        vec![(0x1, vec![0x55])],
    ]);
    let mut sensor = QuantumFluxSensor::new(comms);
    let val = sensor.fifo_config5().read().unwrap();
    assert_eq!(val.get(), 0x55);
    let writes: Vec<(u64, Vec<u8>)> =
        sensor.comms.log.iter().filter(|e| e.0 == 'w').map(|e| (e.1, e.2.clone())).collect();
    assert_eq!(writes, vec![(0x110, vec![1]), (0x111, vec![0, 0, 0, 1]), (0x110, vec![0])]);
    let port_read = sensor.comms.log.iter().position(|e| e.0 == 'r' && e.1 == 0x115).unwrap();
    let select = sensor.comms.log.iter().position(|e| e.0 == 'w' && e.1 == 0x110).unwrap();
    let restore = sensor.comms.log.iter().rposition(|e| e.0 == 'w' && e.1 == 0x110).unwrap();
    assert!(select < port_read && port_read < restore);
    assert_eq!(sensor.comms.address_space[0][1].1[0], 0);
}

#[test]
fn banked_read_reaches_bank_one_not_bank_zero() {
    let comms = MockedQuantumFluxComms::new(vec![
        vec![(0x1, vec![0x11]), (0x100, vec![0x00; 6]), (0x110, vec![0x00; 6])],
        vec![(0x1, vec![0x55])],
    ]);
    let mut sensor = QuantumFluxSensor::new(comms);
    assert_eq!(sensor.fifo_config5().read().unwrap().get(), 0x55);
    assert_eq!(sensor.power_mode().read().unwrap().get(), 0x11);
}

#[test]
fn banked_write_reaches_bank_one() {
    let comms = MockedQuantumFluxComms::new(vec![
        vec![(0x100, vec![0x00; 6]), (0x110, vec![0x00; 6])],
        vec![(0x1, vec![0x55])],
    ]);
    let mut sensor = QuantumFluxSensor::new(comms);
    sensor.fifo_config5().write_raw(0xa0).unwrap();
    assert_eq!(sensor.comms.address_space[1][0].1, vec![0xa0]);
    assert_eq!(sensor.comms.address_space[0][0].1[0], 0);
}

#[test]
fn transfer_error_is_passed_on() {
    let comms = MockedQuantumFluxComms::new(vec![vec![]]);
    let mut sensor = QuantumFluxSensor::new(comms);
    assert!(matches!(sensor.fifo_config().read(), Err(RegCommsError::Other)));
    assert!(matches!(sensor.fifo_config5().read(), Err(RegCommsError::Other)));
}

#[test]
fn reset_twice_writes_the_same_value() {
    let comms = MockedQuantumFluxComms::new(vec![vec![(0x20, vec![0x00])]]);
    let mut sensor = QuantumFluxSensor::new(comms);
    sensor.fifo_config().reset().unwrap();
    let once = sensor.fifo_config().read().unwrap().get();
    sensor.fifo_config().reset().unwrap();
    assert_eq!(sensor.fifo_config().read().unwrap().get(), once);
    assert_eq!(once, 0xe3);
}

#[test]
fn wide_data_registers_decode_big_endian() {
    let comms = MockedQuantumFluxComms::new(vec![vec![(0xff000000, vec![0x12, 0x34]), (0xffffff08, vec![1, 2, 3, 4])]]);
    let mut sensor = QuantumFluxSensor::new(comms);
    let mut data = sensor.lepton_data().read().unwrap();
    assert_eq!(data.data().bits(), 0x1234);
    let mut id = sensor.who_am_i().read().unwrap();
    assert_eq!(id.id().bits(), 0x01020304);
}

#[test]
fn banked_read_stops_at_first_failed_step() {
    // No bank-address register: the read of 0x111 fails.
    let comms = MockedQuantumFluxComms::new(vec![vec![(0x110, vec![0x00])], vec![(0x1, vec![0x55])]]);
    let mut sensor = QuantumFluxSensor::new(comms);
    assert!(matches!(sensor.fifo_config5().read(), Err(RegCommsError::Other)));
    let steps: Vec<(char, u64)> = sensor.comms.log.iter().map(|e| (e.0, e.1)).collect();
    assert_eq!(steps, vec![('r', 0x110), ('w', 0x110), ('r', 0x111)]);
    // The bank stays selected: the restore step never ran.
    assert_eq!(sensor.comms.address_space[0][0].1, vec![1]);
}
