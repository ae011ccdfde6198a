//! A sensor with 4-byte big-endian addresses whose `fifo_config5` register sits in a
//! second bank, reached through the banked access procedure `Mreg1`.
use vstd::prelude::*;
use crate::comms::{
    RegComms, RegCommsAccessProc, RegCommsError, Transfer, steps_ok, stopped_at_failure,
    lemma_steps_ok_push, lemma_stop_push,
};
use crate::endian::{Endian, bytes_of, lemma_one_byte};

pub mod who_am_i;
pub mod power_mode;
pub mod lepton_config;
pub mod quark_config;
pub mod boson_config;
pub mod lepton_data;
pub mod quark_data;
pub mod boson_data;
pub mod fifo_config;
pub mod blk_sel_w;
pub mod maddr_w;
pub mod m_w;
pub mod blk_sel_r;
pub mod maddr_r;
pub mod m_r;
pub mod fifo_config5;

verus! {

/// The direct access procedure: transfers go straight to the transport.
#[derive(Copy, Clone, Debug, Default)]
pub struct StandardAccessProc;

/// The banked access procedure: a transfer of one byte at address `A` of bank 1 selects
/// the bank, sets the bank address to `A`, moves the byte through the bank's data port
/// and selects bank 0 again. A step that fails ends the sequence with its error, and may
/// leave bank 1 selected.
#[derive(Copy, Clone, Debug, Default)]
pub struct Mreg1;

/// The data moved by the data-port transfer of a banked transfer that follows `before`.
pub open spec fn port_data(before: Seq<Transfer>, after: Seq<Transfer>) -> Seq<u8> {
    after[before.len() + 4int].2
}

/// `after` is `before` followed by a banked read of `data` at `address` of bank 1, in
/// strict order: select bank 1 (the select register read, then written), set the bank
/// address (read, then written), read one byte through the data port, select bank 0
/// again (read, then written).
pub open spec fn banked_read(
    before: Seq<Transfer>,
    after: Seq<Transfer>,
    address: u64,
    data: Seq<u8>,
) -> bool {
    let n = before.len() as int;
    &&& after.len() == n + 7
    &&& after.subrange(0, n) == before
    &&& !after[n].0 && after[n].1 == 0x110 && after[n].2.len() == 1
    &&& after[n + 1].0 && after[n + 1].1 == 0x110 && after[n + 1].2 == bytes_of(1, 1, Endian::Big)
    &&& !after[n + 2].0 && after[n + 2].1 == 0x111 && after[n + 2].2.len() == 4
    &&& after[n + 3].0 && after[n + 3].1 == 0x111 && after[n + 3].2 == bytes_of(address, 4, Endian::Big)
    &&& !after[n + 4].0 && after[n + 4].1 == 0x115 && after[n + 4].2 == data && data.len() == 1
    &&& !after[n + 5].0 && after[n + 5].1 == 0x110 && after[n + 5].2.len() == 1
    &&& after[n + 6].0 && after[n + 6].1 == 0x110 && after[n + 6].2 == bytes_of(0, 1, Endian::Big)
}

/// `after` is `before` followed by a banked write of `data` at `address` of bank 1, in
/// strict order: select bank 1, set the bank address, write one byte through the data
/// port, select bank 0 again (each register update read first, then written).
pub open spec fn banked_write(
    before: Seq<Transfer>,
    after: Seq<Transfer>,
    address: u64,
    data: Seq<u8>,
) -> bool {
    let n = before.len() as int;
    &&& after.len() == n + 7
    &&& after.subrange(0, n) == before
    &&& !after[n].0 && after[n].1 == 0x100 && after[n].2.len() == 1
    &&& after[n + 1].0 && after[n + 1].1 == 0x100 && after[n + 1].2 == bytes_of(1, 1, Endian::Big)
    &&& !after[n + 2].0 && after[n + 2].1 == 0x101 && after[n + 2].2.len() == 4
    &&& after[n + 3].0 && after[n + 3].1 == 0x101 && after[n + 3].2 == bytes_of(address, 4, Endian::Big)
    &&& after[n + 4].0 && after[n + 4].1 == 0x105 && after[n + 4].2 == data && data.len() == 1
    &&& !after[n + 5].0 && after[n + 5].1 == 0x100 && after[n + 5].2.len() == 1
    &&& after[n + 6].0 && after[n + 6].1 == 0x100 && after[n + 6].2 == bytes_of(0, 1, Endian::Big)
}

/// Whether `t` is step `k` of a banked read of `address`: read, then write 1 to the select
/// register; read, then write `address` to the bank-address register; read the data port;
/// read, then write 0 to the select register.
pub open spec fn banked_read_step(t: Transfer, k: int, address: u64) -> bool {
    if k == 0 {
        !t.0 && t.1 == 0x110
    } else if k == 1 {
        t.0 && t.1 == 0x110 && t.2 == bytes_of(1, 1, Endian::Big)
    } else if k == 2 {
        !t.0 && t.1 == 0x111
    } else if k == 3 {
        t.0 && t.1 == 0x111 && t.2 == bytes_of(address, 4, Endian::Big)
    } else if k == 4 {
        !t.0 && t.1 == 0x115
    } else if k == 5 {
        !t.0 && t.1 == 0x110
    } else {
        t.0 && t.1 == 0x110 && t.2 == bytes_of(0, 1, Endian::Big)
    }
}

/// Whether `t` is step `k` of a banked write of `data` at `address`: the same steps on the
/// write-side registers, with the data port written.
pub open spec fn banked_write_step(t: Transfer, k: int, address: u64, data: Seq<u8>) -> bool {
    if k == 0 {
        !t.0 && t.1 == 0x100
    } else if k == 1 {
        t.0 && t.1 == 0x100 && t.2 == bytes_of(1, 1, Endian::Big)
    } else if k == 2 {
        !t.0 && t.1 == 0x101
    } else if k == 3 {
        t.0 && t.1 == 0x101 && t.2 == bytes_of(address, 4, Endian::Big)
    } else if k == 4 {
        t.0 && t.1 == 0x105 && t.2 == data
    } else if k == 5 {
        !t.0 && t.1 == 0x100
    } else {
        t.0 && t.1 == 0x100 && t.2 == bytes_of(0, 1, Endian::Big)
    }
}

/// `after` is `before` followed by the first steps, at most seven, of a banked read: a
/// failed step ends the sequence, so what was done is always a prefix of it.
pub open spec fn banked_read_prefix(before: Seq<Transfer>, after: Seq<Transfer>, address: u64) -> bool {
    let n = before.len() as int;
    &&& n <= after.len() <= n + 7
    &&& after.subrange(0, n) == before
    &&& forall|i: int| n <= i < after.len() ==> banked_read_step(#[trigger] after[i], i - n, address)
}

/// `after` is `before` followed by the first steps, at most seven, of a banked write.
pub open spec fn banked_write_prefix(
    before: Seq<Transfer>,
    after: Seq<Transfer>,
    address: u64,
    data: Seq<u8>,
) -> bool {
    let n = before.len() as int;
    &&& n <= after.len() <= n + 7
    &&& after.subrange(0, n) == before
    &&& forall|i: int|
        n <= i < after.len() ==> banked_write_step(#[trigger] after[i], i - n, address, data)
}

proof fn lemma_read_prefix_push(before: Seq<Transfer>, prev: Seq<Transfer>, t: Transfer, address: u64)
    requires
        banked_read_prefix(before, prev, address),
        prev.len() < before.len() + 7,
        banked_read_step(t, prev.len() - before.len(), address),
    ensures
        banked_read_prefix(before, prev.push(t), address),
{
    let after = prev.push(t);
    assert(after.subrange(0, before.len() as int) =~= prev.subrange(0, before.len() as int));
    assert forall|i: int| before.len() <= i < after.len() implies banked_read_step(
        #[trigger] after[i],
        i - before.len(),
        address,
    ) by {
        if i < prev.len() {
            assert(after[i] == prev[i]);
        }
    }
}

proof fn lemma_write_prefix_push(
    before: Seq<Transfer>,
    prev: Seq<Transfer>,
    t: Transfer,
    address: u64,
    data: Seq<u8>,
)
    requires
        banked_write_prefix(before, prev, address, data),
        prev.len() < before.len() + 7,
        banked_write_step(t, prev.len() - before.len(), address, data),
    ensures
        banked_write_prefix(before, prev.push(t), address, data),
{
    let after = prev.push(t);
    assert(after.subrange(0, before.len() as int) =~= prev.subrange(0, before.len() as int));
    assert forall|i: int| before.len() <= i < after.len() implies banked_write_step(
        #[trigger] after[i],
        i - before.len(),
        address,
        data,
    ) by {
        if i < prev.len() {
            assert(after[i] == prev[i]);
        }
    }
}

/// The sensor: its transport, one instance of each access procedure, and the history of
/// the transfers it has handed the transport.
pub struct QuantumFluxSensor<C: RegComms<4, u32>> {
    pub comms: C,
    pub mreg_1: Mreg1,
    pub standard: StandardAccessProc,
    pub transfers: Ghost<Seq<Transfer>>,
}

impl<C: RegComms<4, u32>> RegCommsAccessProc<QuantumFluxSensor<C>, 4, u32> for StandardAccessProc {
    fn proc_read(&self, peripheral: &mut QuantumFluxSensor<C>, reg_address: u32, buf: &mut [u8]) -> (r: Result<
        usize,
        RegCommsError,
    >)
        ensures
            final(peripheral).transfers@ == old(peripheral).transfers@.push(
                (false, reg_address as u64, final(buf)@, r),
            ),
    {
        let r = peripheral.comms.comms_read(reg_address, buf);
        peripheral.transfers = Ghost(peripheral.transfers@.push((false, reg_address as u64, buf@, r)));
        r
    }

    fn proc_write(&self, peripheral: &mut QuantumFluxSensor<C>, reg_address: u32, buf: &[u8]) -> (r: Result<
        usize,
        RegCommsError,
    >)
        ensures
            final(peripheral).transfers@ == old(peripheral).transfers@.push(
                (true, reg_address as u64, buf@, r),
            ),
    {
        let r = peripheral.comms.comms_write(reg_address, buf);
        peripheral.transfers = Ghost(peripheral.transfers@.push((true, reg_address as u64, buf@, r)));
        r
    }
}

impl<C: RegComms<4, u32>> RegCommsAccessProc<QuantumFluxSensor<C>, 4, u32> for Mreg1 {
    fn proc_read(&self, peripheral: &mut QuantumFluxSensor<C>, reg_address: u32, buf: &mut [u8]) -> (r: Result<
        usize,
        RegCommsError,
    >)
        ensures
            old(buf)@.len() != 1 ==> r == Err::<usize, RegCommsError>(RegCommsError::IncompleteTransfer)
                && final(peripheral).transfers@ == old(peripheral).transfers@,
            old(buf)@.len() == 1 ==> banked_read_prefix(
                old(peripheral).transfers@,
                final(peripheral).transfers@,
                reg_address as u64,
            ),
            old(buf)@.len() == 1 ==> (r is Ok <==> final(peripheral).transfers@.len()
                == old(peripheral).transfers@.len() + 7 && steps_ok(
                old(peripheral).transfers@,
                final(peripheral).transfers@,
            )),
            old(buf)@.len() == 1 && r is Err ==> stopped_at_failure(
                old(peripheral).transfers@,
                final(peripheral).transfers@,
            ) && r == Err::<usize, RegCommsError>(final(peripheral).transfers@.last().3->Err_0),
            r is Ok ==> r == Ok::<usize, RegCommsError>(1),
            r is Ok ==> banked_read(
                old(peripheral).transfers@,
                final(peripheral).transfers@,
                reg_address as u64,
                final(buf)@,
            ),
    {
        if buf.len() != 1 {
            return Err(RegCommsError::IncompleteTransfer);
        }
        let ghost start = peripheral.transfers@;
        proof {
            assert(start.subrange(0, start.len() as int) =~= start);
        }
        let ghost prev = peripheral.transfers@;
        let res = peripheral.blk_sel_r().read();
        proof {
            lemma_read_prefix_push(start, prev, peripheral.transfers@.last(), reg_address as u64);
            assert(peripheral.transfers@ == prev.push(peripheral.transfers@.last()));
            if res is Ok {
                lemma_steps_ok_push(start, prev, peripheral.transfers@.last());
            } else {
                lemma_stop_push(start, prev, peripheral.transfers@.last());
            }
        }
        let mut sel = match res {
            Ok(v) => v,
            Err(e) => return Err(e),
        };
        sel.set(1);
        let ghost prev = peripheral.transfers@;
        let res = peripheral.blk_sel_r().write(sel);
        proof {
            lemma_read_prefix_push(start, prev, peripheral.transfers@.last(), reg_address as u64);
            assert(peripheral.transfers@ == prev.push(peripheral.transfers@.last()));
            if res is Ok {
                lemma_steps_ok_push(start, prev, peripheral.transfers@.last());
            } else {
                lemma_stop_push(start, prev, peripheral.transfers@.last());
            }
        }
        if let Err(e) = res {
            return Err(e);
        }
        let ghost prev = peripheral.transfers@;
        let res = peripheral.maddr_r().read();
        proof {
            lemma_read_prefix_push(start, prev, peripheral.transfers@.last(), reg_address as u64);
            assert(peripheral.transfers@ == prev.push(peripheral.transfers@.last()));
            if res is Ok {
                lemma_steps_ok_push(start, prev, peripheral.transfers@.last());
            } else {
                lemma_stop_push(start, prev, peripheral.transfers@.last());
            }
        }
        let mut maddr = match res {
            Ok(v) => v,
            Err(e) => return Err(e),
        };
        maddr.set(reg_address);
        let ghost prev = peripheral.transfers@;
        let res = peripheral.maddr_r().write(maddr);
        proof {
            lemma_read_prefix_push(start, prev, peripheral.transfers@.last(), reg_address as u64);
            assert(peripheral.transfers@ == prev.push(peripheral.transfers@.last()));
            if res is Ok {
                lemma_steps_ok_push(start, prev, peripheral.transfers@.last());
            } else {
                lemma_stop_push(start, prev, peripheral.transfers@.last());
            }
        }
        if let Err(e) = res {
            return Err(e);
        }
        let ghost prev = peripheral.transfers@;
        let res = peripheral.m_r().read();
        proof {
            lemma_read_prefix_push(start, prev, peripheral.transfers@.last(), reg_address as u64);
            assert(peripheral.transfers@ == prev.push(peripheral.transfers@.last()));
            if res is Ok {
                lemma_steps_ok_push(start, prev, peripheral.transfers@.last());
            } else {
                lemma_stop_push(start, prev, peripheral.transfers@.last());
            }
        }
        let val = match res {
            Ok(v) => v.get(),
            Err(e) => return Err(e),
        };
        proof {
            let d = peripheral.transfers@.last().2;
            lemma_one_byte(d[0], Endian::Big);
            assert(d =~= seq![d[0]]);
        }
        buf[0] = val;
        proof {
            assert(buf@ =~= peripheral.transfers@.last().2);
        }
        let ghost prev = peripheral.transfers@;
        let res = peripheral.blk_sel_r().read();
        proof {
            lemma_read_prefix_push(start, prev, peripheral.transfers@.last(), reg_address as u64);
            assert(peripheral.transfers@ == prev.push(peripheral.transfers@.last()));
            if res is Ok {
                lemma_steps_ok_push(start, prev, peripheral.transfers@.last());
            } else {
                lemma_stop_push(start, prev, peripheral.transfers@.last());
            }
        }
        let mut sel = match res {
            Ok(v) => v,
            Err(e) => return Err(e),
        };
        sel.set(0);
        let ghost prev = peripheral.transfers@;
        let res = peripheral.blk_sel_r().write(sel);
        proof {
            lemma_read_prefix_push(start, prev, peripheral.transfers@.last(), reg_address as u64);
            assert(peripheral.transfers@ == prev.push(peripheral.transfers@.last()));
            if res is Ok {
                lemma_steps_ok_push(start, prev, peripheral.transfers@.last());
            } else {
                lemma_stop_push(start, prev, peripheral.transfers@.last());
            }
        }
        match res {
            Ok(()) => Ok(1),
            Err(e) => Err(e),
        }
    }

    fn proc_write(&self, peripheral: &mut QuantumFluxSensor<C>, reg_address: u32, buf: &[u8]) -> (r: Result<
        usize,
        RegCommsError,
    >)
        ensures
            buf@.len() != 1 ==> r == Err::<usize, RegCommsError>(RegCommsError::IncompleteTransfer)
                && final(peripheral).transfers@ == old(peripheral).transfers@,
            buf@.len() == 1 ==> banked_write_prefix(
                old(peripheral).transfers@,
                final(peripheral).transfers@,
                reg_address as u64,
                buf@,
            ),
            buf@.len() == 1 ==> (r is Ok <==> final(peripheral).transfers@.len()
                == old(peripheral).transfers@.len() + 7 && steps_ok(
                old(peripheral).transfers@,
                final(peripheral).transfers@,
            )),
            buf@.len() == 1 && r is Err ==> stopped_at_failure(
                old(peripheral).transfers@,
                final(peripheral).transfers@,
            ) && r == Err::<usize, RegCommsError>(final(peripheral).transfers@.last().3->Err_0),
            r is Ok ==> r == Ok::<usize, RegCommsError>(1),
            r is Ok ==> banked_write(
                old(peripheral).transfers@,
                final(peripheral).transfers@,
                reg_address as u64,
                buf@,
            ),
    {
        if buf.len() != 1 {
            return Err(RegCommsError::IncompleteTransfer);
        }
        let ghost start = peripheral.transfers@;
        proof {
            assert(start.subrange(0, start.len() as int) =~= start);
        }
        let ghost prev = peripheral.transfers@;
        let res = peripheral.blk_sel_w().read();
        proof {
            lemma_write_prefix_push(start, prev, peripheral.transfers@.last(), reg_address as u64, buf@);
            assert(peripheral.transfers@ == prev.push(peripheral.transfers@.last()));
            if res is Ok {
                lemma_steps_ok_push(start, prev, peripheral.transfers@.last());
            } else {
                lemma_stop_push(start, prev, peripheral.transfers@.last());
            }
        }
        let mut sel = match res {
            Ok(v) => v,
            Err(e) => return Err(e),
        };
        sel.set(1);
        let ghost prev = peripheral.transfers@;
        let res = peripheral.blk_sel_w().write(sel);
        proof {
            lemma_write_prefix_push(start, prev, peripheral.transfers@.last(), reg_address as u64, buf@);
            assert(peripheral.transfers@ == prev.push(peripheral.transfers@.last()));
            if res is Ok {
                lemma_steps_ok_push(start, prev, peripheral.transfers@.last());
            } else {
                lemma_stop_push(start, prev, peripheral.transfers@.last());
            }
        }
        if let Err(e) = res {
            return Err(e);
        }
        let ghost prev = peripheral.transfers@;
        let res = peripheral.maddr_w().read();
        proof {
            lemma_write_prefix_push(start, prev, peripheral.transfers@.last(), reg_address as u64, buf@);
            assert(peripheral.transfers@ == prev.push(peripheral.transfers@.last()));
            if res is Ok {
                lemma_steps_ok_push(start, prev, peripheral.transfers@.last());
            } else {
                lemma_stop_push(start, prev, peripheral.transfers@.last());
            }
        }
        let mut maddr = match res {
            Ok(v) => v,
            Err(e) => return Err(e),
        };
        maddr.set(reg_address);
        let ghost prev = peripheral.transfers@;
        let res = peripheral.maddr_w().write(maddr);
        proof {
            lemma_write_prefix_push(start, prev, peripheral.transfers@.last(), reg_address as u64, buf@);
            assert(peripheral.transfers@ == prev.push(peripheral.transfers@.last()));
            if res is Ok {
                lemma_steps_ok_push(start, prev, peripheral.transfers@.last());
            } else {
                lemma_stop_push(start, prev, peripheral.transfers@.last());
            }
        }
        if let Err(e) = res {
            return Err(e);
        }
        proof {
            lemma_one_byte(buf@[0], Endian::Big);
            assert(buf@ =~= seq![buf@[0]]);
        }
        let ghost prev = peripheral.transfers@;
        let res = peripheral.m_w().write_raw(buf[0]);
        proof {
            lemma_write_prefix_push(start, prev, peripheral.transfers@.last(), reg_address as u64, buf@);
            assert(peripheral.transfers@ == prev.push(peripheral.transfers@.last()));
            if res is Ok {
                lemma_steps_ok_push(start, prev, peripheral.transfers@.last());
            } else {
                lemma_stop_push(start, prev, peripheral.transfers@.last());
            }
        }
        if let Err(e) = res {
            return Err(e);
        }
        let ghost prev = peripheral.transfers@;
        let res = peripheral.blk_sel_w().read();
        proof {
            lemma_write_prefix_push(start, prev, peripheral.transfers@.last(), reg_address as u64, buf@);
            assert(peripheral.transfers@ == prev.push(peripheral.transfers@.last()));
            if res is Ok {
                lemma_steps_ok_push(start, prev, peripheral.transfers@.last());
            } else {
                lemma_stop_push(start, prev, peripheral.transfers@.last());
            }
        }
        let mut sel = match res {
            Ok(v) => v,
            Err(e) => return Err(e),
        };
        sel.set(0);
        let ghost prev = peripheral.transfers@;
        let res = peripheral.blk_sel_w().write(sel);
        proof {
            lemma_write_prefix_push(start, prev, peripheral.transfers@.last(), reg_address as u64, buf@);
            assert(peripheral.transfers@ == prev.push(peripheral.transfers@.last()));
            if res is Ok {
                lemma_steps_ok_push(start, prev, peripheral.transfers@.last());
            } else {
                lemma_stop_push(start, prev, peripheral.transfers@.last());
            }
        }
        match res {
            Ok(()) => Ok(1),
            Err(e) => Err(e),
        }
    }
}

impl<C: RegComms<4, u32>> QuantumFluxSensor<C> {
    /// A sensor over a transport, with its access procedures in place.
    pub fn new(comms: C) -> (r: Self)
        ensures
            r.comms == comms,
            r.transfers@ == Seq::<Transfer>::empty(),
    {
        QuantumFluxSensor {
            comms,
            mreg_1: Mreg1,
            standard: StandardAccessProc,
            transfers: Ghost(Seq::empty()),
        }
    }

    pub fn who_am_i<'a>(&'a mut self) -> (r: who_am_i::WhoAmI<'a, C>)
        ensures
            *r.0 == *old(self),
            *final(self) == *final(r.0),
    {
        who_am_i::WhoAmI(self)
    }

    pub fn power_mode<'a>(&'a mut self) -> (r: power_mode::PowerMode<'a, C>)
        ensures
            *r.0 == *old(self),
            *final(self) == *final(r.0),
    {
        power_mode::PowerMode(self)
    }

    pub fn lepton_config<'a>(&'a mut self) -> (r: lepton_config::LeptonConfig<'a, C>)
        ensures
            *r.0 == *old(self),
            *final(self) == *final(r.0),
    {
        lepton_config::LeptonConfig(self)
    }

    pub fn quark_config<'a>(&'a mut self) -> (r: quark_config::QuarkConfig<'a, C>)
        ensures
            *r.0 == *old(self),
            *final(self) == *final(r.0),
    {
        quark_config::QuarkConfig(self)
    }

    pub fn boson_config<'a>(&'a mut self) -> (r: boson_config::BosonConfig<'a, C>)
        ensures
            *r.0 == *old(self),
            *final(self) == *final(r.0),
    {
        boson_config::BosonConfig(self)
    }

    pub fn lepton_data<'a>(&'a mut self) -> (r: lepton_data::LeptonData<'a, C>)
        ensures
            *r.0 == *old(self),
            *final(self) == *final(r.0),
    {
        lepton_data::LeptonData(self)
    }

    pub fn quark_data<'a>(&'a mut self) -> (r: quark_data::QuarkData<'a, C>)
        ensures
            *r.0 == *old(self),
            *final(self) == *final(r.0),
    {
        quark_data::QuarkData(self)
    }

    pub fn boson_data<'a>(&'a mut self) -> (r: boson_data::BosonData<'a, C>)
        ensures
            *r.0 == *old(self),
            *final(self) == *final(r.0),
    {
        boson_data::BosonData(self)
    }

    pub fn fifo_config<'a>(&'a mut self) -> (r: fifo_config::FifoConfig<'a, C>)
        ensures
            *r.0 == *old(self),
            *final(self) == *final(r.0),
    {
        fifo_config::FifoConfig(self)
    }

    pub fn blk_sel_w<'a>(&'a mut self) -> (r: blk_sel_w::BlkSelW<'a, C>)
        ensures
            *r.0 == *old(self),
            *final(self) == *final(r.0),
    {
        blk_sel_w::BlkSelW(self)
    }

    pub fn maddr_w<'a>(&'a mut self) -> (r: maddr_w::MaddrW<'a, C>)
        ensures
            *r.0 == *old(self),
            *final(self) == *final(r.0),
    {
        maddr_w::MaddrW(self)
    }

    pub fn m_w<'a>(&'a mut self) -> (r: m_w::MW<'a, C>)
        ensures
            *r.0 == *old(self),
            *final(self) == *final(r.0),
    {
        m_w::MW(self)
    }

    pub fn blk_sel_r<'a>(&'a mut self) -> (r: blk_sel_r::BlkSelR<'a, C>)
        ensures
            *r.0 == *old(self),
            *final(self) == *final(r.0),
    {
        blk_sel_r::BlkSelR(self)
    }

    pub fn maddr_r<'a>(&'a mut self) -> (r: maddr_r::MaddrR<'a, C>)
        ensures
            *r.0 == *old(self),
            *final(self) == *final(r.0),
    {
        maddr_r::MaddrR(self)
    }

    pub fn m_r<'a>(&'a mut self) -> (r: m_r::MR<'a, C>)
        ensures
            *r.0 == *old(self),
            *final(self) == *final(r.0),
    {
        m_r::MR(self)
    }

    pub fn fifo_config5<'a>(&'a mut self) -> (r: fifo_config5::FifoConfig5<'a, C>)
        ensures
            *r.0 == *old(self),
            *final(self) == *final(r.0),
    {
        fifo_config5::FifoConfig5(self)
    }
}

} // verus!
