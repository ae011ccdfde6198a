//! The `blk_sel_w` register at 0x100.
use vstd::prelude::*;
use crate::bits::{lemma_fits_bound, lemma_fits_wider};
use crate::endian::{Endian, word_from_bytes, word_of, word_to_bytes, bytes_of, lemma_word_fits};
use crate::comms::{
    RegComms, RegCommsAccessProc, RegCommsError, one_read, one_write, read_then_write, read_back,
    failed_read, last_outcome,
};
use crate::quantum_flux_sensor::{QuantumFluxSensor};

verus! {

/// Access to the `blk_sel_w` register of a borrowed peripheral.
pub struct BlkSelW<'a, C: RegComms<4, u32>>(pub &'a mut QuantumFluxSensor<C>);

impl<'a, C: RegComms<4, u32>> BlkSelW<'a, C> {
    /// Reads the register: 1 byte(s) through its access procedure, decoded in big-endian order.
    pub fn read(self) -> (r: Result<BlkSelWVal, RegCommsError>)
        ensures
            one_read(old(self.0).transfers@, final(self.0).transfers@, 0x100, 1),
            r is Ok <==> final(self.0).transfers@.last().3 is Ok,
            r is Ok ==> r->Ok_0.0 as u64 == word_of(final(self.0).transfers@.last().2, Endian::Big),
            r is Err ==> r->Err_0 == final(self.0).transfers@.last().3->Err_0,
    {
        let mut buf = [0u8; 1];
        let access = self.0.standard;
        let transferred = access.proc_read(self.0, 0x100u32, &mut buf);
        match transferred {
            Ok(_) => Ok(BlkSelWVal(decode(&buf))),
            Err(e) => Err(e),
        }
    }

    /// Writes the value's low 1 byte(s), in big-endian order, through the register's access
    /// procedure.
    pub fn write(self, val: BlkSelWVal) -> (r: Result<(), RegCommsError>)
        ensures
            one_write(
                old(self.0).transfers@,
                final(self.0).transfers@,
                0x100,
                bytes_of(val.0 as u64, 1, Endian::Big),
            ),
            r == last_outcome(final(self.0).transfers@),
    {
        let buf = word_to_bytes(val.0 as u64, 1, Endian::Big);
        let access = self.0.standard;
        let transferred = access.proc_write(self.0, 0x100u32, buf.as_slice());
        match transferred {
            Ok(_) => Ok(()),
            Err(e) => Err(e),
        }
    }

    /// Writes a raw storage word.
    pub fn write_raw(self, raw_val: u8) -> (r: Result<(), RegCommsError>)
        ensures
            one_write(
                old(self.0).transfers@,
                final(self.0).transfers@,
                0x100,
                bytes_of(raw_val as u64, 1, Endian::Big),
            ),
            r == last_outcome(final(self.0).transfers@),
    {
        self.write(BlkSelWVal(raw_val))
    }

    /// Reads the register, applies `f` and writes the result back; not atomic. A failed
    /// read is returned as it is, with no write.
    pub fn modify<F: FnOnce(BlkSelWVal) -> BlkSelWVal>(self, f: F) -> (r: Result<(), RegCommsError>)
        requires
            forall|v: BlkSelWVal| f.requires((v,)),
        ensures
            r == last_outcome(final(self.0).transfers@),
            failed_read(old(self.0).transfers@, final(self.0).transfers@, 0x100, 1) || (read_then_write(
                old(self.0).transfers@,
                final(self.0).transfers@,
                0x100,
                1,
            )
                && final(self.0).transfers@[old(self.0).transfers@.len() as int].3 is Ok && exists|v: BlkSelWVal|
                f.ensures(
                    (BlkSelWVal(word_of(read_back(old(self.0).transfers@, final(self.0).transfers@), Endian::Big) as u8),),
                    v,
                )
                    && final(self.0).transfers@.last().2 == bytes_of(v.0 as u64, 1, Endian::Big)),
    {
        let peripheral = self.0;
        match BlkSelW(&mut *peripheral).read() {
            Ok(orig_val) => {
                let ghost d = peripheral.transfers@.last().2;
                let new_val = f(orig_val);
                proof {
                    assert(orig_val == BlkSelWVal(word_of(d, Endian::Big) as u8));
                }
                BlkSelW(peripheral).write(new_val)
            },
            Err(e) => Err(e),
        }
    }

    /// Writes the declared reset value, without reading first.
    pub fn reset(self) -> (r: Result<(), RegCommsError>)
        ensures
            one_write(
                old(self.0).transfers@,
                final(self.0).transfers@,
                0x100,
                bytes_of(0x0u64 as u64, 1, Endian::Big),
            ),
            r == last_outcome(final(self.0).transfers@),
    {
        self.write(BlkSelWVal::reset_val())
    }
}

/// The storage word that 1 transferred byte(s) denote.
fn decode(buf: &[u8; 1]) -> (r: u8)
    ensures
        r as u64 == word_of(buf@, Endian::Big),
{
    let w = word_from_bytes(buf, Endian::Big);
    proof {
        lemma_word_fits(buf@, Endian::Big);
        lemma_fits_wider(w, 8, 8);
        lemma_fits_bound(w);
    }
    w as u8
}

/// The value of the `blk_sel_w` register.
pub struct BlkSelWVal(pub u8);

impl BlkSelWVal {
    pub fn get(&self) -> (r: u8)
        ensures
            r == self.0,
    {
        self.0
    }

    pub fn zero() -> (r: Self)
        ensures
            r.0 == 0,
    {
        Self(0)
    }

    pub fn set(&mut self, val: u8)
        ensures
            final(self).0 == val,
    {
        self.0 = val;
    }

    /// The declared reset value.
    pub fn reset_val() -> (r: Self)
        ensures
            r.0 == 0x0,
    {
        Self(0x0)
    }
}

} // verus!
