//! The `maddr_r` register at 0x111.
use vstd::prelude::*;
use crate::bits::{lemma_fits_bound, lemma_fits_wider};
use crate::endian::{Endian, word_from_bytes, word_of, word_to_bytes, bytes_of, lemma_word_fits};
use crate::comms::{
    RegComms, RegCommsAccessProc, RegCommsError, one_read, one_write, read_then_write, read_back,
    failed_read, last_outcome,
};
use crate::quantum_flux_sensor::{QuantumFluxSensor};

verus! {

/// Access to the `maddr_r` register of a borrowed peripheral.
pub struct MaddrR<'a, C: RegComms<4, u32>>(pub &'a mut QuantumFluxSensor<C>);

impl<'a, C: RegComms<4, u32>> MaddrR<'a, C> {
    /// Reads the register: 4 byte(s) through its access procedure, decoded in big-endian order.
    pub fn read(self) -> (r: Result<MaddrRVal, RegCommsError>)
        ensures
            one_read(old(self.0).transfers@, final(self.0).transfers@, 0x111, 4),
            r is Ok <==> final(self.0).transfers@.last().3 is Ok,
            r is Ok ==> r->Ok_0.0 as u64 == word_of(final(self.0).transfers@.last().2, Endian::Big),
            r is Err ==> r->Err_0 == final(self.0).transfers@.last().3->Err_0,
    {
        let mut buf = [0u8; 4];
        let access = self.0.standard;
        let transferred = access.proc_read(self.0, 0x111u32, &mut buf);
        match transferred {
            Ok(_) => Ok(MaddrRVal(decode(&buf))),
            Err(e) => Err(e),
        }
    }

    /// Writes the value's low 4 byte(s), in big-endian order, through the register's access
    /// procedure.
    pub fn write(self, val: MaddrRVal) -> (r: Result<(), RegCommsError>)
        ensures
            one_write(
                old(self.0).transfers@,
                final(self.0).transfers@,
                0x111,
                bytes_of(val.0 as u64, 4, Endian::Big),
            ),
            r == last_outcome(final(self.0).transfers@),
    {
        let buf = word_to_bytes(val.0 as u64, 4, Endian::Big);
        let access = self.0.standard;
        let transferred = access.proc_write(self.0, 0x111u32, buf.as_slice());
        match transferred {
            Ok(_) => Ok(()),
            Err(e) => Err(e),
        }
    }

    /// Writes a raw storage word.
    pub fn write_raw(self, raw_val: u32) -> (r: Result<(), RegCommsError>)
        ensures
            one_write(
                old(self.0).transfers@,
                final(self.0).transfers@,
                0x111,
                bytes_of(raw_val as u64, 4, Endian::Big),
            ),
            r == last_outcome(final(self.0).transfers@),
    {
        self.write(MaddrRVal(raw_val))
    }

    /// Reads the register, applies `f` and writes the result back; not atomic. A failed
    /// read is returned as it is, with no write.
    pub fn modify<F: FnOnce(MaddrRVal) -> MaddrRVal>(self, f: F) -> (r: Result<(), RegCommsError>)
        requires
            forall|v: MaddrRVal| f.requires((v,)),
        ensures
            r == last_outcome(final(self.0).transfers@),
            failed_read(old(self.0).transfers@, final(self.0).transfers@, 0x111, 4) || (read_then_write(
                old(self.0).transfers@,
                final(self.0).transfers@,
                0x111,
                4,
            )
                && final(self.0).transfers@[old(self.0).transfers@.len() as int].3 is Ok && exists|v: MaddrRVal|
                f.ensures(
                    (MaddrRVal(word_of(read_back(old(self.0).transfers@, final(self.0).transfers@), Endian::Big) as u32),),
                    v,
                )
                    && final(self.0).transfers@.last().2 == bytes_of(v.0 as u64, 4, Endian::Big)),
    {
        let peripheral = self.0;
        match MaddrR(&mut *peripheral).read() {
            Ok(orig_val) => {
                let ghost d = peripheral.transfers@.last().2;
                let new_val = f(orig_val);
                proof {
                    assert(orig_val == MaddrRVal(word_of(d, Endian::Big) as u32));
                }
                MaddrR(peripheral).write(new_val)
            },
            Err(e) => Err(e),
        }
    }
}

/// The storage word that 4 transferred byte(s) denote.
fn decode(buf: &[u8; 4]) -> (r: u32)
    ensures
        r as u64 == word_of(buf@, Endian::Big),
{
    let w = word_from_bytes(buf, Endian::Big);
    proof {
        lemma_word_fits(buf@, Endian::Big);
        lemma_fits_wider(w, 32, 32);
        lemma_fits_bound(w);
    }
    w as u32
}

/// The value of the `maddr_r` register.
pub struct MaddrRVal(pub u32);

impl MaddrRVal {
    pub fn get(&self) -> (r: u32)
        ensures
            r == self.0,
    {
        self.0
    }

    pub fn zero() -> (r: Self)
        ensures
            r.0 == 0,
    {
        Self(0)
    }

    pub fn set(&mut self, val: u32)
        ensures
            final(self).0 == val,
    {
        self.0 = val;
    }
}

} // verus!
