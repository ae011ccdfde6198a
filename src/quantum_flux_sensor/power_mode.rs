//! The `power_mode` register at 0x1.
use vstd::prelude::*;
use crate::bits::{
    get_field, set_field, field_of, with_field, bit_of, lemma_field_fits, lemma_set_fits,
    lemma_fits_bound, lemma_fits_wider, lemma_one_bit_field,
};
use crate::endian::{Endian, word_from_bytes, word_of, word_to_bytes, bytes_of, lemma_word_fits};
use crate::comms::{
    RegComms, RegCommsAccessProc, RegCommsError, one_read, one_write, read_then_write, read_back,
    failed_read, last_outcome,
};
use crate::quantum_flux_sensor::{QuantumFluxSensor};

verus! {

/// Access to the `power_mode` register of a borrowed peripheral.
pub struct PowerMode<'a, C: RegComms<4, u32>>(pub &'a mut QuantumFluxSensor<C>);

impl<'a, C: RegComms<4, u32>> PowerMode<'a, C> {
    /// Reads the register: 1 byte(s) through its access procedure, decoded in big-endian order.
    pub fn read(self) -> (r: Result<PowerModeVal, RegCommsError>)
        ensures
            one_read(old(self.0).transfers@, final(self.0).transfers@, 0x1, 1),
            r is Ok <==> final(self.0).transfers@.last().3 is Ok,
            r is Ok ==> r->Ok_0.0 as u64 == word_of(final(self.0).transfers@.last().2, Endian::Big),
            r is Err ==> r->Err_0 == final(self.0).transfers@.last().3->Err_0,
    {
        let mut buf = [0u8; 1];
        let access = self.0.standard;
        let transferred = access.proc_read(self.0, 0x1u32, &mut buf);
        match transferred {
            Ok(_) => Ok(PowerModeVal(decode(&buf))),
            Err(e) => Err(e),
        }
    }

    /// Writes the value's low 1 byte(s), in big-endian order, through the register's access
    /// procedure.
    pub fn write(self, val: PowerModeVal) -> (r: Result<(), RegCommsError>)
        ensures
            one_write(
                old(self.0).transfers@,
                final(self.0).transfers@,
                0x1,
                bytes_of(val.0 as u64, 1, Endian::Big),
            ),
            r == last_outcome(final(self.0).transfers@),
    {
        let buf = word_to_bytes(val.0 as u64, 1, Endian::Big);
        let access = self.0.standard;
        let transferred = access.proc_write(self.0, 0x1u32, buf.as_slice());
        match transferred {
            Ok(_) => Ok(()),
            Err(e) => Err(e),
        }
    }

    /// Writes a raw storage word.
    pub fn write_raw(self, raw_val: u8) -> (r: Result<(), RegCommsError>)
        ensures
            one_write(
                old(self.0).transfers@,
                final(self.0).transfers@,
                0x1,
                bytes_of(raw_val as u64, 1, Endian::Big),
            ),
            r == last_outcome(final(self.0).transfers@),
    {
        self.write(PowerModeVal(raw_val))
    }

    /// Reads the register, applies `f` and writes the result back; not atomic. A failed
    /// read is returned as it is, with no write.
    pub fn modify<F: FnOnce(PowerModeVal) -> PowerModeVal>(self, f: F) -> (r: Result<(), RegCommsError>)
        requires
            forall|v: PowerModeVal| f.requires((v,)),
        ensures
            r == last_outcome(final(self.0).transfers@),
            failed_read(old(self.0).transfers@, final(self.0).transfers@, 0x1, 1) || (read_then_write(
                old(self.0).transfers@,
                final(self.0).transfers@,
                0x1,
                1,
            )
                && final(self.0).transfers@[old(self.0).transfers@.len() as int].3 is Ok && exists|v: PowerModeVal|
                f.ensures(
                    (PowerModeVal(word_of(read_back(old(self.0).transfers@, final(self.0).transfers@), Endian::Big) as u8),),
                    v,
                )
                    && final(self.0).transfers@.last().2 == bytes_of(v.0 as u64, 1, Endian::Big)),
    {
        let peripheral = self.0;
        match PowerMode(&mut *peripheral).read() {
            Ok(orig_val) => {
                let ghost d = peripheral.transfers@.last().2;
                let new_val = f(orig_val);
                proof {
                    assert(orig_val == PowerModeVal(word_of(d, Endian::Big) as u8));
                }
                PowerMode(peripheral).write(new_val)
            },
            Err(e) => Err(e),
        }
    }
}

/// The storage word that 1 transferred byte(s) denote.
fn decode(buf: &[u8; 1]) -> (r: u8)
    ensures
        r as u64 == word_of(buf@, Endian::Big),
{
    let w = word_from_bytes(buf, Endian::Big);
    proof {
        lemma_word_fits(buf@, Endian::Big);
        lemma_fits_wider(w, 8, 8);
        lemma_fits_bound(w);
    }
    w as u8
}

/// The value of the `power_mode` register.
pub struct PowerModeVal(pub u8);

impl PowerModeVal {
    pub fn get(&self) -> (r: u8)
        ensures
            r == self.0,
    {
        self.0
    }

    pub fn zero() -> (r: Self)
        ensures
            r.0 == 0,
    {
        Self(0)
    }

    pub fn set(&mut self, val: u8)
        ensures
            final(self).0 == val,
    {
        self.0 = val;
    }

    pub fn pulsed<'a>(&'a mut self) -> (r: Pulsed<'a>)
        ensures
            *r.0 == *old(self),
            *final(self) == *final(r.0),
    {
        Pulsed(self)
    }

    pub fn poweron_mode<'a>(&'a mut self) -> (r: PoweronMode<'a>)
        ensures
            *r.0 == *old(self),
            *final(self) == *final(r.0),
    {
        PoweronMode(self)
    }
}

/// The `pulsed` field: bit 7 of `PowerModeVal`.
pub struct Pulsed<'a>(pub &'a mut PowerModeVal);

impl<'a> Pulsed<'a> {
    pub fn bit(&self) -> (r: bool)
        ensures
            r == bit_of(old(self.0).0 as u64, 7),
    {
        proof {
            lemma_one_bit_field(self.0.0 as u64, 7);
        }
        get_field(self.0.0 as u64, 7, 1) == 1
    }

    pub fn bit_is_set(&self) -> (r: bool)
        ensures
            r == bit_of(old(self.0).0 as u64, 7),
    {
        proof {
            lemma_one_bit_field(self.0.0 as u64, 7);
        }
        get_field(self.0.0 as u64, 7, 1) == 1
    }

    /// Sets the bit to `val`, leaving the other bits alone.
    pub fn assign(self, val: bool) -> (r: &'a mut PowerModeVal)
        ensures
            r.0 as u64 == with_field(old(self.0).0 as u64, 7, 1, if val { 1 } else { 0 }),
            *final(self.0) == *final(r),
    {
        let v: u64 = if val { 1 } else { 0 };
        let w = set_field(self.0.0 as u64, 7, 1, v);
        proof {
            lemma_fits_bound(self.0.0 as u64);
            lemma_set_fits(self.0.0 as u64, 7, 1, v, 8);
            lemma_fits_bound(w);
        }
        self.0.0 = w as u8;
        self.0
    }

    pub fn set_bit(self) -> (r: &'a mut PowerModeVal)
        ensures
            r.0 as u64 == with_field(old(self.0).0 as u64, 7, 1, 1),
            *final(self.0) == *final(r),
    {
        self.assign(true)
    }

    pub fn clear_bit(self) -> (r: &'a mut PowerModeVal)
        ensures
            r.0 as u64 == with_field(old(self.0).0 as u64, 7, 1, 0),
            *final(self.0) == *final(r),
    {
        self.assign(false)
    }
}

/// The `poweron_mode` field: bits [5:3] of `PowerModeVal`.
pub struct PoweronMode<'a>(pub &'a mut PowerModeVal);

impl<'a> PoweronMode<'a> {
    pub fn bits(&self) -> (r: u8)
        ensures
            r as u64 == field_of(old(self.0).0 as u64, 3, 3),
    {
        let v = get_field(self.0.0 as u64, 3, 3);
        proof {
            lemma_field_fits(self.0.0 as u64, 3, 3, 8);
            lemma_fits_bound(v);
        }
        v as u8
    }

    /// Sets the field, dropping the bits of `val` above its width.
    pub fn set(self, val: u8) -> (r: &'a mut PowerModeVal)
        ensures
            r.0 as u64 == with_field(old(self.0).0 as u64, 3, 3, val as u64),
            *final(self.0) == *final(r),
    {
        let v = val as u64;
        let w = set_field(self.0.0 as u64, 3, 3, v);
        proof {
            lemma_fits_bound(self.0.0 as u64);
            lemma_set_fits(self.0.0 as u64, 3, 3, v, 8);
            lemma_fits_bound(w);
        }
        self.0.0 = w as u8;
        self.0
    }
}

} // verus!
