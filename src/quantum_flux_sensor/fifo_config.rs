//! The `fifo_config` register at 0x20.
use vstd::prelude::*;
use crate::bits::{
    get_field, set_field, field_of, with_field, reset_field, bit_of, lemma_field_fits,
    lemma_set_fits, lemma_fits_bound, lemma_fits_wider, lemma_one_bit_field,
};
use crate::endian::{Endian, word_from_bytes, word_of, word_to_bytes, bytes_of, lemma_word_fits};
use crate::comms::{
    RegComms, RegCommsAccessProc, RegCommsError, one_read, one_write, read_then_write, read_back,
    failed_read, last_outcome,
};
use crate::quantum_flux_sensor::{QuantumFluxSensor};

verus! {

/// Access to the `fifo_config` register of a borrowed peripheral.
pub struct FifoConfig<'a, C: RegComms<4, u32>>(pub &'a mut QuantumFluxSensor<C>);

impl<'a, C: RegComms<4, u32>> FifoConfig<'a, C> {
    /// Reads the register: 1 byte(s) through its access procedure, decoded in big-endian order.
    pub fn read(self) -> (r: Result<FifoConfigVal, RegCommsError>)
        ensures
            one_read(old(self.0).transfers@, final(self.0).transfers@, 0x20, 1),
            r is Ok <==> final(self.0).transfers@.last().3 is Ok,
            r is Ok ==> r->Ok_0.0 as u64 == word_of(final(self.0).transfers@.last().2, Endian::Big),
            r is Err ==> r->Err_0 == final(self.0).transfers@.last().3->Err_0,
    {
        let mut buf = [0u8; 1];
        let access = self.0.standard;
        let transferred = access.proc_read(self.0, 0x20u32, &mut buf);
        match transferred {
            Ok(_) => Ok(FifoConfigVal(decode(&buf))),
            Err(e) => Err(e),
        }
    }

    /// Writes the value's low 1 byte(s), in big-endian order, through the register's access
    /// procedure.
    pub fn write(self, val: FifoConfigVal) -> (r: Result<(), RegCommsError>)
        ensures
            one_write(
                old(self.0).transfers@,
                final(self.0).transfers@,
                0x20,
                bytes_of(val.0 as u64, 1, Endian::Big),
            ),
            r == last_outcome(final(self.0).transfers@),
    {
        let buf = word_to_bytes(val.0 as u64, 1, Endian::Big);
        let access = self.0.standard;
        let transferred = access.proc_write(self.0, 0x20u32, buf.as_slice());
        match transferred {
            Ok(_) => Ok(()),
            Err(e) => Err(e),
        }
    }

    /// Writes a raw storage word.
    pub fn write_raw(self, raw_val: u8) -> (r: Result<(), RegCommsError>)
        ensures
            one_write(
                old(self.0).transfers@,
                final(self.0).transfers@,
                0x20,
                bytes_of(raw_val as u64, 1, Endian::Big),
            ),
            r == last_outcome(final(self.0).transfers@),
    {
        self.write(FifoConfigVal(raw_val))
    }

    /// Reads the register, applies `f` and writes the result back; not atomic. A failed
    /// read is returned as it is, with no write.
    pub fn modify<F: FnOnce(FifoConfigVal) -> FifoConfigVal>(self, f: F) -> (r: Result<(), RegCommsError>)
        requires
            forall|v: FifoConfigVal| f.requires((v,)),
        ensures
            r == last_outcome(final(self.0).transfers@),
            failed_read(old(self.0).transfers@, final(self.0).transfers@, 0x20, 1) || (read_then_write(
                old(self.0).transfers@,
                final(self.0).transfers@,
                0x20,
                1,
            )
                && final(self.0).transfers@[old(self.0).transfers@.len() as int].3 is Ok && exists|v: FifoConfigVal|
                f.ensures(
                    (FifoConfigVal(word_of(read_back(old(self.0).transfers@, final(self.0).transfers@), Endian::Big) as u8),),
                    v,
                )
                    && final(self.0).transfers@.last().2 == bytes_of(v.0 as u64, 1, Endian::Big)),
    {
        let peripheral = self.0;
        match FifoConfig(&mut *peripheral).read() {
            Ok(orig_val) => {
                let ghost d = peripheral.transfers@.last().2;
                let new_val = f(orig_val);
                proof {
                    assert(orig_val == FifoConfigVal(word_of(d, Endian::Big) as u8));
                }
                FifoConfig(peripheral).write(new_val)
            },
            Err(e) => Err(e),
        }
    }

    /// Writes the declared reset value, without reading first.
    pub fn reset(self) -> (r: Result<(), RegCommsError>)
        ensures
            one_write(
                old(self.0).transfers@,
                final(self.0).transfers@,
                0x20,
                bytes_of(0xe3u64 as u64, 1, Endian::Big),
            ),
            r == last_outcome(final(self.0).transfers@),
    {
        self.write(FifoConfigVal::reset_val())
    }
}

/// The storage word that 1 transferred byte(s) denote.
fn decode(buf: &[u8; 1]) -> (r: u8)
    ensures
        r as u64 == word_of(buf@, Endian::Big),
{
    let w = word_from_bytes(buf, Endian::Big);
    proof {
        lemma_word_fits(buf@, Endian::Big);
        lemma_fits_wider(w, 8, 8);
        lemma_fits_bound(w);
    }
    w as u8
}

/// The value of the `fifo_config` register.
pub struct FifoConfigVal(pub u8);

impl FifoConfigVal {
    pub fn get(&self) -> (r: u8)
        ensures
            r == self.0,
    {
        self.0
    }

    pub fn zero() -> (r: Self)
        ensures
            r.0 == 0,
    {
        Self(0)
    }

    pub fn set(&mut self, val: u8)
        ensures
            final(self).0 == val,
    {
        self.0 = val;
    }

    /// The declared reset value.
    pub fn reset_val() -> (r: Self)
        ensures
            r.0 == 0xe3,
    {
        Self(0xe3)
    }

    pub fn fifo_src<'a>(&'a mut self) -> (r: FifoSrc<'a>)
        ensures
            *r.0 == *old(self),
            *final(self) == *final(r.0),
    {
        FifoSrc(self)
    }

    pub fn fifo_fmt<'a>(&'a mut self) -> (r: FifoFmt<'a>)
        ensures
            *r.0 == *old(self),
            *final(self) == *final(r.0),
    {
        FifoFmt(self)
    }

    pub fn fifo_en<'a>(&'a mut self) -> (r: FifoEn<'a>)
        ensures
            *r.0 == *old(self),
            *final(self) == *final(r.0),
    {
        FifoEn(self)
    }

    pub fn fifo_decimation<'a>(&'a mut self) -> (r: FifoDecimation<'a>)
        ensures
            *r.0 == *old(self),
            *final(self) == *final(r.0),
    {
        FifoDecimation(self)
    }
}

/// The `fifo_src` field: bits [7:5] of `FifoConfigVal`.
pub struct FifoSrc<'a>(pub &'a mut FifoConfigVal);

impl<'a> FifoSrc<'a> {
    pub fn bits(&self) -> (r: u8)
        ensures
            r as u64 == field_of(old(self.0).0 as u64, 5, 3),
    {
        let v = get_field(self.0.0 as u64, 5, 3);
        proof {
            lemma_field_fits(self.0.0 as u64, 5, 3, 8);
            lemma_fits_bound(v);
        }
        v as u8
    }

    /// Sets the field, dropping the bits of `val` above its width.
    pub fn set(self, val: u8) -> (r: &'a mut FifoConfigVal)
        ensures
            r.0 as u64 == with_field(old(self.0).0 as u64, 5, 3, val as u64),
            *final(self.0) == *final(r),
    {
        let v = val as u64;
        let w = set_field(self.0.0 as u64, 5, 3, v);
        proof {
            lemma_fits_bound(self.0.0 as u64);
            lemma_set_fits(self.0.0 as u64, 5, 3, v, 8);
            lemma_fits_bound(w);
        }
        self.0.0 = w as u8;
        self.0
    }

    /// Restores the field to its bits of the reset value 0xe3.
    pub fn reset(self) -> (r: &'a mut FifoConfigVal)
        ensures
            r.0 as u64 == reset_field(old(self.0).0 as u64, 5, 3, 0xe3),
            *final(self.0) == *final(r),
    {
        let v = get_field(0xe3u64, 5, 3);
        let w = set_field(self.0.0 as u64, 5, 3, v);
        proof {
            lemma_fits_bound(self.0.0 as u64);
            lemma_set_fits(self.0.0 as u64, 5, 3, v, 8);
            lemma_fits_bound(w);
        }
        self.0.0 = w as u8;
        self.0
    }
}

/// The `fifo_fmt` field: bits [1:0] of `FifoConfigVal`.
pub struct FifoFmt<'a>(pub &'a mut FifoConfigVal);

impl<'a> FifoFmt<'a> {
    pub fn bits(&self) -> (r: u8)
        ensures
            r as u64 == field_of(old(self.0).0 as u64, 0, 2),
    {
        let v = get_field(self.0.0 as u64, 0, 2);
        proof {
            lemma_field_fits(self.0.0 as u64, 0, 2, 8);
            lemma_fits_bound(v);
        }
        v as u8
    }

    /// Sets the field, dropping the bits of `val` above its width.
    pub fn set(self, val: u8) -> (r: &'a mut FifoConfigVal)
        ensures
            r.0 as u64 == with_field(old(self.0).0 as u64, 0, 2, val as u64),
            *final(self.0) == *final(r),
    {
        let v = val as u64;
        let w = set_field(self.0.0 as u64, 0, 2, v);
        proof {
            lemma_fits_bound(self.0.0 as u64);
            lemma_set_fits(self.0.0 as u64, 0, 2, v, 8);
            lemma_fits_bound(w);
        }
        self.0.0 = w as u8;
        self.0
    }

    /// Restores the field to its bits of the reset value 0xe3.
    pub fn reset(self) -> (r: &'a mut FifoConfigVal)
        ensures
            r.0 as u64 == reset_field(old(self.0).0 as u64, 0, 2, 0xe3),
            *final(self.0) == *final(r),
    {
        let v = get_field(0xe3u64, 0, 2);
        let w = set_field(self.0.0 as u64, 0, 2, v);
        proof {
            lemma_fits_bound(self.0.0 as u64);
            lemma_set_fits(self.0.0 as u64, 0, 2, v, 8);
            lemma_fits_bound(w);
        }
        self.0.0 = w as u8;
        self.0
    }
}

/// The `fifo_en` field: bit 2 of `FifoConfigVal`.
pub struct FifoEn<'a>(pub &'a mut FifoConfigVal);

impl<'a> FifoEn<'a> {
    pub fn bit(&self) -> (r: bool)
        ensures
            r == bit_of(old(self.0).0 as u64, 2),
    {
        proof {
            lemma_one_bit_field(self.0.0 as u64, 2);
        }
        get_field(self.0.0 as u64, 2, 1) == 1
    }

    pub fn bit_is_set(&self) -> (r: bool)
        ensures
            r == bit_of(old(self.0).0 as u64, 2),
    {
        proof {
            lemma_one_bit_field(self.0.0 as u64, 2);
        }
        get_field(self.0.0 as u64, 2, 1) == 1
    }

    /// Sets the bit to `val`, leaving the other bits alone.
    pub fn assign(self, val: bool) -> (r: &'a mut FifoConfigVal)
        ensures
            r.0 as u64 == with_field(old(self.0).0 as u64, 2, 1, if val { 1 } else { 0 }),
            *final(self.0) == *final(r),
    {
        let v: u64 = if val { 1 } else { 0 };
        let w = set_field(self.0.0 as u64, 2, 1, v);
        proof {
            lemma_fits_bound(self.0.0 as u64);
            lemma_set_fits(self.0.0 as u64, 2, 1, v, 8);
            lemma_fits_bound(w);
        }
        self.0.0 = w as u8;
        self.0
    }

    pub fn set_bit(self) -> (r: &'a mut FifoConfigVal)
        ensures
            r.0 as u64 == with_field(old(self.0).0 as u64, 2, 1, 1),
            *final(self.0) == *final(r),
    {
        self.assign(true)
    }

    pub fn clear_bit(self) -> (r: &'a mut FifoConfigVal)
        ensures
            r.0 as u64 == with_field(old(self.0).0 as u64, 2, 1, 0),
            *final(self.0) == *final(r),
    {
        self.assign(false)
    }

    /// Restores the field to its bits of the reset value 0xe3.
    pub fn reset(self) -> (r: &'a mut FifoConfigVal)
        ensures
            r.0 as u64 == reset_field(old(self.0).0 as u64, 2, 1, 0xe3),
            *final(self.0) == *final(r),
    {
        let v = get_field(0xe3u64, 2, 1);
        let w = set_field(self.0.0 as u64, 2, 1, v);
        proof {
            lemma_fits_bound(self.0.0 as u64);
            lemma_set_fits(self.0.0 as u64, 2, 1, v, 8);
            lemma_fits_bound(w);
        }
        self.0.0 = w as u8;
        self.0
    }
}

/// The `fifo_decimation` field: bits [4:3] of `FifoConfigVal`.
pub struct FifoDecimation<'a>(pub &'a mut FifoConfigVal);

impl<'a> FifoDecimation<'a> {
    pub fn bits(&self) -> (r: u8)
        ensures
            r as u64 == field_of(old(self.0).0 as u64, 3, 2),
    {
        let v = get_field(self.0.0 as u64, 3, 2);
        proof {
            lemma_field_fits(self.0.0 as u64, 3, 2, 8);
            lemma_fits_bound(v);
        }
        v as u8
    }

    /// Sets the field, dropping the bits of `val` above its width.
    pub fn set(self, val: u8) -> (r: &'a mut FifoConfigVal)
        ensures
            r.0 as u64 == with_field(old(self.0).0 as u64, 3, 2, val as u64),
            *final(self.0) == *final(r),
    {
        let v = val as u64;
        let w = set_field(self.0.0 as u64, 3, 2, v);
        proof {
            lemma_fits_bound(self.0.0 as u64);
            lemma_set_fits(self.0.0 as u64, 3, 2, v, 8);
            lemma_fits_bound(w);
        }
        self.0.0 = w as u8;
        self.0
    }

    /// Restores the field to its bits of the reset value 0xe3.
    pub fn reset(self) -> (r: &'a mut FifoConfigVal)
        ensures
            r.0 as u64 == reset_field(old(self.0).0 as u64, 3, 2, 0xe3),
            *final(self.0) == *final(r),
    {
        let v = get_field(0xe3u64, 3, 2);
        let w = set_field(self.0.0 as u64, 3, 2, v);
        proof {
            lemma_fits_bound(self.0.0 as u64);
            lemma_set_fits(self.0.0 as u64, 3, 2, v, 8);
            lemma_fits_bound(w);
        }
        self.0.0 = w as u8;
        self.0
    }
}

} // verus!
