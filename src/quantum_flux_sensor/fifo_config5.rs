//! The `fifo_config5` register at 0x1.
use vstd::prelude::*;
use crate::bits::{
    get_field, set_field, field_of, with_field, bit_of, lemma_field_fits, lemma_set_fits,
    lemma_fits_bound, lemma_fits_wider, lemma_one_bit_field,
};
use crate::endian::{Endian, word_from_bytes, word_of, word_to_bytes, bytes_of, lemma_word_fits};
use crate::comms::{RegComms, RegCommsAccessProc, RegCommsError, steps_ok, stopped_at_failure};
use crate::quantum_flux_sensor::{
    QuantumFluxSensor, banked_read, banked_read_prefix, port_data, banked_write,
    banked_write_prefix,
};

verus! {

/// Access to the `fifo_config5` register of a borrowed peripheral.
pub struct FifoConfig5<'a, C: RegComms<4, u32>>(pub &'a mut QuantumFluxSensor<C>);

impl<'a, C: RegComms<4, u32>> FifoConfig5<'a, C> {
    /// Reads the register: 1 byte(s) through its access procedure, decoded in big-endian order.
    pub fn read(self) -> (r: Result<FifoConfig5Val, RegCommsError>)
        ensures
            banked_read_prefix(old(self.0).transfers@, final(self.0).transfers@, 0x1),
            r is Ok <==> final(self.0).transfers@.len() == old(self.0).transfers@.len() + 7 && steps_ok(
                old(self.0).transfers@,
                final(self.0).transfers@,
            ),
            r is Ok ==> banked_read(
                old(self.0).transfers@,
                final(self.0).transfers@,
                0x1,
                port_data(old(self.0).transfers@, final(self.0).transfers@),
            ),
            r is Ok ==> r->Ok_0.0 as u64 == word_of(
                port_data(old(self.0).transfers@, final(self.0).transfers@),
                Endian::Big,
            ),
            r is Err ==> stopped_at_failure(old(self.0).transfers@, final(self.0).transfers@) && r->Err_0 == final(self.0).transfers@.last().3->Err_0,
    {
        let mut buf = [0u8; 1];
        let access = self.0.mreg_1;
        let transferred = access.proc_read(self.0, 0x1u32, &mut buf);
        match transferred {
            Ok(_) => Ok(FifoConfig5Val(decode(&buf))),
            Err(e) => Err(e),
        }
    }

    /// Writes the value's low 1 byte(s), in big-endian order, through the register's access
    /// procedure.
    pub fn write(self, val: FifoConfig5Val) -> (r: Result<(), RegCommsError>)
        ensures
            banked_write_prefix(
                old(self.0).transfers@,
                final(self.0).transfers@,
                0x1,
                bytes_of(val.0 as u64, 1, Endian::Big),
            ),
            r is Ok <==> final(self.0).transfers@.len() == old(self.0).transfers@.len() + 7 && steps_ok(
                old(self.0).transfers@,
                final(self.0).transfers@,
            ),
            r is Ok ==> banked_write(
                old(self.0).transfers@,
                final(self.0).transfers@,
                0x1,
                bytes_of(val.0 as u64, 1, Endian::Big),
            ),
            r is Err ==> stopped_at_failure(old(self.0).transfers@, final(self.0).transfers@) && r->Err_0 == final(self.0).transfers@.last().3->Err_0,
    {
        let buf = word_to_bytes(val.0 as u64, 1, Endian::Big);
        let access = self.0.mreg_1;
        let transferred = access.proc_write(self.0, 0x1u32, buf.as_slice());
        match transferred {
            Ok(_) => Ok(()),
            Err(e) => Err(e),
        }
    }

    /// Writes a raw storage word.
    pub fn write_raw(self, raw_val: u8) -> (r: Result<(), RegCommsError>)
        ensures
            banked_write_prefix(
                old(self.0).transfers@,
                final(self.0).transfers@,
                0x1,
                bytes_of(raw_val as u64, 1, Endian::Big),
            ),
            r is Ok <==> final(self.0).transfers@.len() == old(self.0).transfers@.len() + 7 && steps_ok(
                old(self.0).transfers@,
                final(self.0).transfers@,
            ),
            r is Ok ==> banked_write(
                old(self.0).transfers@,
                final(self.0).transfers@,
                0x1,
                bytes_of(raw_val as u64, 1, Endian::Big),
            ),
            r is Err ==> stopped_at_failure(old(self.0).transfers@, final(self.0).transfers@) && r->Err_0 == final(self.0).transfers@.last().3->Err_0,
    {
        self.write(FifoConfig5Val(raw_val))
    }

    /// Reads the register, applies `f` and writes the result back; not atomic. A failed
    /// read is returned as it is, with no write.
    pub fn modify<F: FnOnce(FifoConfig5Val) -> FifoConfig5Val>(self, f: F) -> (r: Result<(), RegCommsError>)
        requires
            forall|v: FifoConfig5Val| f.requires((v,)),
        ensures
            (r is Err && banked_read_prefix(old(self.0).transfers@, final(self.0).transfers@, 0x1) && stopped_at_failure(
                old(self.0).transfers@,
                final(self.0).transfers@,
            )
                && r->Err_0 == final(self.0).transfers@.last().3->Err_0) || (final(self.0).transfers@.len() >= old(self.0).transfers@.len() + 7 && banked_read(
                old(self.0).transfers@,
                final(self.0).transfers@.subrange(0, old(self.0).transfers@.len() + 7int),
                0x1,
                port_data(
                    old(self.0).transfers@,
                    final(self.0).transfers@.subrange(0, old(self.0).transfers@.len() + 7int),
                ),
            ) && steps_ok(old(self.0).transfers@, final(self.0).transfers@.subrange(0, old(self.0).transfers@.len() + 7int)) && (r is Ok <==> final(self.0).transfers@.len() == old(self.0).transfers@.len() + 14 && steps_ok(final(self.0).transfers@.subrange(0, old(self.0).transfers@.len() + 7int), final(self.0).transfers@))
                && (r is Err ==> stopped_at_failure(final(self.0).transfers@.subrange(0, old(self.0).transfers@.len() + 7int), final(self.0).transfers@) && r->Err_0 == final(self.0).transfers@.last().3->Err_0)
                && exists|v: FifoConfig5Val|
                f.ensures(
                    (FifoConfig5Val(word_of(port_data(old(self.0).transfers@, final(self.0).transfers@.subrange(0, old(self.0).transfers@.len() + 7int)), Endian::Big) as u8),),
                    v,
                )
                    && banked_write_prefix(final(self.0).transfers@.subrange(0, old(self.0).transfers@.len() + 7int), final(self.0).transfers@, 0x1, bytes_of(v.0 as u64, 1, Endian::Big))),
    {
        let peripheral = self.0;
        let ghost start = peripheral.transfers@;
        match FifoConfig5(&mut *peripheral).read() {
            Ok(orig_val) => {
                let ghost mid = peripheral.transfers@;
                let new_val = f(orig_val);
                proof {
                    assert(orig_val == FifoConfig5Val(word_of(port_data(start, mid), Endian::Big) as u8));
                }
                let r = FifoConfig5(&mut *peripheral).write(new_val);
                proof {
                    assert(peripheral.transfers@.subrange(0, start.len() + 7int) == mid);
                    assert(f.ensures((FifoConfig5Val(word_of(port_data(start, mid), Endian::Big) as u8),), new_val));
                }
                r
            },
            Err(e) => Err(e),
        }
    }
}

/// The storage word that 1 transferred byte(s) denote.
fn decode(buf: &[u8; 1]) -> (r: u8)
    ensures
        r as u64 == word_of(buf@, Endian::Big),
{
    let w = word_from_bytes(buf, Endian::Big);
    proof {
        lemma_word_fits(buf@, Endian::Big);
        lemma_fits_wider(w, 8, 8);
        lemma_fits_bound(w);
    }
    w as u8
}

/// The value of the `fifo_config5` register.
pub struct FifoConfig5Val(pub u8);

impl FifoConfig5Val {
    pub fn get(&self) -> (r: u8)
        ensures
            r == self.0,
    {
        self.0
    }

    pub fn zero() -> (r: Self)
        ensures
            r.0 == 0,
    {
        Self(0)
    }

    pub fn set(&mut self, val: u8)
        ensures
            final(self).0 == val,
    {
        self.0 = val;
    }

    pub fn fifo_20_bit_ext<'a>(&'a mut self) -> (r: Fifo20BitExt<'a>)
        ensures
            *r.0 == *old(self),
            *final(self) == *final(r.0),
    {
        Fifo20BitExt(self)
    }

    pub fn fifo_excludes<'a>(&'a mut self) -> (r: FifoExcludes<'a>)
        ensures
            *r.0 == *old(self),
            *final(self) == *final(r.0),
    {
        FifoExcludes(self)
    }
}

/// The `fifo_20_bit_ext` field: bit 7 of `FifoConfig5Val`.
pub struct Fifo20BitExt<'a>(pub &'a mut FifoConfig5Val);

impl<'a> Fifo20BitExt<'a> {
    pub fn bit(&self) -> (r: bool)
        ensures
            r == bit_of(old(self.0).0 as u64, 7),
    {
        proof {
            lemma_one_bit_field(self.0.0 as u64, 7);
        }
        get_field(self.0.0 as u64, 7, 1) == 1
    }

    pub fn bit_is_set(&self) -> (r: bool)
        ensures
            r == bit_of(old(self.0).0 as u64, 7),
    {
        proof {
            lemma_one_bit_field(self.0.0 as u64, 7);
        }
        get_field(self.0.0 as u64, 7, 1) == 1
    }

    /// Sets the bit to `val`, leaving the other bits alone.
    pub fn assign(self, val: bool) -> (r: &'a mut FifoConfig5Val)
        ensures
            r.0 as u64 == with_field(old(self.0).0 as u64, 7, 1, if val { 1 } else { 0 }),
            *final(self.0) == *final(r),
    {
        let v: u64 = if val { 1 } else { 0 };
        let w = set_field(self.0.0 as u64, 7, 1, v);
        proof {
            lemma_fits_bound(self.0.0 as u64);
            lemma_set_fits(self.0.0 as u64, 7, 1, v, 8);
            lemma_fits_bound(w);
        }
        self.0.0 = w as u8;
        self.0
    }

    pub fn set_bit(self) -> (r: &'a mut FifoConfig5Val)
        ensures
            r.0 as u64 == with_field(old(self.0).0 as u64, 7, 1, 1),
            *final(self.0) == *final(r),
    {
        self.assign(true)
    }

    pub fn clear_bit(self) -> (r: &'a mut FifoConfig5Val)
        ensures
            r.0 as u64 == with_field(old(self.0).0 as u64, 7, 1, 0),
            *final(self.0) == *final(r),
    {
        self.assign(false)
    }
}

/// The `fifo_excludes` field: bits [5:0] of `FifoConfig5Val`.
pub struct FifoExcludes<'a>(pub &'a mut FifoConfig5Val);

impl<'a> FifoExcludes<'a> {
    pub fn bits(&self) -> (r: u8)
        ensures
            r as u64 == field_of(old(self.0).0 as u64, 0, 6),
    {
        let v = get_field(self.0.0 as u64, 0, 6);
        proof {
            lemma_field_fits(self.0.0 as u64, 0, 6, 8);
            lemma_fits_bound(v);
        }
        v as u8
    }

    /// Sets the field, dropping the bits of `val` above its width.
    pub fn set(self, val: u8) -> (r: &'a mut FifoConfig5Val)
        ensures
            r.0 as u64 == with_field(old(self.0).0 as u64, 0, 6, val as u64),
            *final(self.0) == *final(r),
    {
        let v = val as u64;
        let w = set_field(self.0.0 as u64, 0, 6, v);
        proof {
            lemma_fits_bound(self.0.0 as u64);
            lemma_set_fits(self.0.0 as u64, 0, 6, v, 8);
            lemma_fits_bound(w);
        }
        self.0.0 = w as u8;
        self.0
    }
}

} // verus!
