//! The `pin_ctrl` register at 0x2.
use vstd::prelude::*;
use crate::bits::{
    get_field, set_field, field_of, with_field, bit_of, lemma_field_fits, lemma_set_fits,
    lemma_fits_bound, lemma_fits_wider, lemma_one_bit_field,
};
use crate::endian::{Endian, word_from_bytes, word_of, word_to_bytes, bytes_of, lemma_word_fits};
use crate::comms::{
    RegComms, RegCommsError, one_read, one_write, read_then_write, read_back, failed_read,
    last_outcome,
};
use crate::lsm6dsv::{Lsm6Dsv, AccessProc};

verus! {

/// Access to the `pin_ctrl` register of a borrowed peripheral.
pub struct PinCtrl<'a, C: RegComms<1, u8>>(pub &'a mut Lsm6Dsv<C>);

impl<'a, C: RegComms<1, u8>> PinCtrl<'a, C> {
    /// Reads the register: 1 byte(s) through its access procedure, decoded in big-endian order.
    pub fn read(self) -> (r: Result<PinCtrlVal, RegCommsError>)
        ensures
            one_read(old(self.0).1@, final(self.0).1@, 0x2, 1),
            r is Ok <==> final(self.0).1@.last().3 is Ok,
            r is Ok ==> r->Ok_0.0 as u64 == word_of(final(self.0).1@.last().2, Endian::Big),
            r is Err ==> r->Err_0 == final(self.0).1@.last().3->Err_0,
    {
        let mut buf = [0u8; 1];
        let transferred = Lsm6Dsv::comms_read(self.0, 0x2u8, &mut buf, AccessProc::Standard);
        match transferred {
            Ok(_) => Ok(PinCtrlVal(decode(&buf))),
            Err(e) => Err(e),
        }
    }

    /// Writes the value's low 1 byte(s), in big-endian order, through the register's access
    /// procedure.
    pub fn write(self, val: PinCtrlVal) -> (r: Result<(), RegCommsError>)
        ensures
            one_write(
                old(self.0).1@,
                final(self.0).1@,
                0x2,
                bytes_of(val.0 as u64, 1, Endian::Big),
            ),
            r == last_outcome(final(self.0).1@),
    {
        let buf = word_to_bytes(val.0 as u64, 1, Endian::Big);
        let transferred = Lsm6Dsv::comms_write(self.0, 0x2u8, buf.as_slice(), AccessProc::Standard);
        match transferred {
            Ok(_) => Ok(()),
            Err(e) => Err(e),
        }
    }

    /// Writes a raw storage word.
    pub fn write_raw(self, raw_val: u8) -> (r: Result<(), RegCommsError>)
        ensures
            one_write(
                old(self.0).1@,
                final(self.0).1@,
                0x2,
                bytes_of(raw_val as u64, 1, Endian::Big),
            ),
            r == last_outcome(final(self.0).1@),
    {
        self.write(PinCtrlVal(raw_val))
    }

    /// Reads the register, applies `f` and writes the result back; not atomic. A failed
    /// read is returned as it is, with no write.
    pub fn modify<F: FnOnce(PinCtrlVal) -> PinCtrlVal>(self, f: F) -> (r: Result<(), RegCommsError>)
        requires
            forall|v: PinCtrlVal| f.requires((v,)),
        ensures
            r == last_outcome(final(self.0).1@),
            failed_read(old(self.0).1@, final(self.0).1@, 0x2, 1) || (read_then_write(
                old(self.0).1@,
                final(self.0).1@,
                0x2,
                1,
            )
                && final(self.0).1@[old(self.0).1@.len() as int].3 is Ok && exists|v: PinCtrlVal|
                f.ensures(
                    (PinCtrlVal(word_of(read_back(old(self.0).1@, final(self.0).1@), Endian::Big) as u8),),
                    v,
                )
                    && final(self.0).1@.last().2 == bytes_of(v.0 as u64, 1, Endian::Big)),
    {
        let peripheral = self.0;
        match PinCtrl(&mut *peripheral).read() {
            Ok(orig_val) => {
                let ghost d = peripheral.1@.last().2;
                let new_val = f(orig_val);
                proof {
                    assert(orig_val == PinCtrlVal(word_of(d, Endian::Big) as u8));
                }
                PinCtrl(peripheral).write(new_val)
            },
            Err(e) => Err(e),
        }
    }
}

/// The storage word that 1 transferred byte(s) denote.
fn decode(buf: &[u8; 1]) -> (r: u8)
    ensures
        r as u64 == word_of(buf@, Endian::Big),
{
    let w = word_from_bytes(buf, Endian::Big);
    proof {
        lemma_word_fits(buf@, Endian::Big);
        lemma_fits_wider(w, 8, 8);
        lemma_fits_bound(w);
    }
    w as u8
}

/// The value of the `pin_ctrl` register.
pub struct PinCtrlVal(pub u8);

impl PinCtrlVal {
    pub fn get(&self) -> (r: u8)
        ensures
            r == self.0,
    {
        self.0
    }

    pub fn zero() -> (r: Self)
        ensures
            r.0 == 0,
    {
        Self(0)
    }

    pub fn set(&mut self, val: u8)
        ensures
            final(self).0 == val,
    {
        self.0 = val;
    }

    pub fn sdo_pu_en<'a>(&'a mut self) -> (r: SdoPuEn<'a>)
        ensures
            *r.0 == *old(self),
            *final(self) == *final(r.0),
    {
        SdoPuEn(self)
    }

    pub fn ibhr_por_en<'a>(&'a mut self) -> (r: IbhrPorEn<'a>)
        ensures
            *r.0 == *old(self),
            *final(self) == *final(r.0),
    {
        IbhrPorEn(self)
    }

    pub fn io_pad_strength<'a>(&'a mut self) -> (r: IoPadStrength<'a>)
        ensures
            *r.0 == *old(self),
            *final(self) == *final(r.0),
    {
        IoPadStrength(self)
    }
}

/// The `sdo_pu_en` field: bit 6 of `PinCtrlVal`.
pub struct SdoPuEn<'a>(pub &'a mut PinCtrlVal);

impl<'a> SdoPuEn<'a> {
    pub fn bit(&self) -> (r: bool)
        ensures
            r == bit_of(old(self.0).0 as u64, 6),
    {
        proof {
            lemma_one_bit_field(self.0.0 as u64, 6);
        }
        get_field(self.0.0 as u64, 6, 1) == 1
    }

    pub fn bit_is_set(&self) -> (r: bool)
        ensures
            r == bit_of(old(self.0).0 as u64, 6),
    {
        proof {
            lemma_one_bit_field(self.0.0 as u64, 6);
        }
        get_field(self.0.0 as u64, 6, 1) == 1
    }

    /// Sets the bit to `val`, leaving the other bits alone.
    pub fn assign(self, val: bool) -> (r: &'a mut PinCtrlVal)
        ensures
            r.0 as u64 == with_field(old(self.0).0 as u64, 6, 1, if val { 1 } else { 0 }),
            *final(self.0) == *final(r),
    {
        let v: u64 = if val { 1 } else { 0 };
        let w = set_field(self.0.0 as u64, 6, 1, v);
        proof {
            lemma_fits_bound(self.0.0 as u64);
            lemma_set_fits(self.0.0 as u64, 6, 1, v, 8);
            lemma_fits_bound(w);
        }
        self.0.0 = w as u8;
        self.0
    }

    pub fn set_bit(self) -> (r: &'a mut PinCtrlVal)
        ensures
            r.0 as u64 == with_field(old(self.0).0 as u64, 6, 1, 1),
            *final(self.0) == *final(r),
    {
        self.assign(true)
    }

    pub fn clear_bit(self) -> (r: &'a mut PinCtrlVal)
        ensures
            r.0 as u64 == with_field(old(self.0).0 as u64, 6, 1, 0),
            *final(self.0) == *final(r),
    {
        self.assign(false)
    }
}

/// The `ibhr_por_en` field: bit 5 of `PinCtrlVal`.
pub struct IbhrPorEn<'a>(pub &'a mut PinCtrlVal);

impl<'a> IbhrPorEn<'a> {
    pub fn bit(&self) -> (r: bool)
        ensures
            r == bit_of(old(self.0).0 as u64, 5),
    {
        proof {
            lemma_one_bit_field(self.0.0 as u64, 5);
        }
        get_field(self.0.0 as u64, 5, 1) == 1
    }

    pub fn bit_is_set(&self) -> (r: bool)
        ensures
            r == bit_of(old(self.0).0 as u64, 5),
    {
        proof {
            lemma_one_bit_field(self.0.0 as u64, 5);
        }
        get_field(self.0.0 as u64, 5, 1) == 1
    }

    /// Sets the bit to `val`, leaving the other bits alone.
    pub fn assign(self, val: bool) -> (r: &'a mut PinCtrlVal)
        ensures
            r.0 as u64 == with_field(old(self.0).0 as u64, 5, 1, if val { 1 } else { 0 }),
            *final(self.0) == *final(r),
    {
        let v: u64 = if val { 1 } else { 0 };
        let w = set_field(self.0.0 as u64, 5, 1, v);
        proof {
            lemma_fits_bound(self.0.0 as u64);
            lemma_set_fits(self.0.0 as u64, 5, 1, v, 8);
            lemma_fits_bound(w);
        }
        self.0.0 = w as u8;
        self.0
    }

    pub fn set_bit(self) -> (r: &'a mut PinCtrlVal)
        ensures
            r.0 as u64 == with_field(old(self.0).0 as u64, 5, 1, 1),
            *final(self.0) == *final(r),
    {
        self.assign(true)
    }

    pub fn clear_bit(self) -> (r: &'a mut PinCtrlVal)
        ensures
            r.0 as u64 == with_field(old(self.0).0 as u64, 5, 1, 0),
            *final(self.0) == *final(r),
    {
        self.assign(false)
    }
}

/// The `io_pad_strength` field: bits [1:0] of `PinCtrlVal`.
pub struct IoPadStrength<'a>(pub &'a mut PinCtrlVal);

impl<'a> IoPadStrength<'a> {
    pub fn bits(&self) -> (r: u8)
        ensures
            r as u64 == field_of(old(self.0).0 as u64, 0, 2),
    {
        let v = get_field(self.0.0 as u64, 0, 2);
        proof {
            lemma_field_fits(self.0.0 as u64, 0, 2, 8);
            lemma_fits_bound(v);
        }
        v as u8
    }

    /// Sets the field, dropping the bits of `val` above its width.
    pub fn set(self, val: u8) -> (r: &'a mut PinCtrlVal)
        ensures
            r.0 as u64 == with_field(old(self.0).0 as u64, 0, 2, val as u64),
            *final(self.0) == *final(r),
    {
        let v = val as u64;
        let w = set_field(self.0.0 as u64, 0, 2, v);
        proof {
            lemma_fits_bound(self.0.0 as u64);
            lemma_set_fits(self.0.0 as u64, 0, 2, v, 8);
            lemma_fits_bound(w);
        }
        self.0.0 = w as u8;
        self.0
    }
}

} // verus!
