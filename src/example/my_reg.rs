//! The `my_reg` register at 0xf.
use vstd::prelude::*;
use crate::bits::{
    get_field, set_field, field_of, with_field, reset_field, bit_of, lemma_field_fits,
    lemma_set_fits, lemma_fits_bound, lemma_fits_wider, lemma_one_bit_field,
};
use crate::endian::{Endian, word_from_bytes, word_of, word_to_bytes, bytes_of, lemma_word_fits};
use crate::comms::{
    RegComms, RegCommsError, one_read, one_write, read_then_write, read_back, failed_read,
    last_outcome,
};
use crate::example::{MyPeripheral, AccessProc};

verus! {

/// Access to the `my_reg` register of a borrowed peripheral.
pub struct MyReg<'a, C: RegComms<8, u64>>(pub &'a mut MyPeripheral<C>);

impl<'a, C: RegComms<8, u64>> MyReg<'a, C> {
    /// Reads the register: 3 byte(s) through its access procedure, decoded in big-endian order.
    pub fn read(self) -> (r: Result<MyRegVal, RegCommsError>)
        ensures
            one_read(old(self.0).1@, final(self.0).1@, 0xf, 3),
            r is Ok <==> final(self.0).1@.last().3 is Ok,
            r is Ok ==> r->Ok_0.0 as u64 == word_of(final(self.0).1@.last().2, Endian::Big),
            r is Err ==> r->Err_0 == final(self.0).1@.last().3->Err_0,
    {
        let mut buf = [0u8; 3];
        let transferred = MyPeripheral::comms_read(self.0, 0xfu64, &mut buf, AccessProc::Standard);
        match transferred {
            Ok(_) => Ok(MyRegVal(decode(&buf))),
            Err(e) => Err(e),
        }
    }

    /// Writes the value's low 3 byte(s), in big-endian order, through the register's access
    /// procedure.
    pub fn write(self, val: MyRegVal) -> (r: Result<(), RegCommsError>)
        ensures
            one_write(
                old(self.0).1@,
                final(self.0).1@,
                0xf,
                bytes_of(val.0 as u64, 3, Endian::Big),
            ),
            r == last_outcome(final(self.0).1@),
    {
        let buf = word_to_bytes(val.0 as u64, 3, Endian::Big);
        let transferred = MyPeripheral::comms_write(self.0, 0xfu64, buf.as_slice(), AccessProc::Standard);
        match transferred {
            Ok(_) => Ok(()),
            Err(e) => Err(e),
        }
    }

    /// Writes a raw storage word.
    pub fn write_raw(self, raw_val: u32) -> (r: Result<(), RegCommsError>)
        ensures
            one_write(
                old(self.0).1@,
                final(self.0).1@,
                0xf,
                bytes_of(raw_val as u64, 3, Endian::Big),
            ),
            r == last_outcome(final(self.0).1@),
    {
        self.write(MyRegVal(raw_val))
    }

    /// Reads the register, applies `f` and writes the result back; not atomic. A failed
    /// read is returned as it is, with no write.
    pub fn modify<F: FnOnce(MyRegVal) -> MyRegVal>(self, f: F) -> (r: Result<(), RegCommsError>)
        requires
            forall|v: MyRegVal| f.requires((v,)),
        ensures
            r == last_outcome(final(self.0).1@),
            failed_read(old(self.0).1@, final(self.0).1@, 0xf, 3) || (read_then_write(
                old(self.0).1@,
                final(self.0).1@,
                0xf,
                3,
            )
                && final(self.0).1@[old(self.0).1@.len() as int].3 is Ok && exists|v: MyRegVal|
                f.ensures(
                    (MyRegVal(word_of(read_back(old(self.0).1@, final(self.0).1@), Endian::Big) as u32),),
                    v,
                )
                    && final(self.0).1@.last().2 == bytes_of(v.0 as u64, 3, Endian::Big)),
    {
        let peripheral = self.0;
        match MyReg(&mut *peripheral).read() {
            Ok(orig_val) => {
                let ghost d = peripheral.1@.last().2;
                let new_val = f(orig_val);
                proof {
                    assert(orig_val == MyRegVal(word_of(d, Endian::Big) as u32));
                }
                MyReg(peripheral).write(new_val)
            },
            Err(e) => Err(e),
        }
    }

    /// Writes the declared reset value, without reading first.
    pub fn reset(self) -> (r: Result<(), RegCommsError>)
        ensures
            one_write(
                old(self.0).1@,
                final(self.0).1@,
                0xf,
                bytes_of(0x73u64 as u64, 3, Endian::Big),
            ),
            r == last_outcome(final(self.0).1@),
    {
        self.write(MyRegVal::reset_val())
    }
}

/// The storage word that 3 transferred byte(s) denote.
fn decode(buf: &[u8; 3]) -> (r: u32)
    ensures
        r as u64 == word_of(buf@, Endian::Big),
{
    let w = word_from_bytes(buf, Endian::Big);
    proof {
        lemma_word_fits(buf@, Endian::Big);
        lemma_fits_wider(w, 24, 32);
        lemma_fits_bound(w);
    }
    w as u32
}

/// The value of the `my_reg` register.
pub struct MyRegVal(pub u32);

impl MyRegVal {
    pub fn get(&self) -> (r: u32)
        ensures
            r == self.0,
    {
        self.0
    }

    pub fn zeroed() -> (r: Self)
        ensures
            r.0 == 0,
    {
        Self(0)
    }

    pub fn set(&mut self, val: u32)
        ensures
            final(self).0 == val,
    {
        self.0 = val;
    }

    /// The declared reset value.
    pub fn reset_val() -> (r: Self)
        ensures
            r.0 == 0x73,
    {
        Self(0x73)
    }

    pub fn toasty_bit<'a>(&'a mut self) -> (r: ToastyBit<'a>)
        ensures
            *r.0 == *old(self),
            *final(self) == *final(r.0),
    {
        ToastyBit(self)
    }

    pub fn n_toasted<'a>(&'a mut self) -> (r: NToasted<'a>)
        ensures
            *r.0 == *old(self),
            *final(self) == *final(r.0),
    {
        NToasted(self)
    }
}

/// The `toasty_bit` field: bit 2 of `MyRegVal`.
pub struct ToastyBit<'a>(pub &'a mut MyRegVal);

impl<'a> ToastyBit<'a> {
    pub fn bit(&self) -> (r: bool)
        ensures
            r == bit_of(old(self.0).0 as u64, 2),
    {
        proof {
            lemma_one_bit_field(self.0.0 as u64, 2);
        }
        get_field(self.0.0 as u64, 2, 1) == 1
    }

    pub fn bit_is_set(&self) -> (r: bool)
        ensures
            r == bit_of(old(self.0).0 as u64, 2),
    {
        proof {
            lemma_one_bit_field(self.0.0 as u64, 2);
        }
        get_field(self.0.0 as u64, 2, 1) == 1
    }

    pub fn bit_is_clear(&self) -> (r: bool)
        ensures
            r == !bit_of(old(self.0).0 as u64, 2),
    {
        proof {
            lemma_one_bit_field(self.0.0 as u64, 2);
        }
        get_field(self.0.0 as u64, 2, 1) != 1
    }

    /// Sets the bit to `val`, leaving the other bits alone.
    pub fn assign(self, val: bool) -> (r: &'a mut MyRegVal)
        ensures
            r.0 as u64 == with_field(old(self.0).0 as u64, 2, 1, if val { 1 } else { 0 }),
            *final(self.0) == *final(r),
    {
        let v: u64 = if val { 1 } else { 0 };
        let w = set_field(self.0.0 as u64, 2, 1, v);
        proof {
            lemma_fits_bound(self.0.0 as u64);
            lemma_set_fits(self.0.0 as u64, 2, 1, v, 32);
            lemma_fits_bound(w);
        }
        self.0.0 = w as u32;
        self.0
    }

    pub fn set_bit(self) -> (r: &'a mut MyRegVal)
        ensures
            r.0 as u64 == with_field(old(self.0).0 as u64, 2, 1, 1),
            *final(self.0) == *final(r),
    {
        self.assign(true)
    }

    pub fn clear_bit(self) -> (r: &'a mut MyRegVal)
        ensures
            r.0 as u64 == with_field(old(self.0).0 as u64, 2, 1, 0),
            *final(self.0) == *final(r),
    {
        self.assign(false)
    }

    /// Restores the field to its bits of the reset value 0x73.
    pub fn reset(self) -> (r: &'a mut MyRegVal)
        ensures
            r.0 as u64 == reset_field(old(self.0).0 as u64, 2, 1, 0x73),
            *final(self.0) == *final(r),
    {
        let v = get_field(0x73u64, 2, 1);
        let w = set_field(self.0.0 as u64, 2, 1, v);
        proof {
            lemma_fits_bound(self.0.0 as u64);
            lemma_set_fits(self.0.0 as u64, 2, 1, v, 32);
            lemma_fits_bound(w);
        }
        self.0.0 = w as u32;
        self.0
    }
}

/// The `n_toasted` field: bits [5:4] of `MyRegVal`.
pub struct NToasted<'a>(pub &'a mut MyRegVal);

impl<'a> NToasted<'a> {
    pub fn bits(&self) -> (r: u8)
        ensures
            r as u64 == field_of(old(self.0).0 as u64, 4, 2),
    {
        let v = get_field(self.0.0 as u64, 4, 2);
        proof {
            lemma_field_fits(self.0.0 as u64, 4, 2, 8);
            lemma_fits_bound(v);
        }
        v as u8
    }

    /// Sets the field, dropping the bits of `val` above its width.
    pub fn set(self, val: u8) -> (r: &'a mut MyRegVal)
        ensures
            r.0 as u64 == with_field(old(self.0).0 as u64, 4, 2, val as u64),
            *final(self.0) == *final(r),
    {
        let v = val as u64;
        let w = set_field(self.0.0 as u64, 4, 2, v);
        proof {
            lemma_fits_bound(self.0.0 as u64);
            lemma_set_fits(self.0.0 as u64, 4, 2, v, 32);
            lemma_fits_bound(w);
        }
        self.0.0 = w as u32;
        self.0
    }

    /// Restores the field to its bits of the reset value 0x73.
    pub fn reset(self) -> (r: &'a mut MyRegVal)
        ensures
            r.0 as u64 == reset_field(old(self.0).0 as u64, 4, 2, 0x73),
            *final(self.0) == *final(r),
    {
        let v = get_field(0x73u64, 4, 2);
        let w = set_field(self.0.0 as u64, 4, 2, v);
        proof {
            lemma_fits_bound(self.0.0 as u64);
            lemma_set_fits(self.0.0 as u64, 4, 2, v, 32);
            lemma_fits_bound(w);
        }
        self.0.0 = w as u32;
        self.0
    }
}

} // verus!
