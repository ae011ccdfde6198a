//! The `func_cfg_access` register at 0x1.
use vstd::prelude::*;
use crate::bits::{
    get_field, set_field, with_field, bit_of, lemma_set_fits, lemma_fits_bound, lemma_fits_wider,
    lemma_one_bit_field,
};
use crate::endian::{Endian, word_from_bytes, word_of, word_to_bytes, bytes_of, lemma_word_fits};
use crate::comms::{
    RegComms, RegCommsError, one_read, one_write, read_then_write, read_back, failed_read,
    last_outcome,
};
use crate::lsm6dsv::{Lsm6Dsv, AccessProc};

verus! {

/// Access to the `func_cfg_access` register of a borrowed peripheral.
pub struct FuncCfgAccess<'a, C: RegComms<1, u8>>(pub &'a mut Lsm6Dsv<C>);

impl<'a, C: RegComms<1, u8>> FuncCfgAccess<'a, C> {
    /// Reads the register: 1 byte(s) through its access procedure, decoded in big-endian order.
    pub fn read(self) -> (r: Result<FuncCfgAccessVal, RegCommsError>)
        ensures
            one_read(old(self.0).1@, final(self.0).1@, 0x1, 1),
            r is Ok <==> final(self.0).1@.last().3 is Ok,
            r is Ok ==> r->Ok_0.0 as u64 == word_of(final(self.0).1@.last().2, Endian::Big),
            r is Err ==> r->Err_0 == final(self.0).1@.last().3->Err_0,
    {
        let mut buf = [0u8; 1];
        let transferred = Lsm6Dsv::comms_read(self.0, 0x1u8, &mut buf, AccessProc::Standard);
        match transferred {
            Ok(_) => Ok(FuncCfgAccessVal(decode(&buf))),
            Err(e) => Err(e),
        }
    }

    /// Writes the value's low 1 byte(s), in big-endian order, through the register's access
    /// procedure.
    pub fn write(self, val: FuncCfgAccessVal) -> (r: Result<(), RegCommsError>)
        ensures
            one_write(
                old(self.0).1@,
                final(self.0).1@,
                0x1,
                bytes_of(val.0 as u64, 1, Endian::Big),
            ),
            r == last_outcome(final(self.0).1@),
    {
        let buf = word_to_bytes(val.0 as u64, 1, Endian::Big);
        let transferred = Lsm6Dsv::comms_write(self.0, 0x1u8, buf.as_slice(), AccessProc::Standard);
        match transferred {
            Ok(_) => Ok(()),
            Err(e) => Err(e),
        }
    }

    /// Writes a raw storage word.
    pub fn write_raw(self, raw_val: u8) -> (r: Result<(), RegCommsError>)
        ensures
            one_write(
                old(self.0).1@,
                final(self.0).1@,
                0x1,
                bytes_of(raw_val as u64, 1, Endian::Big),
            ),
            r == last_outcome(final(self.0).1@),
    {
        self.write(FuncCfgAccessVal(raw_val))
    }

    /// Reads the register, applies `f` and writes the result back; not atomic. A failed
    /// read is returned as it is, with no write.
    pub fn modify<F: FnOnce(FuncCfgAccessVal) -> FuncCfgAccessVal>(self, f: F) -> (r: Result<(), RegCommsError>)
        requires
            forall|v: FuncCfgAccessVal| f.requires((v,)),
        ensures
            r == last_outcome(final(self.0).1@),
            failed_read(old(self.0).1@, final(self.0).1@, 0x1, 1) || (read_then_write(
                old(self.0).1@,
                final(self.0).1@,
                0x1,
                1,
            )
                && final(self.0).1@[old(self.0).1@.len() as int].3 is Ok && exists|v: FuncCfgAccessVal|
                f.ensures(
                    (FuncCfgAccessVal(word_of(read_back(old(self.0).1@, final(self.0).1@), Endian::Big) as u8),),
                    v,
                )
                    && final(self.0).1@.last().2 == bytes_of(v.0 as u64, 1, Endian::Big)),
    {
        let peripheral = self.0;
        match FuncCfgAccess(&mut *peripheral).read() {
            Ok(orig_val) => {
                let ghost d = peripheral.1@.last().2;
                let new_val = f(orig_val);
                proof {
                    assert(orig_val == FuncCfgAccessVal(word_of(d, Endian::Big) as u8));
                }
                FuncCfgAccess(peripheral).write(new_val)
            },
            Err(e) => Err(e),
        }
    }
}

/// The storage word that 1 transferred byte(s) denote.
fn decode(buf: &[u8; 1]) -> (r: u8)
    ensures
        r as u64 == word_of(buf@, Endian::Big),
{
    let w = word_from_bytes(buf, Endian::Big);
    proof {
        lemma_word_fits(buf@, Endian::Big);
        lemma_fits_wider(w, 8, 8);
        lemma_fits_bound(w);
    }
    w as u8
}

/// The value of the `func_cfg_access` register.
pub struct FuncCfgAccessVal(pub u8);

impl FuncCfgAccessVal {
    pub fn get(&self) -> (r: u8)
        ensures
            r == self.0,
    {
        self.0
    }

    pub fn zero() -> (r: Self)
        ensures
            r.0 == 0,
    {
        Self(0)
    }

    pub fn set(&mut self, val: u8)
        ensures
            final(self).0 == val,
    {
        self.0 = val;
    }

    pub fn emb_func_reg_access<'a>(&'a mut self) -> (r: EmbFuncRegAccess<'a>)
        ensures
            *r.0 == *old(self),
            *final(self) == *final(r.0),
    {
        EmbFuncRegAccess(self)
    }

    pub fn shub_reg_access<'a>(&'a mut self) -> (r: ShubRegAccess<'a>)
        ensures
            *r.0 == *old(self),
            *final(self) == *final(r.0),
    {
        ShubRegAccess(self)
    }

    pub fn fsm_wr_ctrl_en<'a>(&'a mut self) -> (r: FsmWrCtrlEn<'a>)
        ensures
            *r.0 == *old(self),
            *final(self) == *final(r.0),
    {
        FsmWrCtrlEn(self)
    }

    pub fn sw_por<'a>(&'a mut self) -> (r: SwPor<'a>)
        ensures
            *r.0 == *old(self),
            *final(self) == *final(r.0),
    {
        SwPor(self)
    }
}

/// The `emb_func_reg_access` field: bit 7 of `FuncCfgAccessVal`.
pub struct EmbFuncRegAccess<'a>(pub &'a mut FuncCfgAccessVal);

impl<'a> EmbFuncRegAccess<'a> {
    pub fn bit(&self) -> (r: bool)
        ensures
            r == bit_of(old(self.0).0 as u64, 7),
    {
        proof {
            lemma_one_bit_field(self.0.0 as u64, 7);
        }
        get_field(self.0.0 as u64, 7, 1) == 1
    }

    pub fn bit_is_set(&self) -> (r: bool)
        ensures
            r == bit_of(old(self.0).0 as u64, 7),
    {
        proof {
            lemma_one_bit_field(self.0.0 as u64, 7);
        }
        get_field(self.0.0 as u64, 7, 1) == 1
    }

    /// Sets the bit to `val`, leaving the other bits alone.
    pub fn assign(self, val: bool) -> (r: &'a mut FuncCfgAccessVal)
        ensures
            r.0 as u64 == with_field(old(self.0).0 as u64, 7, 1, if val { 1 } else { 0 }),
            *final(self.0) == *final(r),
    {
        let v: u64 = if val { 1 } else { 0 };
        let w = set_field(self.0.0 as u64, 7, 1, v);
        proof {
            lemma_fits_bound(self.0.0 as u64);
            lemma_set_fits(self.0.0 as u64, 7, 1, v, 8);
            lemma_fits_bound(w);
        }
        self.0.0 = w as u8;
        self.0
    }

    pub fn set_bit(self) -> (r: &'a mut FuncCfgAccessVal)
        ensures
            r.0 as u64 == with_field(old(self.0).0 as u64, 7, 1, 1),
            *final(self.0) == *final(r),
    {
        self.assign(true)
    }

    pub fn clear_bit(self) -> (r: &'a mut FuncCfgAccessVal)
        ensures
            r.0 as u64 == with_field(old(self.0).0 as u64, 7, 1, 0),
            *final(self.0) == *final(r),
    {
        self.assign(false)
    }
}

/// The `shub_reg_access` field: bit 6 of `FuncCfgAccessVal`.
pub struct ShubRegAccess<'a>(pub &'a mut FuncCfgAccessVal);

impl<'a> ShubRegAccess<'a> {
    pub fn bit(&self) -> (r: bool)
        ensures
            r == bit_of(old(self.0).0 as u64, 6),
    {
        proof {
            lemma_one_bit_field(self.0.0 as u64, 6);
        }
        get_field(self.0.0 as u64, 6, 1) == 1
    }

    pub fn bit_is_set(&self) -> (r: bool)
        ensures
            r == bit_of(old(self.0).0 as u64, 6),
    {
        proof {
            lemma_one_bit_field(self.0.0 as u64, 6);
        }
        get_field(self.0.0 as u64, 6, 1) == 1
    }

    /// Sets the bit to `val`, leaving the other bits alone.
    pub fn assign(self, val: bool) -> (r: &'a mut FuncCfgAccessVal)
        ensures
            r.0 as u64 == with_field(old(self.0).0 as u64, 6, 1, if val { 1 } else { 0 }),
            *final(self.0) == *final(r),
    {
        let v: u64 = if val { 1 } else { 0 };
        let w = set_field(self.0.0 as u64, 6, 1, v);
        proof {
            lemma_fits_bound(self.0.0 as u64);
            lemma_set_fits(self.0.0 as u64, 6, 1, v, 8);
            lemma_fits_bound(w);
        }
        self.0.0 = w as u8;
        self.0
    }

    pub fn set_bit(self) -> (r: &'a mut FuncCfgAccessVal)
        ensures
            r.0 as u64 == with_field(old(self.0).0 as u64, 6, 1, 1),
            *final(self.0) == *final(r),
    {
        self.assign(true)
    }

    pub fn clear_bit(self) -> (r: &'a mut FuncCfgAccessVal)
        ensures
            r.0 as u64 == with_field(old(self.0).0 as u64, 6, 1, 0),
            *final(self.0) == *final(r),
    {
        self.assign(false)
    }
}

/// The `fsm_wr_ctrl_en` field: bit 3 of `FuncCfgAccessVal`.
pub struct FsmWrCtrlEn<'a>(pub &'a mut FuncCfgAccessVal);

impl<'a> FsmWrCtrlEn<'a> {
    pub fn bit(&self) -> (r: bool)
        ensures
            r == bit_of(old(self.0).0 as u64, 3),
    {
        proof {
            lemma_one_bit_field(self.0.0 as u64, 3);
        }
        get_field(self.0.0 as u64, 3, 1) == 1
    }

    pub fn bit_is_set(&self) -> (r: bool)
        ensures
            r == bit_of(old(self.0).0 as u64, 3),
    {
        proof {
            lemma_one_bit_field(self.0.0 as u64, 3);
        }
        get_field(self.0.0 as u64, 3, 1) == 1
    }

    /// Sets the bit to `val`, leaving the other bits alone.
    pub fn assign(self, val: bool) -> (r: &'a mut FuncCfgAccessVal)
        ensures
            r.0 as u64 == with_field(old(self.0).0 as u64, 3, 1, if val { 1 } else { 0 }),
            *final(self.0) == *final(r),
    {
        let v: u64 = if val { 1 } else { 0 };
        let w = set_field(self.0.0 as u64, 3, 1, v);
        proof {
            lemma_fits_bound(self.0.0 as u64);
            lemma_set_fits(self.0.0 as u64, 3, 1, v, 8);
            lemma_fits_bound(w);
        }
        self.0.0 = w as u8;
        self.0
    }

    pub fn set_bit(self) -> (r: &'a mut FuncCfgAccessVal)
        ensures
            r.0 as u64 == with_field(old(self.0).0 as u64, 3, 1, 1),
            *final(self.0) == *final(r),
    {
        self.assign(true)
    }

    pub fn clear_bit(self) -> (r: &'a mut FuncCfgAccessVal)
        ensures
            r.0 as u64 == with_field(old(self.0).0 as u64, 3, 1, 0),
            *final(self.0) == *final(r),
    {
        self.assign(false)
    }
}

/// The `sw_por` field: bit 2 of `FuncCfgAccessVal`.
pub struct SwPor<'a>(pub &'a mut FuncCfgAccessVal);

impl<'a> SwPor<'a> {
    pub fn bit(&self) -> (r: bool)
        ensures
            r == bit_of(old(self.0).0 as u64, 2),
    {
        proof {
            lemma_one_bit_field(self.0.0 as u64, 2);
        }
        get_field(self.0.0 as u64, 2, 1) == 1
    }

    pub fn bit_is_set(&self) -> (r: bool)
        ensures
            r == bit_of(old(self.0).0 as u64, 2),
    {
        proof {
            lemma_one_bit_field(self.0.0 as u64, 2);
        }
        get_field(self.0.0 as u64, 2, 1) == 1
    }

    /// Sets the bit to `val`, leaving the other bits alone.
    pub fn assign(self, val: bool) -> (r: &'a mut FuncCfgAccessVal)
        ensures
            r.0 as u64 == with_field(old(self.0).0 as u64, 2, 1, if val { 1 } else { 0 }),
            *final(self.0) == *final(r),
    {
        let v: u64 = if val { 1 } else { 0 };
        let w = set_field(self.0.0 as u64, 2, 1, v);
        proof {
            lemma_fits_bound(self.0.0 as u64);
            lemma_set_fits(self.0.0 as u64, 2, 1, v, 8);
            lemma_fits_bound(w);
        }
        self.0.0 = w as u8;
        self.0
    }

    pub fn set_bit(self) -> (r: &'a mut FuncCfgAccessVal)
        ensures
            r.0 as u64 == with_field(old(self.0).0 as u64, 2, 1, 1),
            *final(self.0) == *final(r),
    {
        self.assign(true)
    }

    pub fn clear_bit(self) -> (r: &'a mut FuncCfgAccessVal)
        ensures
            r.0 as u64 == with_field(old(self.0).0 as u64, 2, 1, 0),
            *final(self.0) == *final(r),
    {
        self.assign(false)
    }
}

} // verus!
