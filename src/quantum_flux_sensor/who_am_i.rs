//! The `who_am_i` register at 0xffffff08.
use vstd::prelude::*;
use crate::bits::{get_field, field_of, lemma_field_fits, lemma_fits_bound, lemma_fits_wider};
use crate::endian::{Endian, word_from_bytes, word_of, lemma_word_fits};
use crate::comms::{RegComms, RegCommsAccessProc, RegCommsError, one_read};
use crate::quantum_flux_sensor::{QuantumFluxSensor};

verus! {

/// Access to the `who_am_i` register of a borrowed peripheral.
pub struct WhoAmI<'a, C: RegComms<4, u32>>(pub &'a mut QuantumFluxSensor<C>);

impl<'a, C: RegComms<4, u32>> WhoAmI<'a, C> {
    /// Reads the register: 4 byte(s) through its access procedure, decoded in big-endian order.
    pub fn read(self) -> (r: Result<WhoAmIVal, RegCommsError>)
        ensures
            one_read(old(self.0).transfers@, final(self.0).transfers@, 0xffffff08, 4),
            r is Ok <==> final(self.0).transfers@.last().3 is Ok,
            r is Ok ==> r->Ok_0.0 as u64 == word_of(final(self.0).transfers@.last().2, Endian::Big),
            r is Err ==> r->Err_0 == final(self.0).transfers@.last().3->Err_0,
    {
        let mut buf = [0u8; 4];
        let access = self.0.standard;
        let transferred = access.proc_read(self.0, 0xffffff08u32, &mut buf);
        match transferred {
            Ok(_) => Ok(WhoAmIVal(decode(&buf))),
            Err(e) => Err(e),
        }
    }
}

/// The storage word that 4 transferred byte(s) denote.
fn decode(buf: &[u8; 4]) -> (r: u32)
    ensures
        r as u64 == word_of(buf@, Endian::Big),
{
    let w = word_from_bytes(buf, Endian::Big);
    proof {
        lemma_word_fits(buf@, Endian::Big);
        lemma_fits_wider(w, 32, 32);
        lemma_fits_bound(w);
    }
    w as u32
}

/// The value of the `who_am_i` register.
pub struct WhoAmIVal(pub u32);

impl WhoAmIVal {
    pub fn get(&self) -> (r: u32)
        ensures
            r == self.0,
    {
        self.0
    }

    pub fn id<'a>(&'a mut self) -> (r: Id<'a>)
        ensures
            *r.0 == *old(self),
            *final(self) == *final(r.0),
    {
        Id(self)
    }
}

/// The `id` field: bits [31:0] of `WhoAmIVal`.
pub struct Id<'a>(pub &'a mut WhoAmIVal);

impl<'a> Id<'a> {
    pub fn bits(&self) -> (r: u32)
        ensures
            r as u64 == field_of(old(self.0).0 as u64, 0, 32),
    {
        let v = get_field(self.0.0 as u64, 0, 32);
        proof {
            lemma_field_fits(self.0.0 as u64, 0, 32, 32);
            lemma_fits_bound(v);
        }
        v as u32
    }
}

} // verus!
