//! The `lepton_data` register at 0xff000000.
use vstd::prelude::*;
use crate::bits::{get_field, field_of, lemma_field_fits, lemma_fits_bound, lemma_fits_wider};
use crate::endian::{Endian, word_from_bytes, word_of, lemma_word_fits};
use crate::comms::{RegComms, RegCommsAccessProc, RegCommsError, one_read};
use crate::quantum_flux_sensor::{QuantumFluxSensor};

verus! {

/// Access to the `lepton_data` register of a borrowed peripheral.
pub struct LeptonData<'a, C: RegComms<4, u32>>(pub &'a mut QuantumFluxSensor<C>);

impl<'a, C: RegComms<4, u32>> LeptonData<'a, C> {
    /// Reads the register: 2 byte(s) through its access procedure, decoded in big-endian order.
    pub fn read(self) -> (r: Result<LeptonDataVal, RegCommsError>)
        ensures
            one_read(old(self.0).transfers@, final(self.0).transfers@, 0xff000000, 2),
            r is Ok <==> final(self.0).transfers@.last().3 is Ok,
            r is Ok ==> r->Ok_0.0 as u64 == word_of(final(self.0).transfers@.last().2, Endian::Big),
            r is Err ==> r->Err_0 == final(self.0).transfers@.last().3->Err_0,
    {
        let mut buf = [0u8; 2];
        let access = self.0.standard;
        let transferred = access.proc_read(self.0, 0xff000000u32, &mut buf);
        match transferred {
            Ok(_) => Ok(LeptonDataVal(decode(&buf))),
            Err(e) => Err(e),
        }
    }
}

/// The storage word that 2 transferred byte(s) denote.
fn decode(buf: &[u8; 2]) -> (r: u16)
    ensures
        r as u64 == word_of(buf@, Endian::Big),
{
    let w = word_from_bytes(buf, Endian::Big);
    proof {
        lemma_word_fits(buf@, Endian::Big);
        lemma_fits_wider(w, 16, 16);
        lemma_fits_bound(w);
    }
    w as u16
}

/// The value of the `lepton_data` register.
pub struct LeptonDataVal(pub u16);

impl LeptonDataVal {
    pub fn get(&self) -> (r: u16)
        ensures
            r == self.0,
    {
        self.0
    }

    pub fn data<'a>(&'a mut self) -> (r: Data<'a>)
        ensures
            *r.0 == *old(self),
            *final(self) == *final(r.0),
    {
        Data(self)
    }
}

/// The `data` field: bits [15:0] of `LeptonDataVal`.
pub struct Data<'a>(pub &'a mut LeptonDataVal);

impl<'a> Data<'a> {
    pub fn bits(&self) -> (r: u16)
        ensures
            r as u64 == field_of(old(self.0).0 as u64, 0, 16),
    {
        let v = get_field(self.0.0 as u64, 0, 16);
        proof {
            lemma_field_fits(self.0.0 as u64, 0, 16, 16);
            lemma_fits_bound(v);
        }
        v as u16
    }
}

} // verus!
