//! The `m_r` register at 0x115.
use vstd::prelude::*;
use crate::bits::{lemma_fits_bound, lemma_fits_wider};
use crate::endian::{Endian, word_from_bytes, word_of, lemma_word_fits};
use crate::comms::{RegComms, RegCommsAccessProc, RegCommsError, one_read};
use crate::quantum_flux_sensor::{QuantumFluxSensor};

verus! {

/// Access to the `m_r` register of a borrowed peripheral.
pub struct MR<'a, C: RegComms<4, u32>>(pub &'a mut QuantumFluxSensor<C>);

impl<'a, C: RegComms<4, u32>> MR<'a, C> {
    /// Reads the register: 1 byte(s) through its access procedure, decoded in big-endian order.
    pub fn read(self) -> (r: Result<MRVal, RegCommsError>)
        ensures
            one_read(old(self.0).transfers@, final(self.0).transfers@, 0x115, 1),
            r is Ok <==> final(self.0).transfers@.last().3 is Ok,
            r is Ok ==> r->Ok_0.0 as u64 == word_of(final(self.0).transfers@.last().2, Endian::Big),
            r is Err ==> r->Err_0 == final(self.0).transfers@.last().3->Err_0,
    {
        let mut buf = [0u8; 1];
        let access = self.0.standard;
        let transferred = access.proc_read(self.0, 0x115u32, &mut buf);
        match transferred {
            Ok(_) => Ok(MRVal(decode(&buf))),
            Err(e) => Err(e),
        }
    }
}

/// The storage word that 1 transferred byte(s) denote.
fn decode(buf: &[u8; 1]) -> (r: u8)
    ensures
        r as u64 == word_of(buf@, Endian::Big),
{
    let w = word_from_bytes(buf, Endian::Big);
    proof {
        lemma_word_fits(buf@, Endian::Big);
        lemma_fits_wider(w, 8, 8);
        lemma_fits_bound(w);
    }
    w as u8
}

/// The value of the `m_r` register.
pub struct MRVal(pub u8);

impl MRVal {
    pub fn get(&self) -> (r: u8)
        ensures
            r == self.0,
    {
        self.0
    }
}

} // verus!
