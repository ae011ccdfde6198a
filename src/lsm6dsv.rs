//! An inertial sensor with 1-byte addresses: two of its control registers.
use vstd::prelude::*;
use crate::comms::{RegComms, RegCommsError, Transfer};

pub mod func_cfg_access;
pub mod pin_ctrl;

verus! {

/// The access procedures of this peripheral: only the direct one.
#[derive(Copy, Clone, Debug, PartialEq, Eq, Structural)]
pub enum AccessProc {
    Standard,
}

/// The peripheral over its transport, with the history of the transfers it has handed
/// the transport.
pub struct Lsm6Dsv<C: RegComms<1, u8>>(pub C, pub Ghost<Seq<Transfer>>);

impl<C: RegComms<1, u8>> Lsm6Dsv<C> {
    /// The peripheral over a transport, with no transfers yet.
    pub fn new(comms: C) -> (r: Self)
        ensures
            r.0 == comms,
            r.1@ == Seq::<Transfer>::empty(),
    {
        Lsm6Dsv(comms, Ghost(Seq::empty()))
    }

    /// Reads at a register address, straight through the transport.
    pub fn comms_read(&mut self, reg_address: u8, buf: &mut [u8], _access_proc: AccessProc) -> (r: Result<
        usize,
        RegCommsError,
    >)
        ensures
            final(buf)@.len() == old(buf)@.len(),
            final(self).1@ == old(self).1@.push((false, reg_address as u64, final(buf)@, r)),
    {
        let r = self.0.comms_read(reg_address, buf);
        self.1 = Ghost(self.1@.push((false, reg_address as u64, buf@, r)));
        r
    }

    /// Writes at a register address, straight through the transport.
    pub fn comms_write(&mut self, reg_address: u8, buf: &[u8], _access_proc: AccessProc) -> (r: Result<
        usize,
        RegCommsError,
    >)
        ensures
            final(self).1@ == old(self).1@.push((true, reg_address as u64, buf@, r)),
    {
        let r = self.0.comms_write(reg_address, buf);
        self.1 = Ghost(self.1@.push((true, reg_address as u64, buf@, r)));
        r
    }

    pub fn func_cfg_access<'a>(&'a mut self) -> (r: func_cfg_access::FuncCfgAccess<'a, C>)
        ensures
            *r.0 == *old(self),
            *final(self) == *final(r.0),
    {
        func_cfg_access::FuncCfgAccess(self)
    }

    pub fn pin_ctrl<'a>(&'a mut self) -> (r: pin_ctrl::PinCtrl<'a, C>)
        ensures
            *r.0 == *old(self),
            *final(self) == *final(r.0),
    {
        pin_ctrl::PinCtrl(self)
    }
}

} // verus!
