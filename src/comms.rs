//! The transport and access-procedure capabilities that register accessors call into.
use vstd::prelude::*;
use crate::endian::{Endian, bytes_of, word_of, word_from_bytes, lemma_word_fits};

verus! {

/// Errors a transport or an access procedure reports for a transfer.
#[derive(Copy, Clone, Debug, PartialEq, Eq, Structural)]
pub enum RegCommsError {
    Other,
    IncompleteTransfer,
}

/// A register address of `N` bytes, convertible to and from bytes in either order.
pub trait RegCommsAddress<const N: usize>: Copy + Sized {
    /// The address as a number.
    spec fn address_value(self) -> u64;

    fn to_big_endian(self) -> (r: [u8; N])
        ensures
            r@ == bytes_of(self.address_value(), N as nat, Endian::Big),
    ;

    fn to_little_endian(self) -> (r: [u8; N])
        ensures
            r@ == bytes_of(self.address_value(), N as nat, Endian::Little),
    ;

    fn from_big_endian(bytes: [u8; N]) -> (r: Self)
        ensures
            r.address_value() == word_of(bytes@, Endian::Big),
    ;

    fn from_little_endian(bytes: [u8; N]) -> (r: Self)
        ensures
            r.address_value() == word_of(bytes@, Endian::Little),
    ;
}

/// One transfer a peripheral hands its transport: whether it writes, the register address,
/// the bytes sent (or the bytes in the buffer after a read), and what the transport
/// returned.
pub type Transfer = (bool, u64, Seq<u8>, Result<usize, RegCommsError>);

/// `after` is `before` with one more read at `address` into `len` bytes.
pub open spec fn one_read(before: Seq<Transfer>, after: Seq<Transfer>, address: u64, len: nat) -> bool {
    after == before.push((false, address, after.last().2, after.last().3)) && after.last().2.len()
        == len
}

/// `after` is `before` with one more read at `address` into `len` bytes, which failed.
pub open spec fn failed_read(before: Seq<Transfer>, after: Seq<Transfer>, address: u64, len: nat) -> bool {
    one_read(before, after, address, len) && after.last().3 is Err
}

/// What the last transfer returned, with the byte count dropped.
pub open spec fn last_outcome(after: Seq<Transfer>) -> Result<(), RegCommsError> {
    match after.last().3 {
        Ok(_) => Ok(()),
        Err(e) => Err(e),
    }
}

/// `after` is `before` with one more write of `data` at `address`.
pub open spec fn one_write(
    before: Seq<Transfer>,
    after: Seq<Transfer>,
    address: u64,
    data: Seq<u8>,
) -> bool {
    after == before.push((true, address, data, after.last().3))
}

/// `after` is `before` with a read at `address` into `len` bytes, then a write at `address`.
pub open spec fn read_then_write(
    before: Seq<Transfer>,
    after: Seq<Transfer>,
    address: u64,
    len: nat,
) -> bool {
    &&& after.len() == before.len() + 2
    &&& after == before.push(
        (false, address, read_back(before, after), after[before.len() as int].3),
    ).push((true, address, after.last().2, after.last().3))
    &&& read_back(before, after).len() == len
}

/// The bytes of the first transfer after `before`.
pub open spec fn read_back(before: Seq<Transfer>, after: Seq<Transfer>) -> Seq<u8> {
    after[before.len() as int].2
}

/// Every transfer after `before` succeeded.
pub open spec fn steps_ok(before: Seq<Transfer>, after: Seq<Transfer>) -> bool {
    forall|i: int| before.len() <= i < after.len() ==> (#[trigger] after[i]).3 is Ok
}

/// The transfers after `before` stopped at the first failure: every one succeeded but the
/// last, which failed.
pub open spec fn stopped_at_failure(before: Seq<Transfer>, after: Seq<Transfer>) -> bool {
    &&& after.len() > before.len()
    &&& steps_ok(before, after.drop_last())
    &&& after.last().3 is Err
}

/// One more successful transfer keeps every step successful.
pub proof fn lemma_steps_ok_push(before: Seq<Transfer>, prev: Seq<Transfer>, t: Transfer)
    requires
        steps_ok(before, prev),
        t.3 is Ok,
    ensures
        steps_ok(before, prev.push(t)),
{
    assert forall|i: int| before.len() <= i < prev.push(t).len() implies (#[trigger] prev.push(
        t,
    )[i]).3 is Ok by {
        if i < prev.len() {
            assert(prev.push(t)[i] == prev[i]);
        }
    }
}

/// A failed transfer after successful ones stops the sequence there.
pub proof fn lemma_stop_push(before: Seq<Transfer>, prev: Seq<Transfer>, t: Transfer)
    requires
        steps_ok(before, prev),
        prev.len() >= before.len(),
        t.3 is Err,
    ensures
        stopped_at_failure(before, prev.push(t)),
{
    assert(prev.push(t).drop_last() =~= prev);
}

/// The transport: raw transfers at a register address of `N` bytes.
///
/// A transfer returns the number of bytes moved, or the error the bus reported.
pub trait RegComms<const N: usize, R: RegCommsAddress<N>> {
    fn comms_read(&mut self, reg_address: R, buf: &mut [u8]) -> (r: Result<usize, RegCommsError>)
        ensures
            final(buf)@.len() == old(buf)@.len(),
    ;

    fn comms_write(&mut self, reg_address: R, buf: &[u8]) -> (r: Result<usize, RegCommsError>);
}

/// An access procedure: how a register transfer of a peripheral reaches the transport,
/// directly or through a sequence of other transfers.
pub trait RegCommsAccessProc<Peripheral, const N: usize, R: RegCommsAddress<N>> {
    fn proc_read(&self, peripheral: &mut Peripheral, reg_address: R, buf: &mut [u8]) -> (r: Result<
        usize,
        RegCommsError,
    >)
        ensures
            final(buf)@.len() == old(buf)@.len(),
    ;

    fn proc_write(&self, peripheral: &mut Peripheral, reg_address: R, buf: &[u8]) -> (r: Result<
        usize,
        RegCommsError,
    >);
}

impl RegCommsAddress<1> for u8 {
    open spec fn address_value(self) -> u64 {
        self as u64
    }

    fn to_big_endian(self) -> (r: [u8; 1]) {
        let v = self as u64;
        let r = [((v >> 0u64) & 0xffu64) as u8];
        proof {
            assert(r@ =~= bytes_of(v, 1, Endian::Big));
        }
        r
    }

    fn to_little_endian(self) -> (r: [u8; 1]) {
        let v = self as u64;
        let r = [((v >> 0u64) & 0xffu64) as u8];
        proof {
            assert(r@ =~= bytes_of(v, 1, Endian::Little));
        }
        r
    }

    fn from_big_endian(bytes: [u8; 1]) -> (r: u8) {
        let w = word_from_bytes(&bytes, Endian::Big);
        proof {
            lemma_word_fits(bytes@, Endian::Big);
            assert(w >> 8u64 == 0 ==> (w as u8) as u64 == w) by (bit_vector);
        }
        w as u8
    }

    fn from_little_endian(bytes: [u8; 1]) -> (r: u8) {
        let w = word_from_bytes(&bytes, Endian::Little);
        proof {
            lemma_word_fits(bytes@, Endian::Little);
            assert(w >> 8u64 == 0 ==> (w as u8) as u64 == w) by (bit_vector);
        }
        w as u8
    }
}

impl RegCommsAddress<2> for u16 {
    open spec fn address_value(self) -> u64 {
        self as u64
    }

    fn to_big_endian(self) -> (r: [u8; 2]) {
        let v = self as u64;
        let r = [((v >> 8u64) & 0xffu64) as u8, ((v >> 0u64) & 0xffu64) as u8];
        proof {
            assert(r@ =~= bytes_of(v, 2, Endian::Big));
        }
        r
    }

    fn to_little_endian(self) -> (r: [u8; 2]) {
        let v = self as u64;
        let r = [((v >> 0u64) & 0xffu64) as u8, ((v >> 8u64) & 0xffu64) as u8];
        proof {
            assert(r@ =~= bytes_of(v, 2, Endian::Little));
        }
        r
    }

    fn from_big_endian(bytes: [u8; 2]) -> (r: u16) {
        let w = word_from_bytes(&bytes, Endian::Big);
        proof {
            lemma_word_fits(bytes@, Endian::Big);
            assert(w >> 16u64 == 0 ==> (w as u16) as u64 == w) by (bit_vector);
        }
        w as u16
    }

    fn from_little_endian(bytes: [u8; 2]) -> (r: u16) {
        let w = word_from_bytes(&bytes, Endian::Little);
        proof {
            lemma_word_fits(bytes@, Endian::Little);
            assert(w >> 16u64 == 0 ==> (w as u16) as u64 == w) by (bit_vector);
        }
        w as u16
    }
}

impl RegCommsAddress<4> for u32 {
    open spec fn address_value(self) -> u64 {
        self as u64
    }

    fn to_big_endian(self) -> (r: [u8; 4]) {
        let v = self as u64;
        let r = [((v >> 24u64) & 0xffu64) as u8, ((v >> 16u64) & 0xffu64) as u8, ((v >> 8u64) & 0xffu64) as u8, ((v >> 0u64) & 0xffu64) as u8];
        proof {
            assert(r@ =~= bytes_of(v, 4, Endian::Big));
        }
        r
    }

    fn to_little_endian(self) -> (r: [u8; 4]) {
        let v = self as u64;
        let r = [((v >> 0u64) & 0xffu64) as u8, ((v >> 8u64) & 0xffu64) as u8, ((v >> 16u64) & 0xffu64) as u8, ((v >> 24u64) & 0xffu64) as u8];
        proof {
            assert(r@ =~= bytes_of(v, 4, Endian::Little));
        }
        r
    }

    fn from_big_endian(bytes: [u8; 4]) -> (r: u32) {
        let w = word_from_bytes(&bytes, Endian::Big);
        proof {
            lemma_word_fits(bytes@, Endian::Big);
            assert(w >> 32u64 == 0 ==> (w as u32) as u64 == w) by (bit_vector);
        }
        w as u32
    }

    fn from_little_endian(bytes: [u8; 4]) -> (r: u32) {
        let w = word_from_bytes(&bytes, Endian::Little);
        proof {
            lemma_word_fits(bytes@, Endian::Little);
            assert(w >> 32u64 == 0 ==> (w as u32) as u64 == w) by (bit_vector);
        }
        w as u32
    }
}

impl RegCommsAddress<8> for u64 {
    open spec fn address_value(self) -> u64 {
        self as u64
    }

    fn to_big_endian(self) -> (r: [u8; 8]) {
        let v = self as u64;
        let r = [((v >> 56u64) & 0xffu64) as u8, ((v >> 48u64) & 0xffu64) as u8, ((v >> 40u64) & 0xffu64) as u8, ((v >> 32u64) & 0xffu64) as u8, ((v >> 24u64) & 0xffu64) as u8, ((v >> 16u64) & 0xffu64) as u8, ((v >> 8u64) & 0xffu64) as u8, ((v >> 0u64) & 0xffu64) as u8];
        proof {
            assert(r@ =~= bytes_of(v, 8, Endian::Big));
        }
        r
    }

    fn to_little_endian(self) -> (r: [u8; 8]) {
        let v = self as u64;
        let r = [((v >> 0u64) & 0xffu64) as u8, ((v >> 8u64) & 0xffu64) as u8, ((v >> 16u64) & 0xffu64) as u8, ((v >> 24u64) & 0xffu64) as u8, ((v >> 32u64) & 0xffu64) as u8, ((v >> 40u64) & 0xffu64) as u8, ((v >> 48u64) & 0xffu64) as u8, ((v >> 56u64) & 0xffu64) as u8];
        proof {
            assert(r@ =~= bytes_of(v, 8, Endian::Little));
        }
        r
    }

    fn from_big_endian(bytes: [u8; 8]) -> (r: u64) {
        let w = word_from_bytes(&bytes, Endian::Big);
        proof {
        }
        w as u64
    }

    fn from_little_endian(bytes: [u8; 8]) -> (r: u64) {
        let w = word_from_bytes(&bytes, Endian::Little);
        proof {
        }
        w as u64
    }
}

} // verus!
