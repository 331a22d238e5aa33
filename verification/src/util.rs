//! Bit and word utilities shared by the CPU and the MMU, the `Memory`
//! capability that everything addressable by the bus implements, and the
//! fatal-condition type that replaces aborting mid-run.

use vstd::prelude::*;
use vstd::arithmetic::div_mod::lemma_fundamental_div_mod;
use vstd::arithmetic::div_mod::lemma_fundamental_div_mod_converse;
use vstd::arithmetic::div_mod::lemma_mod_multiples_vanish;

verus! {

/// A condition the core does not model and must not silently continue past.
/// The design favours immediate, loud failure here over silently incorrect
/// emulation; since verified code never panics, the condition is reported to
/// the caller, who is expected to halt the run.
#[derive(Debug, Clone, Copy, PartialEq, Eq, Structural)]
pub enum Fault {
    /// A primary-table opcode with no defined behaviour, together with the
    /// program counter it was fetched from.
    UnimplementedOpcode { opcode: u8, pc: u16 },
    /// A secondary-table (0xCB-prefixed) opcode with no defined behaviour.
    UnimplementedCbOpcode { opcode: u8, pc: u16 },
    /// A write to an address with no writable backing store (the external-RAM
    /// window of a cartridge without RAM), with the attempted value.
    UnimplementedWrite { address: u16, value: u8 },
}

/// The upper byte of a 16-bit word.
pub open spec fn upper_byte(double: u16) -> u8 {
    (double / 256) as u8
}

/// The lower byte of a 16-bit word.
pub open spec fn lower_byte(double: u16) -> u8 {
    (double % 256) as u8
}

/// The 16-bit word with the given upper and lower bytes.
pub open spec fn double_of(upper: u8, lower: u8) -> u16 {
    (upper as int * 256 + lower as int) as u16
}

/// `target` with its upper byte replaced.
pub open spec fn with_upper(target: u16, value: u8) -> u16 {
    double_of(value, lower_byte(target))
}

/// `target` with its lower byte replaced.
pub open spec fn with_lower(target: u16, value: u8) -> u16 {
    double_of(upper_byte(target), value)
}

/// Whether bit `n` of `target` is set.
pub open spec fn bit_set(target: u16, n: u8) -> bool {
    target & (1u16 << n) != 0
}

/// `target` with bit `n` forced to `value` and every other bit unchanged.
pub open spec fn with_bit(target: u16, n: u8, value: bool) -> u16 {
    if value {
        target | (1u16 << n)
    } else {
        target & !(1u16 << n)
    }
}

/// Reduction of an unbounded integer into the 16-bit space; all address and
/// register-pair arithmetic wraps modulo 65536 rather than failing.
pub open spec fn wrap16(v: int) -> u16 {
    (v % 0x10000) as u16
}

/// The address one past `a` in the wrapped 16-bit address space.
pub open spec fn succ(a: u16) -> u16 {
    if a == 0xFFFF {
        0
    } else {
        (a + 1) as u16
    }
}

/// Extract the upper and lower bytes from a double.
///
/// Returns the two halves as `(upper, lower)`.
pub fn unpack_bytes_from_double(double: u16) -> (r: (u8, u8))
    ensures
        r.0 == upper_byte(double),
        r.1 == lower_byte(double),
{
    let upper: u8 = (double / 256) as u8;
    let lower: u8 = (double % 256) as u8;
    (upper, lower)
}

/// Pack an upper and a lower byte into a double.
pub fn pack_bytes_into_double(upper: u8, lower: u8) -> (r: u16)
    ensures
        r == double_of(upper, lower),
{
    (upper as u16) * 256 + (lower as u16)
}

/// Replace the lower byte of `target`, preserving the upper byte.
pub fn set_lower(target: u16, value: u8) -> (r: u16)
    ensures
        r == with_lower(target, value),
{
    (target / 256) * 256 + (value as u16)
}

/// Replace the upper byte of `target`, preserving the lower byte.
pub fn set_upper(target: u16, value: u8) -> (r: u16)
    ensures
        r == with_upper(target, value),
{
    (value as u16) * 256 + target % 256
}

/// Force bit `n` of `target` to `value`, leaving every other bit unchanged.
pub fn set_bit(target: u16, n: u8, value: bool) -> (r: u16)
    requires
        n < 16,
    ensures
        r == with_bit(target, n, value),
{
    if value {
        target | (1u16 << n)
    } else {
        target & !(1u16 << n)
    }
}

/// Whether bit `n` of `target` is set.
pub fn get_bit(target: u16, n: u8) -> (r: bool)
    requires
        n < 16,
    ensures
        r == bit_set(target, n),
{
    (target & (1u16 << n)) != 0
}

/// Law: unpacking a double into its two bytes and repacking them reproduces
/// the double exactly.
pub proof fn lemma_pack_unpack_roundtrip(double: u16)
    ensures
        double_of(upper_byte(double), lower_byte(double)) == double,
{
    lemma_fundamental_div_mod(double as int, 256);
}

/// Law: the bytes extracted from a packed double are the bytes packed.
pub proof fn lemma_unpack_pack_roundtrip(upper: u8, lower: u8)
    ensures
        upper_byte(double_of(upper, lower)) == upper,
        lower_byte(double_of(upper, lower)) == lower,
{
    lemma_fundamental_div_mod_converse(
        upper as int * 256 + lower as int,
        256,
        upper as int,
        lower as int,
    );
}

/// Law: replacing the upper byte yields that byte on extraction and leaves
/// the lower byte unchanged.
pub proof fn lemma_set_upper_get(target: u16, value: u8)
    ensures
        upper_byte(with_upper(target, value)) == value,
        lower_byte(with_upper(target, value)) == lower_byte(target),
{
    lemma_unpack_pack_roundtrip(value, lower_byte(target));
}

/// Law: replacing the lower byte yields that byte on extraction and leaves
/// the upper byte unchanged.
pub proof fn lemma_set_lower_get(target: u16, value: u8)
    ensures
        lower_byte(with_lower(target, value)) == value,
        upper_byte(with_lower(target, value)) == upper_byte(target),
{
    lemma_unpack_pack_roundtrip(upper_byte(target), value);
}

/// Law: after forcing bit `n` to `value`, testing bit `n` returns `value`,
/// and testing any other bit returns its original value.
pub proof fn lemma_set_bit_get_bit(target: u16, n: u8, value: bool)
    requires
        n < 16,
    ensures
        bit_set(with_bit(target, n, value), n) == value,
        forall|m: u8| m < 16 && m != n ==> bit_set(with_bit(target, n, value), m) == bit_set(target, m),
{
    assert((target | (1u16 << n)) & (1u16 << n) != 0) by (bit_vector)
        requires n < 16;
    assert((target & !(1u16 << n)) & (1u16 << n) == 0) by (bit_vector)
        requires n < 16;
    assert forall|m: u8| m < 16 && m != n implies
        bit_set(with_bit(target, n, value), m) == bit_set(target, m)
    by {
        assert(((target | (1u16 << n)) & (1u16 << m) != 0) == (target & (1u16 << m) != 0))
            by (bit_vector)
            requires n < 16, m < 16, m != n;
        assert(((target & !(1u16 << n)) & (1u16 << m) != 0) == (target & (1u16 << m) != 0))
            by (bit_vector)
            requires n < 16, m < 16, m != n;
    }
}

/// Law: wrapped addition over an already-wrapped value is the wrap of the
/// whole sum; this is what chains of pc and sp adjustments rely on.
pub proof fn lemma_wrap16_add(v: int, k: int)
    ensures
        wrap16(wrap16(v) + k) == wrap16(v + k),
{
    lemma_fundamental_div_mod(v, 0x10000);
    lemma_mod_multiples_vanish(v / 0x10000, v % 0x10000 + k, 0x10000);
}

/// 16-bit addition with wraparound (modulo 65536) semantics.
pub fn wrap_add16(a: u16, b: u16) -> (r: u16)
    ensures
        r == wrap16(a + b),
{
    ((a as u32 + b as u32) % 0x10000) as u16
}

/// 16-bit subtraction with wraparound (modulo 65536) semantics.
pub fn wrap_sub16(a: u16, b: u16) -> (r: u16)
    ensures
        r == wrap16(a - b),
{
    proof {
        lemma_mod_multiples_vanish(1, a - b, 0x10000);
    }
    ((a as u32 + 0x10000 - b as u32) % 0x10000) as u16
}

/// 8-bit addition with wraparound (modulo 256) semantics.
pub fn wrap_add8(a: u8, b: u8) -> (r: u8)
    ensures
        r == ((a + b) % 256) as u8,
{
    ((a as u16 + b as u16) % 256) as u8
}

/// 8-bit subtraction with wraparound (modulo 256) semantics.
pub fn wrap_sub8(a: u8, b: u8) -> (r: u8)
    ensures
        r == ((a - b) % 256) as u8,
{
    proof {
        lemma_mod_multiples_vanish(1, a - b, 256);
    }
    ((a as u16 + 256 - b as u16) % 256) as u8
}

/// The capability of anything addressable by the bus: single-byte reads and
/// writes, plus derived word operations built from two single-byte accesses
/// at an address and its successor, upper byte first.
pub trait Memory: Sized {
    /// Well-formedness of the backing stores.
    spec fn wf(&self) -> bool;

    /// The addresses `read` is defined on.
    spec fn read_req(&self, address: u16) -> bool;

    /// The byte `read` returns.
    spec fn read_spec(&self, address: u16) -> u8;

    /// Whether a write to `address` has a defined outcome; a write elsewhere
    /// is refused with a fault and changes nothing.
    spec fn write_ok(address: u16) -> bool;

    /// The fault a refused write reports.
    spec fn write_fault(address: u16, value: u8) -> Fault;

    /// How an accepted write at `address` relates the old state to the new.
    spec fn write_rel(pre: Self, post: Self, address: u16, value: u8) -> bool;

    fn read(&self, address: u16) -> (r: u8)
        requires
            self.wf(),
            self.read_req(address),
        ensures
            r == self.read_spec(address),
    ;

    fn write(&mut self, address: u16, value: u8) -> (r: Result<(), Fault>)
        requires
            old(self).wf(),
        ensures
            final(self).wf(),
            Self::write_ok(address) ==> r == Ok::<(), Fault>(())
                && Self::write_rel(*old(self), *final(self), address, value),
            !Self::write_ok(address) ==> r == Err::<(), Fault>(Self::write_fault(address, value))
                && *final(self) == *old(self),
    ;

    /// Read a 16-bit word as two single-byte reads, upper byte first.
    fn read_double(&self, address: u16) -> (r: u16)
        requires
            self.wf(),
            self.read_req(address),
            self.read_req(succ(address)),
        ensures
            r == double_of(self.read_spec(address), self.read_spec(succ(address))),
    {
        let upper = self.read(address);
        let lower = self.read(if address == 0xFFFF { 0 } else { address + 1 });
        pack_bytes_into_double(upper, lower)
    }

    /// Write a 16-bit word as two single-byte writes, upper byte first.
    fn write_double(&mut self, address: u16, value: u16) -> (r: Result<(), Fault>)
        requires
            old(self).wf(),
        ensures
            final(self).wf(),
            !Self::write_ok(address) ==> r == Err::<(), Fault>(
                Self::write_fault(address, upper_byte(value)),
            ) && *final(self) == *old(self),
            Self::write_ok(address) && !Self::write_ok(succ(address)) ==> r == Err::<(), Fault>(
                Self::write_fault(succ(address), lower_byte(value)),
            ) && Self::write_rel(*old(self), *final(self), address, upper_byte(value)),
            Self::write_ok(address) && Self::write_ok(succ(address)) ==> r == Ok::<(), Fault>(())
                && exists|mid: Self|
                    Self::write_rel(*old(self), mid, address, upper_byte(value))
                        && Self::write_rel(mid, *final(self), succ(address), lower_byte(value)),
    {
        let (upper, lower) = unpack_bytes_from_double(value);
        self.write(address, upper)?;
        let ghost mid = *self;
        let r = self.write(if address == 0xFFFF { 0 } else { address + 1 }, lower);
        match r {
            Ok(()) => {
                proof {
                    assert(Self::write_rel(*old(self), mid, address, upper_byte(value))
                        && Self::write_rel(mid, *self, succ(address), lower_byte(value)));
                }
                Ok(())
            },
            Err(f) => Err(f),
        }
    }
}

} // verus!
