//! Cache-maintenance operations: the set/way operand encoding, the named
//! maintenance registers, and the full-cache sweeps that issue one
//! operation per set and way.
//!
//! A set/way operand packs the way into the top bits (32 - log2(ways)
//! upward), the set above the line-offset bits, and the cache level into
//! the low bits. An address operand is the address itself.

use vstd::prelude::*;

verus! {

use vstd::arithmetic::div_mod::lemma_fundamental_div_mod_converse;
use vstd::arithmetic::mul::lemma_mul_is_distributive_add;

use crate::sysreg::SysRegBank;
use crate::sysreg::SysRegId;

/// The set/way operand for a cache-maintenance operation: `a` is
/// log2(associativity) (zero for a direct-mapped cache), `n` is log2(line
/// length in bytes).
pub open spec fn spec_dc_sw_value(a: u32, n: u32, way: u32, set: u32, level: u32) -> u32 {
    if a == 0 {
        (set << n) | level
    } else {
        (way << ((32 - a) as u32)) | (set << n) | level
    }
}

/// Build a set/way operand. The generic parameters are log2 of the
/// associativity (`A`) and of the line length in bytes (`N`), fixed by
/// the cache geometry.
pub fn dc_sw_value<const A: usize, const N: usize>(way: u8, set: u16, level: u8) -> (r: u32)
    requires
        A <= 32,
        N < 32,
        level < 8,
    ensures
        r == spec_dc_sw_value(A as u32, N as u32, way as u32, set as u32, level as u32),
{
    if A == 0 {
        ((set as u32) << (N as u32)) | (level as u32)
    } else {
        ((way as u32) << (32 - A as u32)) | ((set as u32) << (N as u32)) | (level as u32)
    }
}

/// Build a set/way operand from run-time geometry values rather than
/// generic parameters: `a` is log2(associativity), `n` log2(line length).
pub fn dc_sw_value_with_offsets(a: usize, way: u8, n: usize, set: u16, level: u8) -> (r: u32)
    requires
        a <= 32,
        n < 32,
        level < 8,
    ensures
        r == spec_dc_sw_value(a as u32, n as u32, way as u32, set as u32, level as u32),
{
    if a == 0 {
        ((set as u32) << (n as u32)) | (level as u32)
    } else {
        ((way as u32) << (32 - a as u32)) | ((set as u32) << (n as u32)) | (level as u32)
    }
}

/// DCISW (Invalidate Data or Unified Cache Line by Set/Way).
#[derive(Clone, Copy, Debug, PartialEq, Eq, Structural)]
pub struct Dcisw(pub u32);

impl Dcisw {
    /// Build the operand for invalidation by set and way; `A` and `N` are
    /// log2 of the associativity and the line length.
    pub fn new<const A: usize, const N: usize>(way: u8, set: u16, level: u8) -> (r: Dcisw)
        requires
            A <= 32,
            N < 32,
            level < 8,
        ensures
            r.0 == spec_dc_sw_value(A as u32, N as u32, way as u32, set as u32, level as u32),
    {
        Dcisw(dc_sw_value::<A, N>(way, set, level))
    }

    /// Build the operand from run-time geometry values.
    pub fn new_with_offsets(a: usize, way: u8, n: usize, set: u16, level: u8) -> (r: Dcisw)
        requires
            a <= 32,
            n < 32,
            level < 8,
        ensures
            r.0 == spec_dc_sw_value(a as u32, n as u32, way as u32, set as u32, level as u32),
    {
        Dcisw(dc_sw_value_with_offsets(a, way, n, set, level))
    }

    /// The encoding of DCISW.
    pub open spec fn spec_reg_id() -> SysRegId {
        SysRegId { cp: 15, crn: 7, op1: 0, crm: 6, op2: 2 }
    }

    /// The encoding of DCISW.
    pub fn reg_id() -> (r: SysRegId)
        ensures
            r == Self::spec_reg_id(),
    {
        SysRegId { cp: 15, crn: 7, op1: 0, crm: 6, op2: 2 }
    }

    /// Issue the operation. The caller must ensure the operand matches the
    /// cache geometry.
    pub fn write(bank: &mut SysRegBank, value: Dcisw)
        ensures
            final(bank).entries@ == old(bank).entries@.push(
                (Self::spec_reg_id().spec_key(), value.0),
            ),
    {
        bank.write(Self::reg_id().key(), value.0);
    }
}

/// DCCSW (Clean Data or Unified Cache Line by Set/Way).
#[derive(Clone, Copy, Debug, PartialEq, Eq, Structural)]
pub struct Dccsw(pub u32);

impl Dccsw {
    /// Build the operand for cleaning by set and way; `A` and `N` are log2
    /// of the associativity and the line length.
    pub fn new<const A: usize, const N: usize>(way: u8, set: u16, level: u8) -> (r: Dccsw)
        requires
            A <= 32,
            N < 32,
            level < 8,
        ensures
            r.0 == spec_dc_sw_value(A as u32, N as u32, way as u32, set as u32, level as u32),
    {
        Dccsw(dc_sw_value::<A, N>(way, set, level))
    }

    /// Build the operand from run-time geometry values.
    pub fn new_with_offsets(a: usize, way: u8, n: usize, set: u16, level: u8) -> (r: Dccsw)
        requires
            a <= 32,
            n < 32,
            level < 8,
        ensures
            r.0 == spec_dc_sw_value(a as u32, n as u32, way as u32, set as u32, level as u32),
    {
        Dccsw(dc_sw_value_with_offsets(a, way, n, set, level))
    }

    /// The encoding of DCCSW.
    pub open spec fn spec_reg_id() -> SysRegId {
        SysRegId { cp: 15, crn: 7, op1: 0, crm: 10, op2: 2 }
    }

    /// The encoding of DCCSW.
    pub fn reg_id() -> (r: SysRegId)
        ensures
            r == Self::spec_reg_id(),
    {
        SysRegId { cp: 15, crn: 7, op1: 0, crm: 10, op2: 2 }
    }

    /// Issue the operation.
    pub fn write(bank: &mut SysRegBank, value: Dccsw)
        ensures
            final(bank).entries@ == old(bank).entries@.push(
                (Self::spec_reg_id().spec_key(), value.0),
            ),
    {
        bank.write(Self::reg_id().key(), value.0);
    }
}

/// DCCISW (Clean and Invalidate Data or Unified Cache Line by Set/Way).
#[derive(Clone, Copy, Debug, PartialEq, Eq, Structural)]
pub struct Dccisw(pub u32);

impl Dccisw {
    /// Build the operand for cleaning and invalidating by set and way.
    pub fn new<const A: usize, const N: usize>(way: u8, set: u16, level: u8) -> (r: Dccisw)
        requires
            A <= 32,
            N < 32,
            level < 8,
        ensures
            r.0 == spec_dc_sw_value(A as u32, N as u32, way as u32, set as u32, level as u32),
    {
        Dccisw(dc_sw_value::<A, N>(way, set, level))
    }

    /// Build the operand from run-time geometry values.
    pub fn new_with_offsets(a: usize, way: u8, n: usize, set: u16, level: u8) -> (r: Dccisw)
        requires
            a <= 32,
            n < 32,
            level < 8,
        ensures
            r.0 == spec_dc_sw_value(a as u32, n as u32, way as u32, set as u32, level as u32),
    {
        Dccisw(dc_sw_value_with_offsets(a, way, n, set, level))
    }

    /// The encoding of DCCISW.
    pub open spec fn spec_reg_id() -> SysRegId {
        SysRegId { cp: 15, crn: 7, op1: 0, crm: 14, op2: 2 }
    }

    /// The encoding of DCCISW.
    pub fn reg_id() -> (r: SysRegId)
        ensures
            r == Self::spec_reg_id(),
    {
        SysRegId { cp: 15, crn: 7, op1: 0, crm: 14, op2: 2 }
    }

    /// Issue the operation.
    pub fn write(bank: &mut SysRegBank, value: Dccisw)
        ensures
            final(bank).entries@ == old(bank).entries@.push(
                (Self::spec_reg_id().spec_key(), value.0),
            ),
    {
        bank.write(Self::reg_id().key(), value.0);
    }
}

/// DCIMVAC (Invalidate Data or Unified Cache Line by Address to Point of
/// Coherence). The operand is the address.
#[derive(Clone, Copy, Debug, PartialEq, Eq, Structural)]
pub struct Dcimvac(pub u32);

impl Dcimvac {
    /// Wrap an address operand; it should be aligned to the line size.
    pub fn new(addr: u32) -> (r: Dcimvac)
        ensures
            r.0 == addr,
    {
        Dcimvac(addr)
    }

    /// The encoding of DCIMVAC.
    pub open spec fn spec_reg_id() -> SysRegId {
        SysRegId { cp: 15, crn: 7, op1: 0, crm: 6, op2: 1 }
    }

    /// The encoding of DCIMVAC.
    pub fn reg_id() -> (r: SysRegId)
        ensures
            r == Self::spec_reg_id(),
    {
        SysRegId { cp: 15, crn: 7, op1: 0, crm: 6, op2: 1 }
    }

    /// Issue the operation.
    pub fn write(bank: &mut SysRegBank, value: Dcimvac)
        ensures
            final(bank).entries@ == old(bank).entries@.push(
                (Self::spec_reg_id().spec_key(), value.0),
            ),
    {
        bank.write(Self::reg_id().key(), value.0);
    }
}

/// DCCMVAC (Clean Data or Unified Cache Line by Address to Point of
/// Coherence). The operand is the address.
#[derive(Clone, Copy, Debug, PartialEq, Eq, Structural)]
pub struct Dccmvac(pub u32);

impl Dccmvac {
    /// Wrap an address operand; it should be aligned to the line size.
    pub fn new(addr: u32) -> (r: Dccmvac)
        ensures
            r.0 == addr,
    {
        Dccmvac(addr)
    }

    /// The encoding of DCCMVAC.
    pub open spec fn spec_reg_id() -> SysRegId {
        SysRegId { cp: 15, crn: 7, op1: 0, crm: 10, op2: 1 }
    }

    /// The encoding of DCCMVAC.
    pub fn reg_id() -> (r: SysRegId)
        ensures
            r == Self::spec_reg_id(),
    {
        SysRegId { cp: 15, crn: 7, op1: 0, crm: 10, op2: 1 }
    }

    /// Issue the operation.
    pub fn write(bank: &mut SysRegBank, value: Dccmvac)
        ensures
            final(bank).entries@ == old(bank).entries@.push(
                (Self::spec_reg_id().spec_key(), value.0),
            ),
    {
        bank.write(Self::reg_id().key(), value.0);
    }
}

/// DCCMVAU (Clean Data or Unified Cache Line by Address to Point of
/// Unification). The operand is the address.
#[derive(Clone, Copy, Debug, PartialEq, Eq, Structural)]
pub struct Dccmvau(pub u32);

impl Dccmvau {
    /// Wrap an address operand; it should be aligned to the line size.
    pub fn new(addr: u32) -> (r: Dccmvau)
        ensures
            r.0 == addr,
    {
        Dccmvau(addr)
    }

    /// The encoding of DCCMVAU.
    pub open spec fn spec_reg_id() -> SysRegId {
        SysRegId { cp: 15, crn: 7, op1: 0, crm: 11, op2: 1 }
    }

    /// The encoding of DCCMVAU.
    pub fn reg_id() -> (r: SysRegId)
        ensures
            r == Self::spec_reg_id(),
    {
        SysRegId { cp: 15, crn: 7, op1: 0, crm: 11, op2: 1 }
    }

    /// Issue the operation.
    pub fn write(bank: &mut SysRegBank, value: Dccmvau)
        ensures
            final(bank).entries@ == old(bank).entries@.push(
                (Self::spec_reg_id().spec_key(), value.0),
            ),
    {
        bank.write(Self::reg_id().key(), value.0);
    }
}

/// DCCIMVAC (Clean and Invalidate Data or Unified Cache Line by Address to
/// Point of Coherence). The operand is the address.
#[derive(Clone, Copy, Debug, PartialEq, Eq, Structural)]
pub struct Dccimvac(pub u32);

impl Dccimvac {
    /// Wrap an address operand; it should be aligned to the line size.
    pub fn new(addr: u32) -> (r: Dccimvac)
        ensures
            r.0 == addr,
    {
        Dccimvac(addr)
    }

    /// The encoding of DCCIMVAC.
    pub open spec fn spec_reg_id() -> SysRegId {
        SysRegId { cp: 15, crn: 7, op1: 0, crm: 14, op2: 1 }
    }

    /// The encoding of DCCIMVAC.
    pub fn reg_id() -> (r: SysRegId)
        ensures
            r == Self::spec_reg_id(),
    {
        SysRegId { cp: 15, crn: 7, op1: 0, crm: 14, op2: 1 }
    }

    /// Issue the operation.
    pub fn write(bank: &mut SysRegBank, value: Dccimvac)
        ensures
            final(bank).entries@ == old(bank).entries@.push(
                (Self::spec_reg_id().spec_key(), value.0),
            ),
    {
        bank.write(Self::reg_id().key(), value.0);
    }
}

/// Invalidate one data-cache line to the point of coherence.
pub fn invalidate_data_cache_line_to_poc(bank: &mut SysRegBank, addr: u32)
    ensures
        final(bank).entries@ == old(bank).entries@.push(
            (Dcimvac::spec_reg_id().spec_key(), addr),
        ),
{
    Dcimvac::write(bank, Dcimvac::new(addr));
}

/// Clean one data-cache line to the point of coherence.
pub fn clean_data_cache_line_to_poc(bank: &mut SysRegBank, addr: u32)
    ensures
        final(bank).entries@ == old(bank).entries@.push(
            (Dccmvac::spec_reg_id().spec_key(), addr),
        ),
{
    Dccmvac::write(bank, Dccmvac::new(addr));
}

/// Clean and invalidate one data-cache line to the point of coherence.
pub fn clean_and_invalidate_data_cache_line_to_poc(bank: &mut SysRegBank, addr: u32)
    ensures
        final(bank).entries@ == old(bank).entries@.push(
            (Dccimvac::spec_reg_id().spec_key(), addr),
        ),
{
    Dccimvac::write(bank, Dccimvac::new(addr));
}

/// The operations a full-cache sweep issues to the register keyed `key`:
/// one per set and way, ways varying fastest, each with the level-zero
/// set/way operand.
pub open spec fn spec_sweep_entries(key: u32, a: u32, n: u32, s: u32, count: nat) -> Seq<
    (u32, u32),
> {
    Seq::new(
        count,
        |i: int|
            (
                key,
                spec_dc_sw_value(
                    a,
                    n,
                    (i % ((1u32 << a) as int)) as u32,
                    (i / ((1u32 << a) as int)) as u32,
                    0,
                ),
            ),
    )
}

/// A small shift's value is bounded and agrees across the widths used
/// here.
proof fn lemma_small_shift_bounds(e: usize)
    by (bit_vector)
    requires
        e <= 16,
    ensures
        1usize << e >= 1,
        1usize << e <= 65536,
        e <= 8 ==> 1usize << e <= 256,
        (1usize << e) as u32 == 1u32 << (e as u32),
{
}

/// Issue one level-zero set/way operation per set and way to the register
/// keyed `key`: the full-cache sweep every level-one maintenance routine
/// runs. `A`, `N` and `S` are log2 of the associativity, the line length
/// and the number of sets.
fn sweep_by_set_way<const A: usize, const N: usize, const S: usize>(bank: &mut SysRegBank, key: u32)
    requires
        A <= 8,
        N < 32,
        S <= 16,
    ensures
        final(bank).entries@ == old(bank).entries@ + spec_sweep_entries(
            key,
            A as u32,
            N as u32,
            S as u32,
            ((1u32 << S as u32) * (1u32 << A as u32)) as nat,
        ),
{
    let ways: usize = 1usize << A;
    let sets: usize = 1usize << S;
    proof {
        lemma_small_shift_bounds(A);
        lemma_small_shift_bounds(S);
        assert(sets * ways <= 65536 * 256) by (nonlinear_arith)
            requires
                ways <= 256 && sets <= 65536 && ways >= 1 && sets >= 1,
        ;
        assert((1u32 << S as u32) * (1u32 << A as u32) == sets * ways);
    }
    let mut set: usize = 0;
    proof {
        assert(old(bank).entries@ + spec_sweep_entries(key, A as u32, N as u32, S as u32, 0)
            =~= old(bank).entries@);
    }
    while set < sets
        invariant
            set <= sets,
            ways == 1usize << A,
            sets == 1usize << S,
            ways as u32 == 1u32 << (A as u32),
            1 <= ways <= 256,
            1 <= sets <= 65536,
            sets * ways <= 65536 * 256,
            A <= 8,
            N < 32,
            S <= 16,
            bank.entries@ == old(bank).entries@ + spec_sweep_entries(
                key,
                A as u32,
                N as u32,
                S as u32,
                (set * ways) as nat,
            ),
        decreases sets - set,
    {
        let mut way: usize = 0;
        proof {
            assert(set * ways + ways <= sets * ways) by (nonlinear_arith)
                requires
                    set < sets && ways >= 1,
            ;
        }
        while way < ways
            invariant
                way <= ways,
                set < sets,
                ways == 1usize << A,
                sets == 1usize << S,
                ways as u32 == 1u32 << (A as u32),
                1 <= ways <= 256,
                1 <= sets <= 65536,
                A <= 8,
                N < 32,
                S <= 16,
                set * ways + ways <= sets * ways,
                sets * ways <= 65536 * 256,
                bank.entries@ == old(bank).entries@ + spec_sweep_entries(
                    key,
                    A as u32,
                    N as u32,
                    S as u32,
                    (set * ways + way) as nat,
                ),
            decreases ways - way,
        {
            let op = dc_sw_value::<A, N>(way as u8, set as u16, 0);
            bank.write(key, op);
            proof {
                let i = set * ways + way;
                lemma_fundamental_div_mod_converse(
                    i as int,
                    ways as int,
                    set as int,
                    way as int,
                );
                assert(i % (((1u32 << (A as u32)) as int)) == way as int);
                assert(i / (((1u32 << (A as u32)) as int)) == set as int);
                assert(spec_sweep_entries(key, A as u32, N as u32, S as u32, (i + 1) as nat)
                    =~= spec_sweep_entries(
                    key,
                    A as u32,
                    N as u32,
                    S as u32,
                    i as nat,
                ).push((key, op)));
            }
            way = way + 1;
        }
        proof {
            lemma_mul_is_distributive_add(ways as int, set as int, 1);
            assert((set + 1) * ways == set * ways + ways) by (nonlinear_arith);
        }
        set = set + 1;
    }
}

/// Invalidate the full level-one data cache: one DCISW operation per set
/// and way. `A`, `N` and `S` are log2 of the associativity, the line
/// length in bytes and the number of sets.
pub fn invalidate_l1_data_cache<const A: usize, const N: usize, const S: usize>(
    bank: &mut SysRegBank,
)
    requires
        A <= 8,
        N < 32,
        S <= 16,
    ensures
        final(bank).entries@ == old(bank).entries@ + spec_sweep_entries(
            Dcisw::spec_reg_id().spec_key(),
            A as u32,
            N as u32,
            S as u32,
            ((1u32 << S as u32) * (1u32 << A as u32)) as nat,
        ),
{
    let key = Dcisw::reg_id().key();
    sweep_by_set_way::<A, N, S>(bank, key);
}

/// Clean the full level-one data cache: one DCCSW operation per set and
/// way.
pub fn clean_l1_data_cache<const A: usize, const N: usize, const S: usize>(bank: &mut SysRegBank)
    requires
        A <= 8,
        N < 32,
        S <= 16,
    ensures
        final(bank).entries@ == old(bank).entries@ + spec_sweep_entries(
            Dccsw::spec_reg_id().spec_key(),
            A as u32,
            N as u32,
            S as u32,
            ((1u32 << S as u32) * (1u32 << A as u32)) as nat,
        ),
{
    let key = Dccsw::reg_id().key();
    sweep_by_set_way::<A, N, S>(bank, key);
}

/// Clean and invalidate the full level-one data cache: one DCCISW
/// operation per set and way.
pub fn clean_and_invalidate_l1_data_cache<const A: usize, const N: usize, const S: usize>(
    bank: &mut SysRegBank,
)
    requires
        A <= 8,
        N < 32,
        S <= 16,
    ensures
        final(bank).entries@ == old(bank).entries@ + spec_sweep_entries(
            Dccisw::spec_reg_id().spec_key(),
            A as u32,
            N as u32,
            S as u32,
            ((1u32 << S as u32) * (1u32 << A as u32)) as nat,
        ),
{
    let key = Dccisw::reg_id().key();
    sweep_by_set_way::<A, N, S>(bank, key);
}

} // verus!
