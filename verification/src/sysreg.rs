//! The system-register access capability.
//!
//! Every coprocessor-indexed system register is named by a fixed five-part
//! encoding (coprocessor number, primary register number, primary opcode,
//! secondary register number, secondary opcode) that must match the
//! architecture manual exactly: any deviation silently accesses the wrong
//! hardware register. The register file itself is modelled as a bank
//! recording the writes made through this capability, newest last; a read
//! returns the newest value written to the read encoding, and zero where
//! nothing was written (the model's stand-in for a reset value).

use vstd::prelude::*;

verus! {

/// The five-part encoding naming one system register.
#[derive(Clone, Copy, Debug, PartialEq, Eq, Structural)]
pub struct SysRegId {
    /// Coprocessor number (`p15` for the system control coprocessor).
    pub cp: u32,
    /// Primary register number (`CRn`).
    pub crn: u32,
    /// Primary opcode (`opc1`).
    pub op1: u32,
    /// Secondary register number (`CRm`).
    pub crm: u32,
    /// Secondary opcode (`opc2`).
    pub op2: u32,
}

impl SysRegId {
    /// The fields fit the instruction encoding: four bits for the
    /// coprocessor and register numbers, three for the opcodes.
    pub open spec fn wf(self) -> bool {
        &&& self.cp < 16
        &&& self.crn < 16
        &&& self.op1 < 8
        &&& self.crm < 16
        &&& self.op2 < 8
    }

    /// The encoding packed into one word, one hexadecimal digit per
    /// field, as the access instruction lays them out.
    pub open spec fn spec_key(self) -> u32 {
        (self.cp * 0x10000 + self.op1 * 0x1000 + self.crn * 0x100 + self.crm * 0x10
            + self.op2) as u32
    }

    /// Pack the encoding into its key word.
    pub fn key(self) -> (r: u32)
        requires
            self.wf(),
        ensures
            r == self.spec_key(),
    {
        self.cp * 0x10000 + self.op1 * 0x1000 + self.crn * 0x100 + self.crm * 0x10 + self.op2
    }
}

/// Distinct well-formed encodings pack to distinct keys: the key names the
/// register unambiguously.
pub proof fn lemma_key_injective(a: SysRegId, b: SysRegId)
    requires
        a.wf(),
        b.wf(),
        a.spec_key() == b.spec_key(),
    ensures
        a == b,
{
}

/// The newest value recorded for `key`, or zero where none is: entries are
/// scanned newest (last) first.
pub open spec fn spec_lookup(entries: Seq<(u32, u32)>, key: u32) -> u32
    decreases entries.len(),
{
    if entries.len() == 0 {
        0u32
    } else if entries.last().0 == key {
        entries.last().1
    } else {
        spec_lookup(entries.drop_last(), key)
    }
}

/// The system-register file, as the record of the writes made through the
/// access capability, oldest first.
pub struct SysRegBank {
    /// The writes made, oldest first: key word and value.
    pub entries: Vec<(u32, u32)>,
}

impl SysRegBank {
    /// The value a read of `key` returns.
    pub open spec fn spec_read(self, key: u32) -> u32 {
        spec_lookup(self.entries@, key)
    }

    /// A bank with no writes recorded: every register reads zero.
    pub fn new() -> (r: SysRegBank)
        ensures
            forall|key: u32| r.spec_read(key) == 0u32,
    {
        SysRegBank { entries: Vec::new() }
    }

    /// Read the register named `key`: the current bit pattern, which is
    /// the newest value written there (zero where none was).
    pub fn read(&self, key: u32) -> (r: u32)
        ensures
            r == self.spec_read(key),
    {
        let mut i: usize = self.entries.len();
        proof {
            assert(self.entries@.subrange(0, i as int) =~= self.entries@);
        }
        while i > 0
            invariant
                i <= self.entries@.len(),
                spec_lookup(self.entries@, key) == spec_lookup(
                    self.entries@.subrange(0, i as int),
                    key,
                ),
            decreases i,
        {
            let (k, v) = self.entries[i - 1];
            if k == key {
                proof {
                    assert(self.entries@.subrange(0, i as int).last() == (k, v));
                }
                return v;
            }
            proof {
                assert(self.entries@.subrange(0, i as int).drop_last() =~= self.entries@.subrange(
                    0,
                    i - 1,
                ));
            }
            i = i - 1;
        }
        proof {
            assert(self.entries@.subrange(0, 0) =~= Seq::<(u32, u32)>::empty());
        }
        0
    }

    /// Commit a full bit pattern to the register named `key`. A write may
    /// have side effects on hardware (enabling a protection unit, moving
    /// the vector base); any precondition those demand — a validly aligned
    /// address, a barrier around the write — is the caller's to uphold,
    /// exactly as the architecture leaves it.
    pub fn write(&mut self, key: u32, value: u32)
        ensures
            final(self).entries@ == old(self).entries@.push((key, value)),
            final(self).spec_read(key) == value,
            forall|k2: u32| k2 != key ==> final(self).spec_read(k2) == old(self).spec_read(k2),
    {
        proof {
            lemma_write_read_roundtrip(self.entries@, key, value);
        }
        self.entries.push((key, value));
    }

    /// Read, apply a transformation, write back. Not atomic with respect
    /// to interruption: an interrupt between the read and the write can
    /// make the write stale, so a caller that modifies a register an
    /// interrupt handler also touches must mask interrupts around the
    /// call.
    pub fn modify<F: Fn(u32) -> u32>(&mut self, key: u32, f: F)
        requires
            forall|v: u32| #[trigger] f.requires((v,)),
        ensures
            exists|w: u32|
                #[trigger] f.ensures((old(self).spec_read(key),), w) && final(self).entries@
                    == old(self).entries@.push((key, w)),
    {
        let v = self.read(key);
        let w = f(v);
        self.write(key, w);
    }
}

/// Reading back a register just written through the access capability
/// yields exactly the written value, and writing one register leaves every
/// other register's read unchanged.
pub proof fn lemma_write_read_roundtrip(entries: Seq<(u32, u32)>, key: u32, value: u32)
    ensures
        spec_lookup(entries.push((key, value)), key) == value,
        forall|k2: u32|
            k2 != key ==> spec_lookup(entries.push((key, value)), k2) == spec_lookup(entries, k2),
{
    assert forall|k2: u32| k2 != key implies spec_lookup(entries.push((key, value)), k2)
        == spec_lookup(entries, k2) by {
        assert(entries.push((key, value)).drop_last() =~= entries);
    }
}

} // verus!
