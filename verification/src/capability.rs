use vstd::prelude::*;
use crate::guid::Guid;

verus! {

/// The universal base capability every negotiable interface chains from.
pub open spec fn iid_unknown() -> Guid {
    Guid { data1: 0x00000000, data2: 0x0000, data3: 0x0000, data4: 0xC000_0000_0000_0046 }
}

pub open spec fn iid_callback() -> Guid {
    Guid { data1: 0x176FBED1, data2: 0xA55C, data3: 0x4796, data4: 0x98CA_A9DA_0EF8_83E7 }
}

pub open spec fn iid_callback2() -> Guid {
    Guid { data1: 0x8A8CC829, data2: 0xCCF2, data3: 0x49FE, data4: 0xBBAE_0F02_2228_071A }
}

pub open spec fn iid_callback3() -> Guid {
    Guid { data1: 0x4FD2ED52, data2: 0x7731, data3: 0x4B8D, data4: 0x9469_03D2_CC30_86C5 }
}

pub open spec fn iid_callback4() -> Guid {
    Guid { data1: 0x7B63B2E3, data2: 0x107D, data3: 0x4D48, data4: 0xB2F6_F61E_2294_70D2 }
}

pub open spec fn iid_callback5() -> Guid {
    Guid { data1: 0x8DFBA405, data2: 0x8C9F, data3: 0x45F8, data4: 0xBFFA_83B1_4CEF_78B5 }
}

pub open spec fn iid_callback6() -> Guid {
    Guid { data1: 0xFC13DF4B, data2: 0x4448, data3: 0x4F4F, data4: 0x950C_BA8D_19D0_0C36 }
}

pub open spec fn iid_callback7() -> Guid {
    Guid { data1: 0xF76A2DBA, data2: 0x1D52, data3: 0x4539, data4: 0x866C_2AA5_18F9_EFC3 }
}

pub open spec fn iid_callback8() -> Guid {
    Guid { data1: 0x5BED9B15, data2: 0xC079, data3: 0x4D47, data4: 0xBFE2_215A_140C_07E0 }
}

pub open spec fn iid_callback9() -> Guid {
    Guid { data1: 0x27583EC3, data2: 0xC8F5, data3: 0x482F, data4: 0x8052_194B_8CE4_705A }
}

/// The seventh notification-interface version. The host negotiates for it by
/// its identifier like for any other entry of the capability table.
pub struct ICorProfilerCallback7;

impl ICorProfilerCallback7 {
    /// The identifier the host presents when negotiating for this version.
    pub fn iid() -> (g: Guid)
        ensures
            g == iid_callback7(),
    {
        Guid { data1: 0xF76A2DBA, data2: 0x1D52, data3: 0x4539, data4: 0x866C_2AA5_18F9_EFC3 }
    }
}

/// One binding of the capability table: an interface identifier and the
/// version tag of the function table it selects.
#[derive(Clone, Copy, PartialEq, Eq, Structural, Debug)]
pub struct CapabilityEntry {
    pub iid: Guid,
    pub version: u32,
}

/// The fixed, ordered capability table: the base capability first, then each
/// notification-interface version in the order it was added. Negotiation is
/// purely additive, so the order never changes.
pub open spec fn table_spec() -> Seq<CapabilityEntry> {
    seq![
        CapabilityEntry { iid: iid_unknown(), version: 0 },
        CapabilityEntry { iid: iid_callback(), version: 1 },
        CapabilityEntry { iid: iid_callback2(), version: 2 },
        CapabilityEntry { iid: iid_callback3(), version: 3 },
        CapabilityEntry { iid: iid_callback4(), version: 4 },
        CapabilityEntry { iid: iid_callback5(), version: 5 },
        CapabilityEntry { iid: iid_callback6(), version: 6 },
        CapabilityEntry { iid: iid_callback7(), version: 7 },
        CapabilityEntry { iid: iid_callback8(), version: 8 },
        CapabilityEntry { iid: iid_callback9(), version: 9 },
    ]
}

/// Whether `id` is one of the identifiers the capability table binds.
pub open spec fn table_contains(id: Guid) -> bool {
    exists|j: int| 0 <= j < table_spec().len() && table_spec()[j].iid == id
}

/// The ordered set of capability bindings a dispatch object answers
/// negotiation from. Read-only at run time: it is populated once, at
/// construction, and never renumbered.
pub struct CorProfilerCallbackVtbl {
    entries: Vec<CapabilityEntry>,
}

impl CorProfilerCallbackVtbl {
    /// The table holds exactly the fixed bindings, in their fixed order.
    pub closed spec fn wf(self) -> bool {
        self.entries@ == table_spec()
    }

    /// Populates the table with every supported interface version.
    pub fn new() -> (t: CorProfilerCallbackVtbl)
        ensures
            t.wf(),
    {
        let mut entries: Vec<CapabilityEntry> = Vec::new();
        entries.push(CapabilityEntry { iid: Guid { data1: 0x00000000, data2: 0x0000, data3: 0x0000, data4: 0xC000_0000_0000_0046 }, version: 0 });
        entries.push(CapabilityEntry { iid: Guid { data1: 0x176FBED1, data2: 0xA55C, data3: 0x4796, data4: 0x98CA_A9DA_0EF8_83E7 }, version: 1 });
        entries.push(CapabilityEntry { iid: Guid { data1: 0x8A8CC829, data2: 0xCCF2, data3: 0x49FE, data4: 0xBBAE_0F02_2228_071A }, version: 2 });
        entries.push(CapabilityEntry { iid: Guid { data1: 0x4FD2ED52, data2: 0x7731, data3: 0x4B8D, data4: 0x9469_03D2_CC30_86C5 }, version: 3 });
        entries.push(CapabilityEntry { iid: Guid { data1: 0x7B63B2E3, data2: 0x107D, data3: 0x4D48, data4: 0xB2F6_F61E_2294_70D2 }, version: 4 });
        entries.push(CapabilityEntry { iid: Guid { data1: 0x8DFBA405, data2: 0x8C9F, data3: 0x45F8, data4: 0xBFFA_83B1_4CEF_78B5 }, version: 5 });
        entries.push(CapabilityEntry { iid: Guid { data1: 0xFC13DF4B, data2: 0x4448, data3: 0x4F4F, data4: 0x950C_BA8D_19D0_0C36 }, version: 6 });
        entries.push(CapabilityEntry { iid: Guid { data1: 0xF76A2DBA, data2: 0x1D52, data3: 0x4539, data4: 0x866C_2AA5_18F9_EFC3 }, version: 7 });
        entries.push(CapabilityEntry { iid: Guid { data1: 0x5BED9B15, data2: 0xC079, data3: 0x4D47, data4: 0xBFE2_215A_140C_07E0 }, version: 8 });
        entries.push(CapabilityEntry { iid: Guid { data1: 0x27583EC3, data2: 0xC8F5, data3: 0x482F, data4: 0x8052_194B_8CE4_705A }, version: 9 });
        let t = CorProfilerCallbackVtbl { entries };
        proof {
            assert(t.entries@ =~= table_spec());
        }
        t
    }

    /// Capability lookup: a linear scan over the fixed table.
    pub fn supports(&self, id: &Guid) -> (r: bool)
        requires
            self.wf(),
        ensures
            r == table_contains(*id),
    {
        let mut i: usize = 0;
        while i < self.entries.len()
            invariant
                self.wf(),
                0 <= i <= self.entries@.len(),
                forall|j: int| 0 <= j < i ==> self.entries@[j].iid != *id,
            decreases self.entries@.len() - i,
        {
            if self.entries[i].iid == *id {
                return true;
            }
            i = i + 1;
        }
        false
    }

    /// The version tag bound to `id`, when the table binds it.
    pub fn version_of(&self, id: &Guid) -> (r: Option<u32>)
        requires
            self.wf(),
        ensures
            match r {
                Some(v) => exists|j: int|
                    0 <= j < table_spec().len() && table_spec()[j].iid == *id
                        && table_spec()[j].version == v,
                None => !table_contains(*id),
            },
    {
        let mut i: usize = 0;
        while i < self.entries.len()
            invariant
                self.wf(),
                0 <= i <= self.entries@.len(),
                forall|j: int| 0 <= j < i ==> self.entries@[j].iid != *id,
            decreases self.entries@.len() - i,
        {
            if self.entries[i].iid == *id {
                return Some(self.entries[i].version);
            }
            i = i + 1;
        }
        None
    }
}

} // verus!
