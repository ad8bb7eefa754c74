use vstd::prelude::*;

verus! {

pub const PLIC_PENDING_BASE: u64 = 0x1000;
pub const PLIC_MENABLE_BASE: u64 = 0x2000;
pub const PLIC_SENABLE_BASE: u64 = 0x2080;
pub const PLIC_MTHRESHOLD_BASE: u64 = 0x200000;
pub const PLIC_STHRESHOLD_BASE: u64 = 0x201000;
pub const PLIC_MCLAIM_BASE: u64 = 0x200004;
pub const PLIC_SCLAIM_BASE: u64 = 0x201004;

/// The number of harts that have a context.
pub const PLIC_CORE_MAX: usize = 5;

/// The number of interrupt sources that have a priority register.
pub const PLIC_INT_MAX: usize = 1024;

/// The number of interrupt sources that an enable register covers.
pub const PLIC_ENABLE_BITS: usize = 32;

/// The register that an offset into the controller's address range names.
#[derive(Clone, Copy, Debug, PartialEq, Eq, Structural)]
pub enum PlicRegister {
    Priority { source: usize },
    Pending,
    MachineEnable { hart: usize },
    SupervisorEnable { hart: usize },
    MachineThreshold { hart: usize },
    MachineClaim { hart: usize },
    SupervisorThreshold { hart: usize },
    SupervisorClaim { hart: usize },
    Reserved,
}

impl PlicRegister {
    /// The source and hart numbers are within the controller's limits.
    pub open spec fn in_range(self) -> bool {
        match self {
            PlicRegister::Priority { source } => source < PLIC_INT_MAX,
            PlicRegister::Pending => true,
            PlicRegister::MachineEnable { hart } => hart < PLIC_CORE_MAX,
            PlicRegister::SupervisorEnable { hart } => hart < PLIC_CORE_MAX,
            PlicRegister::MachineThreshold { hart } => hart < PLIC_CORE_MAX,
            PlicRegister::MachineClaim { hart } => hart < PLIC_CORE_MAX,
            PlicRegister::SupervisorThreshold { hart } => hart < PLIC_CORE_MAX,
            PlicRegister::SupervisorClaim { hart } => hart < PLIC_CORE_MAX,
            PlicRegister::Reserved => true,
        }
    }
}

/// The register at offset `addr`, of which bits 21:2 count. The priorities
/// fill the first 0x1000 bytes, one word for each source. The pending word
/// is at 0x1000. From 0x2000 each hart has 0x100 bytes of enable registers,
/// the machine context in the lower half and the supervisor context in the
/// upper. From 0x200000 each hart has 0x2000 bytes, the machine context in
/// the lower half and the supervisor context in the upper, each with a
/// threshold register and, one word above it, a claim register.
pub open spec fn spec_plic_register(addr: u64) -> PlicRegister {
    let e_addr: u64 = addr & 0x3f_fffc;
    if e_addr < PLIC_PENDING_BASE {
        PlicRegister::Priority { source: (e_addr / 4) as usize }
    } else if e_addr < PLIC_MENABLE_BASE {
        if e_addr == PLIC_PENDING_BASE {
            PlicRegister::Pending
        } else {
            PlicRegister::Reserved
        }
    } else if e_addr < PLIC_MTHRESHOLD_BASE {
        let hart: u64 = ((e_addr - PLIC_MENABLE_BASE) / 0x100) as u64;
        if hart >= PLIC_CORE_MAX as u64 {
            PlicRegister::Reserved
        } else if e_addr & 0x80 == 0 {
            PlicRegister::MachineEnable { hart: hart as usize }
        } else {
            PlicRegister::SupervisorEnable { hart: hart as usize }
        }
    } else {
        let hart: u64 = ((e_addr - PLIC_MTHRESHOLD_BASE) / 0x2000) as u64;
        if hart >= PLIC_CORE_MAX as u64 {
            PlicRegister::Reserved
        } else if e_addr & 0x1000 == 0 {
            if e_addr & 0x4 == 0 {
                PlicRegister::MachineThreshold { hart: hart as usize }
            } else {
                PlicRegister::MachineClaim { hart: hart as usize }
            }
        } else {
            if e_addr & 0x4 == 0 {
                PlicRegister::SupervisorThreshold { hart: hart as usize }
            } else {
                PlicRegister::SupervisorClaim { hart: hart as usize }
            }
        }
    }
}

#[verifier::when_used_as_spec(spec_plic_register)]
pub fn plic_register(addr: u64) -> (r: PlicRegister)
    ensures
        r == spec_plic_register(addr),
        r.in_range(),
{
    let e_addr: u64 = addr & 0x3f_fffc;
    if e_addr < PLIC_PENDING_BASE {
        PlicRegister::Priority { source: (e_addr / 4) as usize }
    } else if e_addr < PLIC_MENABLE_BASE {
        if e_addr == PLIC_PENDING_BASE {
            PlicRegister::Pending
        } else {
            PlicRegister::Reserved
        }
    } else if e_addr < PLIC_MTHRESHOLD_BASE {
        let hart: u64 = (e_addr - PLIC_MENABLE_BASE) / 0x100;
        if hart >= PLIC_CORE_MAX as u64 {
            PlicRegister::Reserved
        } else if e_addr & 0x80 == 0 {
            PlicRegister::MachineEnable { hart: hart as usize }
        } else {
            PlicRegister::SupervisorEnable { hart: hart as usize }
        }
    } else {
        let hart: u64 = (e_addr - PLIC_MTHRESHOLD_BASE) / 0x2000;
        if hart >= PLIC_CORE_MAX as u64 {
            PlicRegister::Reserved
        } else if e_addr & 0x1000 == 0 {
            if e_addr & 0x4 == 0 {
                PlicRegister::MachineThreshold { hart: hart as usize }
            } else {
                PlicRegister::MachineClaim { hart: hart as usize }
            }
        } else {
            if e_addr & 0x4 == 0 {
                PlicRegister::SupervisorThreshold { hart: hart as usize }
            } else {
                PlicRegister::SupervisorClaim { hart: hart as usize }
            }
        }
    }
}

/// Whether source `id` can interrupt a context with the given enable word
/// and threshold: it is one of the sources 1 to 31, enabled, and its
/// priority is above the threshold. Source 0 means "no interrupt".
pub open spec fn is_candidate(priority: Seq<u32>, enable: u32, threshold: u32, id: usize) -> bool {
    0 < id < PLIC_ENABLE_BITS && (enable >> (id as u32)) & 0x1 != 0 && priority[id as int]
        > threshold
}

/// Whether some source of `ids` can interrupt the context.
pub open spec fn has_candidate(priority: Seq<u32>, enable: u32, threshold: u32, ids: Seq<usize>) -> bool {
    exists|i: int| 0 <= i < ids.len() && is_candidate(priority, enable, threshold, #[trigger] ids[i])
}

/// Whether `best` is the source of `ids` that interrupts the context: it is
/// in `ids` and a candidate, no candidate in `ids` has a higher priority,
/// and none of the same priority has a smaller number.
pub open spec fn is_best(
    priority: Seq<u32>,
    enable: u32,
    threshold: u32,
    ids: Seq<usize>,
    best: usize,
) -> bool {
    &&& ids.contains(best)
    &&& is_candidate(priority, enable, threshold, best)
    &&& forall|i: int|
        0 <= i < ids.len() && is_candidate(priority, enable, threshold, #[trigger] ids[i])
            ==> priority[ids[i] as int] < priority[best as int] || (priority[ids[i] as int]
            == priority[best as int] && best <= ids[i])
}

/// The registers of the interrupt controller.
pub struct PlicView {
    pub priority: Seq<u32>,
    pub pending: u32,
    pub menable: Seq<u32>,
    pub senable: Seq<u32>,
    pub mthreshold: Seq<u32>,
    pub sthreshold: Seq<u32>,
    pub mclaim: Seq<u32>,
    pub sclaim: Seq<u32>,
}

impl PlicView {
    /// The registers after reset: all zero.
    pub open spec fn reset() -> PlicView {
        PlicView {
            priority: Seq::new(PLIC_INT_MAX as nat, |i: int| 0u32),
            pending: 0,
            menable: Seq::new(PLIC_CORE_MAX as nat, |i: int| 0u32),
            senable: Seq::new(PLIC_CORE_MAX as nat, |i: int| 0u32),
            mthreshold: Seq::new(PLIC_CORE_MAX as nat, |i: int| 0u32),
            sthreshold: Seq::new(PLIC_CORE_MAX as nat, |i: int| 0u32),
            mclaim: Seq::new(PLIC_CORE_MAX as nat, |i: int| 0u32),
            sclaim: Seq::new(PLIC_CORE_MAX as nat, |i: int| 0u32),
        }
    }

    /// What a read at offset `addr` returns; 0 in a reserved area.
    pub open spec fn read(self, addr: u64) -> u32 {
        match spec_plic_register(addr) {
            PlicRegister::Priority { source } => self.priority[source as int],
            PlicRegister::Pending => self.pending,
            PlicRegister::MachineEnable { hart } => self.menable[hart as int],
            PlicRegister::SupervisorEnable { hart } => self.senable[hart as int],
            PlicRegister::MachineThreshold { hart } => self.mthreshold[hart as int],
            PlicRegister::MachineClaim { hart } => self.mclaim[hart as int],
            PlicRegister::SupervisorThreshold { hart } => self.sthreshold[hart as int],
            PlicRegister::SupervisorClaim { hart } => self.sclaim[hart as int],
            PlicRegister::Reserved => 0,
        }
    }

    /// The claim register `claim` after `data` was written to it: writing
    /// the number that it holds completes the interrupt and clears it.
    pub open spec fn completed(claim: u32, data: u32) -> u32 {
        if claim == data {
            0
        } else {
            claim
        }
    }

    /// The registers after `data` was written at offset `addr`; a write to a
    /// reserved area changes nothing.
    pub open spec fn written(self, addr: u64, data: u32) -> PlicView {
        match spec_plic_register(addr) {
            PlicRegister::Priority { source } => PlicView {
                priority: self.priority.update(source as int, data),
                ..self
            },
            PlicRegister::Pending => PlicView { pending: data, ..self },
            PlicRegister::MachineEnable { hart } => PlicView {
                menable: self.menable.update(hart as int, data),
                ..self
            },
            PlicRegister::SupervisorEnable { hart } => PlicView {
                senable: self.senable.update(hart as int, data),
                ..self
            },
            PlicRegister::MachineThreshold { hart } => PlicView {
                mthreshold: self.mthreshold.update(hart as int, data),
                ..self
            },
            PlicRegister::MachineClaim { hart } => PlicView {
                mclaim: self.mclaim.update(
                    hart as int,
                    Self::completed(self.mclaim[hart as int], data),
                ),
                ..self
            },
            PlicRegister::SupervisorThreshold { hart } => PlicView {
                sthreshold: self.sthreshold.update(hart as int, data),
                ..self
            },
            PlicRegister::SupervisorClaim { hart } => PlicView {
                sclaim: self.sclaim.update(
                    hart as int,
                    Self::completed(self.sclaim[hart as int], data),
                ),
                ..self
            },
            PlicRegister::Reserved => self,
        }
    }

    /// Whether the machine context of hart `core` is interrupted by a source of `ids`.
    pub open spec fn machine_line(self, core: usize, ids: Seq<usize>) -> bool {
        has_candidate(self.priority, self.menable[core as int], self.mthreshold[core as int], ids)
    }

    /// Whether the supervisor context of hart `core` is interrupted by a source of `ids`.
    pub open spec fn supervisor_line(self, core: usize, ids: Seq<usize>) -> bool {
        has_candidate(self.priority, self.senable[core as int], self.sthreshold[core as int], ids)
    }

    /// Whether `next` is the state after a tick of hart `core` with the
    /// pending sources `ids`: a context that is interrupted has the winning
    /// source in its claim register, and nothing else has changed.
    pub open spec fn ticked(self, core: usize, ids: Seq<usize>, next: PlicView) -> bool {
        &&& next.priority == self.priority
        &&& next.pending == self.pending
        &&& next.menable == self.menable
        &&& next.senable == self.senable
        &&& next.mthreshold == self.mthreshold
        &&& next.sthreshold == self.sthreshold
        &&& next.mclaim.len() == self.mclaim.len()
        &&& next.sclaim.len() == self.sclaim.len()
        &&& forall|h: int| 0 <= h < self.mclaim.len() && h != core ==> next.mclaim[h] == self.mclaim[h]
        &&& forall|h: int| 0 <= h < self.sclaim.len() && h != core ==> next.sclaim[h] == self.sclaim[h]
        &&& if self.machine_line(core, ids) {
            is_best(
                self.priority,
                self.menable[core as int],
                self.mthreshold[core as int],
                ids,
                next.mclaim[core as int] as usize,
            )
        } else {
            next.mclaim[core as int] == self.mclaim[core as int]
        }
        &&& if self.supervisor_line(core, ids) {
            is_best(
                self.priority,
                self.senable[core as int],
                self.sthreshold[core as int],
                ids,
                next.sclaim[core as int] as usize,
            )
        } else {
            next.sclaim[core as int] == self.sclaim[core as int]
        }
    }
}

/// The platform-level interrupt controller: a priority for each source, and
/// for the machine and supervisor context of each hart an enable word, a
/// threshold and a claim register.
pub struct Plic {
    pub priority: [u32; 1024],
    pub pending: u32,
    pub menable: [u32; 5],
    pub senable: [u32; 5],
    pub mthreshold: [u32; 5],
    pub sthreshold: [u32; 5],
    pub mclaim: [u32; 5],
    pub sclaim: [u32; 5],
}

impl View for Plic {
    type V = PlicView;

    open spec fn view(&self) -> PlicView {
        PlicView {
            priority: self.priority@,
            pending: self.pending,
            menable: self.menable@,
            senable: self.senable@,
            mthreshold: self.mthreshold@,
            sthreshold: self.sthreshold@,
            mclaim: self.mclaim@,
            sclaim: self.sclaim@,
        }
    }
}

/// The source of `interrupts` that interrupts a context, or 0 if none does.
fn select(priority: &[u32; 1024], enable: u32, threshold: u32, interrupts: &Vec<usize>) -> (best:
    usize)
    ensures
        best == 0 <==> !has_candidate(priority@, enable, threshold, interrupts@),
        best != 0 ==> is_best(priority@, enable, threshold, interrupts@, best),
{
    let mut best: usize = 0;
    let mut i: usize = 0;
    while i < interrupts.len()
        invariant
            i <= interrupts.len(),
            best == 0 <==> !has_candidate(priority@, enable, threshold, interrupts@.take(i as int)),
            best != 0 ==> is_best(priority@, enable, threshold, interrupts@.take(i as int), best),
        decreases interrupts.len() - i,
    {
        let id: usize = interrupts[i];
        let ghost before: Seq<usize> = interrupts@.take(i as int);
        let ghost after: Seq<usize> = interrupts@.take(i + 1);
        let ghost old_best: usize = best;
        assert(after == before.push(id));
        assert(forall|k: int| 0 <= k < i ==> after[k] == before[k]);
        assert(after[i as int] == id);
        let mut candidate: bool = false;
        if 0 < id && id < PLIC_ENABLE_BITS {
            if (enable >> (id as u32)) & 0x1 != 0 && priority[id] > threshold {
                candidate = true;
            }
        }
        assert(candidate == is_candidate(priority@, enable, threshold, id));
        if candidate {
            if best == 0 || priority[id] > priority[best] || (priority[id] == priority[best] && id
                < best) {
                best = id;
            }
            assert(is_candidate(priority@, enable, threshold, after[i as int]));
        }
        proof {
            if old_best != 0 {
                assert(before.contains(old_best));
                let k = choose|k: int| 0 <= k < before.len() && before[k] == old_best;
                assert(after[k] == old_best);
            }
            if best != 0 {
                if best == id {
                    assert(after[i as int] == best);
                }
                assert(after.contains(best));
                assert forall|k: int|
                    0 <= k < after.len() && is_candidate(
                        priority@,
                        enable,
                        threshold,
                        #[trigger] after[k],
                    ) implies priority@[after[k] as int] < priority@[best as int] || (priority@[after[k] as int]
                    == priority@[best as int] && best <= after[k]) by {
                    if k < i {
                        assert(before[k] == after[k]);
                    }
                }
            } else {
                assert forall|k: int| 0 <= k < after.len() implies !is_candidate(
                    priority@,
                    enable,
                    threshold,
                    #[trigger] after[k],
                ) by {
                    if k < i {
                        assert(before[k] == after[k]);
                    }
                }
            }
        }
        i += 1;
    }
    assert(interrupts@.take(i as int) == interrupts@);
    best
}

impl Plic {
    /// A controller in which every register is zero.
    pub fn new() -> (plic: Self)
        ensures
            plic@ == PlicView::reset(),
    {
        let plic = Plic {
            priority: [0u32; 1024],
            pending: 0,
            menable: [0u32; 5],
            senable: [0u32; 5],
            mthreshold: [0u32; 5],
            sthreshold: [0u32; 5],
            mclaim: [0u32; 5],
            sclaim: [0u32; 5],
        };
        assert(plic@.priority =~= PlicView::reset().priority);
        assert(plic@.menable =~= PlicView::reset().menable);
        assert(plic@.senable =~= PlicView::reset().senable);
        assert(plic@.mthreshold =~= PlicView::reset().mthreshold);
        assert(plic@.sthreshold =~= PlicView::reset().sthreshold);
        assert(plic@.mclaim =~= PlicView::reset().mclaim);
        assert(plic@.sclaim =~= PlicView::reset().sclaim);
        plic
    }

    /// Arbitrates among the pending sources `interrupts` for the two
    /// contexts of hart `core`. The result has one line for each privilege
    /// level; only the supervisor line (1) and the machine line (3) are
    /// ever raised.
    pub fn tick(&mut self, core: usize, interrupts: Vec<usize>) -> (irqs: Vec<bool>)
        requires
            core < PLIC_CORE_MAX,
        ensures
            irqs@ == seq![
                false,
                old(self)@.supervisor_line(core, interrupts@),
                false,
                old(self)@.machine_line(core, interrupts@),
            ],
            old(self)@.ticked(core, interrupts@, final(self)@),
    {
        let irq_m: usize = select(
            &self.priority,
            self.menable[core],
            self.mthreshold[core],
            &interrupts,
        );
        let irq_s: usize = select(
            &self.priority,
            self.senable[core],
            self.sthreshold[core],
            &interrupts,
        );
        let mut irqs: Vec<bool> = Vec::new();
        irqs.push(false);
        irqs.push(irq_s != 0);
        irqs.push(false);
        irqs.push(irq_m != 0);
        if irq_m != 0 {
            assert(irq_m < PLIC_ENABLE_BITS);
            self.mclaim[core] = irq_m as u32;
        }
        if irq_s != 0 {
            assert(irq_s < PLIC_ENABLE_BITS);
            self.sclaim[core] = irq_s as u32;
        }
        assert(irqs@ =~= seq![false, irq_s != 0, false, irq_m != 0]);
        irqs
    }

    /// Reads the register at offset `addr`.
    pub fn read(&mut self, addr: u64) -> (data: u32)
        ensures
            final(self)@ == old(self)@,
            data == old(self)@.read(addr),
    {
        match plic_register(addr) {
            PlicRegister::Priority { source } => self.priority[source],
            PlicRegister::Pending => self.pending,
            PlicRegister::MachineEnable { hart } => self.menable[hart],
            PlicRegister::SupervisorEnable { hart } => self.senable[hart],
            PlicRegister::MachineThreshold { hart } => self.mthreshold[hart],
            PlicRegister::MachineClaim { hart } => self.mclaim[hart],
            PlicRegister::SupervisorThreshold { hart } => self.sthreshold[hart],
            PlicRegister::SupervisorClaim { hart } => self.sclaim[hart],
            PlicRegister::Reserved => 0,
        }
    }

    /// Writes the register at offset `addr`.
    pub fn write(&mut self, addr: u64, data: u32)
        ensures
            final(self)@ == old(self)@.written(addr, data),
    {
        match plic_register(addr) {
            PlicRegister::Priority { source } => {
                self.priority[source] = data;
            },
            PlicRegister::Pending => {
                self.pending = data;
            },
            PlicRegister::MachineEnable { hart } => {
                self.menable[hart] = data;
            },
            PlicRegister::SupervisorEnable { hart } => {
                self.senable[hart] = data;
            },
            PlicRegister::MachineThreshold { hart } => {
                self.mthreshold[hart] = data;
            },
            PlicRegister::MachineClaim { hart } => {
                if self.mclaim[hart] == data {
                    self.mclaim[hart] = 0;
                }
            },
            PlicRegister::SupervisorThreshold { hart } => {
                self.sthreshold[hart] = data;
            },
            PlicRegister::SupervisorClaim { hart } => {
                if self.sclaim[hart] == data {
                    self.sclaim[hart] = 0;
                }
            },
            PlicRegister::Reserved => {},
        }
        assert(self@.mclaim =~= old(self)@.written(addr, data).mclaim);
        assert(self@.sclaim =~= old(self)@.written(addr, data).sclaim);
    }
}

} // verus!
