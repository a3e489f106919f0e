//! The resource snapshot and its refresh discipline: the CPU record, the
//! snapshot aggregate, the two-phase load/reload protocol and the
//! unit-scaled accessors.

use vstd::prelude::*;

use crate::probe;
use crate::probe::RawCpu;

verus! {

/// Bytes in one binary gibibyte; the `_gb` accessors divide by this.
pub const BYTES_PER_GB: u64 = 1024 * 1024 * 1024;

/// The one fatal probe failure the snapshot can detect: a refresh that
/// reports no logical processors at all.
#[derive(Debug, PartialEq, Eq, Structural)]
pub enum ProbeError {
    EmptyCpuList,
}

/// Describes either the whole processor package (the aggregate, whose
/// `processes` hold one record per logical processor) or a single logical
/// processor (a child, with `processes` empty and `core_count` zero).
///
/// `cpu_usage` carries the utilization percentage as the bit pattern of an
/// IEEE 754 single-precision number; `frequency` is in MHz.
#[derive(Debug)]
pub struct CPU {
    pub processes: Vec<CPU>,
    pub cpu_usage: u32,
    pub core_count: usize,
    pub frequency: u64,
    pub name: String,
    pub vendor_id: String,
    pub brand: String,
}

/// A CPU record with every numeric field zero, every string empty and no
/// children: the state before the first load.
pub open spec fn cpu_is_empty(c: CPU) -> bool {
    &&& c.processes@.len() == 0
    &&& c.cpu_usage == 0
    &&& c.core_count == 0
    &&& c.frequency == 0
    &&& c.name@.len() == 0
    &&& c.vendor_id@.len() == 0
    &&& c.brand@.len() == 0
}

impl Default for CPU {
    fn default() -> (c: Self)
        ensures
            cpu_is_empty(c),
    {
        CPU {
            processes: Vec::new(),
            cpu_usage: 0,
            core_count: 0,
            frequency: 0,
            name: String::new(),
            vendor_id: String::new(),
            brand: String::new(),
        }
    }
}

/// A record that stands for one logical processor: no children of its own
/// and no physical-core figure.
pub open spec fn cpu_is_child(c: CPU) -> bool {
    c.processes@.len() == 0 && c.core_count == 0
}

/// The record's identity and sampled fields equal the raw probe entry's.
pub open spec fn cpu_matches_raw(c: CPU, r: RawCpu) -> bool {
    &&& c.name@ == r.name@
    &&& c.vendor_id@ == r.vendor_id@
    &&& c.brand@ == r.brand@
    &&& c.cpu_usage == r.cpu_usage
    &&& c.frequency == r.frequency
}

/// A child record built from one raw probe entry.
pub open spec fn cpu_child_of(c: CPU, r: RawCpu) -> bool {
    cpu_is_child(c) && cpu_matches_raw(c, r)
}

impl CPU {
    /// Build a child record from one raw probe entry: identity and sampled
    /// values are copied, the core count is zero and there are no children.
    pub fn load_from_raw(raw_cpu: &RawCpu) -> (cpu: Self)
        ensures
            cpu_child_of(cpu, *raw_cpu),
    {
        CPU {
            processes: Vec::new(),
            cpu_usage: raw_cpu.cpu_usage,
            core_count: 0,
            frequency: raw_cpu.frequency,
            name: raw_cpu.name.clone(),
            vendor_id: raw_cpu.vendor_id.clone(),
            brand: raw_cpu.brand.clone(),
        }
    }
}

/// The physical core count the load records: the probe's figure, or zero
/// where the probe could not tell.
pub open spec fn core_count_from(cc: Option<usize>) -> usize {
    match cc {
        Some(n) => n,
        None => 0,
    }
}

/// The shape every snapshot has after a successful load: at least one child
/// record, and every child a leaf.
pub open spec fn cpu_loaded(c: CPU) -> bool {
    &&& c.processes@.len() >= 1
    &&& forall|i: int| 0 <= i < c.processes@.len() ==> cpu_is_child(#[trigger] c.processes@[i])
}

/// The exact aggregate record a full load builds from the probe's logical
/// processors and physical core count: identity and sampled values from the
/// first entry, one child per entry.
pub open spec fn cpu_loaded_from(c: CPU, cpus: Seq<RawCpu>, cc: Option<usize>) -> bool {
    &&& cpus.len() >= 1
    &&& cpu_matches_raw(c, cpus[0])
    &&& c.core_count == core_count_from(cc)
    &&& c.processes@.len() == cpus.len()
    &&& forall|i: int| 0 <= i < cpus.len() ==> cpu_child_of(#[trigger] c.processes@[i], cpus[i])
}

/// The in-memory snapshot of the machine: memory figures in bytes, boot
/// time and uptime in seconds, the aggregate CPU record, the process count,
/// and the exclusively owned probe handle.
#[derive(Debug)]
pub struct SysResources {
    pub available_memory: u64,
    pub used_memory: u64,
    pub total_memory: u64,
    pub boot_time: u64,
    pub uptime: u64,
    pub cpu: CPU,
    pub num_of_processes: usize,
    pub system: sysinfo::System,
}

/// The memory, time and process-count fields hold exactly the given
/// probe readings.
pub open spec fn scalar_fields_from(s: SysResources, r: probe::ProbeReadings) -> bool {
    &&& s.available_memory == r.available_memory
    &&& s.used_memory == r.used_memory
    &&& s.total_memory == r.total_memory
    &&& s.boot_time == r.boot_time
    &&& s.uptime == r.uptime
    &&& s.num_of_processes == r.process_count
}

/// Every field but the CPU record and the probe handle is unchanged.
pub open spec fn scalar_fields_unchanged(post: SysResources, pre: SysResources) -> bool {
    &&& post.available_memory == pre.available_memory
    &&& post.used_memory == pre.used_memory
    &&& post.total_memory == pre.total_memory
    &&& post.boot_time == pre.boot_time
    &&& post.uptime == pre.uptime
    &&& post.num_of_processes == pre.num_of_processes
}

impl SysResources {
    /// A fresh, unloaded snapshot: every numeric field zero, every string
    /// empty, no children, and a probe handle that has read nothing yet.
    pub fn new() -> (s: SysResources)
        ensures
            s.available_memory == 0,
            s.used_memory == 0,
            s.total_memory == 0,
            s.boot_time == 0,
            s.uptime == 0,
            s.num_of_processes == 0,
            cpu_is_empty(s.cpu),
    {
        SysResources {
            available_memory: 0,
            used_memory: 0,
            total_memory: 0,
            boot_time: 0,
            uptime: 0,
            cpu: CPU::default(),
            num_of_processes: 0,
            system: probe::sys_new(),
        }
    }

    /// One child record per raw probe entry, in the probe's order.
    fn children_from(cpus: &Vec<RawCpu>) -> (v: Vec<CPU>)
        ensures
            v@.len() == cpus@.len(),
            forall|i: int| 0 <= i < cpus@.len() ==> cpu_child_of(#[trigger] v@[i], cpus@[i]),
    {
        let mut v: Vec<CPU> = Vec::new();
        let mut i: usize = 0;
        while i < cpus.len()
            invariant
                i <= cpus@.len(),
                v@.len() == i,
                forall|j: int| 0 <= j < i ==> cpu_child_of(#[trigger] v@[j], cpus@[j]),
            decreases cpus@.len() - i,
        {
            v.push(CPU::load_from_raw(&cpus[i]));
            i = i + 1;
        }
        v
    }

    /// Rebuild the whole CPU record from raw probe entries and the physical
    /// core count; fails, touching nothing, when the probe reported no
    /// logical processors.
    pub fn load_cpu_from_readings(
        &mut self,
        cpus: &Vec<RawCpu>,
        core_count: Option<usize>,
    ) -> (res: Result<(), ProbeError>)
        ensures
            res is Ok <==> cpus@.len() >= 1,
            res is Ok ==> cpu_loaded_from(final(self).cpu, cpus@, core_count),
            res is Err ==> final(self).cpu == old(self).cpu,
            res matches Err(e) ==> e == ProbeError::EmptyCpuList,
            scalar_fields_unchanged(*final(self), *old(self)),
            final(self).system == old(self).system,
    {
        if cpus.len() == 0 {
            return Err(ProbeError::EmptyCpuList);
        }
        let first = &cpus[0];
        self.cpu.brand = first.brand.clone();
        self.cpu.core_count = core_count.unwrap_or(0);
        self.cpu.cpu_usage = first.cpu_usage;
        self.cpu.frequency = first.frequency;
        self.cpu.name = first.name.clone();
        self.cpu.vendor_id = first.vendor_id.clone();
        self.cpu.processes = Self::children_from(cpus);
        Ok(())
    }

    /// A full load from one set of probe readings: the scalar fields are
    /// written first, then the CPU record is rebuilt; an empty logical-CPU
    /// list is fatal and leaves the CPU record as it was.
    pub fn load_from_readings(&mut self, r: &probe::ProbeReadings) -> (res: Result<
        (),
        ProbeError,
    >)
        ensures
            scalar_fields_from(*final(self), *r),
            res is Ok <==> r.cpus@.len() >= 1,
            res is Ok ==> cpu_loaded_from(final(self).cpu, r.cpus@, r.physical_core_count),
            res is Err ==> final(self).cpu == old(self).cpu,
            res matches Err(e) ==> e == ProbeError::EmptyCpuList,
            final(self).system == old(self).system,
    {
        self.available_memory = r.available_memory;
        self.used_memory = r.used_memory;
        self.boot_time = r.boot_time;
        self.uptime = r.uptime;
        self.num_of_processes = r.process_count;
        self.total_memory = r.total_memory;
        self.load_cpu_from_readings(&r.cpus, r.physical_core_count)
    }

    /// Refresh the probe's CPU categories and rebuild the whole CPU record
    /// from what they now show. Resource-heavy; meant for the initial load.
    pub fn load_cpu_info(&mut self) -> (res: Result<(), ProbeError>)
        ensures
            res is Ok ==> cpu_loaded(final(self).cpu),
            res is Err ==> final(self).cpu == old(self).cpu,
            res matches Err(e) ==> e == ProbeError::EmptyCpuList,
            scalar_fields_unchanged(*final(self), *old(self)),
    {
        probe::refresh_cpu_all(&mut self.system);
        let cpus = probe::read_cpus(&self.system);
        let core_count = probe::physical_core_count();
        let res = self.load_cpu_from_readings(&cpus, core_count);
        proof {
            if res is Ok {
                lemma_load_establishes_invariants(self.cpu, cpus@, core_count);
            }
        }
        res
    }

    /// The comprehensive initial probe: replace the probe handle with a
    /// fully refreshed one, read every scalar field, then load the CPU
    /// record. Fails only when the probe reports no logical processors.
    pub fn load(&mut self) -> (res: Result<(), ProbeError>)
        ensures
            res is Ok ==> cpu_loaded(final(self).cpu),
            res matches Err(e) ==> e == ProbeError::EmptyCpuList,
    {
        self.system = probe::sys_new_all();
        self.available_memory = probe::available_memory(&self.system);
        self.used_memory = probe::used_memory(&self.system);
        self.boot_time = probe::boot_time_now();
        self.uptime = probe::uptime_now();
        self.num_of_processes = probe::process_count(&self.system);
        self.total_memory = probe::total_memory(&self.system);
        self.load_cpu_info()
    }
}

/// The identity strings agree between the two records.
pub open spec fn cpu_same_identity(a: CPU, b: CPU) -> bool {
    &&& a.name@ == b.name@
    &&& a.vendor_id@ == b.vendor_id@
    &&& a.brand@ == b.brand@
}

/// Everything a reload must leave alone is unchanged from `pre` to `post`:
/// the aggregate's identity strings and core count, the number of children,
/// and each child's identity strings, core count and (empty) child list.
pub open spec fn cpu_identity_frozen(pre: CPU, post: CPU) -> bool {
    &&& cpu_same_identity(post, pre)
    &&& post.core_count == pre.core_count
    &&& post.processes@.len() == pre.processes@.len()
    &&& forall|i: int| 0 <= i < pre.processes@.len() ==> {
        &&& cpu_same_identity(#[trigger] post.processes@[i], pre.processes@[i])
        &&& post.processes@[i].core_count == pre.processes@[i].core_count
        &&& post.processes@[i].processes@ == pre.processes@[i].processes@
    }
}

/// What a reload does to the child at index `i`: overwritten in its sampled
/// fields from the `i`-th refreshed probe entry where one exists, untouched
/// where the probe now reports fewer entries.
pub open spec fn child_reloaded(post: CPU, pre: CPU, cpus: Seq<RawCpu>, i: int) -> bool {
    if 0 <= i < cpus.len() {
        &&& post.cpu_usage == cpus[i].cpu_usage
        &&& post.frequency == cpus[i].frequency
        &&& post.name == pre.name
        &&& post.vendor_id == pre.vendor_id
        &&& post.brand == pre.brand
        &&& post.core_count == pre.core_count
        &&& post.processes == pre.processes
    } else {
        post == pre
    }
}

/// The exact effect of a CPU reload: the sampled global utilization is
/// stored in the aggregate, the aggregate's clock is re-read from the first
/// refreshed entry (kept where the list is empty), each existing child is
/// overwritten in place by index, and nothing frozen is touched.
pub open spec fn cpu_reloaded_from(post: CPU, pre: CPU, usage_bits: u32, cpus: Seq<RawCpu>) -> bool {
    &&& post.cpu_usage == usage_bits
    &&& post.frequency == if cpus.len() >= 1 {
        cpus[0].frequency
    } else {
        pre.frequency
    }
    &&& cpu_same_identity(post, pre)
    &&& post.core_count == pre.core_count
    &&& post.processes@.len() == pre.processes@.len()
    &&& forall|i: int| 0 <= i < pre.processes@.len() ==> child_reloaded(
        #[trigger] post.processes@[i],
        pre.processes@[i],
        cpus,
        i,
    )
}

impl SysResources {
    /// Overwrite each existing child's sampled fields from the probe entry
    /// at the same index; entries beyond the child list and children beyond
    /// the entry list are ignored.
    fn reload_cpu_cores(&mut self, cpus: &Vec<RawCpu>)
        ensures
            final(self).cpu.processes@.len() == old(self).cpu.processes@.len(),
            forall|i: int| 0 <= i < old(self).cpu.processes@.len() ==> child_reloaded(
                #[trigger] final(self).cpu.processes@[i],
                old(self).cpu.processes@[i],
                cpus@,
                i,
            ),
            final(self).cpu.cpu_usage == old(self).cpu.cpu_usage,
            final(self).cpu.frequency == old(self).cpu.frequency,
            final(self).cpu.core_count == old(self).cpu.core_count,
            final(self).cpu.name == old(self).cpu.name,
            final(self).cpu.vendor_id == old(self).cpu.vendor_id,
            final(self).cpu.brand == old(self).cpu.brand,
            scalar_fields_unchanged(*final(self), *old(self)),
            final(self).system == old(self).system,
    {
        let mut index: usize = 0;
        while index < cpus.len()
            invariant
                index <= cpus@.len(),
                self.cpu.processes@.len() == old(self).cpu.processes@.len(),
                forall|i: int| 0 <= i < index && i < old(self).cpu.processes@.len()
                    ==> child_reloaded(
                    #[trigger] self.cpu.processes@[i],
                    old(self).cpu.processes@[i],
                    cpus@,
                    i,
                ),
                forall|i: int| index <= i < old(self).cpu.processes@.len()
                    ==> #[trigger] self.cpu.processes@[i] == old(self).cpu.processes@[i],
                self.cpu.cpu_usage == old(self).cpu.cpu_usage,
                self.cpu.frequency == old(self).cpu.frequency,
                self.cpu.core_count == old(self).cpu.core_count,
                self.cpu.name == old(self).cpu.name,
                self.cpu.vendor_id == old(self).cpu.vendor_id,
                self.cpu.brand == old(self).cpu.brand,
                scalar_fields_unchanged(*self, *old(self)),
                self.system == old(self).system,
            decreases cpus@.len() - index,
        {
            if index < self.cpu.processes.len() {
                let saved_cpu_core = &mut self.cpu.processes[index];
                saved_cpu_core.cpu_usage = cpus[index].cpu_usage;
                saved_cpu_core.frequency = cpus[index].frequency;
            }
            index = index + 1;
        }
    }

    /// Apply one CPU reload from a sampled global utilization and the
    /// refreshed probe entries: store the sample in the aggregate, re-read
    /// the aggregate's clock from the first entry where one exists, and
    /// overwrite each existing child in place by index.
    pub fn reload_cpu_from_readings(&mut self, usage_bits: u32, cpus: &Vec<RawCpu>)
        ensures
            cpu_reloaded_from(final(self).cpu, old(self).cpu, usage_bits, cpus@),
            cpu_identity_frozen(old(self).cpu, final(self).cpu),
            scalar_fields_unchanged(*final(self), *old(self)),
            final(self).system == old(self).system,
    {
        self.cpu.cpu_usage = usage_bits;
        if cpus.len() > 0 {
            self.cpu.frequency = cpus[0].frequency;
        }
        self.reload_cpu_cores(cpus);
        proof {
            lemma_reload_freezes_identity(old(self).cpu, self.cpu, usage_bits, cpus@);
        }
    }

    /// A reload from one set of probe readings: the volatile scalar fields
    /// are re-read, the installed total and the boot time are kept, and the
    /// CPU record is reloaded in place.
    pub fn reload_from_readings(&mut self, r: &probe::ProbeReadings)
        ensures
            final(self).uptime == r.uptime,
            final(self).available_memory == r.available_memory,
            final(self).used_memory == r.used_memory,
            final(self).num_of_processes == r.process_count,
            final(self).total_memory == old(self).total_memory,
            final(self).boot_time == old(self).boot_time,
            cpu_reloaded_from(final(self).cpu, old(self).cpu, r.global_cpu_usage, r.cpus@),
            cpu_identity_frozen(old(self).cpu, final(self).cpu),
            final(self).system == old(self).system,
    {
        self.uptime = r.uptime;
        self.available_memory = r.available_memory;
        self.used_memory = r.used_memory;
        self.num_of_processes = r.process_count;
        self.reload_cpu_from_readings(r.global_cpu_usage, &r.cpus);
    }

    /// The first half of a reload: refresh every probe category, re-read
    /// the volatile scalar fields, and take the first utilization
    /// observation. The caller waits out the minimum sampling interval and
    /// then calls `reload_finish`; the CPU record is not yet touched.
    pub fn reload_begin(&mut self)
        ensures
            final(self).total_memory == old(self).total_memory,
            final(self).boot_time == old(self).boot_time,
            final(self).cpu == old(self).cpu,
    {
        probe::refresh_all(&mut self.system);
        self.uptime = probe::uptime_now();
        self.available_memory = probe::available_memory(&self.system);
        self.used_memory = probe::used_memory(&self.system);
        self.num_of_processes = probe::process_count(&self.system);
        probe::refresh_cpu_usage(&mut self.system);
    }

    /// The second half of a reload: take the second utilization
    /// observation, then reload the CPU record from the sampled global
    /// utilization and the refreshed probe entries. Everything frozen —
    /// identity strings, core counts, the child count, the installed total
    /// and the boot time — is left exactly as it was.
    pub fn reload_finish(&mut self)
        ensures
            cpu_identity_frozen(old(self).cpu, final(self).cpu),
            scalar_fields_unchanged(*final(self), *old(self)),
    {
        probe::refresh_cpu_usage(&mut self.system);
        let usage_bits = probe::global_cpu_usage_bits(&self.system);
        let cpus = probe::read_cpus(&self.system);
        self.reload_cpu_from_readings(usage_bits, &cpus);
    }

    /// The first half of a utilization sample: one observation. The caller
    /// waits out the minimum sampling interval and calls
    /// `finish_cpu_usage_sample`; no snapshot field changes here.
    pub fn begin_cpu_usage_sample(&mut self)
        ensures
            final(self).cpu == old(self).cpu,
            scalar_fields_unchanged(*final(self), *old(self)),
    {
        probe::refresh_cpu_usage(&mut self.system);
    }

    /// The second half of a utilization sample: the second observation is
    /// taken, and the resulting whole-machine percentage (as its bit
    /// pattern) is both stored in the aggregate record and returned, so the
    /// two always agree. No other field changes.
    pub fn finish_cpu_usage_sample(&mut self) -> (r: u32)
        ensures
            final(self).cpu.cpu_usage == r,
            final(self).cpu.processes == old(self).cpu.processes,
            final(self).cpu.frequency == old(self).cpu.frequency,
            final(self).cpu.core_count == old(self).cpu.core_count,
            final(self).cpu.name == old(self).cpu.name,
            final(self).cpu.vendor_id == old(self).cpu.vendor_id,
            final(self).cpu.brand == old(self).cpu.brand,
            scalar_fields_unchanged(*final(self), *old(self)),
    {
        probe::refresh_cpu_usage(&mut self.system);
        let r = probe::global_cpu_usage_bits(&self.system);
        self.cpu.cpu_usage = r;
        r
    }

    /// Used memory in whole binary gibibytes; fractions are dropped.
    pub fn used_memory_gb(&self) -> (r: u64)
        ensures
            r == self.used_memory / BYTES_PER_GB,
    {
        self.used_memory / BYTES_PER_GB
    }

    /// Available memory in whole binary gibibytes; fractions are dropped.
    pub fn available_memory_gb(&self) -> (r: u64)
        ensures
            r == self.available_memory / BYTES_PER_GB,
    {
        self.available_memory / BYTES_PER_GB
    }

    /// Installed memory in whole binary gibibytes; fractions are dropped.
    pub fn total_memory_gb(&self) -> (r: u64)
        ensures
            r == self.total_memory / BYTES_PER_GB,
    {
        self.total_memory / BYTES_PER_GB
    }

    /// The stored uptime seconds read as an epoch instant and turned into a
    /// civil time; absent exactly when the (sign-reinterpreted) seconds fall
    /// outside the representable range.
    pub fn get_uptime(&self) -> (r: Option<chrono::NaiveDateTime>)
        ensures
            r is Some <==> probe::timestamp_representable(self.uptime as i64),
    {
        probe::timestamp_to_local(#[verifier::truncate] (self.uptime as i64))
    }

    /// The stored boot-time epoch seconds turned into a civil time; absent
    /// exactly when the (sign-reinterpreted) seconds fall outside the
    /// representable range.
    pub fn get_boot_time(&self) -> (r: Option<chrono::NaiveDateTime>)
        ensures
            r is Some <==> probe::timestamp_representable(self.boot_time as i64),
    {
        probe::timestamp_to_local(#[verifier::truncate] (self.boot_time as i64))
    }
}

/// Reloading never touches what the initial load froze: the identity
/// strings, the core counts, the number of children and the children's own
/// (empty) child lists all survive any reload, whatever the probe returned.
pub proof fn lemma_reload_freezes_identity(pre: CPU, post: CPU, usage_bits: u32, cpus: Seq<RawCpu>)
    requires
        cpu_reloaded_from(post, pre, usage_bits, cpus),
    ensures
        cpu_identity_frozen(pre, post),
{
}

/// Reloading keeps the loaded shape: a snapshot whose CPU record was loaded
/// stays loaded — same number of children, every child still a leaf — after
/// any reload.
pub proof fn lemma_reload_preserves_loaded_shape(
    pre: CPU,
    post: CPU,
    usage_bits: u32,
    cpus: Seq<RawCpu>,
)
    requires
        cpu_loaded(pre),
        cpu_reloaded_from(post, pre, usage_bits, cpus),
    ensures
        cpu_loaded(post),
        post.processes@.len() == pre.processes@.len(),
{
    assert forall|i: int| 0 <= i < post.processes@.len() implies cpu_is_child(
        #[trigger] post.processes@[i],
    ) by {
        assert(child_reloaded(post.processes@[i], pre.processes@[i], cpus, i));
    }
}

/// Two loads that saw the same probe readings record the same identity: the
/// aggregate's strings and core count and every child's strings agree.
pub proof fn lemma_load_identity_deterministic(
    cpus: Seq<RawCpu>,
    cc: Option<usize>,
    a: CPU,
    b: CPU,
)
    requires
        cpu_loaded_from(a, cpus, cc),
        cpu_loaded_from(b, cpus, cc),
    ensures
        cpu_same_identity(a, b),
        a.core_count == b.core_count,
        a.processes@.len() == b.processes@.len(),
        forall|i: int| 0 <= i < a.processes@.len() ==> cpu_same_identity(
            #[trigger] a.processes@[i],
            b.processes@[i],
        ),
{
}

/// A snapshot whose scalar fields came from probe readings with consistent
/// memory figures keeps them consistent: what is used and what is available
/// are each bounded by what is installed.
pub proof fn lemma_memory_bounds(s: SysResources, r: probe::ProbeReadings)
    requires
        scalar_fields_from(s, r),
        r.used_memory <= r.total_memory,
        r.available_memory <= r.total_memory,
    ensures
        s.used_memory <= s.total_memory,
        s.available_memory <= s.total_memory,
{
}

/// After a successful load the aggregate has one child per logical
/// processor reported (so at least one), every child is a leaf, and a probe
/// that could not tell the physical core count leaves it zero.
pub proof fn lemma_load_establishes_invariants(c: CPU, cpus: Seq<RawCpu>, cc: Option<usize>)
    requires
        cpu_loaded_from(c, cpus, cc),
    ensures
        cpu_loaded(c),
        c.processes@.len() == cpus.len() >= 1,
        forall|i: int| 0 <= i < c.processes@.len() ==> (#[trigger] c.processes@[i]).processes@.len()
            == 0 && c.processes@[i].core_count == 0,
        cc is None ==> c.core_count == 0,
{
}

} // verus!
