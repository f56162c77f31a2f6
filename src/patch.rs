use vstd::prelude::*;
use crate::error::Error;
use crate::memory::{scannable_protection, MemoryBasicInformation};
use crate::module::Module;
use crate::pattern::{has_no_match, is_first_match, lemma_scan_is_deterministic, matches_exactly, Pattern};
use vstd::slice::slice_subrange;

verus! {

/// Where a pattern is searched for.
pub enum MemorySection {
    /// Every region of the address space that may be read.
    All,
    /// The image of the module with this exact name.
    Module(String),
}

/// How the address to patch is found.
pub enum BaseAddress<const N: usize> {
    /// This address, as it is.
    Direct(usize),
    /// This address, once the bytes there are found to match the pattern.
    DirectVerify(usize, Pattern<N>),
    /// The first place in the section where the pattern matches.
    Pattern(Pattern<N>, MemorySection),
}

/// What the caller must do next for a patch job.
#[derive(PartialEq, Eq, Structural, Clone, Copy, Debug)]
pub enum Action {
    /// Read up to `len` bytes at `address`; answer with `Event::Bytes`.
    ReadBytes { address: usize, len: usize },
    /// Enumerate the target's memory regions; answer with `Event::Regions`.
    ListRegions,
    /// Enumerate the target's modules; answer with `Event::Modules`.
    ListModules,
    /// Read one pointer-sized value at `address`; answer with `Event::Pointer`.
    ReadPointer { address: usize },
    /// Write the job's value at `address`; answer with `Event::Written`.
    Write { address: usize },
    /// The job is over: the value was written at this address.
    Patched(usize),
    /// The job is over: it failed, and nothing was written after the failure.
    Failed(Error),
}

/// What the caller reports back to a patch job.
pub enum Event {
    /// Start the job.
    Begin,
    /// The bytes a read transferred (possibly fewer than asked), or its failure.
    Bytes(Result<Vec<u8>, Error>),
    /// The target's memory regions, in enumeration order.
    Regions(Vec<MemoryBasicInformation>),
    /// The target's modules, in enumeration order.
    Modules(Vec<Module>),
    /// The pointer value that was read, or the read's failure.
    Pointer(Result<usize, Error>),
    /// The outcome of the write.
    Written(Result<(), Error>),
}

/// Where a patch job stands.
#[derive(PartialEq, Eq, Structural, Clone, Copy, Debug)]
pub enum Phase {
    /// Not begun.
    Start,
    /// Waiting for the bytes at `address` to verify.
    Verify { address: usize },
    /// Waiting for the region list.
    Regions,
    /// Waiting for the module list.
    Modules,
    /// Waiting for the bytes of candidate range `index`.
    Scan { index: usize },
    /// Waiting for the pointer at `address`, to which offset `index` is added.
    Chase { address: usize, index: usize },
    /// Waiting for the write at `address`.
    Write { address: usize },
    /// Over.
    Done,
}

/// One application of a patch: the base address specification, an optional
/// offset chain, the value to write and the scan step, with the progress made.
pub struct PatchJob<const N: usize> {
    pub base: BaseAddress<N>,
    pub offsets: Option<Vec<usize>>,
    pub value: Vec<u8>,
    pub step: usize,
    pub ranges: Vec<(usize, usize)>,
    pub phase: Phase,
}

/// The scan step used when none is chosen.
pub const DEFAULT_STEP: usize = 4;

/// The first tested offset at which the slots match, if any.
pub open spec fn first_match(slots: Seq<Option<u8>>, hay: Seq<u8>, step: int) -> Option<int> {
    if exists|o: int| is_first_match(slots, hay, step, o) {
        Some(choose|o: int| is_first_match(slots, hay, step, o))
    } else {
        None
    }
}

/// The `(base, size)` ranges of the regions a whole-address-space scan reads,
/// in enumeration order.
pub open spec fn scan_ranges(regions: Seq<MemoryBasicInformation>) -> Seq<(usize, usize)>
    decreases regions.len(),
{
    if regions.len() == 0 {
        Seq::empty()
    } else {
        let rest = scan_ranges(regions.drop_last());
        let m = regions.last();
        if scannable_protection(m.protect) {
            rest.push((m.base_address, m.region_size))
        } else {
            rest
        }
    }
}

/// The index of the first module named `name`, if any.
pub open spec fn first_named(modules: Seq<Module>, name: Seq<char>) -> Option<int> {
    if exists|i: int| 0 <= i < modules.len() && #[trigger] modules[i].name@ == name {
        Some(
            choose|i: int|
                0 <= i < modules.len() && #[trigger] modules[i].name@ == name && forall|j: int|
                    0 <= j < i ==> modules[j].name@ != name,
        )
    } else {
        None
    }
}

/// The step towards writing `len` bytes at `address`.
pub open spec fn write_step(address: int, len: int) -> (Phase, Action) {
    if address + len <= usize::MAX {
        (Phase::Write { address: address as usize }, Action::Write { address: address as usize })
    } else {
        (Phase::Done, Action::Failed(Error::InvalidOffset))
    }
}

/// The step once the base address is known: follow the offset chain, if one
/// is given and not empty, else write.
pub open spec fn chain_step(offsets: Option<Seq<usize>>, len: int, address: int) -> (Phase, Action) {
    match offsets {
        Some(o) if o.len() > 0 => (
            Phase::Chase { address: address as usize, index: 0 },
            Action::ReadPointer { address: address as usize },
        ),
        _ => write_step(address, len),
    }
}

/// The step that reads candidate range `index`, or fails with `NotFound`
/// once no range is left.
pub open spec fn range_step(ranges: Seq<(usize, usize)>, index: int) -> (Phase, Action) {
    if 0 <= index < ranges.len() {
        (
            Phase::Scan { index: index as usize },
            Action::ReadBytes { address: ranges[index].0, len: ranges[index].1 },
        )
    } else {
        (Phase::Done, Action::Failed(Error::NotFound))
    }
}

/// The step after the bytes `data` of candidate range `index` came back:
/// the first match in them (beyond the range's size they are ignored) gives
/// the base address, else the next range is tried.
pub open spec fn scan_step(
    slots: Seq<Option<u8>>,
    step: int,
    offsets: Option<Seq<usize>>,
    len: int,
    ranges: Seq<(usize, usize)>,
    index: int,
    data: Seq<u8>,
) -> (Phase, Action) {
    let (base, size) = ranges[index];
    let hay = if data.len() <= size { data } else { data.subrange(0, size as int) };
    match first_match(slots, hay, step) {
        Some(o) if base + o <= usize::MAX => chain_step(offsets, len, base + o),
        _ => range_step(ranges, index + 1),
    }
}

/// The step after pointer value `v` was read for offset `index` of the chain.
pub open spec fn chase_step(offsets: Seq<usize>, len: int, index: int, v: int) -> (Phase, Action) {
    let next = v + offsets[index];
    if next > usize::MAX {
        (Phase::Done, Action::Failed(Error::InvalidOffset))
    } else if index + 1 < offsets.len() {
        (
            Phase::Chase { address: next as usize, index: (index + 1) as usize },
            Action::ReadPointer { address: next as usize },
        )
    } else {
        write_step(next, len)
    }
}

/// Ending a job.
pub open spec fn finish(r: Result<usize, Error>) -> (Phase, Action) {
    (
        Phase::Done,
        match r {
            Ok(a) => Action::Patched(a),
            Err(e) => Action::Failed(e),
        },
    )
}

/// The offset chain of a job, as a sequence.
pub open spec fn offsets_view(offsets: Option<Vec<usize>>) -> Option<Seq<usize>> {
    match offsets {
        Some(v) => Some(v@),
        None => None,
    }
}

/// The ranges a job holds after an event: they are set from the region or
/// module list, and kept otherwise.
pub open spec fn ranges_after<const N: usize>(job: PatchJob<N>, event: Event) -> Seq<(usize, usize)> {
    match (job.phase, event) {
        (Phase::Regions, Event::Regions(list)) => scan_ranges(list@),
        (Phase::Modules, Event::Modules(list)) => match first_named(list@, module_name(job.base)) {
            Some(i) => seq![(list@[i].address, list@[i].size as usize)],
            None => job.ranges@,
        },
        _ => job.ranges@,
    }
}

/// The module name a job looks for (empty when it looks for none).
pub open spec fn module_name<const N: usize>(base: BaseAddress<N>) -> Seq<char> {
    match base {
        BaseAddress::Pattern(_, MemorySection::Module(name)) => name@,
        _ => Seq::empty(),
    }
}

/// What a job does on an event: its next phase and the caller's next action.
/// An event that does not answer the pending action fails the job with
/// `UnexpectedEvent`.
pub open spec fn advance_spec<const N: usize>(job: PatchJob<N>, event: Event) -> (Phase, Action) {
    let offs = offsets_view(job.offsets);
    let len = job.value@.len() as int;
    match (job.phase, event) {
        (Phase::Start, Event::Begin) => match job.base {
            BaseAddress::Direct(a) => chain_step(offs, len, a as int),
            BaseAddress::DirectVerify(a, _) => (
                Phase::Verify { address: a },
                Action::ReadBytes { address: a, len: N },
            ),
            BaseAddress::Pattern(_, MemorySection::All) => (Phase::Regions, Action::ListRegions),
            BaseAddress::Pattern(_, MemorySection::Module(_)) => (Phase::Modules, Action::ListModules),
        },
        (Phase::Verify { address }, Event::Bytes(r)) => match (job.base, r) {
            (BaseAddress::DirectVerify(_, p), Ok(d)) => if matches_exactly(p@, d@) {
                chain_step(offs, len, address as int)
            } else {
                finish(Err(Error::PatternMismatch))
            },
            (BaseAddress::DirectVerify(_, _), Err(e)) => finish(Err(e)),
            _ => finish(Err(Error::UnexpectedEvent)),
        },
        (Phase::Regions, Event::Regions(list)) => range_step(scan_ranges(list@), 0),
        (Phase::Modules, Event::Modules(list)) => match first_named(list@, module_name(job.base)) {
            Some(i) => range_step(seq![(list@[i].address, list@[i].size as usize)], 0),
            None => finish(Err(Error::NotFound)),
        },
        (Phase::Scan { index }, Event::Bytes(r)) => match job.base {
            BaseAddress::Pattern(p, _) => if index < job.ranges@.len() {
                match r {
                    Ok(d) => scan_step(p@, job.step as int, offs, len, job.ranges@, index as int, d@),
                    Err(_) => range_step(job.ranges@, index + 1),
                }
            } else {
                finish(Err(Error::UnexpectedEvent))
            },
            _ => finish(Err(Error::UnexpectedEvent)),
        },
        (Phase::Chase { address, index }, Event::Pointer(r)) => match (offs, r) {
            (Some(o), Ok(v)) => if index < o.len() {
                chase_step(o, len, index as int, v as int)
            } else {
                finish(Err(Error::UnexpectedEvent))
            },
            (Some(_), Err(e)) => finish(Err(e)),
            _ => finish(Err(Error::UnexpectedEvent)),
        },
        (Phase::Write { address }, Event::Written(r)) => match r {
            Ok(_) => finish(Ok(address)),
            Err(e) => finish(Err(e)),
        },
        _ => finish(Err(Error::UnexpectedEvent)),
    }
}

/// What an event leaves of a job besides its phase: the setup never
/// changes.
pub open spec fn same_setup<const N: usize>(a: PatchJob<N>, b: PatchJob<N>) -> bool {
    &&& a.base == b.base
    &&& a.offsets == b.offsets
    &&& a.value == b.value
    &&& a.step == b.step
}

/// When the live bytes differ from the verification pattern, the job ends
/// with `PatternMismatch` and no write is asked for.
pub proof fn lemma_verify_mismatch_never_writes<const N: usize>(
    job: PatchJob<N>,
    address: usize,
    pattern: Pattern<N>,
    live: Vec<u8>,
)
    requires
        job.phase == (Phase::Verify { address }),
        job.base == BaseAddress::DirectVerify(address, pattern),
        !matches_exactly(pattern@, live@),
    ensures
        advance_spec(job, Event::Bytes(Ok(live))) == (Phase::Done, Action::Failed(Error::PatternMismatch)),
{
}

/// A job that is over asks for nothing more, whatever it is told.
pub proof fn lemma_done_job_stays_done<const N: usize>(job: PatchJob<N>, event: Event)
    requires
        job.phase == Phase::Done,
    ensures
        advance_spec(job, event) == (Phase::Done, Action::Failed(Error::UnexpectedEvent)),
{
}

/// `x` is the `(base, size)` extent of a region of `regions` whose
/// protection is scannable.
pub open spec fn is_scannable_extent(regions: Seq<MemoryBasicInformation>, x: (usize, usize)) -> bool {
    exists|j: int|
        #![trigger regions[j]]
        0 <= j < regions.len() && scannable_protection(regions[j].protect) && x == (
            regions[j].base_address,
            regions[j].region_size,
        )
}

/// A whole-address-space scan reads exactly the scannable regions, in
/// enumeration order: every range it reads is the extent of a region whose
/// protection is scannable, and every such region gives a range.
pub proof fn lemma_scan_reads_only_scannable_regions(regions: Seq<MemoryBasicInformation>)
    ensures
        forall|i: int|
            0 <= i < scan_ranges(regions).len() ==> is_scannable_extent(
                regions,
                #[trigger] scan_ranges(regions)[i],
            ),
        forall|j: int|
            0 <= j < regions.len() && scannable_protection(#[trigger] regions[j].protect) ==> scan_ranges(
                regions,
            ).contains((regions[j].base_address, regions[j].region_size)),
    decreases regions.len(),
{
    if regions.len() > 0 {
        let init = regions.drop_last();
        lemma_scan_reads_only_scannable_regions(init);
        let rest = scan_ranges(init);
        let r = scan_ranges(regions);
        assert forall|i: int| 0 <= i < r.len() implies is_scannable_extent(regions, #[trigger] r[i]) by {
            if i < rest.len() {
                assert(r[i] == rest[i]);
                assert(0 <= i < rest.len());
                assert(is_scannable_extent(init, rest[i]));
                let j = choose|j: int|
                    #![trigger init[j]]
                    0 <= j < init.len() && scannable_protection(init[j].protect) && rest[i] == (
                        init[j].base_address,
                        init[j].region_size,
                    );
                assert(init[j] == regions[j]);
            } else {
                let j = regions.len() - 1;
                assert(regions[j] == regions.last());
                assert(scannable_protection(regions[j].protect));
                assert(r[i] == (regions[j].base_address, regions[j].region_size));
            }
        }
        assert forall|j: int|
            0 <= j < regions.len() && scannable_protection(#[trigger] regions[j].protect) implies r.contains(
                (regions[j].base_address, regions[j].region_size),
            ) by {
            if j < init.len() {
                assert(init[j] == regions[j]);
                let k = choose|k: int| 0 <= k < rest.len() && rest[k] == (init[j].base_address, init[j].region_size);
                assert(r[k] == rest[k]);
            } else {
                assert(regions[j] == regions.last());
                assert(r[r.len() - 1] == (regions[j].base_address, regions[j].region_size));
            }
        }
    } else {
        assert(scan_ranges(regions).len() == 0);
    }
}

/// A scan's answer is the first match.
proof fn lemma_scan_gives_first_match(slots: Seq<Option<u8>>, hay: Seq<u8>, step: int, r: Option<usize>)
    requires
        step >= 1,
        match r {
            Some(o) => is_first_match(slots, hay, step, o as int),
            None => has_no_match(slots, hay, step),
        },
    ensures
        match r {
            Some(o) => first_match(slots, hay, step) == Some(o as int),
            None => first_match(slots, hay, step) is None,
        },
{
    match r {
        Some(o) => {
            let c = choose|c: int| is_first_match(slots, hay, step, c);
            lemma_scan_is_deterministic(slots, hay, step, c, o as int);
        },
        None => {
            if exists|c: int| is_first_match(slots, hay, step, c) {
                let c = choose|c: int| is_first_match(slots, hay, step, c);
                lemma_scan_is_deterministic(slots, hay, step, c, c);
            }
        },
    }
}

/// The `(base, size)` ranges of the scannable regions, in order.
pub fn collect_scan_ranges(regions: &Vec<MemoryBasicInformation>) -> (r: Vec<(usize, usize)>)
    ensures
        r@ == scan_ranges(regions@),
{
    let mut out: Vec<(usize, usize)> = Vec::new();
    let mut i: usize = 0;
    while i < regions.len()
        invariant
            i <= regions@.len(),
            out@ == scan_ranges(regions@.subrange(0, i as int)),
        decreases regions@.len() - i,
    {
        let m = &regions[i];
        assert(regions@.subrange(0, i + 1).drop_last() == regions@.subrange(0, i as int));
        if m.is_scannable() {
            out.push((m.base_address, m.region_size));
        }
        i = i + 1;
    }
    assert(regions@.subrange(0, i as int) == regions@);
    out
}

/// The index of the first module with exactly the name `name`.
pub fn find_module(modules: &Vec<Module>, name: &String) -> (r: Option<usize>)
    ensures
        match r {
            Some(i) => i < modules@.len() && first_named(modules@, name@) == Some(i as int),
            None => first_named(modules@, name@) is None,
        },
{
    let mut i: usize = 0;
    while i < modules.len()
        invariant
            i <= modules@.len(),
            forall|j: int| 0 <= j < i ==> modules@[j].name@ != name@,
        decreases modules@.len() - i,
    {
        if modules[i].name == *name {
            proof {
                let ii = i as int;
                assert(0 <= ii < modules@.len() && modules@[ii].name@ == name@ && forall|j: int|
                    0 <= j < ii ==> modules@[j].name@ != name@);
                let k = choose|k: int|
                    0 <= k < modules@.len() && #[trigger] modules@[k].name@ == name@ && forall|j: int|
                        0 <= j < k ==> modules@[j].name@ != name@;
                if k > ii {
                    assert(modules@[ii].name@ != name@);
                }
            }
            return Some(i);
        }
        i = i + 1;
    }
    None
}

impl<const N: usize> PatchJob<N> {
    /// A job that has not begun.
    pub fn new(base: BaseAddress<N>, offsets: Option<Vec<usize>>, value: Vec<u8>, step: usize) -> (r:
        PatchJob<N>)
        ensures
            r.base == base,
            r.offsets == offsets,
            r.value == value,
            r.step == step,
            r.ranges@ == Seq::<(usize, usize)>::empty(),
            r.phase == Phase::Start,
    {
        PatchJob { base, offsets, value, step, ranges: Vec::new(), phase: Phase::Start }
    }

    fn finish(&mut self, r: Result<usize, Error>) -> (a: Action)
        ensures
            (final(self).phase, a) == finish(r),
            same_setup(*final(self), *old(self)),
            final(self).ranges == old(self).ranges,
    {
        self.phase = Phase::Done;
        match r {
            Ok(x) => Action::Patched(x),
            Err(e) => Action::Failed(e),
        }
    }

    fn write_step(&mut self, address: usize) -> (a: Action)
        ensures
            (final(self).phase, a) == write_step(address as int, old(self).value@.len() as int),
            same_setup(*final(self), *old(self)),
            final(self).ranges == old(self).ranges,
    {
        if self.value.len() <= usize::MAX - address {
            self.phase = Phase::Write { address };
            Action::Write { address }
        } else {
            self.finish(Err(Error::InvalidOffset))
        }
    }

    fn chain_step(&mut self, address: usize) -> (a: Action)
        ensures
            (final(self).phase, a) == chain_step(
                offsets_view(old(self).offsets),
                old(self).value@.len() as int,
                address as int,
            ),
            same_setup(*final(self), *old(self)),
            final(self).ranges == old(self).ranges,
    {
        let chained = match &self.offsets {
            Some(o) => o.len() > 0,
            None => false,
        };
        if chained {
            self.phase = Phase::Chase { address, index: 0 };
            Action::ReadPointer { address }
        } else {
            self.write_step(address)
        }
    }

    fn range_step(&mut self, index: usize) -> (a: Action)
        ensures
            (final(self).phase, a) == range_step(old(self).ranges@, index as int),
            same_setup(*final(self), *old(self)),
            final(self).ranges == old(self).ranges,
    {
        if index < self.ranges.len() {
            let (address, len) = self.ranges[index];
            self.phase = Phase::Scan { index };
            Action::ReadBytes { address, len }
        } else {
            self.finish(Err(Error::NotFound))
        }
    }

    fn scan_step(&mut self, pattern: Pattern<N>, index: usize, data: Vec<u8>) -> (a: Action)
        requires
            old(self).step >= 1,
            index < old(self).ranges@.len(),
        ensures
            (final(self).phase, a) == scan_step(
                pattern@,
                old(self).step as int,
                offsets_view(old(self).offsets),
                old(self).value@.len() as int,
                old(self).ranges@,
                index as int,
                data@,
            ),
            same_setup(*final(self), *old(self)),
            final(self).ranges == old(self).ranges,
    {
        assert(index < self.ranges.len());
        let (base, size) = self.ranges[index];
        let hay: &[u8] = if data.len() <= size {
            data.as_slice()
        } else {
            slice_subrange(data.as_slice(), 0, size)
        };
        let found = pattern.scan(hay, self.step);
        proof {
            lemma_scan_gives_first_match(pattern@, hay@, self.step as int, found);
        }
        match found {
            Some(o) => {
                if o <= usize::MAX - base {
                    self.chain_step(base + o)
                } else {
                    self.range_step(index + 1)
                }
            },
            None => self.range_step(index + 1),
        }
    }

    fn chase_step(&mut self, index: usize, v: usize) -> (a: Action)
        requires
            old(self).offsets is Some,
            index < old(self).offsets->0@.len(),
        ensures
            (final(self).phase, a) == chase_step(
                old(self).offsets->0@,
                old(self).value@.len() as int,
                index as int,
                v as int,
            ),
            same_setup(*final(self), *old(self)),
            final(self).ranges == old(self).ranges,
    {
        let (offset, more) = match &self.offsets {
            Some(o) => {
                assert(index < o.len());
                (o[index], index + 1 < o.len())
            },
            None => (0, false),
        };
        if offset > usize::MAX - v {
            return self.finish(Err(Error::InvalidOffset));
        }
        let next = v + offset;
        if more {
            self.phase = Phase::Chase { address: next, index: index + 1 };
            Action::ReadPointer { address: next }
        } else {
            self.write_step(next)
        }
    }

    /// Takes the caller's answer to the pending action (or `Event::Begin` to
    /// start) and returns the next action. The job resolves the base address
    /// (as given; verified against the live bytes; or by scanning candidate
    /// ranges in order), then follows the offset chain by reading a pointer
    /// and adding each offset, and finally asks for one write of the value.
    /// A read failure while scanning only skips that range; a missing module,
    /// a failed verification, a failed pointer read or a failed write ends
    /// the job before any write.
    pub fn advance(&mut self, event: Event) -> (a: Action)
        requires
            old(self).step >= 1,
        ensures
            (final(self).phase, a) == advance_spec(*old(self), event),
            final(self).ranges@ == ranges_after(*old(self), event),
            same_setup(*final(self), *old(self)),
    {
        let phase = self.phase;
        match (phase, event) {
            (Phase::Start, Event::Begin) => match &self.base {
                BaseAddress::Direct(a) => {
                    let a = *a;
                    self.chain_step(a)
                },
                BaseAddress::DirectVerify(a, _) => {
                    let a = *a;
                    self.phase = Phase::Verify { address: a };
                    Action::ReadBytes { address: a, len: N }
                },
                BaseAddress::Pattern(_, MemorySection::All) => {
                    self.phase = Phase::Regions;
                    Action::ListRegions
                },
                BaseAddress::Pattern(_, MemorySection::Module(_)) => {
                    self.phase = Phase::Modules;
                    Action::ListModules
                },
            },
            (Phase::Verify { address }, Event::Bytes(r)) => {
                let verdict: Result<bool, Error> = match &self.base {
                    BaseAddress::DirectVerify(_, p) => match &r {
                        Ok(d) => Ok(p.matches_exactly(d.as_slice())),
                        Err(e) => Err(*e),
                    },
                    _ => Err(Error::UnexpectedEvent),
                };
                match verdict {
                    Ok(true) => self.chain_step(address),
                    Ok(false) => self.finish(Err(Error::PatternMismatch)),
                    Err(e) => self.finish(Err(e)),
                }
            },
            (Phase::Regions, Event::Regions(list)) => {
                self.ranges = collect_scan_ranges(&list);
                self.range_step(0)
            },
            (Phase::Modules, Event::Modules(list)) => {
                let found = match &self.base {
                    BaseAddress::Pattern(_, MemorySection::Module(name)) => find_module(&list, name),
                    _ => find_module(&list, &String::new()),
                };
                match found {
                    Some(i) => {
                        let m = &list[i];
                        self.ranges = vec![(m.address, m.size as usize)];
                        self.range_step(0)
                    },
                    None => self.finish(Err(Error::NotFound)),
                }
            },
            (Phase::Scan { index }, Event::Bytes(r)) => {
                let pattern = match &self.base {
                    BaseAddress::Pattern(p, _) => Some(*p),
                    _ => None,
                };
                match pattern {
                    Some(p) => {
                        if index < self.ranges.len() {
                            match r {
                                Ok(d) => self.scan_step(p, index, d),
                                Err(_) => self.range_step(index + 1),
                            }
                        } else {
                            self.finish(Err(Error::UnexpectedEvent))
                        }
                    },
                    None => self.finish(Err(Error::UnexpectedEvent)),
                }
            },
            (Phase::Chase { address: _, index }, Event::Pointer(r)) => {
                let count: Option<usize> = match &self.offsets {
                    Some(o) => Some(o.len()),
                    None => None,
                };
                match (count, r) {
                    (Some(c), Ok(v)) => {
                        if index < c {
                            self.chase_step(index, v)
                        } else {
                            self.finish(Err(Error::UnexpectedEvent))
                        }
                    },
                    (Some(_), Err(e)) => self.finish(Err(e)),
                    _ => self.finish(Err(Error::UnexpectedEvent)),
                }
            },
            (Phase::Write { address }, Event::Written(r)) => match r {
                Ok(_) => self.finish(Ok(address)),
                Err(e) => self.finish(Err(e)),
            },
            _ => self.finish(Err(Error::UnexpectedEvent)),
        }
    }
}

} // verus!
