use win_mem::error::Error;
use win_mem::memory::MemoryBasicInformation;
use win_mem::module::Module;
use win_mem::patch::{Action, BaseAddress, Event, MemorySection, PatchJob, Phase, DEFAULT_STEP};
use win_mem::pattern::Pattern;

const PTR: usize = std::mem::size_of::<usize>();

/// A process image held in a vector, answering a job's actions.
struct Target {
    base: usize,
    bytes: Vec<u8>,
    regions: Vec<MemoryBasicInformation>,
    modules: Vec<Module>,
    reads: Vec<usize>,
    writes: Vec<(usize, Vec<u8>)>,
}

impl Target {
    fn new(base: usize, bytes: Vec<u8>) -> Target {
        Target { base, bytes, regions: Vec::new(), modules: Vec::new(), reads: Vec::new(), writes: Vec::new() }
    }

    fn read(&self, address: usize, len: usize) -> Result<Vec<u8>, Error> {
        if address < self.base || address >= self.base + self.bytes.len() {
            return Err(Error::Io);
        }
        let from = address - self.base;
        let to = (from + len).min(self.bytes.len());
        Ok(self.bytes[from..to].to_vec())
    }

    fn run<const N: usize>(&mut self, mut job: PatchJob<N>) -> Action {
        let mut action = job.advance(Event::Begin);
        loop {
            let event = match action {
                Action::ReadBytes { address, len } => {
                    self.reads.push(address);
                    Event::Bytes(self.read(address, len))
                },
                Action::ListRegions => Event::Regions(self.regions.clone()),
                Action::ListModules => Event::Modules(self.modules.clone()),
                Action::ReadPointer { address } => {
                    self.reads.push(address);
                    Event::Pointer(self.read(address, PTR).and_then(|b| {
                        if b.len() == PTR {
                            let mut raw = [0u8; PTR];
                            raw.copy_from_slice(&b);
                            Ok(usize::from_le_bytes(raw))
                        } else {
                            Err(Error::Eof)
                        }
                    }))
                },
                Action::Write { address } => {
                    let from = address - self.base;
                    self.bytes[from..from + job.value.len()].copy_from_slice(&job.value);
                    self.writes.push((address, job.value.clone()));
                    Event::Written(Ok(()))
                },
                Action::Patched(_) | Action::Failed(_) => return action,
            };
            action = job.advance(event);
        }
    }
}

fn module(name: &str, address: usize, size: u32) -> Module {
    let mut units: Vec<u16> = name.encode_utf16().collect();
    units.resize(256, 0);
    Module::from_entry(1, 1, address, size, address, &units, &[])
}

fn region(base_address: usize, region_size: usize, protect: u32) -> MemoryBasicInformation {
    MemoryBasicInformation {
        base_address,
        allocation_base: base_address,
        allocation_protect: protect,
        partition_id: 0,
        region_size,
        state: 0x1000,
        protect,
        page_type: 0x20000,
    }
}

#[test]
fn module_pattern_patch_overwrites_exactly_the_value() {
    let base = 0x40_0000;
    let mut bytes = vec![0u8; 200];
    bytes[100..104].copy_from_slice(&[0x2B, 0xF3, 0x89, 0xB7]);
    let mut t = Target::new(base, bytes.clone());
    t.modules = vec![module("other.dll", 0x10_0000, 16), module("app.exe", base, 200)];
    let job = PatchJob::new(
        BaseAddress::Pattern(
            Pattern::from([Some(0x2B), Some(0xF3), Some(0x89), Some(0xB7)]),
            MemorySection::Module("app.exe".to_string()),
        ),
        None,
        vec![0x90, 0x90],
        1,
    );
    assert_eq!(t.run(job), Action::Patched(base + 100));
    let mut expected = bytes;
    expected[100] = 0x90;
    expected[101] = 0x90;
    assert_eq!(t.bytes, expected);
    assert_eq!(t.writes, vec![(base + 100, vec![0x90, 0x90])]);
}

#[test]
fn missing_module_is_not_found() {
    let mut t = Target::new(0x1000, vec![0u8; 16]);
    t.modules = vec![module("app.exe", 0x1000, 16)];
    let job = PatchJob::new(
        BaseAddress::Pattern(Pattern::from([Some(0)]), MemorySection::Module("App.exe".to_string())),
        None,
        vec![1],
        1,
    );
    assert_eq!(t.run(job), Action::Failed(Error::NotFound));
    assert!(t.reads.is_empty());
    assert!(t.writes.is_empty());
}

#[test]
fn pattern_absent_from_module_is_not_found() {
    let mut t = Target::new(0x1000, vec![0u8; 16]);
    t.modules = vec![module("app.exe", 0x1000, 16)];
    let job = PatchJob::new(
        BaseAddress::Pattern(Pattern::from([Some(5)]), MemorySection::Module("app.exe".to_string())),
        None,
        vec![1],
        DEFAULT_STEP,
    );
    assert_eq!(t.run(job), Action::Failed(Error::NotFound));
    assert!(t.writes.is_empty());
}

#[test]
fn one_offset_resolves_pointer_plus_offset() {
    let base = 0x1000;
    let mut bytes = vec![0u8; 0x100];
    let v: usize = 0x1040;
    bytes[0..PTR].copy_from_slice(&v.to_le_bytes());
    let mut t = Target::new(base, bytes);
    let job = PatchJob::new(BaseAddress::<0>::Direct(base), Some(vec![0x10]), vec![0xEE], 1);
    assert_eq!(t.run(job), Action::Patched(v + 0x10));
    assert_eq!(t.bytes[0x50], 0xEE);
}

#[test]
fn two_offsets_dereference_twice() {
    let base = 0x1000;
    let mut bytes = vec![0u8; 0x100];
    let v: usize = 0x1040;
    let w: usize = 0x1080;
    bytes[0..PTR].copy_from_slice(&v.to_le_bytes());
    bytes[0x50..0x50 + PTR].copy_from_slice(&w.to_le_bytes());
    let mut t = Target::new(base, bytes);
    let job = PatchJob::new(BaseAddress::<0>::Direct(base), Some(vec![0x10, 0x4]), vec![0xEE], 1);
    assert_eq!(t.run(job), Action::Patched(w + 0x4));
    assert_eq!(t.reads, vec![base, v + 0x10]);
}

#[test]
fn failed_pointer_read_aborts_without_write() {
    let mut t = Target::new(0x1000, vec![0u8; 0x10]);
    let job = PatchJob::new(BaseAddress::<0>::Direct(0x9000), Some(vec![0x10]), vec![0xEE], 1);
    assert_eq!(t.run(job), Action::Failed(Error::Io));
    assert!(t.writes.is_empty());
}

#[test]
fn empty_chain_uses_base_address() {
    let mut t = Target::new(0x1000, vec![0u8; 0x10]);
    let job = PatchJob::new(BaseAddress::<0>::Direct(0x1004), Some(vec![]), vec![7, 8], 1);
    assert_eq!(t.run(job), Action::Patched(0x1004));
    assert_eq!(t.bytes[4..6], [7, 8]);
}

#[test]
fn verify_mismatch_never_writes() {
    let mut t = Target::new(0x1000, vec![1, 2, 3, 4]);
    let job = PatchJob::new(
        BaseAddress::DirectVerify(0x1000, Pattern::from([Some(1), None, Some(9)])),
        None,
        vec![0],
        1,
    );
    assert_eq!(t.run(job), Action::Failed(Error::PatternMismatch));
    assert!(t.writes.is_empty());
    assert_eq!(t.bytes, vec![1, 2, 3, 4]);
}

#[test]
fn verify_match_writes() {
    let mut t = Target::new(0x1000, vec![1, 2, 3, 4]);
    let job = PatchJob::new(
        BaseAddress::DirectVerify(0x1000, Pattern::from([Some(1), None, Some(3)])),
        None,
        vec![0, 0],
        1,
    );
    assert_eq!(t.run(job), Action::Patched(0x1000));
    assert_eq!(t.bytes, vec![0, 0, 3, 4]);
}

#[test]
fn verify_of_unreadable_address_fails() {
    let mut t = Target::new(0x1000, vec![1, 2, 3, 4]);
    let job = PatchJob::new(BaseAddress::DirectVerify(0x8000, Pattern::from([None])), None, vec![0], 1);
    assert_eq!(t.run(job), Action::Failed(Error::Io));
}

#[test]
fn whole_space_scan_skips_guarded_regions() {
    let base = 0x1000;
    let mut bytes = vec![0u8; 0x40];
    bytes[0x04..0x06].copy_from_slice(&[0xCA, 0xFE]);
    bytes[0x24..0x26].copy_from_slice(&[0xCA, 0xFE]);
    let mut t = Target::new(base, bytes);
    t.regions = vec![
        region(0x1000, 0x10, 0x01),
        region(0x1010, 0x10, 0x104),
        region(0x9000, 0x10, 0x04),
        region(0x1020, 0x20, 0x20),
    ];
    let job = PatchJob::new(
        BaseAddress::Pattern(Pattern::from([Some(0xCA), Some(0xFE)]), MemorySection::All),
        None,
        vec![0x90],
        DEFAULT_STEP,
    );
    assert_eq!(t.run(job), Action::Patched(0x1024));
    assert_eq!(t.reads, vec![0x9000, 0x1020]);
}

#[test]
fn whole_space_scan_without_match_is_not_found() {
    let mut t = Target::new(0x1000, vec![0u8; 0x20]);
    t.regions = vec![region(0x1000, 0x20, 0x04)];
    let job = PatchJob::new(
        BaseAddress::Pattern(Pattern::from([Some(0xCA)]), MemorySection::All),
        None,
        vec![0x90],
        1,
    );
    assert_eq!(t.run(job), Action::Failed(Error::NotFound));
}

#[test]
fn scan_ignores_bytes_beyond_the_range() {
    let mut t = Target::new(0x1000, vec![0, 0, 0, 0, 0xAB]);
    t.regions = vec![region(0x1000, 4, 0x04)];
    let job = PatchJob::new(BaseAddress::Pattern(Pattern::from([Some(0xAB)]), MemorySection::All), None, vec![1], 1);
    assert_eq!(t.run(job), Action::Failed(Error::NotFound));
}

#[test]
fn write_past_address_space_fails() {
    let mut job = PatchJob::new(BaseAddress::<0>::Direct(usize::MAX), None, vec![1, 2], 1);
    assert_eq!(job.advance(Event::Begin), Action::Failed(Error::InvalidOffset));
    assert_eq!(job.phase, Phase::Done);
}

#[test]
fn offset_overflow_fails() {
    let mut job = PatchJob::new(BaseAddress::<0>::Direct(0x10), Some(vec![2]), vec![1], 1);
    assert_eq!(job.advance(Event::Begin), Action::ReadPointer { address: 0x10 });
    assert_eq!(job.advance(Event::Pointer(Ok(usize::MAX))), Action::Failed(Error::InvalidOffset));
}

#[test]
fn unexpected_event_ends_the_job() {
    let mut job = PatchJob::new(BaseAddress::<0>::Direct(0x10), None, vec![1], 1);
    assert_eq!(job.advance(Event::Pointer(Ok(1))), Action::Failed(Error::UnexpectedEvent));
    assert_eq!(job.advance(Event::Begin), Action::Failed(Error::UnexpectedEvent));
}

#[test]
fn failed_write_is_reported() {
    let mut job = PatchJob::new(BaseAddress::<0>::Direct(0x10), None, vec![1], 1);
    assert_eq!(job.advance(Event::Begin), Action::Write { address: 0x10 });
    assert_eq!(job.advance(Event::Written(Err(Error::AccessDenied))), Action::Failed(Error::AccessDenied));
}
