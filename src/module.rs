use vstd::prelude::*;
use vstd::slice::slice_subrange;

verus! {

/// Text of a sequence of UTF-16 code units, each ill-formed unit replaced by
/// U+FFFD.
pub uninterp spec fn utf16_lossy(units: Seq<u16>) -> Seq<char>;

/// Relies on `String::from_utf16_lossy`: its result depends on the code
/// units alone.
#[verifier::external_body]
fn decode_utf16_lossy(units: &[u16]) -> (r: String)
    ensures
        r@ == utf16_lossy(units@),
{
    String::from_utf16_lossy(units)
}

/// The code units before the trailing zero units that pad a fixed-size name.
pub open spec fn without_trailing_zeros(units: Seq<u16>) -> Seq<u16>
    decreases units.len(),
{
    if units.len() > 0 && units.last() == 0 {
        without_trailing_zeros(units.drop_last())
    } else {
        units
    }
}

/// The number of code units left once trailing zero units are dropped.
pub fn trimmed_len(units: &[u16]) -> (r: usize)
    ensures
        units@.subrange(0, r as int) == without_trailing_zeros(units@),
        r <= units@.len(),
{
    let mut n: usize = units.len();
    assert(units@.subrange(0, n as int) == units@);
    while n > 0 && units[n - 1] == 0
        invariant
            n <= units@.len(),
            without_trailing_zeros(units@.subrange(0, n as int)) == without_trailing_zeros(units@),
        decreases n,
    {
        assert(units@.subrange(0, n as int).drop_last() == units@.subrange(0, n - 1));
        n = n - 1;
    }
    n
}

/// The text of a zero-padded UTF-16 name, without its padding.
pub fn decode_padded_name(units: &[u16]) -> (r: String)
    ensures
        r@ == utf16_lossy(without_trailing_zeros(units@)),
{
    let n = trimmed_len(units);
    decode_utf16_lossy(slice_subrange(units, 0, n))
}

/// Snapshot of one module (an executable image) loaded by a target process.
#[derive(PartialEq, Eq, Clone, Debug)]
pub struct Module {
    pub module_id: u32,
    pub process_id: u32,
    pub address: usize,
    pub size: u32,
    pub hmodule: usize,
    pub name: String,
    pub path: String,
}

impl Module {
    /// A module from the fields the operating system reports, with its name
    /// and path as zero-padded UTF-16.
    pub fn from_entry(
        module_id: u32,
        process_id: u32,
        address: usize,
        size: u32,
        hmodule: usize,
        name_units: &[u16],
        path_units: &[u16],
    ) -> (r: Module)
        ensures
            r.module_id == module_id,
            r.process_id == process_id,
            r.address == address,
            r.size == size,
            r.hmodule == hmodule,
            r.name@ == utf16_lossy(without_trailing_zeros(name_units@)),
            r.path@ == utf16_lossy(without_trailing_zeros(path_units@)),
    {
        Module {
            module_id,
            process_id,
            address,
            size,
            hmodule,
            name: decode_padded_name(name_units),
            path: decode_padded_name(path_units),
        }
    }

    /// The module's identifier.
    pub fn get_module_id(&self) -> (r: u32)
        ensures
            r == self.module_id,
    {
        self.module_id
    }

    /// The process that loaded the module.
    pub fn get_process_id(&self) -> (r: u32)
        ensures
            r == self.process_id,
    {
        self.process_id
    }

    /// The module's base address.
    pub fn get_address(&self) -> (r: usize)
        ensures
            r == self.address,
    {
        self.address
    }

    /// The module's size in bytes.
    pub fn get_size(&self) -> (r: u32)
        ensures
            r == self.size,
    {
        self.size
    }

    /// The module's handle value.
    pub fn get_hmodule(&self) -> (r: usize)
        ensures
            r == self.hmodule,
    {
        self.hmodule
    }

    /// The module's file name.
    pub fn get_name(&self) -> (r: String)
        ensures
            r@ == self.name@,
    {
        self.name.clone()
    }

    /// The module's full path.
    pub fn get_path(&self) -> (r: String)
        ensures
            r@ == self.path@,
    {
        self.path.clone()
    }
}

} // verus!
