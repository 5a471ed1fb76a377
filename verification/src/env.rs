//! Everything regarding the boot environment of the loader.
//!
//! The entry stub hands over a magic value and an info pointer; the magic
//! decides which boot protocol delivered control.  An unrecognized magic
//! is fatal — the loader cannot safely proceed without knowing the
//! environment contract — so [`classify`] reports it and the embedding
//! program halts.  The module also computes the diagnostic report that
//! the original flow prints right after identification: link versus
//! runtime load addresses, the signed offset split into sign and
//! magnitude, and the boot-stub symbol table in low, high and physical
//! form.

use vstd::prelude::*;

verus! {

use crate::mem::Memory;
use crate::mem::paging::VirtAddr;

/// Magic value a multiboot1 boot loader leaves in the register.
pub const MULTIBOOT1_MAGIC: u64 = 0x2badb002;

/// Magic value a multiboot2 boot loader leaves in the register.
pub const MULTIBOOT2_MAGIC: u64 = 0x36d76289;

/// Magic value of the Xen PVH boot protocol.
pub const XEN_PVH_MAGIC: u64 = 0x336ec578;

/// Size of the 2 MiB window that maps the boot-stub region twice.
pub const WINDOW_SIZE: u64 = 0x200000;

/// The boot protocol that delivered control to the loader.
#[derive(Copy, Clone, Debug, PartialEq, Eq, Structural)]
pub enum BootVariant {
    Multiboot1,
    Multiboot2,
    XenPvh,
}

/// The boot protocol selected by `magic`, or nothing when the magic
/// belongs to none of the three known protocols.
pub open spec fn spec_classify(magic: u64) -> Option<BootVariant> {
    if magic == MULTIBOOT2_MAGIC {
        Some(BootVariant::Multiboot2)
    } else if magic == MULTIBOOT1_MAGIC {
        Some(BootVariant::Multiboot1)
    } else if magic == XEN_PVH_MAGIC {
        Some(BootVariant::XenPvh)
    } else {
        None
    }
}

/// Relies on `multiboot2::MAGIC`: the magic value that a multiboot2 boot
/// loader stores in `EAX` before jumping to the loaded image.
#[verifier::external_body]
fn multiboot2_magic() -> (r: u32)
    ensures
        r == 0x36d76289u32,
{
    multiboot2::MAGIC
}

/// Classifies the boot-protocol magic.  Never defaults: an unknown magic
/// yields `None`, which the boot flow treats as fatal.
pub fn classify(bootloader_magic: u64) -> (r: Option<BootVariant>)
    ensures
        r == spec_classify(bootloader_magic),
{
    if bootloader_magic == multiboot2_magic() as u64 {
        Some(BootVariant::Multiboot2)
    } else if bootloader_magic == MULTIBOOT1_MAGIC {
        Some(BootVariant::Multiboot1)
    } else if bootloader_magic == XEN_PVH_MAGIC {
        Some(BootVariant::XenPvh)
    } else {
        None
    }
}

/// Immutable boot context: the recognized protocol and the raw pointer to
/// the boot-protocol-supplied information, recorded once at entry.
#[derive(Debug)]
pub struct BootEnvironment {
    variant: BootVariant,
    info_ptr: u64,
}

impl BootEnvironment {
    /// The recognized boot protocol.
    pub closed spec fn spec_variant(&self) -> BootVariant {
        self.variant
    }

    /// The raw boot-info pointer.
    pub closed spec fn spec_info_ptr(&self) -> u64 {
        self.info_ptr
    }

    /// The recognized boot protocol.
    pub fn variant(&self) -> (r: BootVariant)
        ensures
            r == self.spec_variant(),
    {
        self.variant
    }

    /// The raw boot-info pointer.
    pub fn info_ptr(&self) -> (r: u64)
        ensures
            r == self.spec_info_ptr(),
    {
        self.info_ptr
    }
}

/// Records the boot environment from the values observed at entry.  The
/// caller must already have ruled out an unknown magic (that case halts
/// the machine and never constructs an environment).
pub fn init(bootloader_magic: u64, bootloader_info_ptr: u64) -> (r: BootEnvironment)
    requires
        spec_classify(bootloader_magic) is Some,
    ensures
        Some(r.spec_variant()) == spec_classify(bootloader_magic),
        r.spec_info_ptr() == bootloader_info_ptr,
{
    let variant = classify(bootloader_magic).unwrap();
    BootEnvironment { variant, info_ptr: bootloader_info_ptr }
}

/// Translates the low link address of a symbol to its high link address.
///
/// Both the boot-stub region and the loader region are smaller than 2 MiB
/// and share one physical window, so a symbol's offset within the window,
/// added to the high link base, aliases the same physical byte.  The
/// size precondition is enforced by the build-time layout; this function
/// only needs the sum to stay addressable.
pub fn boot_symbol_to_high_address(addr: u64, high_base: u64) -> (r: u64)
    requires
        high_base + addr % WINDOW_SIZE <= u64::MAX,
    ensures
        r == high_base + addr % WINDOW_SIZE,
{
    let offset = addr & 0x1fffff;
    proof {
        assert(addr & 0x1fffff == addr % 0x200000) by (bit_vector);
    }
    high_base + offset
}

/// Splits a load offset into sign and magnitude for display; negative
/// offsets printed as raw two's complement would be misleading.
pub fn offset_sign_and_magnitude(offset: i64) -> (r: (bool, u64))
    requires
        offset != i64::MIN,
    ensures
        r.0 == (offset < 0),
        offset >= 0 ==> r.1 == offset,
        offset < 0 ==> r.1 == -(offset as int),
{
    if offset < 0 {
        (true, (-offset) as u64)
    } else {
        (false, offset as u64)
    }
}

/// Link addresses that the linker script injects into the loader; the
/// embedding program reads the actual symbols and hands them in as plain
/// values.
#[derive(Copy, Clone, Debug, PartialEq, Eq, Structural)]
pub struct BootSymbols {
    /// Link address of the boot-stub region.
    pub link_addr_boot: u64,
    /// High link base that aliases the boot-stub window.
    pub link_addr_high_base: u64,
    /// Backing memory of the root page table.
    pub boot_mem_pt_l4: u64,
    /// Backing memory of the low level-3 page table.
    pub boot_mem_pt_l3_lo: u64,
    /// Backing memory of the high level-3 page table.
    pub boot_mem_pt_l3_hi: u64,
    /// Backing memory of the low level-2 page table.
    pub boot_mem_pt_l2_lo: u64,
    /// Backing memory of the high level-2 page table.
    pub boot_mem_pt_l2_hi: u64,
    /// Backing memory of the high level-1 page table.
    pub boot_mem_pt_l1_hi: u64,
}

/// One row of the symbol table in a [`Report`]: the same symbol seen
/// through its low link address, its high alias and its physical address.
#[derive(Copy, Clone, Debug, PartialEq, Eq, Structural)]
pub struct SymbolRow {
    /// The symbol's low link address.
    pub low: u64,
    /// The symbol's alias through the high window.
    pub high: u64,
    /// The symbol's physical address at run time.
    pub phys: u64,
}

/// Diagnostic view of the boot environment, computed read-only and handed
/// to the logger by the embedding program.
#[derive(Debug)]
pub struct Report {
    /// The recognized boot protocol.
    pub variant: BootVariant,
    /// The raw boot-info pointer.
    pub boot_info_ptr: u64,
    /// Where the loader expected to be loaded (its link address).
    pub link_addr: u64,
    /// Where the loader actually was loaded (physical).
    pub load_addr: u64,
    /// Whether the load offset is negative.
    pub offset_negative: bool,
    /// Magnitude of the load offset.
    pub offset_magnitude: u64,
    /// Boot-stub symbols in low, high and physical form.
    pub rows: Vec<SymbolRow>,
}

/// The boot-stub symbols of `syms` in the order the report lists them.
pub open spec fn spec_report_symbols(syms: BootSymbols) -> Seq<u64> {
    seq![
        syms.boot_mem_pt_l4,
        syms.boot_mem_pt_l3_hi,
        syms.boot_mem_pt_l3_lo,
        syms.boot_mem_pt_l2_hi,
        syms.boot_mem_pt_l2_lo,
        syms.boot_mem_pt_l1_hi,
    ]
}

/// True when every address the report derives stays within `u64`.
pub open spec fn spec_report_in_range(mem: &Memory, syms: BootSymbols) -> bool {
    &&& 0 <= syms.link_addr_boot + mem.spec_offset() <= u64::MAX
    &&& forall|k: int|
        0 <= k < spec_report_symbols(syms).len() ==> {
            &&& 0 <= #[trigger] spec_report_symbols(syms)[k] + mem.spec_offset() <= u64::MAX
            &&& syms.link_addr_high_base + spec_report_symbols(syms)[k] % WINDOW_SIZE <= u64::MAX
        }
}

/// Produces the diagnostic view of the boot environment: expected and
/// actual load address, the signed offset split into sign and magnitude,
/// and each boot-stub symbol in low, high and physical form.
pub fn print(env: &BootEnvironment, mem: &Memory, syms: &BootSymbols) -> (r: Report)
    requires
        mem.is_configured(),
        mem.spec_offset() != i64::MIN,
        spec_report_in_range(mem, *syms),
    ensures
        r.variant == env.spec_variant(),
        r.boot_info_ptr == env.spec_info_ptr(),
        r.link_addr == syms.link_addr_boot,
        r.load_addr == syms.link_addr_boot + mem.spec_offset(),
        r.offset_negative == (mem.spec_offset() < 0),
        mem.spec_offset() >= 0 ==> r.offset_magnitude == mem.spec_offset(),
        mem.spec_offset() < 0 ==> r.offset_magnitude == -(mem.spec_offset() as int),
        r.rows@.len() == spec_report_symbols(*syms).len(),
        forall|k: int|
            0 <= k < r.rows@.len() ==> #[trigger] r.rows@[k] == (SymbolRow {
                low: spec_report_symbols(*syms)[k],
                high: (syms.link_addr_high_base + spec_report_symbols(*syms)[k]
                    % WINDOW_SIZE) as u64,
                phys: (spec_report_symbols(*syms)[k] + mem.spec_offset()) as u64,
            }),
{
    let load_addr = mem.virt_to_phys(VirtAddr::new(syms.link_addr_boot)).val();
    let (offset_negative, offset_magnitude) = offset_sign_and_magnitude(mem.load_offset());
    let symbols: [u64; 6] = [
        syms.boot_mem_pt_l4,
        syms.boot_mem_pt_l3_hi,
        syms.boot_mem_pt_l3_lo,
        syms.boot_mem_pt_l2_hi,
        syms.boot_mem_pt_l2_lo,
        syms.boot_mem_pt_l1_hi,
    ];
    proof {
        assert(symbols@ =~= spec_report_symbols(*syms));
    }
    let mut rows: Vec<SymbolRow> = Vec::new();
    let mut k: usize = 0;
    while k < 6
        invariant
            0 <= k <= 6,
            symbols@ == spec_report_symbols(*syms),
            mem.is_configured(),
            spec_report_in_range(mem, *syms),
            rows@.len() == k,
            forall|j: int|
                0 <= j < k ==> #[trigger] rows@[j] == (SymbolRow {
                    low: spec_report_symbols(*syms)[j],
                    high: (syms.link_addr_high_base + spec_report_symbols(*syms)[j]
                        % WINDOW_SIZE) as u64,
                    phys: (spec_report_symbols(*syms)[j] + mem.spec_offset()) as u64,
                }),
        decreases 6 - k,
    {
        let low = symbols[k];
        let high = boot_symbol_to_high_address(low, syms.link_addr_high_base);
        let phys = mem.virt_to_phys(VirtAddr::new(low)).val();
        rows.push(SymbolRow { low, high, phys });
        k += 1;
    }
    Report {
        variant: env.variant(),
        boot_info_ptr: env.info_ptr(),
        link_addr: syms.link_addr_boot,
        load_addr,
        offset_negative,
        offset_magnitude,
        rows,
    }
}

} // verus!
