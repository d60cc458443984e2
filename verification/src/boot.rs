//! The physical address ranges that must stay out of a frame allocator's
//! hands: the loaded kernel image and the bootloader's information block.

use vstd::prelude::*;

verus! {

/// One section of the loaded kernel image, as the bootloader describes it.
#[derive(Debug, Clone, Copy, PartialEq, Eq)]
pub struct ElfSection {
    pub addr: u64,
    pub size: u64,
    pub flags: u64,
}

/// One region of usable memory, as the bootloader describes it.
#[derive(Debug, Clone, Copy, PartialEq, Eq)]
pub struct MemoryArea {
    pub base_addr: u64,
    pub length: u64,
}

/// What the bootloader reports. A tag that it left out is `None`.
#[derive(Debug, Clone, PartialEq, Eq)]
pub struct BootInformation {
    /// The size in bytes of the information block itself.
    pub total_size: u32,
    /// The memory-map tag: the regions of usable memory.
    pub memory_areas: Option<Vec<MemoryArea>>,
    /// The ELF-sections tag: the sections of the kernel image.
    pub elf_sections: Option<Vec<ElfSection>>,
}

/// The two ranges that the allocator must avoid. Each starts at its first
/// byte and ends just past its last.
#[derive(Debug, Clone, Copy, PartialEq, Eq)]
pub struct BootMemoryLayout {
    pub kernel_start: u64,
    pub kernel_end: u64,
    pub multiboot_start: u64,
    pub multiboot_end: u64,
}

/// Why no layout can be established.
#[derive(Debug, Clone, Copy, PartialEq, Eq)]
pub enum BootError {
    /// The bootloader gave no memory map.
    MemoryMapTagMissing,
    /// The bootloader gave no ELF sections.
    ElfSectionsTagMissing,
    /// The ELF-sections tag lists no section, so the image has no extent.
    NoElfSections,
    /// A range ends beyond the last 64-bit address.
    AddressOverflow,
}

impl ElfSection {
    /// The address just past the section.
    pub open spec fn end(self) -> int {
        self.addr + self.size
    }
}

/// `start` is the lowest address at which any of the sections begins.
pub open spec fn is_lowest_start(sections: Seq<ElfSection>, start: int) -> bool {
    &&& exists|i: int| 0 <= i < sections.len() && (#[trigger] sections[i]).addr == start
    &&& forall|i: int| 0 <= i < sections.len() ==> start <= (#[trigger] sections[i]).addr
}

/// `end` is the highest address at which any of the sections ends.
pub open spec fn is_highest_end(sections: Seq<ElfSection>, end: int) -> bool {
    &&& exists|i: int| 0 <= i < sections.len() && (#[trigger] sections[i]).end() == end
    &&& forall|i: int| 0 <= i < sections.len() ==> (#[trigger] sections[i]).end() <= end
}

/// Every section ends at an address that 64 bits can hold.
pub open spec fn sections_fit(sections: Seq<ElfSection>) -> bool {
    forall|i: int| 0 <= i < sections.len() ==> (#[trigger] sections[i]).end() <= u64::MAX
}

/// The error that stands in the way of a layout, if there is one. A missing
/// memory map is reported before anything else is looked at.
pub open spec fn layout_error(multiboot_start: u64, info: BootInformation) -> Option<BootError> {
    if info.memory_areas.is_none() {
        Some(BootError::MemoryMapTagMissing)
    } else if info.elf_sections.is_none() {
        Some(BootError::ElfSectionsTagMissing)
    } else if info.elf_sections.unwrap()@.len() == 0 {
        Some(BootError::NoElfSections)
    } else if !sections_fit(info.elf_sections.unwrap()@) || multiboot_start + info.total_size
        > u64::MAX {
        Some(BootError::AddressOverflow)
    } else {
        None
    }
}

/// The lowest start among the sections, or `None` if there is no section.
pub fn kernel_start(sections: &[ElfSection]) -> (start: Option<u64>)
    ensures
        sections@.len() == 0 <==> start.is_none(),
        start matches Some(s) ==> is_lowest_start(sections@, s as int),
{
    if sections.len() == 0 {
        return None;
    }
    let mut lowest: u64 = sections[0].addr;
    for i in 1..sections.len()
        invariant
            exists|k: int| 0 <= k < i && (#[trigger] sections@[k]).addr == lowest,
            forall|k: int| 0 <= k < i ==> lowest <= (#[trigger] sections@[k]).addr,
    {
        if sections[i].addr < lowest {
            lowest = sections[i].addr;
        }
    }
    Some(lowest)
}

/// The highest end among the sections. It is `None` if there is no section
/// or if one of them ends beyond the last 64-bit address.
pub fn kernel_end(sections: &[ElfSection]) -> (end: Option<u64>)
    ensures
        sections@.len() > 0 && sections_fit(sections@) <==> end.is_some(),
        end matches Some(e) ==> is_highest_end(sections@, e as int),
{
    if sections.len() == 0 {
        return None;
    }
    let mut highest: u64 = match sections[0].addr.checked_add(sections[0].size) {
        Some(end) => end,
        None => {
            assert(sections@[0].end() > u64::MAX);
            return None;
        },
    };
    for i in 1..sections.len()
        invariant
            exists|k: int| 0 <= k < i && (#[trigger] sections@[k]).end() == highest,
            forall|k: int| 0 <= k < i ==> (#[trigger] sections@[k]).end() <= highest,
    {
        match sections[i].addr.checked_add(sections[i].size) {
            Some(end) => {
                if end > highest {
                    highest = end;
                }
            },
            None => {
                assert(sections@[i as int].end() > u64::MAX);
                return None;
            },
        }
    }
    Some(highest)
}

impl BootMemoryLayout {
    /// Reconciles what the bootloader reports into the two ranges. The
    /// kernel runs from the lowest start of its sections to their highest
    /// end; the information block runs from its own address for its own
    /// size. Without a memory map, without ELF sections, or with a range
    /// that no 64-bit address can end, there is no layout.
    pub fn compute(multiboot_start: u64, info: &BootInformation) -> (layout: Result<
        BootMemoryLayout,
        BootError,
    >)
        ensures
            layout matches Err(error) ==> layout_error(multiboot_start, *info) == Some(error),
            layout matches Ok(ranges) ==> {
                &&& layout_error(multiboot_start, *info).is_none()
                &&& is_lowest_start(info.elf_sections.unwrap()@, ranges.kernel_start as int)
                &&& is_highest_end(info.elf_sections.unwrap()@, ranges.kernel_end as int)
                &&& ranges.multiboot_start == multiboot_start
                &&& ranges.multiboot_end == multiboot_start + info.total_size
                &&& ranges.kernel_start <= ranges.kernel_end
            },
    {
        if info.memory_areas.is_none() {
            return Err(BootError::MemoryMapTagMissing);
        }
        let sections = match &info.elf_sections {
            Some(sections) => sections,
            None => {
                return Err(BootError::ElfSectionsTagMissing);
            },
        };
        let start = match kernel_start(sections.as_slice()) {
            Some(start) => start,
            None => {
                return Err(BootError::NoElfSections);
            },
        };
        let end = match kernel_end(sections.as_slice()) {
            Some(end) => end,
            None => {
                return Err(BootError::AddressOverflow);
            },
        };
        let multiboot_end = match multiboot_start.checked_add(info.total_size as u64) {
            Some(end) => end,
            None => {
                return Err(BootError::AddressOverflow);
            },
        };
        Ok(
            BootMemoryLayout {
                kernel_start: start,
                kernel_end: end,
                multiboot_start,
                multiboot_end,
            },
        )
    }
}

} // verus!
