//! The area in which the processor saves the vector registers of a guest.

use vstd::prelude::*;

use crate::arith::{ceil_to, ceil_to_is_least_multiple};
use crate::mm::elf_headers::{le32, le64, read_le64};

verus! {

/// Size of the part of the area that all processors have.
pub const XSAVE_LEGACY_SIZE: usize = 512;

/// Where the header of the area is, and its size.
pub const XSAVE_HEADER_OFFSET: usize = 512;

pub const XSAVE_HEADER_SIZE: usize = 64;

/// Size of the units in which areas are allocated, and their alignment.
pub const CHUNK_SIZE: usize = 64;

/// Offset of the control register of vector instructions.
pub const MXCSR_OFFSET: usize = 24;

/// What a guest starts with: all exceptions masked, full precision.
pub const GUEST_INITIAL_X87_CONTROL_WORD: u16 = 0x037f;

pub const GUEST_INITIAL_MXCSR: u32 = 0x1f80;

/// What the host's code expects: all exceptions masked, double precision.
pub const HOST_X87_CONTROL_WORD: u16 = 0x027f;

pub const HOST_MXCSR: u32 = 0x1f80;

/// A part of the area that not all processors have.
#[derive(Clone, Copy, Debug, PartialEq, Eq, Structural)]
pub struct XsaveComponent {
    pub id: u32,
    pub offset: usize,
    pub size: usize,
}

/// Whether the bit is set.
pub open spec fn has_bit(mask: u64, id: u32) -> bool {
    mask & (1u64 << id) != 0
}

/// How the processor lays out the area.
#[derive(Debug)]
pub struct XsaveLayout {
    pub size: usize,
    /// Which components are enabled.
    pub mask: u64,
    pub components: Vec<XsaveComponent>,
}

/// Why the processor cannot be used.
#[derive(Clone, Copy, Debug, PartialEq, Eq, Structural)]
pub enum XsaveFault {
    /// The processor cannot tell how it lays out the area.
    NoLayout,
    /// Saving is not supported, or not enabled by the host.
    NotEnabled,
    /// The basic registers are not among those that are saved.
    NoBasicState,
    /// The area has no room for its header.
    TooSmall,
    /// A component lies past the end of the area.
    ComponentOutside,
}

/// The numbers from two to sixty-three whose bit is set, in ascending order.
pub open spec fn ids_in(mask: u64, end: int) -> Seq<u32>
    decreases end,
{
    if end <= 2 {
        Seq::empty()
    } else {
        let head = ids_in(mask, end - 1);
        if has_bit(mask, (end - 1) as u32) {
            head.push((end - 1) as u32)
        } else {
            head
        }
    }
}

/// The components that are enabled, in ascending order.
pub fn enabled_components(mask: u64) -> (ids: Vec<u32>)
    ensures
        ids@ == ids_in(mask, 64),
{
    let mut ids: Vec<u32> = Vec::new();
    let mut id: u32 = 2;
    while id < 64
        invariant
            2 <= id <= 64,
            ids@ == ids_in(mask, id as int),
        decreases 64 - id,
    {
        if mask & (1u64 << id) != 0 {
            ids.push(id);
        }
        id += 1;
    }
    ids
}

/// Where a component lies, as the processor tells.
#[derive(Clone, Copy, Debug, PartialEq, Eq, Structural)]
pub struct ComponentPlace {
    pub offset: u32,
    pub size: u32,
}

/// Whether the component lies within an area of that size.
pub open spec fn fits(place: ComponentPlace, size: int) -> bool {
    place.offset + place.size <= size
}

impl XsaveLayout {
    /// The basic registers are among those that are saved; the components are
    /// those that are enabled, each within the area.
    pub open spec fn wf(self) -> bool {
        &&& XSAVE_HEADER_OFFSET + XSAVE_HEADER_SIZE <= self.size <= u32::MAX
        &&& self.mask & 3 == 3
        &&& self.components@.len() == ids_in(self.mask, 64).len()
        &&& forall|i: int|
            0 <= i < self.components@.len() ==> {
                let c = #[trigger] self.components@[i];
                &&& c.id == ids_in(self.mask, 64)[i]
                &&& c.offset + c.size <= self.size
            }
    }

    /// The layout, from what the processor tells: the highest question it
    /// answers, the features it has, the enabled components, the size of the
    /// area, and where each enabled component lies, in ascending order.
    pub fn get(
        max_leaf: u32,
        feature_ecx: u32,
        mask: u64,
        size: u32,
        places: &[ComponentPlace],
    ) -> (layout: Result<XsaveLayout, XsaveFault>)
        requires
            places@.len() == ids_in(mask, 64).len(),
        ensures
            layout matches Ok(l) ==> {
                &&& l.wf()
                &&& l.size == size
                &&& l.mask == mask
                &&& forall|i: int|
                    0 <= i < places@.len() ==> {
                        let c = #[trigger] l.components@[i];
                        c.offset == places@[i].offset && c.size == places@[i].size
                    }
            },
            layout matches Err(e) ==> e == if max_leaf < 0x0d {
                XsaveFault::NoLayout
            } else if feature_ecx & 0x0c00_0000 != 0x0c00_0000 {
                XsaveFault::NotEnabled
            } else if mask & 3 != 3 {
                XsaveFault::NoBasicState
            } else if size < XSAVE_HEADER_OFFSET + XSAVE_HEADER_SIZE {
                XsaveFault::TooSmall
            } else {
                XsaveFault::ComponentOutside
            },
            layout is Ok == {
                &&& max_leaf >= 0x0d
                &&& feature_ecx & 0x0c00_0000 == 0x0c00_0000
                &&& mask & 3 == 3
                &&& size >= XSAVE_HEADER_OFFSET + XSAVE_HEADER_SIZE
                &&& forall|i: int|
                    0 <= i < places@.len() ==> fits(#[trigger] places@[i], size as int)
            },
    {
        if max_leaf < 0x0d {
            return Err(XsaveFault::NoLayout);
        }
        if feature_ecx & 0x0c00_0000 != 0x0c00_0000 {
            return Err(XsaveFault::NotEnabled);
        }
        if mask & 3 != 3 {
            return Err(XsaveFault::NoBasicState);
        }
        if (size as usize) < XSAVE_HEADER_OFFSET + XSAVE_HEADER_SIZE {
            return Err(XsaveFault::TooSmall);
        }
        let ids = enabled_components(mask);
        let mut components: Vec<XsaveComponent> = Vec::new();
        let mut i: usize = 0;
        while i < places.len()
            invariant
                i <= places.len(),
                max_leaf >= 0x0d,
                feature_ecx & 0x0c00_0000 == 0x0c00_0000,
                mask & 3 == 3,
                size >= XSAVE_HEADER_OFFSET + XSAVE_HEADER_SIZE,
                ids@ == ids_in(mask, 64),
                places@.len() == ids@.len(),
                components@.len() == i,
                forall|k: int| 0 <= k < i ==> fits(#[trigger] places@[k], size as int),
                forall|k: int|
                    0 <= k < i ==> {
                        let c = #[trigger] components@[k];
                        &&& c.id == ids@[k]
                        &&& c.offset == places@[k].offset
                        &&& c.size == places@[k].size
                    },
            decreases places.len() - i,
        {
            let place = places[i];
            if place.offset as u64 + place.size as u64 > size as u64 {
                assert(!fits(places@[i as int], size as int));
                return Err(XsaveFault::ComponentOutside);
            }
            components.push(
                XsaveComponent {
                    id: ids[i],
                    offset: place.offset as usize,
                    size: place.size as usize,
                },
            );
            i += 1;
        }
        assert forall|k: int| 0 <= k < components@.len() implies {
            let c = #[trigger] components@[k];
            &&& c.id == ids_in(mask, 64)[k]
            &&& c.offset + c.size <= size
        } by {
            assert(fits(places@[k], size as int));
        }
        Ok(XsaveLayout { size: size as usize, mask, components })
    }

    /// The components that an area with these saved holds, in the order of the
    /// layout.
    pub open spec fn held(self, xstate_bv: u64, n: int) -> Seq<XsaveComponent>
        decreases n,
    {
        if n <= 0 {
            Seq::empty()
        } else {
            let head = self.held(xstate_bv, n - 1);
            let c = self.components@[n - 1];
            if has_bit(xstate_bv, c.id) {
                head.push(c)
            } else {
                head
            }
        }
    }

    /// The components that are copied when an area with these saved is loaded.
    pub fn saved_components(&self, xstate_bv: u64) -> (held: Vec<XsaveComponent>)
        requires
            self.wf(),
        ensures
            held@ == self.held(xstate_bv, self.components@.len() as int),
            forall|i: int|
                0 <= i < held@.len() ==> (#[trigger] held@[i]).offset + held@[i].size <= self.size,
    {
        let mut held: Vec<XsaveComponent> = Vec::new();
        let mut i: usize = 0;
        while i < self.components.len()
            invariant
                i <= self.components.len(),
                self.wf(),
                held@ == self.held(xstate_bv, i as int),
                forall|k: int|
                    0 <= k < held@.len() ==> (#[trigger] held@[k]).offset + held@[k].size
                        <= self.size,
            decreases self.components.len() - i,
        {
            let c = self.components[i];
            proof {
                ids_are_bits(self.mask, 64, i as int);
            }
            if xstate_bv & (1u64 << c.id) != 0 {
                held.push(c);
            }
            i += 1;
        }
        held
    }
}

/// The listed numbers are those of bits.
proof fn ids_are_bits(mask: u64, end: int, i: int)
    requires
        end <= 64,
        0 <= i < ids_in(mask, end).len(),
    ensures
        2 <= ids_in(mask, end)[i] < end,
    decreases end,
{
    if i < ids_in(mask, end - 1).len() {
        ids_are_bits(mask, end - 1, i);
    }
}

/// An area for the vector registers of a guest.
#[derive(Debug)]
pub struct XsaveArea {
    pub storage: Vec<u8>,
}

/// The byte of a legacy area that stands for the state of a guest: the fields of
/// the old floating-point unit and the vector registers count only where they
/// were saved, the vector control always.
pub open spec fn legacy_byte(area: Seq<u8>, xstate_bv: u64, i: int) -> u8 {
    let x87 = (2 <= i < 5) || (6 <= i < 14) || (16 <= i < 22) || (32 <= i < 160);
    if i < 2 {
        if xstate_bv & 1 != 0 {
            area[i]
        } else if i == 0 {
            0x7f
        } else {
            0x03
        }
    } else if x87 {
        if xstate_bv & 1 != 0 {
            area[i]
        } else {
            0
        }
    } else if 24 <= i < 32 {
        area[i]
    } else if 160 <= i < 416 {
        if xstate_bv & 2 != 0 {
            area[i]
        } else {
            0
        }
    } else {
        0
    }
}

impl XsaveArea {
    pub open spec fn wf(self) -> bool {
        self.storage@.len() >= XSAVE_HEADER_OFFSET + XSAVE_HEADER_SIZE
    }

    /// The area of a guest that has not run: all in its initial state. The
    /// vector control is set, as the processor loads it in any case.
    pub fn initial_guest(layout: &XsaveLayout) -> (area: XsaveArea)
        requires
            layout.wf(),
            layout.size <= usize::MAX - CHUNK_SIZE,
        ensures
            area.wf(),
            area.storage@.len() == ceil_to(layout.size as int, CHUNK_SIZE as int),
            forall|i: int|
                0 <= i < area.storage@.len() ==> #[trigger] area.storage@[i] == if i == 24 {
                    0x80
                } else if i == 25 {
                    0x1f
                } else {
                    0u8
                },
    {
        proof {
            ceil_to_is_least_multiple(layout.size as int, CHUNK_SIZE as int);
        }
        let top: usize = layout.size + (CHUNK_SIZE - 1);
        let len: usize = top - top % CHUNK_SIZE;
        let mut storage: Vec<u8> = Vec::new();
        let mut i: usize = 0;
        while i < len
            invariant
                i <= len,
                storage@.len() == i,
                forall|k: int|
                    0 <= k < i ==> #[trigger] storage@[k] == if k == 24 {
                        0x80
                    } else if k == 25 {
                        0x1f
                    } else {
                        0u8
                    },
            decreases len - i,
        {
            let byte: u8 = if i == MXCSR_OFFSET {
                0x80
            } else if i == MXCSR_OFFSET + 1 {
                0x1f
            } else {
                0
            };
            storage.push(byte);
            i += 1;
        }
        XsaveArea { storage }
    }

    /// The bytes of the area.
    pub fn as_bytes(&self) -> (bytes: &[u8])
        ensures
            bytes@ == self.storage@,
    {
        self.storage.as_slice()
    }

    /// Which components were saved.
    pub fn xstate_bv(&self) -> (mask: u64)
        requires
            self.wf(),
        ensures
            mask == le64(self.storage@, XSAVE_HEADER_OFFSET as int),
    {
        read_le64(self.storage.as_slice(), XSAVE_HEADER_OFFSET)
    }

    /// The legacy part that stands for the state of the guest.
    pub fn legacy_state_for_context(&self) -> (state: Vec<u8>)
        requires
            self.wf(),
        ensures
            state@.len() == XSAVE_LEGACY_SIZE,
            forall|i: int|
                0 <= i < XSAVE_LEGACY_SIZE ==> #[trigger] state@[i] == legacy_byte(
                    self.storage@,
                    le64(self.storage@, XSAVE_HEADER_OFFSET as int) as u64,
                    i,
                ),
    {
        let saved: u64 = self.xstate_bv();
        let x87_saved = saved & 1 != 0;
        let sse_saved = saved & 2 != 0;
        let mut state: Vec<u8> = Vec::new();
        let mut i: usize = 0;
        while i < XSAVE_LEGACY_SIZE
            invariant
                i <= XSAVE_LEGACY_SIZE,
                self.wf(),
                x87_saved == (saved & 1 != 0),
                sse_saved == (saved & 2 != 0),
                state@.len() == i,
                forall|k: int|
                    0 <= k < i ==> #[trigger] state@[k] == legacy_byte(self.storage@, saved, k),
            decreases XSAVE_LEGACY_SIZE - i,
        {
            let x87 = (2 <= i && i < 5) || (6 <= i && i < 14) || (16 <= i && i < 22) || (32 <= i
                && i < 160);
            let byte: u8 = if i < 2 {
                if x87_saved {
                    self.storage[i]
                } else if i == 0 {
                    0x7f
                } else {
                    0x03
                }
            } else if (x87 && x87_saved) || (24 <= i && i < 32) || (160 <= i && i < 416
                && sse_saved) {
                self.storage[i]
            } else {
                0
            };
            state.push(byte);
            i += 1;
        }
        state
    }

    /// What is put to a context of the host for the guest to go on with: the
    /// legacy part, with the vector control once more, and, where the context
    /// has room for them, the components that were saved.
    pub fn restore_to_context(&self, layout: &XsaveLayout, has_xstate: bool) -> (restoration:
        Restoration)
        requires
            self.wf(),
            layout.wf(),
        ensures
            ({
                let saved = le64(self.storage@, XSAVE_HEADER_OFFSET as int) as u64;
                &&& restoration.legacy_state@.len() == XSAVE_LEGACY_SIZE
                &&& forall|i: int|
                    0 <= i < XSAVE_LEGACY_SIZE ==> #[trigger] restoration.legacy_state@[i]
                        == legacy_byte(self.storage@, saved, i)
                &&& restoration.mxcsr == le32(self.storage@, MXCSR_OFFSET as int)
                &&& match restoration.extended {
                    None => !has_xstate,
                    Some(e) => {
                        &&& has_xstate
                        &&& e.components@ == layout.held(saved, layout.components@.len() as int)
                        &&& e.mask == saved & layout.mask
                    },
                }
            }),
    {
        let legacy_state = self.legacy_state_for_context();
        let mxcsr: u32 = legacy_state[24] as u32 + legacy_state[25] as u32 * 0x100
            + legacy_state[26] as u32 * 0x1_0000 + legacy_state[27] as u32 * 0x100_0000;
        let extended = if has_xstate {
            let saved: u64 = self.xstate_bv();
            Some(
                ExtendedState {
                    components: layout.saved_components(saved),
                    mask: saved & layout.mask,
                },
            )
        } else {
            None
        };
        Restoration { legacy_state, mxcsr, extended }
    }
}

/// Components that are copied to a context of the host, and the mask of those
/// that are valid there.
#[derive(Debug)]
pub struct ExtendedState {
    pub components: Vec<XsaveComponent>,
    pub mask: u64,
}

/// What is put to a context of the host.
#[derive(Debug)]
pub struct Restoration {
    pub legacy_state: Vec<u8>,
    pub mxcsr: u32,
    pub extended: Option<ExtendedState>,
}

/// A guest that has not run has the control words that guests start with, and
/// nothing in its registers.
pub proof fn fresh_guest_starts_clean(area: Seq<u8>, i: int)
    requires
        area.len() >= XSAVE_LEGACY_SIZE,
        0 <= i < XSAVE_LEGACY_SIZE,
        forall|k: int|
            0 <= k < area.len() ==> #[trigger] area[k] == if k == 24 {
                0x80
            } else if k == 25 {
                0x1f
            } else {
                0u8
            },
    ensures
        legacy_byte(area, 0, i) == if i == 0 {
            0x7f
        } else if i == 1 {
            0x03
        } else if i == 24 {
            0x80
        } else if i == 25 {
            0x1f
        } else {
            0u8
        },
{
    assert(0u64 & 1 == 0) by (bit_vector);
    assert(0u64 & 2 == 0) by (bit_vector);
}

/// What was saved of a guest's registers is what it goes on with: its vector
/// registers where they were saved, the registers of the old floating-point unit
/// where those were, and the vector control in any case. What was not saved is in
/// its initial state.
pub proof fn saved_registers_are_restored(area: Seq<u8>, xstate_bv: u64, i: int)
    requires
        area.len() >= XSAVE_LEGACY_SIZE,
        0 <= i < XSAVE_LEGACY_SIZE,
    ensures
        xstate_bv & 2 != 0 && 160 <= i < 416 ==> legacy_byte(area, xstate_bv, i) == area[i],
        xstate_bv & 2 == 0 && 160 <= i < 416 ==> legacy_byte(area, xstate_bv, i) == 0,
        xstate_bv & 1 != 0 && 32 <= i < 160 ==> legacy_byte(area, xstate_bv, i) == area[i],
        xstate_bv & 1 == 0 && 32 <= i < 160 ==> legacy_byte(area, xstate_bv, i) == 0,
        xstate_bv & 1 != 0 && (i < 5 || 6 <= i < 14 || 16 <= i < 22) ==> legacy_byte(
            area,
            xstate_bv,
            i,
        ) == area[i],
        xstate_bv & 1 == 0 && 2 <= i < 24 ==> legacy_byte(area, xstate_bv, i) == 0,
        xstate_bv & 1 == 0 ==> legacy_byte(area, xstate_bv, 0) + 0x100 * legacy_byte(
            area,
            xstate_bv,
            1,
        ) == GUEST_INITIAL_X87_CONTROL_WORD,
        24 <= i < 32 ==> legacy_byte(area, xstate_bv, i) == area[i],
        i >= 416 ==> legacy_byte(area, xstate_bv, i) == 0,
{
}

/// The components that are enabled are those whose bit is set, each once and the
/// lowest first, but for the two that every area has.
pub proof fn enabled_components_are_listed(mask: u64, end: int, id: u32)
    requires
        end <= 64,
    ensures
        ids_in(mask, end).contains(id) <==> 2 <= id < end && mask & (1u64 << id) != 0,
        forall|i: int, j: int|
            0 <= i < j < ids_in(mask, end).len() ==> #[trigger] ids_in(mask, end)[i]
                < #[trigger] ids_in(mask, end)[j],
    decreases end,
{
    let all = ids_in(mask, end);
    if end > 2 {
        let head = ids_in(mask, end - 1);
        enabled_components_are_listed(mask, end - 1, id);
        if all.contains(id) {
            let i = choose|i: int| 0 <= i < all.len() && all[i] == id;
            if i < head.len() {
                assert(head[i] == id);
            }
        }
        if 2 <= id < end && mask & (1u64 << id) != 0 {
            if id == end - 1 {
                assert(all[head.len() as int] == id);
            } else {
                let i = choose|i: int| 0 <= i < head.len() && head[i] == id;
                assert(all[i] == id);
            }
        }
        assert forall|i: int, j: int| 0 <= i < j < all.len() implies #[trigger] all[i]
            < #[trigger] all[j] by {
            ids_are_bits(mask, end, i);
            if j < head.len() {
                assert(head[i] < head[j]);
            } else {
                ids_are_bits(mask, end - 1, i);
            }
        }
    } else {
        assert(!all.contains(id));
    }
}

/// The components that are copied are those of the layout that were saved, all of
/// them and no others.
pub proof fn saved_components_are_copied(
    layout: XsaveLayout,
    xstate_bv: u64,
    n: int,
    c: XsaveComponent,
)
    requires
        0 <= n <= layout.components@.len(),
    ensures
        layout.held(xstate_bv, n).contains(c) <==> layout.components@.take(n).contains(c)
            && xstate_bv & (1u64 << c.id) != 0,
    decreases n,
{
    let all = layout.held(xstate_bv, n);
    let given = layout.components@.take(n);
    if n > 0 {
        let head = layout.held(xstate_bv, n - 1);
        let less = layout.components@.take(n - 1);
        let last = layout.components@[n - 1];
        saved_components_are_copied(layout, xstate_bv, n - 1, c);
        if all.contains(c) {
            let i = choose|i: int| 0 <= i < all.len() && all[i] == c;
            if i < head.len() {
                assert(head[i] == c);
                let k = choose|k: int| 0 <= k < less.len() && less[k] == c;
                assert(given[k] == c);
            } else {
                assert(given[n - 1] == c);
            }
        }
        if given.contains(c) && xstate_bv & (1u64 << c.id) != 0 {
            let k = choose|k: int| 0 <= k < given.len() && given[k] == c;
            if k < n - 1 {
                assert(less[k] == c);
                let i = choose|i: int| 0 <= i < head.len() && head[i] == c;
                assert(all[i] == c);
            } else {
                assert(last == c);
                assert(all[head.len() as int] == c);
            }
        }
    }
}

/// How many units an extended context of so many bytes takes.
pub fn context_chunks(context_length: u32) -> (chunks: usize)
    ensures
        chunks * CHUNK_SIZE == ceil_to(context_length as int, CHUNK_SIZE as int),
{
    let length: usize = context_length as usize;
    if length % CHUNK_SIZE == 0 {
        length / CHUNK_SIZE
    } else {
        length / CHUNK_SIZE + 1
    }
}

/// Whether the control words are those that the host's code expects; of the
/// vector control only the bits that control count.
pub fn has_host_controls(x87_control_word: u16, mxcsr: u32) -> (expected: bool)
    ensures
        expected == (x87_control_word == HOST_X87_CONTROL_WORD && mxcsr & 0xffc0 == HOST_MXCSR),
{
    x87_control_word == HOST_X87_CONTROL_WORD && mxcsr & 0xffc0 == HOST_MXCSR
}

} // verus!
