//! Structures describing the layout of data in memory for an LLVM target:
//! bit sizes, address spaces, alignment pairs, pointer layouts, the alignment
//! tables for primitive types, and the aggregate [`Layout`] value that a
//! data-layout specification string describes.

use crate::text::spec_decimal;
use vstd::prelude::*;

verus! {

/// Specifies whether data is laid out in big-endian or little-endian form.
#[derive(Copy, Clone, Debug, PartialEq, Eq, Structural)]
pub enum Endianness {
    /// The least significant bits have the lowest address.
    Little,
    /// The least significant bits have the highest address.
    Big,
}

impl Endianness {
    /// The character that denotes this endianness in a data-layout string.
    pub fn symbol(&self) -> (c: char)
        ensures
            c == (match self {
                Endianness::Little => 'e',
                Endianness::Big => 'E',
            }),
    {
        match self {
            Endianness::Little => 'e',
            Endianness::Big => 'E',
        }
    }
}

/// An LLVM address space. Address space `0` is the default, corresponding to
/// a Von Neumann architecture where code and data share one memory.
#[derive(Copy, Clone, Debug, PartialEq, Eq, Hash, Structural)]
pub struct AddressSpace(pub u32);

impl AddressSpace {
    /// The default address space, `0`.
    pub fn von_neumann_default() -> (r: Self)
        ensures
            r.0 == 0,
    {
        AddressSpace(0)
    }
}

impl Default for AddressSpace {
    /// The default address space, `0`.
    fn default() -> (r: Self)
        ensures
            r.0 == 0,
    {
        AddressSpace(0)
    }
}

/// The size of an integer, pointer, or alignment, in bits.
/// A bit size is always strictly positive.
#[derive(Copy, Clone, Debug, PartialEq, Eq, Hash, Structural)]
pub struct BitSize {
    bits: u32,
}

impl View for BitSize {
    type V = u32;

    closed spec fn view(&self) -> u32 {
        self.bits
    }
}

impl BitSize {
    #[verifier::type_invariant]
    spec fn positive(self) -> bool {
        self.bits > 0
    }

    /// Creates a size from a bit count, rejecting zero.
    pub fn new(bits: u32) -> (r: Option<Self>)
        ensures
            r is Some <==> bits > 0,
            r matches Some(b) ==> b@ == bits,
    {
        if bits > 0 {
            Some(BitSize { bits })
        } else {
            None
        }
    }

    /// Creates a size from a bit count already known to be non-zero.
    pub fn from_bits(bits: u32) -> (r: Self)
        requires
            bits > 0,
        ensures
            r@ == bits,
    {
        BitSize { bits }
    }

    /// Creates a size from a value in bytes.
    pub fn from_bytes(size: u8) -> (r: Self)
        requires
            size > 0,
        ensures
            r@ == 8 * size,
    {
        BitSize { bits: 8 * (size as u32) }
    }

    /// Gets the size, in bits.
    pub fn bits(self) -> (r: u32)
        ensures
            r == self@,
            r > 0,
    {
        proof {
            use_type_invariant(&self);
        }
        self.bits
    }
}

/// The bit value of an optional bit size.
pub open spec fn spec_opt_bits(o: Option<BitSize>) -> Option<u32> {
    match o {
        Some(b) => Some(b@),
        None => None,
    }
}

/// The mathematical content of an [`AlignmentPair`]: the ABI and preferred
/// alignments in bits, either of which may be absent.
#[derive(PartialEq, Eq, Structural)]
pub struct AlignmentPairModel {
    /// The ABI alignment in bits, if present.
    pub abi: Option<u32>,
    /// The preferred alignment in bits, if present.
    pub preferred: Option<u32>,
}

/// Specifies an ABI and an optional preferred alignment. If the preferred
/// alignment is omitted, the ABI alignment is used in its place.
#[derive(Copy, Clone, Debug)]
pub struct AlignmentPair {
    abi: Option<BitSize>,
    preferred: Option<BitSize>,
}

impl View for AlignmentPair {
    type V = AlignmentPairModel;

    closed spec fn view(&self) -> AlignmentPairModel {
        AlignmentPairModel { abi: spec_opt_bits(self.abi), preferred: spec_opt_bits(self.preferred) }
    }
}

/// The effective preferred alignment of an alignment pair: the preferred
/// value if set, otherwise the ABI value, otherwise zero.
pub open spec fn spec_preferred_alignment(a: AlignmentPairModel) -> u32 {
    match a.preferred {
        Some(bits) => bits,
        None => match a.abi {
            Some(bits) => bits,
            None => 0,
        },
    }
}

impl AlignmentPair {
    /// Creates a new alignment value, omitting the preferred alignment value.
    pub fn new(abi_alignment: BitSize) -> (r: Self)
        ensures
            r@ == (AlignmentPairModel { abi: Some(abi_alignment@), preferred: None }),
    {
        AlignmentPair { abi: Some(abi_alignment), preferred: None }
    }

    /// Creates a new alignment value with both alignments present.
    pub fn with_preferred_alignment(abi_alignment: BitSize, preferred_alignment: BitSize) -> (r:
        Self)
        ensures
            r@ == (AlignmentPairModel {
                abi: Some(abi_alignment@),
                preferred: Some(preferred_alignment@),
            }),
    {
        AlignmentPair { abi: Some(abi_alignment), preferred: Some(preferred_alignment) }
    }

    /// Creates a new alignment value with an absent ABI alignment.
    pub fn with_preferred_only(preferred_alignment: BitSize) -> (r: Self)
        ensures
            r@ == (AlignmentPairModel { abi: None, preferred: Some(preferred_alignment@) }),
    {
        AlignmentPair { abi: None, preferred: Some(preferred_alignment) }
    }

    /// Creates an alignment value from both optional parts.
    pub fn from_options(abi: Option<BitSize>, preferred: Option<BitSize>) -> (r: Self)
        ensures
            r@ == (AlignmentPairModel { abi: spec_opt_bits(abi), preferred: spec_opt_bits(preferred) }),
    {
        AlignmentPair { abi, preferred }
    }

    /// Indicates if the preferred alignment value is omitted.
    pub fn is_preferred_omitted(&self) -> (r: bool)
        ensures
            r == (self@.preferred is None),
    {
        self.preferred.is_none()
    }

    /// Gets the ABI alignment value in bits, or zero if it is absent.
    pub fn abi_alignment(&self) -> (r: u32)
        ensures
            r == (match self@.abi {
                Some(bits) => bits,
                None => 0u32,
            }),
    {
        match self.abi {
            Some(size) => size.bits(),
            None => 0,
        }
    }

    /// Gets the preferred alignment value in bits, defaulting to the ABI
    /// alignment if the former is omitted, and to zero if both are absent.
    pub fn preferred_alignment(&self) -> (r: u32)
        ensures
            r == spec_preferred_alignment(self@),
    {
        match self.preferred {
            Some(size) => size.bits(),
            None => self.abi_alignment(),
        }
    }
}

/// The mathematical content of a [`PointerLayout`].
#[derive(PartialEq, Eq, Structural)]
pub struct PointerLayoutModel {
    /// The address space the layout applies to.
    pub address_space: u32,
    /// The pointer size in bits.
    pub size: u32,
    /// The pointer alignment.
    pub alignment: AlignmentPairModel,
    /// The index size in bits, if explicitly specified.
    pub index_size: Option<u32>,
}

/// Specifies the layout of a pointer in memory for a particular address space.
#[derive(Copy, Clone, Debug)]
pub struct PointerLayout {
    address_space: AddressSpace,
    size: BitSize,
    alignment: AlignmentPair,
    index_size: Option<BitSize>,
}

impl View for PointerLayout {
    type V = PointerLayoutModel;

    closed spec fn view(&self) -> PointerLayoutModel {
        PointerLayoutModel {
            address_space: self.address_space.0,
            size: self.size@,
            alignment: self.alignment@,
            index_size: spec_opt_bits(self.index_size),
        }
    }
}

/// The 64-bit pointer layout for the default address space, 64-bit aligned,
/// used wherever a layout gives no pointer description of its own.
pub open spec fn spec_default_pointer_layout() -> PointerLayoutModel {
    PointerLayoutModel {
        address_space: 0,
        size: 64,
        alignment: AlignmentPairModel { abi: Some(64), preferred: None },
        index_size: None,
    }
}

impl PointerLayout {
    /// Creates a pointer layout description.
    pub fn new(
        address_space: AddressSpace,
        size: BitSize,
        alignment: AlignmentPair,
        index_size: Option<BitSize>,
    ) -> (r: Self)
        ensures
            r@ == (PointerLayoutModel {
                address_space: address_space.0,
                size: size@,
                alignment: alignment@,
                index_size: spec_opt_bits(index_size),
            }),
    {
        PointerLayout { address_space, size, alignment, index_size }
    }

    /// A 64-bit pointer in the default address space that is 64-bit aligned.
    pub fn default_64_bit() -> (r: Self)
        ensures
            r@ == spec_default_pointer_layout(),
    {
        PointerLayout {
            address_space: AddressSpace(0),
            size: BitSize::from_bits(64),
            alignment: AlignmentPair::new(BitSize::from_bits(64)),
            index_size: None,
        }
    }

    /// Retrieves the address space that this pointer layout applies to.
    pub fn address_space(&self) -> (r: AddressSpace)
        ensures
            r.0 == self@.address_space,
    {
        self.address_space
    }

    /// Gets the size of pointers, in bits.
    pub fn size(&self) -> (r: BitSize)
        ensures
            r@ == self@.size,
    {
        self.size
    }

    /// Gets the alignment of pointers.
    pub fn alignment(&self) -> (r: &AlignmentPair)
        ensures
            r@ == self@.alignment,
    {
        &self.alignment
    }

    /// Gets the index size, which defaults to the pointer size when it is
    /// not explicitly specified.
    pub fn index_size(&self) -> (r: BitSize)
        ensures
            r@ == (match self@.index_size {
                Some(bits) => bits,
                None => self@.size,
            }),
    {
        match self.index_size {
            Some(size) => size,
            None => self.size,
        }
    }
}

/// Looks up the first pointer layout for the given address space.
pub open spec fn ptr_entries_get(entries: Seq<PointerLayoutModel>, address_space: u32) -> Option<
    PointerLayoutModel,
>
    decreases entries.len(),
{
    if entries.len() == 0 {
        None
    } else if entries[0].address_space == address_space {
        Some(entries[0])
    } else {
        ptr_entries_get(entries.skip(1), address_space)
    }
}

/// True when some entry describes the given address space.
pub open spec fn ptr_entries_contains(entries: Seq<PointerLayoutModel>, address_space: u32) -> bool {
    exists|i: int| 0 <= i < entries.len() && entries[i].address_space == address_space
}

/// Describes the layout of pointers, one entry per customized address space.
/// Address spaces without an entry use the default 64-bit layout.
#[derive(Clone, Debug)]
pub struct PointerLayoutMap {
    entries: Vec<PointerLayout>,
}

impl View for PointerLayoutMap {
    type V = Seq<PointerLayoutModel>;

    closed spec fn view(&self) -> Seq<PointerLayoutModel> {
        self.entries@.map_values(|p: PointerLayout| p@)
    }
}

impl PointerLayoutMap {
    /// Well-formed: no two entries describe the same address space.
    pub open spec fn wf(&self) -> bool {
        forall|i: int, j: int|
            0 <= i < j < self@.len() ==> self@[i].address_space != self@[j].address_space
    }

    /// The default pointer layouts used by LLVM, where pointers in all
    /// address spaces use the default 64-bit layout.
    pub fn all_default() -> (r: Self)
        ensures
            r@ == Seq::<PointerLayoutModel>::empty(),
            r.wf(),
    {
        let r = PointerLayoutMap { entries: Vec::new() };
        assert(r@ =~= Seq::<PointerLayoutModel>::empty());
        r
    }

    /// Indicates if the default pointer layout is used for every address
    /// space, that is, no entry customizes any address space.
    pub fn is_all_default(&self) -> (r: bool)
        ensures
            r == (self@.len() == 0),
    {
        self.entries.len() == 0
    }

    /// Creates a pointer layout map from a single layout value.
    pub fn from_layout(layout: PointerLayout) -> (r: Self)
        ensures
            r@ =~= seq![layout@],
            r.wf(),
    {
        let mut entries = Vec::new();
        entries.push(layout);
        let r = PointerLayoutMap { entries };
        assert(r@ =~= seq![layout@]);
        r
    }

    /// Gets the pointer layout recorded for the given address space, if any.
    ///
    /// Prefer [`PointerLayoutMap::get_or_default`] for determining the layout
    /// that pointers in an address space actually use.
    pub fn get(&self, address_space: AddressSpace) -> (r: Option<&PointerLayout>)
        ensures
            match r {
                Some(p) => ptr_entries_get(self@, address_space.0) == Some(p@),
                None => ptr_entries_get(self@, address_space.0) is None,
            },
    {
        let n = self.entries.len();
        let mut i: usize = 0;
        assert(self@.skip(0) =~= self@);
        while i < n
            invariant
                n == self@.len(),
                i <= n,
                ptr_entries_get(self@, address_space.0) == ptr_entries_get(
                    self@.skip(i as int),
                    address_space.0,
                ),
            decreases n - i,
        {
            proof {
                assert(self@.skip(i as int)[0] == self@[i as int]);
                assert(self@.skip(i as int).skip(1) =~= self@.skip(i as int + 1));
            }
            if self.entries[i].address_space().0 == address_space.0 {
                return Some(&self.entries[i]);
            }
            i = i + 1;
        }
        proof {
            assert(self@.skip(n as int) =~= Seq::<PointerLayoutModel>::empty());
        }
        None
    }

    /// Gets the pointer layout used for the given address space, falling back
    /// to the default 64-bit layout when none was recorded.
    pub fn get_or_default(&self, address_space: AddressSpace) -> (r: PointerLayout)
        ensures
            r@ == (match ptr_entries_get(self@, address_space.0) {
                Some(p) => p,
                None => spec_default_pointer_layout(),
            }),
    {
        match self.get(address_space) {
            Some(layout) => *layout,
            None => PointerLayout::default_64_bit(),
        }
    }

    /// Inserts a pointer layout for its address space. When an entry for that
    /// address space already exists, nothing changes and the pre-existing
    /// entry is handed back as the error value.
    pub fn insert(&mut self, layout: PointerLayout) -> (r: Result<(), PointerLayout>)
        requires
            old(self).wf(),
        ensures
            final(self).wf(),
            match r {
                Ok(()) => !ptr_entries_contains(old(self)@, layout@.address_space) && final(self)@
                    =~= old(self)@.push(layout@),
                Err(existing) => ptr_entries_get(old(self)@, layout@.address_space) == Some(
                    existing@,
                ) && final(self)@ == old(self)@,
            },
    {
        let found = self.get(layout.address_space());
        match found {
            Some(existing) => {
                let existing = *existing;
                proof {
                    lemma_ptr_entries_get_contains(self@, layout@.address_space);
                }
                Err(existing)
            },
            None => {
                proof {
                    lemma_ptr_entries_get_contains(self@, layout@.address_space);
                }
                self.entries.push(layout);
                assert(self@ =~= old(self)@.push(layout@));
                proof {
                    assert forall|i: int, j: int| 0 <= i < j < self@.len() implies self@[i].address_space
                        != self@[j].address_space by {
                        if j == self@.len() - 1 {
                            assert(self@[j] == layout@);
                        }
                    }
                }
                Ok(())
            },
        }
    }

    /// The number of address spaces with a recorded layout.
    pub fn len(&self) -> (r: usize)
        ensures
            r == self@.len(),
    {
        self.entries.len()
    }
}

/// A lookup succeeds exactly when some entry holds the address space, and a
/// successful lookup returns an entry for that address space.
pub proof fn lemma_ptr_entries_get_contains(entries: Seq<PointerLayoutModel>, address_space: u32)
    ensures
        ptr_entries_get(entries, address_space) is Some <==> ptr_entries_contains(
            entries,
            address_space,
        ),
        ptr_entries_get(entries, address_space) matches Some(p) ==> p.address_space
            == address_space,
    decreases entries.len(),
{
    if entries.len() > 0 {
        if entries[0].address_space == address_space {
        } else {
            lemma_ptr_entries_get_contains(entries.skip(1), address_space);
            if ptr_entries_contains(entries.skip(1), address_space) {
                let i = choose|i: int|
                    0 <= i < entries.skip(1).len() && entries.skip(1)[i].address_space
                        == address_space;
                assert(entries[i + 1].address_space == address_space);
            }
            if ptr_entries_contains(entries, address_space) {
                let i = choose|i: int|
                    0 <= i < entries.len() && entries[i].address_space == address_space;
                assert(entries.skip(1)[i - 1].address_space == address_space);
            }
        }
    }
}

/// Looks up the first alignment entry for the given size.
pub open spec fn align_entries_get(
    entries: Seq<(u32, AlignmentPairModel)>,
    size: u32,
) -> Option<AlignmentPairModel>
    decreases entries.len(),
{
    if entries.len() == 0 {
        None
    } else if entries[0].0 == size {
        Some(entries[0].1)
    } else {
        align_entries_get(entries.skip(1), size)
    }
}

/// True when some entry records the given size.
pub open spec fn align_entries_contains(
    entries: Seq<(u32, AlignmentPairModel)>,
    size: u32,
) -> bool {
    exists|i: int| 0 <= i < entries.len() && entries[i].0 == size
}

/// Replaces the entry for the given size in place, or appends a new one when
/// the size is not yet recorded.
pub open spec fn align_entries_set(
    entries: Seq<(u32, AlignmentPairModel)>,
    size: u32,
    alignment: AlignmentPairModel,
) -> Seq<(u32, AlignmentPairModel)>
    decreases entries.len(),
{
    if entries.len() == 0 {
        seq![(size, alignment)]
    } else if entries[0].0 == size {
        seq![(size, alignment)] + entries.skip(1)
    } else {
        seq![entries[0]] + align_entries_set(entries.skip(1), size, alignment)
    }
}

/// Describes the alignment of integer, vector, or floating-point types of
/// particular bit sizes.
#[derive(Clone, Debug)]
pub struct PrimitiveAlignmentMap {
    entries: Vec<(BitSize, AlignmentPair)>,
}

impl View for PrimitiveAlignmentMap {
    type V = Seq<(u32, AlignmentPairModel)>;

    closed spec fn view(&self) -> Seq<(u32, AlignmentPairModel)> {
        self.entries@.map_values(|e: (BitSize, AlignmentPair)| (e.0@, e.1@))
    }
}

impl PrimitiveAlignmentMap {
    /// Well-formed: no two entries record the same size.
    pub open spec fn wf(&self) -> bool {
        forall|i: int, j: int| 0 <= i < j < self@.len() ==> self@[i].0 != self@[j].0
    }

    /// An alignment table with no entries.
    pub fn new() -> (r: Self)
        ensures
            r@ == Seq::<(u32, AlignmentPairModel)>::empty(),
            r.wf(),
    {
        let r = PrimitiveAlignmentMap { entries: Vec::new() };
        assert(r@ =~= Seq::<(u32, AlignmentPairModel)>::empty());
        r
    }

    /// Gets the alignment recorded for a value of a particular size.
    pub fn get(&self, size: BitSize) -> (r: Option<&AlignmentPair>)
        ensures
            match r {
                Some(a) => align_entries_get(self@, size@) == Some(a@),
                None => align_entries_get(self@, size@) is None,
            },
    {
        let n = self.entries.len();
        let mut i: usize = 0;
        assert(self@.skip(0) =~= self@);
        while i < n
            invariant
                n == self@.len(),
                i <= n,
                align_entries_get(self@, size@) == align_entries_get(
                    self@.skip(i as int),
                    size@,
                ),
            decreases n - i,
        {
            proof {
                assert(self@.skip(i as int)[0] == self@[i as int]);
                assert(self@.skip(i as int).skip(1) =~= self@.skip(i as int + 1));
            }
            if self.entries[i].0.bits() == size.bits() {
                return Some(&self.entries[i].1);
            }
            i = i + 1;
        }
        proof {
            assert(self@.skip(n as int) =~= Seq::<(u32, AlignmentPairModel)>::empty());
        }
        None
    }

    /// Inserts an alignment for a size not yet recorded. When the size is
    /// already present, nothing changes and the pre-existing alignment is
    /// handed back as the error value.
    pub fn try_insert(&mut self, size: BitSize, alignment: AlignmentPair) -> (r: Result<
        (),
        AlignmentPair,
    >)
        requires
            old(self).wf(),
        ensures
            final(self).wf(),
            match r {
                Ok(()) => !align_entries_contains(old(self)@, size@)
                    && final(self)@ =~= old(self)@.push((size@, alignment@)),
                Err(existing) => align_entries_get(old(self)@, size@) == Some(existing@)
                    && final(self)@ == old(self)@,
            },
    {
        let found = self.get(size);
        match found {
            Some(existing) => {
                let existing = *existing;
                proof {
                    lemma_align_entries_get_contains(self@, size@);
                }
                Err(existing)
            },
            None => {
                proof {
                    lemma_align_entries_get_contains(self@, size@);
                }
                self.entries.push((size, alignment));
                assert(self@ =~= old(self)@.push((size@, alignment@)));
                proof {
                    assert forall|i: int, j: int| 0 <= i < j < self@.len() implies self@[i].0
                        != self@[j].0 by {
                        if j == self@.len() - 1 {
                            assert(self@[j] == (size@, alignment@));
                        }
                    }
                }
                Ok(())
            },
        }
    }

    /// Records an alignment for a particular size, overwriting any alignment
    /// previously recorded for that size.
    pub fn insert_or_replace(&mut self, size: BitSize, alignment: AlignmentPair)
        requires
            old(self).wf(),
        ensures
            final(self).wf(),
            final(self)@ == align_entries_set(old(self)@, size@, alignment@),
    {
        let n = self.entries.len();
        let mut i: usize = 0;
        while i < n
            invariant
                n == self@.len(),
                i <= n,
                self.wf(),
                self@ == old(self)@,
                forall|j: int| 0 <= j < i ==> self@[j].0 != size@,
            decreases n - i,
        {
            if self.entries[i].0.bits() == size.bits() {
                assert(self.entries@[i as int].0@ == size@);
                self.entries.set(i, (size, alignment));
                assert(self@ =~= old(self)@.update(i as int, (size@, alignment@)));
                proof {
                    lemma_align_entries_set_found(old(self)@, size@, alignment@, i as int);
                    assert forall|a: int, b: int| 0 <= a < b < self@.len() implies self@[a].0
                        != self@[b].0 by {
                        assert(old(self)@[a].0 == self@[a].0 || a == i);
                        assert(old(self)@[b].0 == self@[b].0 || b == i);
                    }
                }
                return ;
            }
            i = i + 1;
        }
        self.entries.push((size, alignment));
        assert(self@ =~= old(self)@.push((size@, alignment@)));
        proof {
            lemma_align_entries_set_absent(old(self)@, size@, alignment@);
            assert forall|a: int, b: int| 0 <= a < b < self@.len() implies self@[a].0 != self@[b].0 by {
                if b == self@.len() - 1 {
                    assert(self@[b] == (size@, alignment@));
                }
            }
        }
    }

    /// The number of sizes with a recorded alignment.
    pub fn len(&self) -> (r: usize)
        ensures
            r == self@.len(),
    {
        self.entries.len()
    }
}

/// A lookup succeeds exactly when some entry holds the size, and a
/// successful lookup returns the first such entry's alignment.
pub proof fn lemma_align_entries_get_contains(entries: Seq<(u32, AlignmentPairModel)>, size: u32)
    ensures
        align_entries_get(entries, size) is Some <==> align_entries_contains(entries, size),
    decreases entries.len(),
{
    if entries.len() > 0 {
        if entries[0].0 == size {
        } else {
            lemma_align_entries_get_contains(entries.skip(1), size);
            if align_entries_contains(entries.skip(1), size) {
                let i = choose|i: int|
                    0 <= i < entries.skip(1).len() && entries.skip(1)[i].0 == size;
                assert(entries[i + 1].0 == size);
            }
            if align_entries_contains(entries, size) {
                let i = choose|i: int| 0 <= i < entries.len() && entries[i].0 == size;
                assert(entries.skip(1)[i - 1].0 == size);
            }
        }
    }
}

/// Replacing a size that first occurs at position `i` updates exactly that
/// position.
pub proof fn lemma_align_entries_set_found(
    entries: Seq<(u32, AlignmentPairModel)>,
    size: u32,
    alignment: AlignmentPairModel,
    i: int,
)
    requires
        0 <= i < entries.len(),
        entries[i].0 == size,
        forall|j: int| 0 <= j < i ==> entries[j].0 != size,
    ensures
        align_entries_set(entries, size, alignment) =~= entries.update(i, (size, alignment)),
    decreases i,
{
    if i == 0 {
    } else {
        assert(forall|j: int|
            0 <= j < i - 1 ==> entries.skip(1)[j].0 == entries[j + 1].0 && entries[j + 1].0
                != size);
        lemma_align_entries_set_found(entries.skip(1), size, alignment, i - 1);
        assert(align_entries_set(entries, size, alignment) =~= seq![entries[0]]
            + align_entries_set(entries.skip(1), size, alignment));
    }
}

/// Replacing a size that occurs nowhere appends a new entry.
pub proof fn lemma_align_entries_set_absent(
    entries: Seq<(u32, AlignmentPairModel)>,
    size: u32,
    alignment: AlignmentPairModel,
)
    requires
        forall|j: int| 0 <= j < entries.len() ==> entries[j].0 != size,
    ensures
        align_entries_set(entries, size, alignment) =~= entries.push((size, alignment)),
    decreases entries.len(),
{
    if entries.len() > 0 {
        assert(forall|j: int|
            0 <= j < entries.skip(1).len() ==> entries.skip(1)[j].0 == entries[j + 1].0
                && entries[j + 1].0 != size);
        lemma_align_entries_set_absent(entries.skip(1), size, alignment);
    }
}

/// Indicates the type of alignment used for function pointers.
#[derive(Copy, Clone, Debug, PartialEq, Eq, Structural)]
pub enum FunctionAlignmentType {
    /// The alignment of function pointers is independent of the alignment of
    /// functions.
    Independent,
    /// The alignment of function pointers is a multiple of the alignment of
    /// functions.
    Multiple,
}

/// The mathematical content of a [`FunctionAlignment`].
#[derive(PartialEq, Eq, Structural)]
pub struct FunctionAlignmentModel {
    /// How function pointers are aligned relative to functions.
    pub alignment_type: FunctionAlignmentType,
    /// The ABI alignment of function pointers, in bits.
    pub abi_alignment: u32,
}

/// Describes the alignment of function pointers.
#[derive(Copy, Clone, Debug)]
pub struct FunctionAlignment {
    alignment_type: FunctionAlignmentType,
    abi_alignment: BitSize,
}

impl View for FunctionAlignment {
    type V = FunctionAlignmentModel;

    closed spec fn view(&self) -> FunctionAlignmentModel {
        FunctionAlignmentModel {
            alignment_type: self.alignment_type,
            abi_alignment: self.abi_alignment@,
        }
    }
}

impl FunctionAlignment {
    /// Creates a new function alignment value.
    pub fn new(alignment_type: FunctionAlignmentType, abi_alignment: BitSize) -> (r: Self)
        ensures
            r@ == (FunctionAlignmentModel { alignment_type, abi_alignment: abi_alignment@ }),
    {
        FunctionAlignment { alignment_type, abi_alignment }
    }

    /// Gets a value indicating how function pointers are aligned.
    pub fn alignment_type(&self) -> (r: FunctionAlignmentType)
        ensures
            r == self@.alignment_type,
    {
        self.alignment_type
    }

    /// The alignment for function pointers.
    pub fn abi_alignment(&self) -> (r: BitSize)
        ensures
            r@ == self@.abi_alignment,
    {
        self.abi_alignment
    }
}

/// Indicates how symbols are mangled in the output.
#[derive(Copy, Clone, Debug, PartialEq, Eq, Structural)]
pub enum Mangling {
    /// The Executable and Linkable Format used in Unix-like systems, which
    /// uses the prefix `.L` for private symbols.
    ELF,
    /// IBM's Generalized Object File Format, which uses the prefix `@` for
    /// private symbols.
    GOFF,
    /// MIPS-style mangling, which uses the prefix `$` for private symbols.
    MIPS,
    /// Apple's Mach object file format, which uses the prefix `L` for
    /// private symbols.
    MachO,
    /// Windows COFF for x86, which prefixes symbols with `_` among others.
    WindowsX86COFF,
    /// Windows COFF as used on other architectures.
    WindowsCOFF,
    /// IBM's XCOFF format, which uses the prefix `L..` for private symbols.
    XCOFF,
}

/// The mathematical content of a [`Layout`].
#[verifier::ext_equal]
pub struct LayoutModel {
    /// The byte endianness of the target.
    pub endianness: Endianness,
    /// The natural stack alignment in bits, if specified.
    pub stack_alignment: Option<u32>,
    /// The address space corresponding to program memory.
    pub program_address_space: u32,
    /// The address space used for global variables.
    pub global_address_space: u32,
    /// The address space used by stack allocation.
    pub alloca_address_space: u32,
    /// The recorded pointer layouts, one per customized address space.
    pub pointer_layouts: Seq<PointerLayoutModel>,
    /// The alignment table for integers.
    pub integer_alignments: Seq<(u32, AlignmentPairModel)>,
    /// The alignment table for vectors.
    pub vector_alignments: Seq<(u32, AlignmentPairModel)>,
    /// The alignment table for floating-point types.
    pub float_alignments: Seq<(u32, AlignmentPairModel)>,
    /// The alignment for aggregate types.
    pub aggregate_object_alignment: AlignmentPairModel,
    /// The alignment of function pointers, if specified.
    pub function_pointer_alignment: Option<FunctionAlignmentModel>,
    /// The symbol mangling scheme, if specified.
    pub mangling: Option<Mangling>,
    /// The native integer widths of the target, in the order given.
    pub native_integer_widths: Seq<u32>,
}

/// The default alignment table for integers: 1-bit and 8-bit integers are
/// byte aligned, and 16, 32 and 64-bit integers are aligned to their size.
pub open spec fn spec_integer_alignment_defaults() -> Seq<(u32, AlignmentPairModel)> {
    seq![
        (1u32, AlignmentPairModel { abi: Some(8u32), preferred: None }),
        (8u32, AlignmentPairModel { abi: Some(8u32), preferred: None }),
        (16u32, AlignmentPairModel { abi: Some(16u32), preferred: None }),
        (32u32, AlignmentPairModel { abi: Some(32u32), preferred: None }),
        (64u32, AlignmentPairModel { abi: Some(64u32), preferred: None }),
    ]
}

/// The default alignment table for floating-point types: 16, 32, 64 and
/// 128-bit floats are aligned to their size.
pub open spec fn spec_float_alignment_defaults() -> Seq<(u32, AlignmentPairModel)> {
    seq![
        (16u32, AlignmentPairModel { abi: Some(16u32), preferred: None }),
        (32u32, AlignmentPairModel { abi: Some(32u32), preferred: None }),
        (64u32, AlignmentPairModel { abi: Some(64u32), preferred: None }),
        (128u32, AlignmentPairModel { abi: Some(128u32), preferred: None }),
    ]
}

/// The default alignment table for vectors: 64 and 128-bit vectors are
/// aligned to their size.
pub open spec fn spec_vector_alignment_defaults() -> Seq<(u32, AlignmentPairModel)> {
    seq![
        (64u32, AlignmentPairModel { abi: Some(64u32), preferred: None }),
        (128u32, AlignmentPairModel { abi: Some(128u32), preferred: None }),
    ]
}

/// The layout of a target that gives no specification of its own:
/// little-endian, no stack alignment constraint, address space 0 everywhere,
/// default pointer layout, the documented default alignment tables, 64-bit
/// preferred aggregate alignment, and no function-pointer alignment,
/// mangling, or native integer widths.
pub open spec fn spec_default_layout() -> LayoutModel {
    LayoutModel {
        endianness: Endianness::Little,
        stack_alignment: None,
        program_address_space: 0,
        global_address_space: 0,
        alloca_address_space: 0,
        pointer_layouts: Seq::empty(),
        integer_alignments: spec_integer_alignment_defaults(),
        vector_alignments: spec_vector_alignment_defaults(),
        float_alignments: spec_float_alignment_defaults(),
        aggregate_object_alignment: AlignmentPairModel { abi: None, preferred: Some(64u32) },
        function_pointer_alignment: None,
        mangling: None,
        native_integer_widths: Seq::empty(),
    }
}

/// Indicates how data is laid out in memory for a specific target.
#[derive(Clone, Debug)]
pub struct Layout {
    /// Specifies the byte endianness of the target.
    pub endianness: Endianness,
    /// Specifies the natural stack alignment.
    pub stack_alignment: Option<BitSize>,
    /// Specifies which address space corresponds to program memory.
    pub program_address_space: AddressSpace,
    /// Specifies which address space is used for global variables.
    pub global_address_space: AddressSpace,
    /// Specifies the address space used by the `alloca` instruction.
    pub alloca_address_space: AddressSpace,
    /// Indicates the layout of pointers for certain address spaces.
    pub pointer_layouts: PointerLayoutMap,
    /// Indicates how integers of certain sizes are aligned.
    pub integer_alignments: PrimitiveAlignmentMap,
    /// Indicates how vectors of certain sizes are aligned.
    pub vector_alignments: PrimitiveAlignmentMap,
    /// Indicates how floating-point types of certain sizes are aligned.
    pub float_alignments: PrimitiveAlignmentMap,
    /// Specifies the alignment for aggregate types.
    pub aggregate_object_alignment: AlignmentPair,
    /// Indicates how function pointers are aligned.
    pub function_pointer_alignment: Option<FunctionAlignment>,
    /// Specifies how symbol names are mangled in the output.
    pub mangling: Option<Mangling>,
    /// Indicates the native integer widths for the target CPU.
    pub native_integer_widths: Vec<BitSize>,
}

/// The function-alignment value of an optional function alignment.
pub open spec fn spec_opt_function_alignment(o: Option<FunctionAlignment>) -> Option<
    FunctionAlignmentModel,
> {
    match o {
        Some(f) => Some(f@),
        None => None,
    }
}

impl View for Layout {
    type V = LayoutModel;

    open spec fn view(&self) -> LayoutModel {
        LayoutModel {
            endianness: self.endianness,
            stack_alignment: spec_opt_bits(self.stack_alignment),
            program_address_space: self.program_address_space.0,
            global_address_space: self.global_address_space.0,
            alloca_address_space: self.alloca_address_space.0,
            pointer_layouts: self.pointer_layouts@,
            integer_alignments: self.integer_alignments@,
            vector_alignments: self.vector_alignments@,
            float_alignments: self.float_alignments@,
            aggregate_object_alignment: self.aggregate_object_alignment@,
            function_pointer_alignment: spec_opt_function_alignment(
                self.function_pointer_alignment,
            ),
            mangling: self.mangling,
            native_integer_widths: self.native_integer_widths@.map_values(|b: BitSize| b@),
        }
    }
}

impl Layout {
    /// Well-formed: each of the three tables and the pointer layout map
    /// records each key at most once.
    pub open spec fn wf(&self) -> bool {
        &&& self.pointer_layouts.wf()
        &&& self.integer_alignments.wf()
        &&& self.vector_alignments.wf()
        &&& self.float_alignments.wf()
    }

    /// Gets the byte endianness of the target.
    pub fn endianness(&self) -> (r: Endianness)
        ensures
            r == self@.endianness,
    {
        self.endianness
    }

    /// Gets the natural stack alignment, when one is specified.
    pub fn stack_alignment(&self) -> (r: Option<BitSize>)
        ensures
            spec_opt_bits(r) == self@.stack_alignment,
    {
        self.stack_alignment
    }

    /// Gets the layout of pointers in the given address space, falling back
    /// to the default 64-bit layout when none was specified.
    pub fn pointer_layout(&self, address_space: AddressSpace) -> (r: PointerLayout)
        ensures
            r@ == (match ptr_entries_get(self@.pointer_layouts, address_space.0) {
                Some(p) => p,
                None => spec_default_pointer_layout(),
            }),
    {
        self.pointer_layouts.get_or_default(address_space)
    }

    /// Gets the alignment recorded for integers of the given size.
    pub fn integer_alignment(&self, size: BitSize) -> (r: Option<&AlignmentPair>)
        ensures
            match r {
                Some(a) => align_entries_get(self@.integer_alignments, size@) == Some(a@),
                None => align_entries_get(self@.integer_alignments, size@) is None,
            },
    {
        self.integer_alignments.get(size)
    }

    /// Gets the alignment recorded for vectors of the given size.
    pub fn vector_alignment(&self, size: BitSize) -> (r: Option<&AlignmentPair>)
        ensures
            match r {
                Some(a) => align_entries_get(self@.vector_alignments, size@) == Some(a@),
                None => align_entries_get(self@.vector_alignments, size@) is None,
            },
    {
        self.vector_alignments.get(size)
    }

    /// Gets the alignment recorded for floating-point values of the given
    /// size.
    pub fn float_alignment(&self, size: BitSize) -> (r: Option<&AlignmentPair>)
        ensures
            match r {
                Some(a) => align_entries_get(self@.float_alignments, size@) == Some(a@),
                None => align_entries_get(self@.float_alignments, size@) is None,
            },
    {
        self.float_alignments.get(size)
    }

    /// Gets the symbol mangling scheme, when one is specified.
    pub fn mangling(&self) -> (r: Option<Mangling>)
        ensures
            r == self@.mangling,
    {
        self.mangling
    }

    /// Gets the native integer widths for the target CPU, in the order they
    /// were specified.
    pub fn native_integer_widths(&self) -> (r: &Vec<BitSize>)
        ensures
            r@.map_values(|b: BitSize| b@) == self@.native_integer_widths,
    {
        &self.native_integer_widths
    }
}

/// Builds the default integer alignment table.
pub fn integer_alignment_defaults() -> (r: PrimitiveAlignmentMap)
    ensures
        r@ == spec_integer_alignment_defaults(),
        r.wf(),
{
    let mut entries: Vec<(BitSize, AlignmentPair)> = Vec::new();
    let byte = AlignmentPair::new(BitSize::from_bits(8));
    entries.push((BitSize::from_bits(1), byte));
    entries.push((BitSize::from_bits(8), byte));
    entries.push((BitSize::from_bits(16), AlignmentPair::new(BitSize::from_bits(16))));
    entries.push((BitSize::from_bits(32), AlignmentPair::new(BitSize::from_bits(32))));
    entries.push((BitSize::from_bits(64), AlignmentPair::new(BitSize::from_bits(64))));
    let r = PrimitiveAlignmentMap { entries };
    assert(r@ =~= spec_integer_alignment_defaults());
    r
}

/// Builds the default floating-point alignment table.
pub fn float_alignment_defaults() -> (r: PrimitiveAlignmentMap)
    ensures
        r@ == spec_float_alignment_defaults(),
        r.wf(),
{
    let mut entries: Vec<(BitSize, AlignmentPair)> = Vec::new();
    entries.push((BitSize::from_bits(16), AlignmentPair::new(BitSize::from_bits(16))));
    entries.push((BitSize::from_bits(32), AlignmentPair::new(BitSize::from_bits(32))));
    entries.push((BitSize::from_bits(64), AlignmentPair::new(BitSize::from_bits(64))));
    entries.push((BitSize::from_bits(128), AlignmentPair::new(BitSize::from_bits(128))));
    let r = PrimitiveAlignmentMap { entries };
    assert(r@ =~= spec_float_alignment_defaults());
    r
}

/// Builds the default vector alignment table.
pub fn vector_alignment_defaults() -> (r: PrimitiveAlignmentMap)
    ensures
        r@ == spec_vector_alignment_defaults(),
        r.wf(),
{
    let mut entries: Vec<(BitSize, AlignmentPair)> = Vec::new();
    entries.push((BitSize::from_bits(64), AlignmentPair::new(BitSize::from_bits(64))));
    entries.push((BitSize::from_bits(128), AlignmentPair::new(BitSize::from_bits(128))));
    let r = PrimitiveAlignmentMap { entries };
    assert(r@ =~= spec_vector_alignment_defaults());
    r
}

impl Default for Layout {
    /// The documented default layout: little-endian, no stack alignment,
    /// address space 0 everywhere, the default pointer layout for every
    /// address space, the documented default alignment tables, and no
    /// function-pointer alignment, mangling, or native integer widths.
    fn default() -> (r: Self)
        ensures
            r@ == spec_default_layout(),
            r.wf(),
    {
        let r = Layout {
            endianness: Endianness::Little,
            stack_alignment: None,
            program_address_space: AddressSpace(0),
            global_address_space: AddressSpace(0),
            alloca_address_space: AddressSpace(0),
            pointer_layouts: PointerLayoutMap::all_default(),
            integer_alignments: integer_alignment_defaults(),
            vector_alignments: vector_alignment_defaults(),
            float_alignments: float_alignment_defaults(),
            aggregate_object_alignment: AlignmentPair::with_preferred_only(BitSize::from_bits(64)),
            function_pointer_alignment: None,
            mangling: None,
            native_integer_widths: Vec::new(),
        };
        assert(r@.native_integer_widths =~= Seq::<u32>::empty());
        assert(r@ =~~= spec_default_layout());
        r
    }
}

/// The character that denotes a mangling scheme in a data-layout string.
pub open spec fn spec_mangling_char(m: Mangling) -> char {
    match m {
        Mangling::ELF => 'e',
        Mangling::GOFF => 'l',
        Mangling::MIPS => 'm',
        Mangling::MachO => 'o',
        Mangling::WindowsX86COFF => 'x',
        Mangling::WindowsCOFF => 'w',
        Mangling::XCOFF => 'a',
    }
}

impl Mangling {
    /// The character that denotes this mangling scheme in a data-layout
    /// string.
    pub fn symbol(&self) -> (c: char)
        ensures
            c == spec_mangling_char(*self),
    {
        match self {
            Mangling::ELF => 'e',
            Mangling::GOFF => 'l',
            Mangling::MIPS => 'm',
            Mangling::MachO => 'o',
            Mangling::WindowsX86COFF => 'x',
            Mangling::WindowsCOFF => 'w',
            Mangling::XCOFF => 'a',
        }
    }
}

/// How an alignment pair is written in a data-layout token: the ABI value
/// (zero when absent), and the preferred value only when present.
pub open spec fn spec_align_pair_str(a: AlignmentPairModel) -> Seq<char> {
    spec_decimal((match a.abi {
        Some(v) => v,
        None => 0u32,
    }) as nat) + (match a.preferred {
        Some(v) => seq![':'] + spec_decimal(v as nat),
        None => Seq::<char>::empty(),
    })
}

/// How one pointer layout is written as a `p` token, with its leading dash.
/// The address space is omitted when it is the default one, and the
/// preferred alignment is written (zero when absent) whenever an index size
/// follows it.
pub open spec fn spec_pointer_entry_str(p: PointerLayoutModel) -> Seq<char> {
    "-p"@ + (if p.address_space != 0 {
        spec_decimal(p.address_space as nat)
    } else {
        Seq::<char>::empty()
    }) + seq![':'] + spec_decimal(p.size as nat) + seq![':'] + (match p.index_size {
        Some(ix) => spec_decimal((match p.alignment.abi {
            Some(v) => v,
            None => 0u32,
        }) as nat) + seq![':'] + spec_decimal((match p.alignment.preferred {
            Some(v) => v,
            None => 0u32,
        }) as nat) + seq![':'] + spec_decimal(ix as nat),
        None => spec_align_pair_str(p.alignment),
    })
}

/// How the pointer layout entries are written, from position `i` on.
pub open spec fn spec_pointer_list_str(ps: Seq<PointerLayoutModel>, i: int) -> Seq<char>
    decreases ps.len() - i,
{
    if !(0 <= i < ps.len()) {
        Seq::empty()
    } else {
        spec_pointer_entry_str(ps[i]) + spec_pointer_list_str(ps, i + 1)
    }
}

/// How the entries of one alignment table are written, from position `i` on,
/// each as a token with the given specifier character and its leading dash.
pub open spec fn spec_align_list_str(kind: char, es: Seq<(u32, AlignmentPairModel)>, i: int) -> Seq<
    char,
>
    decreases es.len() - i,
{
    if !(0 <= i < es.len()) {
        Seq::empty()
    } else {
        seq!['-', kind] + spec_decimal(es[i].0 as nat) + seq![':'] + spec_align_pair_str(es[i].1)
            + spec_align_list_str(kind, es, i + 1)
    }
}

/// How the native integer widths after the first are written.
pub open spec fn spec_native_list_str(ws: Seq<u32>, i: int) -> Seq<char>
    decreases ws.len() - i,
{
    if !(0 <= i < ws.len()) {
        Seq::empty()
    } else {
        seq![':'] + spec_decimal(ws[i] as nat) + spec_native_list_str(ws, i + 1)
    }
}

/// The leading tokens of the canonical data-layout string: the endianness,
/// the mangling scheme when one is set, and each address space that is not
/// the default one.
pub open spec fn spec_layout_prefix_str(m: LayoutModel) -> Seq<char> {
    (match m.endianness {
        Endianness::Little => seq!['e'],
        Endianness::Big => seq!['E'],
    }) + (match m.mangling {
        Some(scheme) => "-m:"@ + seq![spec_mangling_char(scheme)],
        None => Seq::<char>::empty(),
    }) + (if m.program_address_space != 0 {
        "-P"@ + spec_decimal(m.program_address_space as nat)
    } else {
        Seq::<char>::empty()
    }) + (if m.global_address_space != 0 {
        "-G"@ + spec_decimal(m.global_address_space as nat)
    } else {
        Seq::<char>::empty()
    }) + (if m.alloca_address_space != 0 {
        "-A"@ + spec_decimal(m.alloca_address_space as nat)
    } else {
        Seq::<char>::empty()
    })
}

/// The trailing tokens of the canonical data-layout string: the aggregate
/// alignment, the function-pointer alignment when one is set, the native
/// integer widths when any were given, and the stack alignment when one is
/// set.
pub open spec fn spec_layout_suffix_str(m: LayoutModel) -> Seq<char> {
    "-a:"@ + spec_align_pair_str(m.aggregate_object_alignment) + (match m
        .function_pointer_alignment {
        Some(f) => "-F"@ + seq![
            (match f.alignment_type {
                FunctionAlignmentType::Independent => 'i',
                FunctionAlignmentType::Multiple => 'n',
            }),
        ] + spec_decimal(f.abi_alignment as nat),
        None => Seq::<char>::empty(),
    }) + (if m.native_integer_widths.len() > 0 {
        "-n"@ + spec_decimal(m.native_integer_widths[0] as nat) + spec_native_list_str(
            m.native_integer_widths,
            1,
        )
    } else {
        Seq::<char>::empty()
    }) + (match m.stack_alignment {
        Some(v) => "-S"@ + spec_decimal(v as nat),
        None => Seq::<char>::empty(),
    })
}

/// The canonical data-layout string of a layout: its endianness, then its
/// mangling scheme, non-default address spaces, pointer layouts, the three
/// alignment tables, the aggregate alignment, the function-pointer
/// alignment, the native integer widths and the stack alignment, each as a
/// dash-separated token.
pub open spec fn spec_layout_str(m: LayoutModel) -> Seq<char> {
    spec_layout_prefix_str(m) + spec_pointer_list_str(m.pointer_layouts, 0) + spec_align_list_str(
        'i',
        m.integer_alignments,
        0,
    ) + spec_align_list_str('v', m.vector_alignments, 0) + spec_align_list_str(
        'f',
        m.float_alignments,
        0,
    ) + spec_layout_suffix_str(m)
}

/// Appends the rendering of an alignment pair to a string.
fn append_align_pair(s: &mut String, a: &AlignmentPair)
    ensures
        final(s)@ == old(s)@ + spec_align_pair_str(a@),
{
    crate::text::append_decimal(s, a.abi_alignment() as u64);
    match a.is_preferred_omitted() {
        true => {},
        false => {
            crate::text::push_char(s, ':');
            crate::text::append_decimal(s, a.preferred_alignment() as u64);
        },
    }
    assert(s@ =~= old(s)@ + spec_align_pair_str(a@));
}

impl Layout {
    /// Appends the leading tokens of the canonical data-layout string,
    /// following [`spec_layout_prefix_str`].
    #[verifier::rlimit(100)]
    fn append_prefix_tokens(&self, s: &mut String)
        ensures
            final(s)@ == old(s)@ + spec_layout_prefix_str(self@),
    {
        crate::text::push_char(s, self.endianness.symbol());
        match self.mangling {
            Some(scheme) => {
                s.append("-m:");
                crate::text::push_char(s, scheme.symbol());
            },
            None => {},
        }
        if self.program_address_space.0 != 0 {
            s.append("-P");
            crate::text::append_decimal(s, self.program_address_space.0 as u64);
        }
        if self.global_address_space.0 != 0 {
            s.append("-G");
            crate::text::append_decimal(s, self.global_address_space.0 as u64);
        }
        if self.alloca_address_space.0 != 0 {
            s.append("-A");
            crate::text::append_decimal(s, self.alloca_address_space.0 as u64);
        }
        assert(s@ =~= old(s)@ + spec_layout_prefix_str(self@));
    }

    /// Appends the trailing tokens of the canonical data-layout string,
    /// following [`spec_layout_suffix_str`].
    #[verifier::rlimit(100)]
    fn append_suffix_tokens(&self, s: &mut String)
        ensures
            final(s)@ == old(s)@ + spec_layout_suffix_str(self@),
    {
        s.append("-a:");
        append_align_pair(s, &self.aggregate_object_alignment);
        match self.function_pointer_alignment {
            Some(f) => {
                s.append("-F");
                let c = match f.alignment_type() {
                    FunctionAlignmentType::Independent => 'i',
                    FunctionAlignmentType::Multiple => 'n',
                };
                crate::text::push_char(s, c);
                crate::text::append_decimal(s, f.abi_alignment().bits() as u64);
            },
            None => {},
        }
        let ghost mid = s@;
        let widths = &self.native_integer_widths;
        if widths.len() > 0 {
            s.append("-n");
            crate::text::append_decimal(s, widths[0].bits() as u64);
            let ghost ws = self@.native_integer_widths;
            let n = widths.len();
            let mut i: usize = 1;
            let ghost mark = s@;
            while i < n
                invariant
                    1 <= i <= n,
                    n == widths@.len(),
                    ws == widths@.map_values(|b: BitSize| b@),
                    mark + spec_native_list_str(ws, 1) == s@ + spec_native_list_str(ws, i as int),
                decreases n - i,
            {
                let ghost prev = s@;
                crate::text::push_char(s, ':');
                crate::text::append_decimal(s, widths[i].bits() as u64);
                proof {
                    assert(s@ + spec_native_list_str(ws, i as int + 1) =~= prev
                        + spec_native_list_str(ws, i as int));
                }
                i = i + 1;
            }
            proof {
                assert(s@ + spec_native_list_str(ws, n as int) =~= s@);
            }
            assert(s@ =~= mid + ("-n"@ + spec_decimal(ws[0] as nat) + spec_native_list_str(
                ws,
                1,
            )));
        }
        match self.stack_alignment {
            Some(v) => {
                s.append("-S");
                crate::text::append_decimal(s, v.bits() as u64);
            },
            None => {},
        }
        assert(s@ =~= old(s)@ + spec_layout_suffix_str(self@));
    }

    /// Writes the canonical data-layout string of this layout, following
    /// [`spec_layout_str`].
    pub fn layout_string(&self) -> (r: String)
        ensures
            r@ == spec_layout_str(self@),
    {
        let mut r = String::new();
        self.append_prefix_tokens(&mut r);
        self.pointer_layouts.append_tokens(&mut r);
        self.integer_alignments.append_tokens(&mut r, 'i');
        self.vector_alignments.append_tokens(&mut r, 'v');
        self.float_alignments.append_tokens(&mut r, 'f');
        self.append_suffix_tokens(&mut r);
        assert(r@ =~= spec_layout_str(self@));
        r
    }
}

impl PointerLayoutMap {
    /// Appends one `p` token per recorded pointer layout to a string,
    /// following [`spec_pointer_list_str`].
    #[verifier::rlimit(100)]
    pub fn append_tokens(&self, s: &mut String)
        ensures
            final(s)@ == old(s)@ + spec_pointer_list_str(self@, 0),
    {
        let n = self.entries.len();
        let mut i: usize = 0;
        while i < n
            invariant
                i <= n,
                n == self@.len(),
                self@ == self.entries@.map_values(|p: PointerLayout| p@),
                old(s)@ + spec_pointer_list_str(self@, 0) == s@ + spec_pointer_list_str(
                    self@,
                    i as int,
                ),
            decreases n - i,
        {
            let ghost prev = s@;
            let p = &self.entries[i];
            s.append("-p");
            if p.address_space.0 != 0 {
                crate::text::append_decimal(s, p.address_space.0 as u64);
            }
            crate::text::push_char(s, ':');
            crate::text::append_decimal(s, p.size.bits() as u64);
            crate::text::push_char(s, ':');
            match p.index_size {
                Some(index_size) => {
                    crate::text::append_decimal(s, p.alignment.abi_alignment() as u64);
                    crate::text::push_char(s, ':');
                    let preferred = match p.alignment.is_preferred_omitted() {
                        true => 0u64,
                        false => p.alignment.preferred_alignment() as u64,
                    };
                    crate::text::append_decimal(s, preferred);
                    crate::text::push_char(s, ':');
                    crate::text::append_decimal(s, index_size.bits() as u64);
                },
                None => {
                    append_align_pair(s, &p.alignment);
                },
            }
            proof {
                assert(self.entries@[i as int]@ == self@[i as int]);
                assert(s@ + spec_pointer_list_str(self@, i as int + 1) =~= prev
                    + spec_pointer_list_str(self@, i as int));
            }
            i = i + 1;
        }
        proof {
            assert(s@ + spec_pointer_list_str(self@, n as int) =~= s@);
        }
    }
}

impl PointerLayout {
    /// The index size exactly as recorded: absent when the pointer size is
    /// to be used.
    pub fn index_size_if_specified(&self) -> (r: Option<BitSize>)
        ensures
            spec_opt_bits(r) == self@.index_size,
    {
        self.index_size
    }
}

impl PointerLayoutMap {
    /// The recorded pointer layouts, in insertion order.
    pub fn entries_vec(&self) -> (r: &Vec<PointerLayout>)
        ensures
            r@.map_values(|p: PointerLayout| p@) == self@,
    {
        &self.entries
    }
}

impl PrimitiveAlignmentMap {
    /// Appends one token per recorded entry to a string, each with the given
    /// specifier character, following [`spec_align_list_str`].
    pub fn append_tokens(&self, s: &mut String, kind: char)
        ensures
            final(s)@ == old(s)@ + spec_align_list_str(kind, self@, 0),
    {
        let n = self.entries.len();
        let mut i: usize = 0;
        while i < n
            invariant
                i <= n,
                n == self@.len(),
                self@ == self.entries@.map_values(|e: (BitSize, AlignmentPair)| (e.0@, e.1@)),
                old(s)@ + spec_align_list_str(kind, self@, 0) == s@ + spec_align_list_str(
                    kind,
                    self@,
                    i as int,
                ),
            decreases n - i,
        {
            let ghost prev = s@;
            crate::text::push_char(s, '-');
            crate::text::push_char(s, kind);
            crate::text::append_decimal(s, self.entries[i].0.bits() as u64);
            crate::text::push_char(s, ':');
            append_align_pair(s, &self.entries[i].1);
            proof {
                assert(self.entries@[i as int].0@ == self@[i as int].0);
                assert(self.entries@[i as int].1@ == self@[i as int].1);
                assert(s@ + spec_align_list_str(kind, self@, i as int + 1) =~= prev
                    + spec_align_list_str(kind, self@, i as int));
            }
            i = i + 1;
        }
        proof {
            assert(s@ + spec_align_list_str(kind, self@, n as int) =~= s@);
        }
    }
}

} // verus!
