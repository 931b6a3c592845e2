use crate::device::{AnyDevice, DeviceModel, Device, Read, Write};
use crate::types::{join_bytes, split_word, Addr, Byte, Fault, Short};
use std::ops::RangeInclusive;
use vstd::std_specs::range::{ContainsSpec, RangeInclusiveView};
use vstd::prelude::*;

verus! {

/// A fixed-capacity block of bytes, zero at creation.
#[derive(Clone, Debug)]
pub struct Memory(pub Vec<Byte>);

impl View for Memory {
    type V = Seq<u8>;

    open spec fn view(&self) -> Seq<u8> {
        self.0@
    }
}

impl Memory {
    /// A memory of `capacity` bytes, all zero.
    pub fn with_capacity(capacity: usize) -> (m: Memory)
        ensures
            m@ == Seq::new(capacity as nat, |_i: int| 0u8),
    {
        let mut inner: Vec<Byte> = Vec::with_capacity(capacity);
        while inner.len() < capacity
            invariant
                inner.len() <= capacity,
                forall|j: int| 0 <= j < inner.len() ==> inner@[j] == 0u8,
            decreases capacity - inner.len(),
        {
            inner.push(0);
        }
        assert(inner@ =~= Seq::new(capacity as nat, |_i: int| 0u8));
        Memory(inner)
    }

    /// The addresses this memory answers for, from zero up to its capacity.
    pub fn get_range(&self) -> (r: RangeInclusive<usize>)
        ensures
            r@.start == 0,
            r@.end == self@.len(),
            !r@.exhausted,
    {
        RangeInclusive::new(0, self.0.len())
    }

    /// Copies `bytes` into the memory, starting at address zero.
    pub fn set_bytes(&mut self, bytes: &[Byte])
        requires
            bytes@.len() <= old(self)@.len(),
        ensures
            final(self)@ == bytes@ + old(self)@.subrange(bytes@.len() as int, old(self)@.len() as int),
    {
        let n = bytes.len();
        let mut i: usize = 0;
        while i < n
            invariant
                n == bytes@.len(),
                i <= n,
                n <= old(self)@.len(),
                self@.len() == old(self)@.len(),
                forall|j: int| 0 <= j < i ==> self@[j] == bytes@[j],
                forall|j: int| i <= j < self@.len() ==> self@[j] == old(self)@[j],
            decreases n - i,
        {
            self.0[i] = bytes[i];
            i = i + 1;
        }
        assert(self@ =~= bytes@ + old(self)@.subrange(bytes@.len() as int, old(self)@.len() as int));
    }
}

impl Read for Memory {
    open spec fn model(&self) -> DeviceModel {
        DeviceModel::Flat(self.0@)
    }

    fn get_u8(&self, addr: Addr) -> (r: Result<Byte, Fault>) {
        let i = addr as usize;
        if i < self.0.len() {
            Ok(self.0[i])
        } else {
            Err(Fault::OutOfBounds(addr))
        }
    }

    fn get_u16(&self, addr: Addr) -> (r: Result<Short, Fault>) {
        let i = addr as usize;
        if i + 1 < self.0.len() {
            Ok(join_bytes(self.0[i], self.0[i + 1]))
        } else {
            Err(Fault::OutOfBounds(addr))
        }
    }
}

impl Write for Memory {
    fn set_u8(&mut self, addr: Addr, val: Byte) -> (r: Result<(), Fault>) {
        let i = addr as usize;
        if i < self.0.len() {
            self.0[i] = val;
            Ok(())
        } else {
            Err(Fault::OutOfBounds(addr))
        }
    }

    fn set_u16(&mut self, addr: Addr, val: Short) -> (r: Result<(), Fault>) {
        let i = addr as usize;
        if i + 1 < self.0.len() {
            let (hi, lo) = split_word(val);
            self.0[i] = hi;
            self.0[i + 1] = lo;
            Ok(())
        } else {
            Err(Fault::OutOfBounds(addr))
        }
    }
}

impl Device for Memory {}

} // verus!

verus! {

/// Relies on `RangeInclusive::is_empty`: it is true exactly when no value lies in the range.
pub assume_specification<Idx>[ RangeInclusive::<Idx>::is_empty ](r: &RangeInclusive<Idx>) -> (b: bool)
    where
        Idx: PartialOrd<Idx>,
        Idx: PartialOrd,
    ensures
        no_value_between(r, b),
;

/// When the order on `Idx` is a lawful one, `empty` says whether the range holds no value.
pub open spec fn no_value_between<Idx: PartialOrd>(r: &RangeInclusive<Idx>, empty: bool) -> bool {
    <RangeInclusive<Idx> as ContainsSpec<Idx, Idx>>::obeys_contains() ==> (empty <==> forall|i: Idx|
        !r.contains_spec(&i))
}

/// Whether an inclusive range holds the address `a`.
pub open spec fn range_covers(r: RangeInclusiveView<usize>, a: int) -> bool {
    r.start <= a && if r.exhausted {
        a < r.end
    } else {
        a <= r.end
    }
}

/// On addresses, the standard containment test of an inclusive range is `range_covers`.
proof fn lemma_contains_is_covers(r: RangeInclusive<usize>)
    ensures
        <RangeInclusive<usize> as ContainsSpec<usize, usize>>::obeys_contains(),
        forall|i: usize| #[trigger] r.contains_spec(&i) == range_covers(r@, i as int),
        (exists|a: int| range_covers(r@, a)) <==> (exists|i: usize| #[trigger] r.contains_spec(&i)),
{
    assert forall|i: usize| #[trigger] r.contains_spec(&i) == range_covers(r@, i as int) by {}
    if exists|a: int| range_covers(r@, a) {
        let a = choose|a: int| range_covers(r@, a);
        let i = a as usize;
        assert(r.contains_spec(&i));
    }
}

/// A region as seen from outside: its device and its address range.
pub struct RegionModel {
    pub device: DeviceModel,
    pub range: RangeInclusiveView<usize>,
}

/// A device bound to the inclusive range of addresses it answers for.
#[derive(Debug)]
pub struct MemoryRegion {
    pub device: AnyDevice,
    range: RangeInclusive<usize>,
    should_remap: bool,
}

impl View for MemoryRegion {
    type V = RegionModel;

    closed spec fn view(&self) -> RegionModel {
        RegionModel { device: self.device.model(), range: self.range@ }
    }
}

impl MemoryRegion {
    /// A builder with neither device nor range set.
    pub fn builder() -> (b: MemoryRegionBuilder)
        ensures
            b.device_spec() is None,
            b.range_spec() is None,
            b.should_remap_spec(),
    {
        MemoryRegionBuilder { device: None, range: None, should_remap: true }
    }

    /// The device the region owns.
    pub closed spec fn device_spec(&self) -> AnyDevice {
        self.device
    }

    /// The flag recorded at construction.
    pub closed spec fn should_remap_spec(&self) -> bool {
        self.should_remap
    }

    /// Whether the region's range holds `addr`.
    pub fn covers(&self, addr: Addr) -> (r: bool)
        ensures
            r == range_covers(self@.range, addr as int),
    {
        proof {
            lemma_contains_is_covers(self.range);
        }
        self.range.contains(&(addr as usize))
    }
}

impl Read for MemoryRegion {
    open spec fn model(&self) -> DeviceModel {
        self@.device
    }

    fn get_u8(&self, addr: Addr) -> (r: Result<Byte, Fault>) {
        self.device.get_u8(addr)
    }

    fn get_u16(&self, addr: Addr) -> (r: Result<Short, Fault>) {
        self.device.get_u16(addr)
    }
}

impl Write for MemoryRegion {
    fn set_u8(&mut self, addr: Addr, val: Byte) -> (r: Result<(), Fault>)
        ensures
            final(self)@.range == old(self)@.range,
    {
        self.device.set_u8(addr, val)
    }

    fn set_u16(&mut self, addr: Addr, val: Short) -> (r: Result<(), Fault>)
        ensures
            final(self)@.range == old(self)@.range,
    {
        self.device.set_u16(addr, val)
    }
}

impl Device for MemoryRegion {}

/// Why a region could not be built.
#[derive(Clone, Copy, Debug, PartialEq, Eq, Structural)]
pub enum MemoryRegionBuilderError {
    MissingDevice,
    MissingRange,
    EmptyRange,
}

impl MemoryRegionBuilderError {
    /// A short description of the error.
    pub fn message(&self) -> (r: &'static str)
        ensures
            r@ == match self {
                MemoryRegionBuilderError::MissingDevice => "missing field `device`"@,
                MemoryRegionBuilderError::MissingRange => "missing field `range`"@,
                MemoryRegionBuilderError::EmptyRange => "empty field `range`"@,
            },
    {
        match self {
            MemoryRegionBuilderError::MissingDevice => "missing field `device`",
            MemoryRegionBuilderError::MissingRange => "missing field `range`",
            MemoryRegionBuilderError::EmptyRange => "empty field `range`",
        }
    }
}

/// Collects the parts of a region before it is built.
pub struct MemoryRegionBuilder {
    device: Option<AnyDevice>,
    range: Option<RangeInclusive<usize>>,
    should_remap: bool,
}

impl MemoryRegionBuilder {
    pub closed spec fn device_spec(&self) -> Option<AnyDevice> {
        self.device
    }

    pub closed spec fn range_spec(&self) -> Option<RangeInclusive<usize>> {
        self.range
    }

    pub closed spec fn should_remap_spec(&self) -> bool {
        self.should_remap
    }

    /// Sets the device.
    pub fn device(self, device: AnyDevice) -> (b: Self)
        ensures
            b.device_spec() == Some(device),
            b.range_spec() == self.range_spec(),
            b.should_remap_spec() == self.should_remap_spec(),
    {
        MemoryRegionBuilder { device: Some(device), range: self.range, should_remap: self.should_remap }
    }

    /// Sets the address range.
    pub fn range(self, range: RangeInclusive<usize>) -> (b: Self)
        ensures
            b.device_spec() == self.device_spec(),
            b.range_spec() == Some(range),
            b.should_remap_spec() == self.should_remap_spec(),
    {
        MemoryRegionBuilder { device: self.device, range: Some(range), should_remap: self.should_remap }
    }

    /// Sets the remapping flag.
    pub fn should_remap(self, should_remap: bool) -> (b: Self)
        ensures
            b.device_spec() == self.device_spec(),
            b.range_spec() == self.range_spec(),
            b.should_remap_spec() == should_remap,
    {
        MemoryRegionBuilder { device: self.device, range: self.range, should_remap }
    }

    /// Builds the region: both the device and a non-empty range must be set.
    pub fn finalize(self) -> (r: Result<MemoryRegion, MemoryRegionBuilderError>)
        ensures
            self.device_spec() is None ==> r == Err::<MemoryRegion, MemoryRegionBuilderError>(
                MemoryRegionBuilderError::MissingDevice,
            ),
            self.device_spec() is Some && self.range_spec() is None ==> r == Err::<
                MemoryRegion,
                MemoryRegionBuilderError,
            >(MemoryRegionBuilderError::MissingRange),
            self.device_spec() is Some && self.range_spec() is Some ==> {
                let range = self.range_spec().unwrap();
                if exists|a: int| range_covers(range@, a) {
                    &&& r is Ok
                    &&& r->Ok_0.device_spec() == self.device_spec().unwrap()
                    &&& r->Ok_0@.device == self.device_spec().unwrap().model()
                    &&& r->Ok_0@.range == range@
                    &&& r->Ok_0.should_remap_spec() == self.should_remap_spec()
                } else {
                    r == Err::<MemoryRegion, MemoryRegionBuilderError>(
                        MemoryRegionBuilderError::EmptyRange,
                    )
                }
            },
    {
        let device = match self.device {
            Some(device) => device,
            None => return Err(MemoryRegionBuilderError::MissingDevice),
        };
        let range = match self.range {
            Some(range) => range,
            None => return Err(MemoryRegionBuilderError::MissingRange),
        };
        proof {
            lemma_contains_is_covers(range);
        }
        if range.is_empty() {
            return Err(MemoryRegionBuilderError::EmptyRange);
        }
        Ok(MemoryRegion { device, range, should_remap: self.should_remap })
    }
}

} // verus!

verus! {

/// Region `i` is the first of `rs` whose range holds `addr`.
pub open spec fn is_first_match(rs: Seq<RegionModel>, addr: int, i: int) -> bool {
    &&& 0 <= i < rs.len()
    &&& range_covers(rs[i].range, addr)
    &&& forall|j: int| 0 <= j < i ==> !range_covers(#[trigger] rs[j].range, addr)
}

/// The index of the region that answers for `addr`: the first whose range holds it.
pub open spec fn region_index(rs: Seq<RegionModel>, addr: int) -> Option<int> {
    if exists|i: int| is_first_match(rs, addr, i) {
        Some(choose|i: int| is_first_match(rs, addr, i))
    } else {
        None
    }
}

/// At most one region is the first match of an address.
pub proof fn lemma_first_match_unique(rs: Seq<RegionModel>, addr: int, i: int, j: int)
    requires
        is_first_match(rs, addr, i),
        is_first_match(rs, addr, j),
    ensures
        i == j,
{
    if i < j {
        assert(!range_covers(rs[i].range, addr));
    } else if j < i {
        assert(!range_covers(rs[j].range, addr));
    }
}

/// The region index of an address is the first match, whenever there is one.
pub proof fn lemma_region_index(rs: Seq<RegionModel>, addr: int, i: int)
    requires
        is_first_match(rs, addr, i),
    ensures
        region_index(rs, addr) == Some(i),
{
    let k = choose|k: int| is_first_match(rs, addr, k);
    lemma_first_match_unique(rs, addr, i, k);
}

/// The byte at `addr` in the address space made of `rs`.
pub open spec fn mapped_read8(rs: Seq<RegionModel>, addr: Addr) -> Result<u8, Fault> {
    match region_index(rs, addr as int) {
        Some(i) => rs[i].device.read8(addr),
        None => Err(Fault::Unmapped(addr)),
    }
}

/// The word at `addr` in the address space made of `rs`.
pub open spec fn mapped_read16(rs: Seq<RegionModel>, addr: Addr) -> Result<u16, Fault> {
    match region_index(rs, addr as int) {
        Some(i) => rs[i].device.read16(addr),
        None => Err(Fault::Unmapped(addr)),
    }
}

/// The address space after the device that answers for `addr` took a write.
pub open spec fn mapped_update(
    rs: Seq<RegionModel>,
    i: int,
    written: Result<DeviceModel, Fault>,
) -> Result<Seq<RegionModel>, Fault> {
    match written {
        Ok(d) => Ok(rs.update(i, RegionModel { device: d, range: rs[i].range })),
        Err(e) => Err(e),
    }
}

/// The address space after storing the byte `val` at `addr`.
pub open spec fn mapped_write8(rs: Seq<RegionModel>, addr: Addr, val: u8) -> Result<
    Seq<RegionModel>,
    Fault,
> {
    match region_index(rs, addr as int) {
        Some(i) => mapped_update(rs, i, rs[i].device.write8(addr, val)),
        None => Err(Fault::Unmapped(addr)),
    }
}

/// The address space after storing the word `val` at `addr`.
pub open spec fn mapped_write16(rs: Seq<RegionModel>, addr: Addr, val: u16) -> Result<
    Seq<RegionModel>,
    Fault,
> {
    match region_index(rs, addr as int) {
        Some(i) => mapped_update(rs, i, rs[i].device.write16(addr, val)),
        None => Err(Fault::Unmapped(addr)),
    }
}

/// A write to the address space either gives the expected regions and succeeds,
/// or fails with the expected fault and leaves the regions as they were.
pub open spec fn mapped_outcome(
    before: Seq<RegionModel>,
    expected: Result<Seq<RegionModel>, Fault>,
    r: Result<(), Fault>,
    after: Seq<RegionModel>,
) -> bool {
    match expected {
        Ok(rs) => r is Ok && after == rs,
        Err(e) => r == Err::<(), Fault>(e) && after == before,
    }
}

/// An ordered list of regions that together make one address space; the
/// first region whose range holds an address answers for it.
#[derive(Debug)]
pub struct MemoryMapper {
    regions: Vec<MemoryRegion>,
}

impl View for MemoryMapper {
    type V = Seq<RegionModel>;

    closed spec fn view(&self) -> Seq<RegionModel> {
        self.regions@.map_values(|r: MemoryRegion| r@)
    }
}

impl MemoryMapper {
    /// An address space with no regions.
    pub fn new() -> (m: MemoryMapper)
        ensures
            m@ == Seq::<RegionModel>::empty(),
    {
        let m = MemoryMapper { regions: Vec::new() };
        assert(m@ =~= Seq::<RegionModel>::empty());
        m
    }

    /// Appends a region; it is probed after every region added before it.
    pub fn add_region(&mut self, region: MemoryRegion)
        ensures
            final(self)@ == old(self)@.push(region@),
    {
        self.regions.push(region);
        assert(self@ =~= old(self)@.push(region@));
    }

    /// The index of the region that answers for `addr`.
    pub fn find_index(&self, addr: Addr) -> (r: Option<usize>)
        ensures
            match region_index(self@, addr as int) {
                Some(i) => r is Some && r.unwrap() as int == i,
                None => r is None,
            },
    {
        let n = self.regions.len();
        let mut k: usize = 0;
        while k < n
            invariant
                n == self.regions@.len(),
                k <= n,
                forall|j: int| 0 <= j < k ==> !range_covers(#[trigger] self@[j].range, addr as int),
            decreases n - k,
        {
            if self.regions[k].covers(addr) {
                proof {
                    lemma_region_index(self@, addr as int, k as int);
                }
                return Some(k);
            }
            k = k + 1;
        }
        proof {
            if exists|i: int| is_first_match(self@, addr as int, i) {
                let i = choose|i: int| is_first_match(self@, addr as int, i);
                assert(!range_covers(self@[i].range, addr as int));
            }
        }
        None
    }

    /// The region that answers for `addr`.
    pub fn find_region_from_addr(&self, addr: Addr) -> (r: Result<&MemoryRegion, Fault>)
        ensures
            match region_index(self@, addr as int) {
                Some(i) => r is Ok && r->Ok_0@ == self@[i],
                None => r == Err::<&MemoryRegion, Fault>(Fault::Unmapped(addr)),
            },
    {
        match self.find_index(addr) {
            Some(i) => {
                assert(self@[i as int] == self.regions@[i as int]@);
                Ok(&self.regions[i])
            },
            None => Err(Fault::Unmapped(addr)),
        }
    }

    /// The region that answers for `addr`, to be changed in place; the other
    /// regions stay as they are.
    pub fn find_region_from_addr_mut(&mut self, addr: Addr) -> (r: &mut MemoryRegion)
        requires
            region_index(old(self)@, addr as int) is Some,
        ensures
            (*r)@ == old(self)@[region_index(old(self)@, addr as int).unwrap()],
            final(self)@.len() == old(self)@.len(),
            final(self)@[region_index(old(self)@, addr as int).unwrap()] == (*final(r))@,
            forall|j: int|
                0 <= j < old(self)@.len() && j != region_index(old(self)@, addr as int).unwrap()
                    ==> #[trigger] final(self)@[j] == old(self)@[j],
    {
        let i = match self.find_index(addr) {
            Some(i) => i,
            None => 0,
        };
        assert(old(self)@[i as int] == old(self).regions@[i as int]@);
        &mut self.regions[i]
    }

    /// The byte at `addr`, read from the region that answers for it.
    pub fn get_u8(&self, addr: Addr) -> (r: Result<Byte, Fault>)
        ensures
            r == mapped_read8(self@, addr),
    {
        match self.find_index(addr) {
            Some(i) => {
                assert(self@[i as int] == self.regions@[i as int]@);
                self.regions[i].get_u8(addr)
            },
            None => Err(Fault::Unmapped(addr)),
        }
    }

    /// The word at `addr`, read from the region that answers for it.
    pub fn get_u16(&self, addr: Addr) -> (r: Result<Short, Fault>)
        ensures
            r == mapped_read16(self@, addr),
    {
        match self.find_index(addr) {
            Some(i) => {
                assert(self@[i as int] == self.regions@[i as int]@);
                self.regions[i].get_u16(addr)
            },
            None => Err(Fault::Unmapped(addr)),
        }
    }

    /// Stores a byte at `addr` in the region that answers for it.
    pub fn set_u8(&mut self, addr: Addr, val: Byte) -> (r: Result<(), Fault>)
        ensures
            mapped_outcome(old(self)@, mapped_write8(old(self)@, addr, val), r, final(self)@),
    {
        match self.find_index(addr) {
            Some(i) => {
                let ghost before = self.regions@[i as int]@;
                assert(old(self)@[i as int] == before);
                let r = self.regions[i].set_u8(addr, val);
                let ghost after = self.regions@[i as int]@;
                assert(after.range == before.range);
                assert(self@ =~= old(self)@.update(i as int, after));
                if r.is_err() {
                    assert(after == before);
                    assert(self@ =~= old(self)@);
                }
                r
            },
            None => Err(Fault::Unmapped(addr)),
        }
    }

    /// Stores a word at `addr` in the region that answers for it.
    pub fn set_u16(&mut self, addr: Addr, val: Short) -> (r: Result<(), Fault>)
        ensures
            mapped_outcome(old(self)@, mapped_write16(old(self)@, addr, val), r, final(self)@),
    {
        match self.find_index(addr) {
            Some(i) => {
                let ghost before = self.regions@[i as int]@;
                assert(old(self)@[i as int] == before);
                let r = self.regions[i].set_u16(addr, val);
                let ghost after = self.regions@[i as int]@;
                assert(after.range == before.range);
                assert(self@ =~= old(self)@.update(i as int, after));
                if r.is_err() {
                    assert(after == before);
                    assert(self@ =~= old(self)@);
                }
                r
            },
            None => Err(Fault::Unmapped(addr)),
        }
    }
}

} // verus!

verus! {

/// Lookup is first-match: of two regions added in order whose ranges both hold
/// an address, the one added first answers for it.
pub proof fn lemma_first_added_wins(a: RegionModel, b: RegionModel, addr: Addr)
    requires
        range_covers(a.range, addr as int),
        range_covers(b.range, addr as int),
    ensures
        region_index(seq![a, b], addr as int) == Some(0int),
        mapped_read8(seq![a, b], addr) == a.device.read8(addr),
        mapped_read16(seq![a, b], addr) == a.device.read16(addr),
{
    lemma_region_index(seq![a, b], addr as int, 0);
}

} // verus!

verus! {

/// The region answering for `addr` is a flat memory.
pub open spec fn flat_at(rs: Seq<RegionModel>, addr: int) -> bool {
    match region_index(rs, addr) {
        Some(i) => rs[i].device is Flat,
        None => false,
    }
}

/// Two address spaces with the same ranges in the same order.
pub open spec fn same_layout(rs: Seq<RegionModel>, rs2: Seq<RegionModel>) -> bool {
    &&& rs.len() == rs2.len()
    &&& forall|j: int| 0 <= j < rs.len() ==> (#[trigger] rs[j]).range == rs2[j].range && (rs[j].device is Flat <==> rs2[j].device is Flat)
}

/// Which region answers for an address depends on the ranges alone.
pub proof fn lemma_same_layout_index(rs: Seq<RegionModel>, rs2: Seq<RegionModel>, addr: int)
    requires
        same_layout(rs, rs2),
    ensures
        region_index(rs, addr) == region_index(rs2, addr),
        flat_at(rs, addr) == flat_at(rs2, addr),
{
    if exists|i: int| is_first_match(rs, addr, i) {
        let i = choose|i: int| is_first_match(rs, addr, i);
        assert(rs[i] == rs[i]);
        assert forall|j: int| 0 <= j < i implies !range_covers(#[trigger] rs2[j].range, addr) by {
            assert(rs[j].range == rs2[j].range);
            assert(!range_covers(rs[j].range, addr));
        }
        lemma_region_index(rs, addr, i);
        lemma_region_index(rs2, addr, i);
    } else if exists|i: int| is_first_match(rs2, addr, i) {
        let i = choose|i: int| is_first_match(rs2, addr, i);
        assert(rs[i] == rs[i]);
        assert forall|j: int| 0 <= j < i implies !range_covers(#[trigger] rs[j].range, addr) by {
            assert(rs[j].range == rs2[j].range);
            assert(!range_covers(rs2[j].range, addr));
        }
        assert(is_first_match(rs, addr, i));
    }
}

/// A store keeps the layout of the address space.
pub proof fn lemma_store_keeps_layout(rs: Seq<RegionModel>, a: Addr, v: u16)
    requires
        mapped_write16(rs, a, v) is Ok,
    ensures
        same_layout(rs, mapped_write16(rs, a, v)->Ok_0),
{
    let i = region_index(rs, a as int).unwrap();
    let rs2 = mapped_write16(rs, a, v)->Ok_0;
    assert forall|j: int| 0 <= j < rs.len() implies (#[trigger] rs[j]).range == rs2[j].range && (rs[j].device is Flat <==> rs2[j].device is Flat) by {
        if j == i {
            let d = rs[i].device;
            if d is Flat {
                assert(rs2[j].device is Flat);
            } else {
                assert(rs2[j].device is Screen);
            }
        }
    }
}

/// A word stored in flat memory reads back as stored.
pub proof fn lemma_store_then_load(rs: Seq<RegionModel>, a: Addr, v: u16)
    requires
        mapped_write16(rs, a, v) is Ok,
        flat_at(rs, a as int),
    ensures
        mapped_read16(mapped_write16(rs, a, v)->Ok_0, a) == Ok::<u16, Fault>(v),
{
    let rs2 = mapped_write16(rs, a, v)->Ok_0;
    lemma_store_keeps_layout(rs, a, v);
    lemma_same_layout_index(rs, rs2, a as int);
    crate::types::lemma_be16_split(v);
}

/// A store leaves every word that does not share a byte with it as it was.
pub proof fn lemma_store_keeps_other(rs: Seq<RegionModel>, a: Addr, v: u16, b: Addr)
    requires
        mapped_write16(rs, a, v) is Ok,
        b as int + 1 < a as int || a as int + 1 < b as int,
    ensures
        mapped_read16(mapped_write16(rs, a, v)->Ok_0, b) == mapped_read16(rs, b),
{
    let rs2 = mapped_write16(rs, a, v)->Ok_0;
    lemma_store_keeps_layout(rs, a, v);
    lemma_same_layout_index(rs, rs2, b as int);
}

} // verus!
