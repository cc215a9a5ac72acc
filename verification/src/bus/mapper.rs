use crate::bus::bus_trait::MemoryBus;
use crate::bus::device::{MappedDevice, MemoryDevice, MemoryError};
use vstd::prelude::*;

verus! {

/// Two inclusive address ranges share at least one address. Meaningful when
/// each range has its start at or before its end.
pub open spec fn ranges_overlap(s1: u16, e1: u16, s2: u16, e2: u16) -> bool {
    s1 <= e2 && s2 <= e1
}

/// The sum of the sizes the devices report.
pub open spec fn sum_sizes<D: MemoryDevice>(devs: Seq<MappedDevice<D>>) -> nat
    decreases devs.len(),
{
    if devs.len() == 0 {
        0
    } else {
        sum_sizes(devs.drop_last()) + devs.last().spec_size()
    }
}

/// The first index whose range contains the address, or -1 when none does.
/// Dispatch is by attach order, so the first match is the one that decides.
pub open spec fn first_in_range<D: MemoryDevice>(devs: Seq<MappedDevice<D>>, addr: u16) -> int
    decreases devs.len(),
{
    if devs.len() == 0 {
        -1
    } else if devs[0].in_range(addr) {
        0
    } else {
        let r = first_in_range(devs.subrange(1, devs.len() as int), addr);
        if r == -1 {
            -1
        } else {
            r + 1
        }
    }
}

/// The first index whose range starts exactly at the address, or -1.
pub open spec fn first_with_start<D: MemoryDevice>(
    devs: Seq<MappedDevice<D>>,
    start_addr: u16,
) -> int
    decreases devs.len(),
{
    if devs.len() == 0 {
        -1
    } else if devs[0].spec_start() == start_addr {
        0
    } else {
        let r = first_with_start(devs.subrange(1, devs.len() as int), start_addr);
        if r == -1 {
            -1
        } else {
            r + 1
        }
    }
}

/// `first_in_range` finds the least index whose range contains the address,
/// and -1 exactly when there is none.
pub proof fn lemma_first_in_range_props<D: MemoryDevice>(devs: Seq<MappedDevice<D>>, addr: u16)
    ensures
        first_in_range(devs, addr) == -1 ==> forall|k: int|
            0 <= k < devs.len() ==> !(#[trigger] devs[k]).in_range(addr),
        first_in_range(devs, addr) != -1 ==> 0 <= first_in_range(devs, addr) < devs.len()
            && devs[first_in_range(devs, addr)].in_range(addr) && (forall|k: int|
            0 <= k < first_in_range(devs, addr) ==> !(#[trigger] devs[k]).in_range(addr)),
    decreases devs.len(),
{
    if devs.len() > 0 {
        let rest = devs.subrange(1, devs.len() as int);
        lemma_first_in_range_props(rest, addr);
        assert(forall|k: int| 0 <= k < rest.len() ==> rest[k] == devs[k + 1]);
        if !devs[0].in_range(addr) {
            let r = first_in_range(rest, addr);
            if r == -1 {
                assert forall|k: int| 0 <= k < devs.len() implies !(
                #[trigger] devs[k]).in_range(addr) by {
                    if k > 0 {
                        assert(rest[k - 1] == devs[k]);
                    }
                }
            } else {
                assert(devs[r + 1] == rest[r]);
                assert forall|k: int| 0 <= k < r + 1 implies !(#[trigger] devs[k]).in_range(
                    addr,
                ) by {
                    if k > 0 {
                        assert(rest[k - 1] == devs[k]);
                    }
                }
            }
        }
    }
}

/// When the scan has passed `i` ranges without a match and range `i` matches,
/// `i` is the first match.
pub proof fn lemma_first_in_range_is<D: MemoryDevice>(
    devs: Seq<MappedDevice<D>>,
    addr: u16,
    i: int,
)
    requires
        0 <= i < devs.len(),
        devs[i].in_range(addr),
        forall|j: int| 0 <= j < i ==> !(#[trigger] devs[j]).in_range(addr),
    ensures
        first_in_range(devs, addr) == i,
{
    lemma_first_in_range_props(devs, addr);
    let f = first_in_range(devs, addr);
    if f == -1 {
    } else if f < i {
    } else if f > i {
    }
}

/// `first_with_start` finds the least index starting at the address, and -1
/// exactly when there is none.
pub proof fn lemma_first_with_start_props<D: MemoryDevice>(
    devs: Seq<MappedDevice<D>>,
    start_addr: u16,
)
    ensures
        first_with_start(devs, start_addr) == -1 ==> forall|k: int|
            0 <= k < devs.len() ==> (#[trigger] devs[k]).spec_start() != start_addr,
        first_with_start(devs, start_addr) != -1 ==> 0 <= first_with_start(devs, start_addr)
            < devs.len() && devs[first_with_start(devs, start_addr)].spec_start() == start_addr && (
        forall|k: int|
            0 <= k < first_with_start(devs, start_addr) ==> (#[trigger] devs[k]).spec_start()
                != start_addr),
    decreases devs.len(),
{
    if devs.len() > 0 {
        let rest = devs.subrange(1, devs.len() as int);
        lemma_first_with_start_props(rest, start_addr);
        assert(forall|k: int| 0 <= k < rest.len() ==> rest[k] == devs[k + 1]);
        if devs[0].spec_start() != start_addr {
            let r = first_with_start(rest, start_addr);
            if r == -1 {
                assert forall|k: int| 0 <= k < devs.len() implies (
                #[trigger] devs[k]).spec_start() != start_addr by {
                    if k > 0 {
                        assert(rest[k - 1] == devs[k]);
                    }
                }
            } else {
                assert(devs[r + 1] == rest[r]);
                assert forall|k: int| 0 <= k < r + 1 implies (#[trigger] devs[k]).spec_start()
                    != start_addr by {
                    if k > 0 {
                        assert(rest[k - 1] == devs[k]);
                    }
                }
            }
        }
    }
}

/// When the scan has passed `i` devices without a matching start and device
/// `i` starts at the address, `i` is the first match.
pub proof fn lemma_first_with_start_is<D: MemoryDevice>(
    devs: Seq<MappedDevice<D>>,
    start_addr: u16,
    i: int,
)
    requires
        0 <= i < devs.len(),
        devs[i].spec_start() == start_addr,
        forall|j: int| 0 <= j < i ==> (#[trigger] devs[j]).spec_start() != start_addr,
    ensures
        first_with_start(devs, start_addr) == i,
{
    lemma_first_with_start_props(devs, start_addr);
}

/// Ranges that agree pointwise give the same first match.
pub proof fn lemma_first_in_range_pointwise<D: MemoryDevice>(
    s1: Seq<MappedDevice<D>>,
    s2: Seq<MappedDevice<D>>,
    addr: u16,
)
    requires
        s1.len() == s2.len(),
        forall|k: int|
            0 <= k < s1.len() ==> (#[trigger] s2[k]).spec_start() == s1[k].spec_start()
                && s2[k].spec_end() == s1[k].spec_end(),
    ensures
        first_in_range(s1, addr) == first_in_range(s2, addr),
    decreases s1.len(),
{
    if s1.len() > 0 {
        let r1 = s1.subrange(1, s1.len() as int);
        let r2 = s2.subrange(1, s2.len() as int);
        assert(forall|k: int| 0 <= k < r1.len() ==> r1[k] == s1[k + 1] && r2[k] == s2[k + 1]);
        lemma_first_in_range_pointwise(r1, r2, addr);
    }
}

/// Pointwise-equal sizes give equal sums.
pub proof fn lemma_sum_sizes_pointwise<D: MemoryDevice>(
    s1: Seq<MappedDevice<D>>,
    s2: Seq<MappedDevice<D>>,
)
    requires
        s1.len() == s2.len(),
        forall|k: int| 0 <= k < s1.len() ==> s1[k].spec_size() == s2[k].spec_size(),
    ensures
        sum_sizes(s1) == sum_sizes(s2),
    decreases s1.len(),
{
    if s1.len() > 0 {
        assert(forall|k: int|
            0 <= k < s1.len() - 1 ==> s1.drop_last()[k] == s1[k] && s2.drop_last()[k] == s2[k]);
        lemma_sum_sizes_pointwise(s1.drop_last(), s2.drop_last());
    }
}

/// Summing one more device extends the sum by its size.
proof fn lemma_sum_sizes_take_step<D: MemoryDevice>(s: Seq<MappedDevice<D>>, i: int)
    requires
        0 <= i < s.len(),
    ensures
        sum_sizes(s.take(i + 1)) == sum_sizes(s.take(i)) + s[i].spec_size(),
{
    assert(s.take(i + 1).drop_last() =~= s.take(i));
    assert(s.take(i + 1).last() == s[i]);
}

/// A prefix never sums to more than the whole.
proof fn lemma_sum_sizes_prefix_bound<D: MemoryDevice>(s: Seq<MappedDevice<D>>, i: int)
    requires
        0 <= i <= s.len(),
    ensures
        sum_sizes(s.take(i)) <= sum_sizes(s),
    decreases s.len() - i,
{
    if i < s.len() {
        lemma_sum_sizes_take_step(s, i);
        lemma_sum_sizes_prefix_bound(s, i + 1);
    } else {
        assert(s.take(i) =~= s);
    }
}

/// A bus that owns attached devices and routes each access to the first
/// attached device whose range contains the address. `attach_device` keeps
/// the attached ranges pairwise disjoint, so the routing is unambiguous.
#[derive(Debug)]
pub struct MemoryMapper<D: MemoryDevice> {
    devices: Vec<MappedDevice<D>>,
}

impl<D: MemoryDevice> MemoryMapper<D> {
    /// The attached devices, in attach order.
    pub closed spec fn spec_devices(&self) -> Seq<MappedDevice<D>> {
        self.devices@
    }

    /// Every attached range starts at or before its end, and the ranges are
    /// pairwise disjoint. Established by `new` and preserved by every
    /// operation.
    pub open spec fn wf(&self) -> bool {
        &&& forall|i: int|
            0 <= i < self.spec_devices().len() ==> (#[trigger] self.spec_devices()[i]).spec_start()
                <= self.spec_devices()[i].spec_end()
        &&& forall|i: int, j: int|
            #![trigger self.spec_devices()[i], self.spec_devices()[j]]
            0 <= i < self.spec_devices().len() && 0 <= j < self.spec_devices().len() && i != j
                ==> !ranges_overlap(
                self.spec_devices()[i].spec_start(),
                self.spec_devices()[i].spec_end(),
                self.spec_devices()[j].spec_start(),
                self.spec_devices()[j].spec_end(),
            )
    }

    /// Some attached range contains the address.
    pub open spec fn has_range(&self, addr: u16) -> bool {
        first_in_range(self.spec_devices(), addr) != -1
    }

    /// The index of the first attached range containing the address;
    /// meaningful only when `has_range` holds.
    pub open spec fn idx_of(&self, addr: u16) -> int {
        first_in_range(self.spec_devices(), addr)
    }

    /// The range `[start_addr, end_addr]` intersects some attached range.
    pub open spec fn overlaps_any(&self, start_addr: u16, end_addr: u16) -> bool {
        exists|i: int|
            0 <= i < self.spec_devices().len() && ranges_overlap(
                (#[trigger] self.spec_devices()[i]).spec_start(),
                self.spec_devices()[i].spec_end(),
                start_addr,
                end_addr,
            )
    }

    /// Some attached range starts exactly at the address.
    pub open spec fn has_start(&self, start_addr: u16) -> bool {
        first_with_start(self.spec_devices(), start_addr) != -1
    }

    /// The index of the first attached range starting exactly at the address;
    /// meaningful only when `has_start` holds.
    pub open spec fn idx_of_start(&self, start_addr: u16) -> int {
        first_with_start(self.spec_devices(), start_addr)
    }

    /// What a read returns: the owning device's byte when the address is
    /// decoded, `AddressOutOfBounds` otherwise.
    pub open spec fn spec_read(&self, addr: u16) -> Result<u8, MemoryError> {
        if self.valid_addr(addr) {
            Ok(self.value_at(addr))
        } else {
            Err(MemoryError::AddressOutOfBounds)
        }
    }

    /// Under disjointness, at most one attached range contains an address.
    pub proof fn lemma_unique_range(self, addr: u16, i: int, j: int)
        requires
            self.wf(),
            0 <= i < self.spec_devices().len(),
            0 <= j < self.spec_devices().len(),
            self.spec_devices()[i].in_range(addr),
            self.spec_devices()[j].in_range(addr),
        ensures
            i == j,
    {
        if i != j {
            assert(ranges_overlap(
                self.spec_devices()[i].spec_start(),
                self.spec_devices()[i].spec_end(),
                self.spec_devices()[j].spec_start(),
                self.spec_devices()[j].spec_end(),
            ));
        }
    }

    /// An empty bus with no devices attached.
    pub fn new() -> (r: MemoryMapper<D>)
        ensures
            r.spec_devices().len() == 0,
            r.wf(),
    {
        MemoryMapper { devices: Vec::new() }
    }

    /// The number of attached devices.
    pub fn device_count(&self) -> (r: usize)
        ensures
            r == self.spec_devices().len(),
    {
        self.devices.len()
    }

    /// Whether no devices are attached.
    pub fn is_empty(&self) -> (r: bool)
        ensures
            r == (self.spec_devices().len() == 0),
    {
        self.devices.is_empty()
    }

    /// Drops every attached device.
    pub fn clear(&mut self)
        ensures
            final(self).spec_devices().len() == 0,
            final(self).wf(),
    {
        self.devices.clear();
    }
}

impl<D: MemoryDevice> Default for MemoryMapper<D> {
    fn default() -> (r: MemoryMapper<D>)
        ensures
            r.spec_devices().len() == 0,
            r.wf(),
    {
        MemoryMapper { devices: Vec::new() }
    }
}

impl<D: MemoryDevice> MemoryMapper<D> {
    /// Replacing each attached device by one of the same structure, without
    /// moving any range, preserves the mapper's structure and its routing.
    proof fn lemma_pointwise_structure(pre: Self, post: Self)
        requires
            post.spec_devices().len() == pre.spec_devices().len(),
            forall|k: int|
                0 <= k < pre.spec_devices().len() ==> (
                #[trigger] post.spec_devices()[k]).spec_start()
                    == pre.spec_devices()[k].spec_start(),
            forall|k: int|
                0 <= k < pre.spec_devices().len() ==> (#[trigger] post.spec_devices()[k]).spec_end()
                    == pre.spec_devices()[k].spec_end(),
            forall|k: int|
                0 <= k < pre.spec_devices().len() ==> (
                #[trigger] post.spec_devices()[k]).spec_write_only()
                    == pre.spec_devices()[k].spec_write_only(),
            forall|k: int, x: u16|
                0 <= k < pre.spec_devices().len() ==> (#[trigger] pre.spec_devices()[k].valid_addr(
                    x,
                )) == post.spec_devices()[k].valid_addr(x),
            forall|k: int, x: u16|
                0 <= k < pre.spec_devices().len() ==> (#[trigger] pre.spec_devices()[k].can_write(
                    x,
                )) == post.spec_devices()[k].can_write(x),
            forall|k: int, x: u16|
                0 <= k < pre.spec_devices().len() && pre.spec_devices()[k].valid_addr(x) ==> (
                #[trigger] pre.spec_devices()[k].reset_value(x)) == post.spec_devices()[
                    k
                ].reset_value(x),
            forall|k: int|
                0 <= k < pre.spec_devices().len() ==> (#[trigger] pre.spec_devices()[k].spec_size())
                    == post.spec_devices()[k].spec_size(),
        ensures
            pre.wf() ==> post.wf(),
            forall|a: u16| pre.has_range(a) == post.has_range(a),
            forall|a: u16| pre.idx_of(a) == post.idx_of(a),
            forall|a: u16| pre.valid_addr(a) == post.valid_addr(a),
            forall|a: u16| pre.can_write(a) == post.can_write(a),
            forall|a: u16| pre.valid_addr(a) ==> pre.reset_value(a) == post.reset_value(a),
            pre.spec_size() == post.spec_size(),
    {
        assert forall|a: u16| pre.idx_of(a) == post.idx_of(a) by {
            lemma_first_in_range_pointwise(pre.spec_devices(), post.spec_devices(), a);
        }
        assert forall|a: u16| pre.has_range(a) == post.has_range(a) by {
            lemma_first_in_range_pointwise(pre.spec_devices(), post.spec_devices(), a);
        }
        assert forall|a: u16| pre.valid_addr(a) == post.valid_addr(a) by {
            lemma_first_in_range_props(pre.spec_devices(), a);
            lemma_first_in_range_props(post.spec_devices(), a);
        }
        assert forall|a: u16| pre.can_write(a) == post.can_write(a) by {
            lemma_first_in_range_props(pre.spec_devices(), a);
            lemma_first_in_range_props(post.spec_devices(), a);
        }
        assert forall|a: u16| pre.valid_addr(a) implies pre.reset_value(a) == post.reset_value(
            a,
        ) by {
            lemma_first_in_range_props(pre.spec_devices(), a);
        }
        lemma_sum_sizes_pointwise(pre.spec_devices(), post.spec_devices());
        if pre.wf() {
            assert forall|i: int|
                0 <= i < post.spec_devices().len() implies (
            #[trigger] post.spec_devices()[i]).spec_start()
                <= post.spec_devices()[i].spec_end() by {
                assert(pre.spec_devices()[i].spec_start() <= pre.spec_devices()[i].spec_end());
            }
            assert forall|i: int, j: int|
                #![trigger post.spec_devices()[i], post.spec_devices()[j]]
                0 <= i < post.spec_devices().len() && 0 <= j < post.spec_devices().len() && i
                    != j implies !ranges_overlap(
                post.spec_devices()[i].spec_start(),
                post.spec_devices()[i].spec_end(),
                post.spec_devices()[j].spec_start(),
                post.spec_devices()[j].spec_end(),
            ) by {
                assert(!ranges_overlap(
                    pre.spec_devices()[i].spec_start(),
                    pre.spec_devices()[i].spec_end(),
                    pre.spec_devices()[j].spec_start(),
                    pre.spec_devices()[j].spec_end(),
                ));
            }
        }
    }
}

/// Round trip through the bus: after a write of `v` at `addr` succeeds (the
/// postcondition of `write` on an address the bus decodes and lets through),
/// the bus holds `v` at `addr`, so a read there returns `Ok(v)`.
pub proof fn lemma_write_read_round_trip<D: MemoryDevice>(
    pre: MemoryMapper<D>,
    post: MemoryMapper<D>,
    addr: u16,
    v: u8,
)
    requires
        pre.valid_addr(addr),
        pre.can_write(addr),
        forall|a: u16| pre.valid_addr(a) == post.valid_addr(a),
        post.value_at(addr) == v,
    ensures
        post.spec_read(addr) == Ok::<u8, MemoryError>(v),
{
}

/// A protected mapping rejects every write: when the range that owns `addr`
/// carries the protection flag, the bus never reports `addr` writable, so by
/// the contract of `write` such a write fails and leaves every decoded
/// address unchanged.
pub proof fn lemma_protected_mapping_rejects_writes<D: MemoryDevice>(
    m: MemoryMapper<D>,
    addr: u16,
)
    requires
        m.has_range(addr),
        m.spec_devices()[m.idx_of(addr)].spec_write_only(),
    ensures
        !m.can_write(addr),
{
    lemma_first_in_range_props(m.spec_devices(), addr);
}

impl<D: MemoryDevice> MemoryDevice for MemoryMapper<D> {
    open spec fn valid_addr(&self, addr: u16) -> bool {
        self.has_range(addr) && self.spec_devices()[self.idx_of(addr)].valid_addr(addr)
    }

    open spec fn can_write(&self, addr: u16) -> bool {
        self.has_range(addr) && self.spec_devices()[self.idx_of(addr)].can_write(addr)
    }

    open spec fn value_at(&self, addr: u16) -> u8 {
        self.spec_devices()[self.idx_of(addr)].value_at(addr)
    }

    open spec fn reset_value(&self, addr: u16) -> u8 {
        self.spec_devices()[self.idx_of(addr)].reset_value(addr)
    }

    open spec fn spec_size(&self) -> nat {
        sum_sizes(self.spec_devices())
    }

    fn read(&self, address: u16) -> (r: Result<u8, MemoryError>)
        ensures
            r == self.spec_read(address),
    {
        let n = self.devices.len();
        let mut i: usize = 0;
        while i < n
            invariant
                n == self.spec_devices().len(),
                i <= n,
                forall|j: int|
                    0 <= j < i ==> !(#[trigger] self.spec_devices()[j]).in_range(address),
            decreases n - i,
        {
            let d = &self.devices[i];
            if d.start_addr() <= address && address <= d.end_addr() {
                proof {
                    lemma_first_in_range_is(self.spec_devices(), address, i as int);
                }
                return d.read(address);
            }
            i = i + 1;
        }
        proof {
            lemma_first_in_range_props(self.spec_devices(), address);
            if self.has_range(address) {
                assert(self.spec_devices()[self.idx_of(address)].in_range(address));
            }
        }
        Err(MemoryError::AddressOutOfBounds)
    }

    fn write(&mut self, address: u16, value: u8) -> (r: Result<(), MemoryError>)
        ensures
            final(self).spec_devices().len() == old(self).spec_devices().len(),
            old(self).wf() ==> final(self).wf(),
            !old(self).has_range(address) ==> r == Err::<(), MemoryError>(
                MemoryError::AddressOutOfBounds,
            ) && *final(self) == *old(self),
            old(self).has_range(address) && old(self).spec_devices()[old(self).idx_of(
                address,
            )].spec_write_only() ==> r == Err::<(), MemoryError>(MemoryError::ReadOnlyMemory),
    {
        let ghost pre = *self;
        let n = self.devices.len();
        let mut i: usize = 0;
        while i < n
            invariant
                *self == pre,
                pre == *old(self),
                n == self.spec_devices().len(),
                i <= n,
                forall|j: int|
                    0 <= j < i ==> !(#[trigger] self.spec_devices()[j]).in_range(address),
            decreases n - i,
        {
            let found = {
                let d = &self.devices[i];
                d.start_addr() <= address && address <= d.end_addr()
            };
            if found {
                proof {
                    lemma_first_in_range_is(pre.spec_devices(), address, i as int);
                }
                let mut d = self.devices.remove(i);
                let ghost d0 = d;
                let r = d.write(address, value);
                self.devices.insert(i, d);
                proof {
                    assert(self.spec_devices() =~= pre.spec_devices().update(i as int, d));
                    assert forall|k: int, x: u16|
                        0 <= k < pre.spec_devices().len() implies (
                    #[trigger] pre.spec_devices()[k].valid_addr(x)) == self.spec_devices()[
                        k
                    ].valid_addr(x) by {
                        if k != i as int {
                            assert(self.spec_devices()[k] == pre.spec_devices()[k]);
                        }
                    }
                    assert forall|k: int, x: u16|
                        0 <= k < pre.spec_devices().len() implies (
                    #[trigger] pre.spec_devices()[k].can_write(x)) == self.spec_devices()[
                        k
                    ].can_write(x) by {
                        if k != i as int {
                            assert(self.spec_devices()[k] == pre.spec_devices()[k]);
                        }
                    }
                    assert forall|k: int, x: u16|
                        0 <= k < pre.spec_devices().len() && pre.spec_devices()[k].valid_addr(
                            x,
                        ) implies (#[trigger] pre.spec_devices()[k].reset_value(x))
                        == self.spec_devices()[k].reset_value(x) by {
                        if k != i as int {
                            assert(self.spec_devices()[k] == pre.spec_devices()[k]);
                        }
                    }
                    Self::lemma_pointwise_structure(pre, *self);
                    assert(pre.idx_of(address) == i as int);
                    assert(pre.valid_addr(address) == d0.valid_addr(address));
                    assert(pre.can_write(address) == d0.can_write(address));
                    if pre.valid_addr(address) && pre.can_write(address) {
                        assert(self.value_at(address) == value);
                        assert forall|a: u16|
                            a != address && pre.valid_addr(a) implies pre.value_at(a)
                            == self.value_at(a) by {
                            lemma_first_in_range_props(pre.spec_devices(), a);
                            let ka = pre.idx_of(a);
                            if ka == i as int {
                                assert(d0.valid_addr(a));
                            }
                        }
                    } else {
                        assert forall|a: u16| pre.valid_addr(a) implies pre.value_at(a)
                            == self.value_at(a) by {
                            lemma_first_in_range_props(pre.spec_devices(), a);
                            let ka = pre.idx_of(a);
                            if ka == i as int {
                                assert(d0.valid_addr(a));
                            }
                        }
                    }
                }
                return r;
            }
            i = i + 1;
        }
        proof {
            lemma_first_in_range_props(pre.spec_devices(), address);
            if pre.has_range(address) {
                assert(pre.spec_devices()[pre.idx_of(address)].in_range(address));
            }
        }
        Err(MemoryError::AddressOutOfBounds)
    }

    fn reset(&mut self)
        ensures
            final(self).spec_devices().len() == old(self).spec_devices().len(),
            old(self).wf() ==> final(self).wf(),
    {
        let ghost pre = *self;
        let n = self.devices.len();
        let mut i: usize = 0;
        while i < n
            invariant
                pre == *old(self),
                n == pre.spec_devices().len(),
                self.spec_devices().len() == n,
                i <= n,
                forall|k: int| i <= k < n ==> self.spec_devices()[k] == pre.spec_devices()[k],
                forall|k: int|
                    0 <= k < i ==> (#[trigger] self.spec_devices()[k]).spec_start()
                        == pre.spec_devices()[k].spec_start() && self.spec_devices()[k].spec_end()
                        == pre.spec_devices()[k].spec_end()
                        && self.spec_devices()[k].spec_write_only() == pre.spec_devices()[
                        k
                    ].spec_write_only(),
                forall|k: int, x: u16|
                    0 <= k < i ==> (#[trigger] pre.spec_devices()[k].valid_addr(x))
                        == self.spec_devices()[k].valid_addr(x),
                forall|k: int, x: u16|
                    0 <= k < i ==> (#[trigger] pre.spec_devices()[k].can_write(x))
                        == self.spec_devices()[k].can_write(x),
                forall|k: int, x: u16|
                    0 <= k < i && pre.spec_devices()[k].valid_addr(x) ==> (
                    #[trigger] pre.spec_devices()[k].reset_value(x)) == self.spec_devices()[
                        k
                    ].reset_value(x),
                forall|k: int|
                    0 <= k < i ==> (#[trigger] pre.spec_devices()[k].spec_size())
                        == self.spec_devices()[k].spec_size(),
                forall|k: int, x: u16|
                    0 <= k < i && pre.spec_devices()[k].valid_addr(x) ==> (
                    #[trigger] self.spec_devices()[k].value_at(x)) == pre.spec_devices()[
                        k
                    ].reset_value(x),
            decreases n - i,
        {
            let ghost before = *self;
            let mut d = self.devices.remove(i);
            d.reset();
            self.devices.insert(i, d);
            proof {
                assert(self.spec_devices() =~= before.spec_devices().update(i as int, d));
            }
            i = i + 1;
        }
        proof {
            Self::lemma_pointwise_structure(pre, *self);
            assert forall|a: u16| pre.valid_addr(a) implies self.value_at(a) == pre.reset_value(
                a,
            ) by {
                lemma_first_in_range_props(pre.spec_devices(), a);
            }
        }
    }

    fn size(&self) -> (r: usize) {
        let ghost ok = self.spec_size() <= usize::MAX;
        let n = self.devices.len();
        let mut total: usize = 0;
        let mut i: usize = 0;
        while i < n
            invariant
                n == self.spec_devices().len(),
                i <= n,
                ok == (self.spec_size() <= usize::MAX),
                ok ==> total == sum_sizes(self.spec_devices().take(i as int)),
            decreases n - i,
        {
            let s = self.devices[i].size();
            proof {
                if ok {
                    lemma_sum_sizes_take_step(self.spec_devices(), i as int);
                    lemma_sum_sizes_prefix_bound(self.spec_devices(), i as int + 1);
                }
            }
            total = total.saturating_add(s);
            i = i + 1;
        }
        proof {
            assert(self.spec_devices().take(n as int) =~= self.spec_devices());
        }
        total
    }
}

impl<D: MemoryDevice> MemoryBus<D> for MemoryMapper<D> {
    fn attach_device(
        &mut self,
        start_addr: u16,
        end_addr: u16,
        write_only: bool,
        device: D,
    ) -> (r: Result<(), MemoryError>)
        ensures
            old(self).wf() ==> final(self).wf(),
            end_addr < start_addr ==> r == Err::<(), MemoryError>(MemoryError::InvalidAddressRange)
                && *final(self) == *old(self),
            start_addr <= end_addr && old(self).overlaps_any(start_addr, end_addr) ==> r == Err::<
                (),
                MemoryError,
            >(MemoryError::DeviceAlreadyAttached) && *final(self) == *old(self),
            start_addr <= end_addr && !old(self).overlaps_any(start_addr, end_addr) ==> {
                &&& r == Ok::<(), MemoryError>(())
                &&& final(self).spec_devices().len() == old(self).spec_devices().len() + 1
                &&& final(self).spec_devices().subrange(0, old(self).spec_devices().len() as int)
                    == old(self).spec_devices()
                &&& final(self).spec_devices().last().spec_start() == start_addr
                &&& final(self).spec_devices().last().spec_end() == end_addr
                &&& final(self).spec_devices().last().spec_write_only() == write_only
                &&& final(self).spec_devices().last().spec_device() == device
            },
    {
        if end_addr < start_addr {
            return Err(MemoryError::InvalidAddressRange);
        }
        let ghost pre = *self;
        let n = self.devices.len();
        let mut i: usize = 0;
        while i < n
            invariant
                *self == pre,
                pre == *old(self),
                start_addr <= end_addr,
                n == self.spec_devices().len(),
                i <= n,
                forall|j: int|
                    0 <= j < i ==> !ranges_overlap(
                        (#[trigger] self.spec_devices()[j]).spec_start(),
                        self.spec_devices()[j].spec_end(),
                        start_addr,
                        end_addr,
                    ),
            decreases n - i,
        {
            let d = &self.devices[i];
            if start_addr <= d.end_addr() && d.start_addr() <= end_addr {
                return Err(MemoryError::DeviceAlreadyAttached);
            }
            i = i + 1;
        }
        self.devices.push(MappedDevice::new(start_addr, end_addr, write_only, device));
        proof {
            assert(self.spec_devices().subrange(0, pre.spec_devices().len() as int)
                =~= pre.spec_devices());
        }
        Ok(())
    }

    fn remove_device(&mut self, start_addr: u16) -> (r: Option<D>)
        ensures
            old(self).wf() ==> final(self).wf(),
            !old(self).has_start(start_addr) ==> r is None && *final(self) == *old(self),
            old(self).has_start(start_addr) ==> r == Some(
                old(self).spec_devices()[old(self).idx_of_start(start_addr)].spec_device(),
            ) && final(self).spec_devices() == old(self).spec_devices().remove(
                old(self).idx_of_start(start_addr),
            ),
    {
        let ghost pre = *self;
        let n = self.devices.len();
        let mut i: usize = 0;
        while i < n
            invariant
                *self == pre,
                pre == *old(self),
                n == self.spec_devices().len(),
                i <= n,
                forall|j: int|
                    0 <= j < i ==> (#[trigger] self.spec_devices()[j]).spec_start() != start_addr,
            decreases n - i,
        {
            let found = {
                let d = &self.devices[i];
                d.start_addr() == start_addr
            };
            if found {
                proof {
                    lemma_first_with_start_is(pre.spec_devices(), start_addr, i as int);
                }
                let d = self.devices.remove(i);
                proof {
                    if pre.wf() {
                        assert forall|p: int, q: int|
                            #![trigger self.spec_devices()[p], self.spec_devices()[q]]
                            0 <= p < self.spec_devices().len() && 0 <= q
                                < self.spec_devices().len() && p != q implies !ranges_overlap(
                            self.spec_devices()[p].spec_start(),
                            self.spec_devices()[p].spec_end(),
                            self.spec_devices()[q].spec_start(),
                            self.spec_devices()[q].spec_end(),
                        ) by {
                            let p0: int = if p < i as int {
                                p
                            } else {
                                p + 1
                            };
                            let q0: int = if q < i as int {
                                q
                            } else {
                                q + 1
                            };
                            assert(self.spec_devices()[p] == pre.spec_devices()[p0]);
                            assert(self.spec_devices()[q] == pre.spec_devices()[q0]);
                        }
                    }
                }
                return Some(d.into_device());
            }
            i = i + 1;
        }
        proof {
            lemma_first_with_start_props(pre.spec_devices(), start_addr);
        }
        None
    }
}

} // verus!
