//! The logical device: its queues and the memory it has handed out.

use crate::buffer::{Buffer, BufferUsage};
use crate::driver::DriverOutcome;
use crate::error::GfxError;
use crate::selector::{PhysicalDeviceDescriptor, QueueFamily};
use vstd::prelude::*;

verus! {

/// Queue priorities are given in thousandths: `0` is the lowest priority and
/// `PRIORITY_SCALE` the highest.
pub const PRIORITY_SCALE: u16 = 1000;

/// Handle of one queue of an opened device.
#[derive(Clone, Copy, Debug, PartialEq, Eq, Structural)]
pub struct Queue {
    /// Position of the queue's family on the physical device.
    pub family: usize,
    /// Position of the queue among those that were requested.
    pub index: usize,
    /// Priority in thousandths.
    pub priority: u16,
}

/// One allocation in device memory.
#[derive(Debug)]
struct Allocation {
    usage: BufferUsage,
    host_visible: bool,
    data: Vec<u32>,
    in_flight: bool,
}

/// What one allocation holds, and whether a submission that has not been
/// waited for names it.
pub struct AllocationView {
    pub usage: BufferUsage,
    pub host_visible: bool,
    pub data: Seq<u32>,
    pub in_flight: bool,
}

/// An opened device with the queues requested from one family and the
/// buffers allocated on it so far.
#[derive(Debug)]
pub struct LogicalDevice {
    family_index: usize,
    family: QueueFamily,
    priorities: Vec<u16>,
    memory: Vec<Allocation>,
}

/// The state of a logical device.
pub struct DeviceView {
    /// Position of the queue family on the physical device.
    pub family_index: usize,
    /// The family that the queues come from.
    pub family: QueueFamily,
    /// Priority of each queue, in request order.
    pub priorities: Seq<u16>,
    /// The allocations, in allocation order.
    pub memory: Seq<AllocationView>,
}

impl DeviceView {
    /// What holds of every opened device: its queues come from a family that
    /// can do graphics work, there is at least one of them and no more than the
    /// family offers, and every priority lies on the scale.
    pub open spec fn well_formed(self) -> bool {
        &&& self.family.graphics
        &&& 1 <= self.priorities.len() <= self.family.queues_count
        &&& forall|i: int|
            0 <= i < self.priorities.len() ==> #[trigger] self.priorities[i] <= PRIORITY_SCALE
    }

    /// Whether `buffer` names an allocation of this device and carries its tags.
    pub open spec fn owns(self, buffer: Buffer) -> bool {
        &&& buffer.index < self.memory.len()
        &&& self.memory[buffer.index as int].usage == buffer.usage
        &&& self.memory[buffer.index as int].host_visible == buffer.host_visible
        &&& self.memory[buffer.index as int].data.len() == buffer.len
    }

    /// Whether `queue` is one of the queues of this device.
    pub open spec fn has_queue(self, queue: Queue) -> bool {
        &&& queue.family == self.family_index
        &&& queue.index < self.priorities.len()
        &&& queue.priority == self.priorities[queue.index as int]
    }
}

/// Whether a device can be opened on the family at `family_index` with one
/// queue for each of `priorities`.
pub open spec fn open_request_valid(
    families: Seq<QueueFamily>,
    family_index: int,
    priorities: Seq<u16>,
) -> bool {
    &&& 0 <= family_index < families.len()
    &&& families[family_index].graphics
    &&& 1 <= priorities.len() <= families[family_index].queues_count
    &&& forall|i: int| 0 <= i < priorities.len() ==> #[trigger] priorities[i] <= PRIORITY_SCALE
}

/// The queue handles for `priorities`, in request order.
pub open spec fn queues_of(family_index: usize, priorities: Seq<u16>) -> Seq<Queue> {
    Seq::new(
        priorities.len(),
        |i: int| Queue { family: family_index, index: i as usize, priority: priorities[i] },
    )
}

/// Whether a buffer can be allocated with `usage`: some flag has to be set.
pub open spec fn usage_valid(usage: BufferUsage) -> bool {
    usage != BufferUsage::empty()
}

impl View for LogicalDevice {
    type V = DeviceView;

    closed spec fn view(&self) -> DeviceView {
        DeviceView {
            family_index: self.family_index,
            family: self.family,
            priorities: self.priorities@,
            memory: Seq::new(
                self.memory@.len(),
                |i: int|
                    AllocationView {
                        usage: self.memory@[i].usage,
                        host_visible: self.memory@[i].host_visible,
                        data: self.memory@[i].data@,
                        in_flight: self.memory@[i].in_flight,
                    },
            ),
        }
    }
}

/// A vector with the elements of `items`, in their order.
pub(crate) fn copy_of<T: Copy>(items: &Vec<T>) -> (copy: Vec<T>)
    ensures
        copy@ == items@,
{
    let mut copy: Vec<T> = Vec::new();
    let mut i: usize = 0;
    while i < items.len()
        invariant
            i <= items.len(),
            copy@ == items@.take(i as int),
        decreases items.len() - i,
    {
        copy.push(items[i]);
        i += 1;
    }
    assert(items@.take(items@.len() as int) == items@);
    copy
}

/// Whether `left` and `right` hold the same elements in the same order.
fn same_elements(left: &Vec<u32>, right: &Vec<u32>) -> (b: bool)
    ensures
        b == (left@ == right@),
{
    if left.len() != right.len() {
        return false;
    }
    let mut i: usize = 0;
    while i < left.len()
        invariant
            i <= left.len(),
            left.len() == right.len(),
            left@.take(i as int) == right@.take(i as int),
        decreases left.len() - i,
    {
        if left[i] != right[i] {
            return false;
        }
        assert(left@.take(i + 1) =~= left@.take(i as int).push(left@[i as int]));
        assert(right@.take(i + 1) =~= right@.take(i as int).push(right@[i as int]));
        i += 1;
    }
    assert(left@.take(left@.len() as int) == left@);
    assert(right@.take(right@.len() as int) == right@);
    true
}

/// Whether `priorities` lie on the scale.
fn priorities_on_scale(priorities: &Vec<u16>) -> (b: bool)
    ensures
        b == forall|i: int|
            0 <= i < priorities@.len() ==> #[trigger] priorities@[i] <= PRIORITY_SCALE,
{
    let mut i: usize = 0;
    while i < priorities.len()
        invariant
            i <= priorities.len(),
            forall|j: int| 0 <= j < i ==> #[trigger] priorities@[j] <= PRIORITY_SCALE,
        decreases priorities.len() - i,
    {
        if priorities[i] > PRIORITY_SCALE {
            return false;
        }
        i += 1;
    }
    true
}

/// Whether a device can be opened on the family at `family_index` of
/// `physical` with one queue for each of `priorities`.
pub fn can_open(physical: &PhysicalDeviceDescriptor, family_index: usize, priorities: &Vec<u16>)
    -> (b: bool)
    ensures
        b == open_request_valid(physical@, family_index as int, priorities@),
{
    if family_index >= physical.families.len() {
        return false;
    }
    let family = physical.families[family_index];
    family.graphics && 1 <= priorities.len() && priorities.len() <= family.queues_count
        && priorities_on_scale(priorities)
}

impl LogicalDevice {
    /// Every device is in a well-formed state.
    #[verifier::type_invariant]
    pub open spec fn inv(self) -> bool {
        self@.well_formed()
    }

    /// Opens a device on `physical` with one queue of the family at
    /// `queue_family_index` for each of `priorities`, and hands back the device
    /// and its queues in request order. No feature or extension is asked for.
    ///
    /// The request is refused without the driver when the family does not
    /// exist or cannot do graphics work, when no queue or more queues than the
    /// family offers are asked for, or when a priority lies off the scale.
    pub fn open(
        physical: &PhysicalDeviceDescriptor,
        queue_family_index: usize,
        priorities: Vec<u16>,
        driver: DriverOutcome,
    ) -> (r: Result<(LogicalDevice, Vec<Queue>), GfxError>)
        ensures
            r is Ok <==> open_request_valid(physical@, queue_family_index as int, priorities@)
                && driver == DriverOutcome::Accepted,
            match r {
                Ok((device, queues)) => {
                    &&& device@ == (DeviceView {
                        family_index: queue_family_index,
                        family: physical@[queue_family_index as int],
                        priorities: priorities@,
                        memory: Seq::empty(),
                    })
                    &&& queues@ == queues_of(queue_family_index, priorities@)
                },
                Err(e) => e == GfxError::DeviceOpenError,
            },
    {
        if !can_open(physical, queue_family_index, &priorities) {
            return Err(GfxError::DeviceOpenError);
        }
        match driver {
            DriverOutcome::Rejected => Err(GfxError::DeviceOpenError),
            DriverOutcome::Accepted => {
                let mut queues: Vec<Queue> = Vec::new();
                let mut i: usize = 0;
                while i < priorities.len()
                    invariant
                        i <= priorities.len(),
                        queues@ == queues_of(queue_family_index, priorities@.take(i as int)),
                    decreases priorities.len() - i,
                {
                    queues.push(
                        Queue { family: queue_family_index, index: i, priority: priorities[i] },
                    );
                    i += 1;
                }
                assert(priorities@.take(priorities@.len() as int) == priorities@);
                let device = LogicalDevice {
                    family_index: queue_family_index,
                    family: physical.families[queue_family_index],
                    priorities,
                    memory: Vec::new(),
                };
                assert(device@.memory == Seq::<AllocationView>::empty());
                Ok((device, queues))
            },
        }
    }

    /// The position of the queue family that the device was opened on. Every
    /// device is in a well-formed state.
    pub fn queue_family(&self) -> (f: usize)
        ensures
            f == self@.family_index,
            self@.well_formed(),
    {
        proof {
            use_type_invariant(self);
        }
        self.family_index
    }

    /// Whether `buffer` names an allocation of this device and carries its tags.
    pub fn owns(&self, buffer: &Buffer) -> (b: bool)
        ensures
            b == self@.owns(*buffer),
    {
        buffer.index < self.memory.len() && self.memory[buffer.index].usage == buffer.usage
            && self.memory[buffer.index].host_visible == buffer.host_visible
            && self.memory[buffer.index].data.len() == buffer.len
    }

    /// Allocates a buffer on the device, filled with `data`, and hands back its
    /// handle. The element count of the buffer is that of `data` for good.
    ///
    /// With `host_visible` the host may read the buffer back (see `read`);
    /// without it the contents stay on the device side. What a copy does to
    /// the contents is the same either way: only a check that reads the
    /// contents back after the copy depends on the flag.
    ///
    /// A usage without any flag is refused without the driver. Whether there
    /// is memory left is the driver's to say.
    pub fn allocate(
        &mut self,
        usage: BufferUsage,
        host_visible: bool,
        data: Vec<u32>,
        driver: DriverOutcome,
    ) -> (r: Result<Buffer, GfxError>)
        ensures
            r is Ok <==> usage_valid(usage) && driver == DriverOutcome::Accepted,
            match r {
                Ok(buffer) => {
                    &&& buffer == (Buffer {
                        index: old(self)@.memory.len() as usize,
                        len: data@.len() as usize,
                        usage,
                        host_visible,
                    })
                    &&& final(self)@ == (DeviceView {
                        memory: old(self)@.memory.push(
                            AllocationView { usage, host_visible, data: data@, in_flight: false },
                        ),
                        ..old(self)@
                    })
                    &&& final(self)@.owns(buffer)
                },
                Err(e) => e == GfxError::AllocationError && final(self)@ == old(self)@,
            },
    {
        if usage.is_empty() {
            return Err(GfxError::AllocationError);
        }
        match driver {
            DriverOutcome::Rejected => Err(GfxError::AllocationError),
            DriverOutcome::Accepted => {
                proof {
                    use_type_invariant(&*self);
                }
                let buffer = Buffer {
                    index: self.memory.len(),
                    len: data.len(),
                    usage,
                    host_visible,
                };
                let mut memory: Vec<Allocation> = Vec::new();
                core::mem::swap(&mut memory, &mut self.memory);
                memory.push(Allocation { usage, host_visible, data, in_flight: false });
                core::mem::swap(&mut memory, &mut self.memory);
                assert(final(self)@.memory =~= old(self)@.memory.push(
                    AllocationView { usage, host_visible, data: data@, in_flight: false },
                ));
                Ok(buffer)
            },
        }
    }

    /// Whether `queue` is one of the queues of this device.
    pub fn has_queue(&self, queue: &Queue) -> (b: bool)
        ensures
            b == self@.has_queue(*queue),
    {
        queue.family == self.family_index && queue.index < self.priorities.len()
            && queue.priority == self.priorities[queue.index]
    }

    /// Whether the allocation at `index` is named by a submission that has not
    /// been seen to finish. No allocation is there beyond the last one.
    pub fn in_flight(&self, index: usize) -> (b: bool)
        ensures
            b == (index < self@.memory.len() && self@.memory[index as int].in_flight),
    {
        index < self.memory.len() && self.memory[index].in_flight
    }

    /// Sets or clears the mark that a submission names the allocation at `index`.
    pub(crate) fn set_guard(&mut self, index: usize, in_flight: bool)
        requires
            index < old(self)@.memory.len(),
        ensures
            final(self)@ == (DeviceView {
                memory: old(self)@.memory.update(
                    index as int,
                    AllocationView { in_flight, ..old(self)@.memory[index as int] },
                ),
                ..old(self)@
            }),
    {
        proof {
            use_type_invariant(&*self);
        }
        self.memory[index].in_flight = in_flight;
        assert(final(self)@.memory =~= old(self)@.memory.update(
            index as int,
            AllocationView { in_flight, ..old(self)@.memory[index as int] },
        ));
    }

    /// Writes the contents of the allocation at `src` over those of the one at `dst`.
    pub(crate) fn overwrite(&mut self, dst: usize, src: usize)
        requires
            dst < old(self)@.memory.len(),
            src < old(self)@.memory.len(),
        ensures
            final(self)@ == (DeviceView {
                memory: old(self)@.memory.update(
                    dst as int,
                    AllocationView {
                        data: old(self)@.memory[src as int].data,
                        ..old(self)@.memory[dst as int]
                    },
                ),
                ..old(self)@
            }),
    {
        proof {
            use_type_invariant(&*self);
        }
        let data = copy_of(&self.memory[src].data);
        self.memory[dst].data = data;
        assert(final(self)@.memory =~= old(self)@.memory.update(
            dst as int,
            AllocationView {
                data: old(self)@.memory[src as int].data,
                ..old(self)@.memory[dst as int]
            },
        ));
    }

    /// The contents of `buffer` as the host sees them: there is something to
    /// read when the buffer is of this device, is visible to the host, and is
    /// named by no submission that has not been waited for.
    pub fn read(&self, buffer: &Buffer) -> (r: Option<&Vec<u32>>)
        ensures
            r is Some <==> self@.owns(*buffer) && buffer.host_visible
                && !self@.memory[buffer.index as int].in_flight,
            match r {
                Some(data) => data@ == self@.memory[buffer.index as int].data,
                None => true,
            },
    {
        if self.owns(buffer) && buffer.host_visible && !self.memory[buffer.index].in_flight {
            Some(&self.memory[buffer.index].data)
        } else {
            None
        }
    }

    /// Holds `read_back`, which the host has read from the device's own
    /// memory for `buffer`, against what the buffer holds by the copies that
    /// were carried out. There is an answer where `read` gives something to
    /// read; it says whether the two are the same, element for element.
    pub fn matches_read_back(&self, buffer: &Buffer, read_back: &Vec<u32>) -> (r: Option<bool>)
        ensures
            r is Some <==> self@.owns(*buffer) && buffer.host_visible
                && !self@.memory[buffer.index as int].in_flight,
            match r {
                Some(same) => same == (read_back@ == self@.memory[buffer.index as int].data),
                None => true,
            },
    {
        match self.read(buffer) {
            Some(expected) => Some(same_elements(expected, read_back)),
            None => None,
        }
    }
}

} // verus!
