//! Physical devices as the driver reports them, and the choice among them.

use crate::error::GfxError;
use vstd::prelude::*;

verus! {

/// A group of queues that share one set of capabilities.
#[derive(Clone, Copy, Debug, PartialEq, Eq, Structural)]
pub struct QueueFamily {
    /// How many queues the family offers.
    pub queues_count: usize,
    pub graphics: bool,
    pub compute: bool,
    pub transfer: bool,
    pub presentation: bool,
}

/// Read-only description of one GPU: its queue families in the driver's order.
#[derive(Debug)]
pub struct PhysicalDeviceDescriptor {
    pub families: Vec<QueueFamily>,
}

impl View for PhysicalDeviceDescriptor {
    type V = Seq<QueueFamily>;

    open spec fn view(&self) -> Seq<QueueFamily> {
        self.families@
    }
}

/// Whether some family of `families` can do graphics work.
pub open spec fn has_graphics_family(families: Seq<QueueFamily>) -> bool {
    exists|i: int| 0 <= i < families.len() && (#[trigger] families[i]).graphics
}

/// Whether `i` is the position of the first family of `families` that can do
/// graphics work.
pub open spec fn is_first_graphics_family(families: Seq<QueueFamily>, i: int) -> bool {
    &&& 0 <= i < families.len()
    &&& families[i].graphics
    &&& forall|j: int| 0 <= j < i ==> !(#[trigger] families[j]).graphics
}

/// The position of the device to use among `count` enumerated devices: the
/// first one, whatever the others are.
pub open spec fn first_device(count: nat) -> Option<usize> {
    if count == 0 {
        None
    } else {
        Some(0usize)
    }
}

/// Picks the device to use among the enumerated ones: the first in enumeration
/// order. Gives `None` when nothing was enumerated.
pub fn select_device(devices: &Vec<PhysicalDeviceDescriptor>) -> (r: Option<usize>)
    ensures
        r == first_device(devices@.len()),
{
    if devices.len() == 0 {
        None
    } else {
        Some(0)
    }
}

/// The device to compute with: the first of the enumerated devices.
pub fn get_vk_physical_device(devices: &Vec<PhysicalDeviceDescriptor>) -> (d:
    &PhysicalDeviceDescriptor)
    requires
        devices@.len() > 0,
    ensures
        *d == devices@[0],
{
    &devices[0]
}

/// Picks the queue family to open the device with: the first family, in the
/// driver's order, that can do graphics work.
pub fn select_queue_family(device: &PhysicalDeviceDescriptor) -> (r: Result<usize, GfxError>)
    ensures
        r is Ok <==> has_graphics_family(device@),
        match r {
            Ok(i) => is_first_graphics_family(device@, i as int),
            Err(e) => e == GfxError::NoSuitableQueueFamily,
        },
{
    let mut i: usize = 0;
    while i < device.families.len()
        invariant
            i <= device.families.len(),
            forall|j: int| 0 <= j < i ==> !(#[trigger] device@[j]).graphics,
        decreases device.families.len() - i,
    {
        if device.families[i].graphics {
            return Ok(i);
        }
        i += 1;
    }
    Err(GfxError::NoSuitableQueueFamily)
}

} // verus!
