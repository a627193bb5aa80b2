//! Submission of a command buffer, and the wait for its fence.
//!
//! A buffer that a submission names is marked as in flight from the moment of
//! submission until a wait on the fence has seen the signal. While the mark is
//! set, no other submission that names the buffer is taken, and the host reads
//! nothing from it.

use crate::buffer::Buffer;
use crate::command::{can_copy, copy_compatible, CommandBuffer, CommandBufferView, CopyCommand};
use crate::device::{AllocationView, DeviceView, LogicalDevice, Queue};
use crate::driver::{DriverOutcome, WaitOutcome};
use crate::error::GfxError;
use vstd::prelude::*;

verus! {

/// The token of one submission: it stands for the question whether the device
/// has finished the work.
#[derive(Debug)]
pub struct FenceFuture {
    copy: CopyCommand,
}

impl View for FenceFuture {
    type V = CopyCommand;

    /// The copy that was submitted.
    closed spec fn view(&self) -> CopyCommand {
        self.copy
    }
}

/// Whether the device takes `command_buffer` on `queue`: the queue is one of
/// the device's and of the family that the commands were recorded for, both
/// buffers of the copy are the device's, and neither is in flight.
pub open spec fn submit_allowed(
    device: DeviceView,
    command_buffer: CommandBufferView,
    queue: Queue,
) -> bool {
    &&& device.has_queue(queue)
    &&& command_buffer.queue_family == queue.family
    &&& device.owns(command_buffer.copy.src)
    &&& device.owns(command_buffer.copy.dst)
    &&& !device.memory[command_buffer.copy.src.index as int].in_flight
    &&& !device.memory[command_buffer.copy.dst.index as int].in_flight
}

/// Whether `copy` was submitted to the device and not yet seen to finish.
pub open spec fn pending(device: DeviceView, copy: CopyCommand) -> bool {
    &&& copy_compatible(copy.src, copy.dst)
    &&& device.owns(copy.src)
    &&& device.owns(copy.dst)
    &&& device.memory[copy.src.index as int].in_flight
    &&& device.memory[copy.dst.index as int].in_flight
}

/// The memory after `copy` was submitted: its two buffers are in flight.
pub open spec fn in_flight_for(memory: Seq<AllocationView>, copy: CopyCommand) -> Seq<
    AllocationView,
> {
    Seq::new(
        memory.len(),
        |i: int|
            if i == copy.src.index || i == copy.dst.index {
                AllocationView { in_flight: true, ..memory[i] }
            } else {
                memory[i]
            },
    )
}

/// The memory after the device finished `copy`: the destination holds what the
/// source held, and neither of the two is in flight any more.
pub open spec fn after_copy(memory: Seq<AllocationView>, copy: CopyCommand) -> Seq<
    AllocationView,
> {
    Seq::new(
        memory.len(),
        |i: int|
            if i == copy.dst.index {
                AllocationView {
                    data: memory[copy.src.index as int].data,
                    in_flight: false,
                    ..memory[i]
                }
            } else if i == copy.src.index {
                AllocationView { in_flight: false, ..memory[i] }
            } else {
                memory[i]
            },
    )
}

/// What a wait with the deadline `timeout` gives when it ended in `outcome`.
/// A timeout is reported only where a deadline was set: a wait without one
/// that comes back unsignalled has lost its device.
pub open spec fn wait_result(timeout: Option<u64>, outcome: WaitOutcome) -> Result<(), GfxError> {
    match outcome {
        WaitOutcome::Signaled => Ok(()),
        WaitOutcome::DeviceLost => Err(GfxError::DeviceLostError),
        WaitOutcome::TimedOut => if timeout is Some {
            Err(GfxError::TimeoutError)
        } else {
            Err(GfxError::DeviceLostError)
        },
    }
}

/// Whether the device takes `command_buffer` on `queue`.
pub fn can_submit(device: &LogicalDevice, command_buffer: &CommandBuffer, queue: &Queue) -> (b:
    bool)
    ensures
        b == submit_allowed(device@, command_buffer@, *queue),
{
    let copy = command_buffer.command();
    device.has_queue(queue) && command_buffer.queue_family() == queue.family && device.owns(
        &copy.src,
    ) && device.owns(&copy.dst) && !device.in_flight(copy.src.index) && !device.in_flight(
        copy.dst.index,
    )
}

/// Hands `command_buffer` to `queue` and gives back the fence of the
/// submission. From now on the two buffers of the copy are in flight.
///
/// The submission is refused without the driver, and the device left as it
/// is, unless `submit_allowed` holds.
pub fn submit(
    device: &mut LogicalDevice,
    command_buffer: CommandBuffer,
    queue: &Queue,
    driver: DriverOutcome,
) -> (r: Result<FenceFuture, GfxError>)
    ensures
        r is Ok <==> submit_allowed(old(device)@, command_buffer@, *queue) && driver
            == DriverOutcome::Accepted,
        match r {
            Ok(fence) => {
                &&& fence@ == command_buffer@.copy
                &&& final(device)@ == (DeviceView {
                    memory: in_flight_for(old(device)@.memory, fence@),
                    ..old(device)@
                })
                &&& pending(final(device)@, fence@)
            },
            Err(e) => e == GfxError::SubmissionError && final(device)@ == old(device)@,
        },
{
    if !can_submit(device, &command_buffer, queue) {
        return Err(GfxError::SubmissionError);
    }
    match driver {
        DriverOutcome::Rejected => Err(GfxError::SubmissionError),
        DriverOutcome::Accepted => {
            let copy = command_buffer.command();
            device.set_guard(copy.src.index, true);
            device.set_guard(copy.dst.index, true);
            assert(device@.memory =~= in_flight_for(old(device)@.memory, copy));
            Ok(FenceFuture { copy })
        },
    }
}

/// Whether `fence` stands for a submission to `device` that has not been seen
/// to finish.
pub fn is_pending(device: &LogicalDevice, fence: &FenceFuture) -> (b: bool)
    ensures
        b == pending(device@, fence@),
{
    let copy = fence.copy;
    can_copy(&copy.src, &copy.dst) && device.owns(&copy.src) && device.owns(&copy.dst)
        && device.in_flight(copy.src.index) && device.in_flight(copy.dst.index)
}

/// Ends the wait on `fence`, which was made with the deadline `timeout` and
/// came back with `outcome`. The fence is used up.
///
/// When the device signalled, the copy has happened: the destination holds
/// what the source held, and both buffers are free again. Otherwise the
/// device is left as it is, the two buffers still in flight.
pub fn wait(
    device: &mut LogicalDevice,
    fence: FenceFuture,
    timeout: Option<u64>,
    outcome: WaitOutcome,
) -> (r: Result<(), GfxError>)
    requires
        pending(old(device)@, fence@),
    ensures
        r == wait_result(timeout, outcome),
        r is Ok ==> final(device)@ == (DeviceView {
            memory: after_copy(old(device)@.memory, fence@),
            ..old(device)@
        }),
        r is Err ==> final(device)@ == old(device)@,
{
    match outcome {
        WaitOutcome::Signaled => {
            let copy = fence.copy;
            device.overwrite(copy.dst.index, copy.src.index);
            device.set_guard(copy.src.index, false);
            device.set_guard(copy.dst.index, false);
            assert(device@.memory =~= after_copy(old(device)@.memory, copy));
            Ok(())
        },
        WaitOutcome::DeviceLost => Err(GfxError::DeviceLostError),
        WaitOutcome::TimedOut => match timeout {
            Some(_) => Err(GfxError::TimeoutError),
            None => Err(GfxError::DeviceLostError),
        },
    }
}

/// After a finished copy the destination holds what the source held, element
/// for element and in the same order, and the contents of every other buffer,
/// the source among them, are what they were.
pub proof fn lemma_copy_round_trip(memory: Seq<AllocationView>, copy: CopyCommand)
    requires
        copy.src.index < memory.len(),
        copy.dst.index < memory.len(),
    ensures
        after_copy(memory, copy).len() == memory.len(),
        after_copy(memory, copy)[copy.dst.index as int].data == memory[copy.src.index as int].data,
        forall|i: int|
            0 <= i < memory.len() && i != copy.dst.index ==> (#[trigger] after_copy(
                memory,
                copy,
            )[i]).data == memory[i].data,
{
}

/// A finished copy of a buffer onto itself leaves the contents of every
/// buffer as they were.
pub proof fn lemma_copy_onto_itself(memory: Seq<AllocationView>, copy: CopyCommand)
    requires
        copy.src.index == copy.dst.index,
        copy.src.index < memory.len(),
    ensures
        after_copy(memory, copy).len() == memory.len(),
        forall|i: int|
            0 <= i < memory.len() ==> (#[trigger] after_copy(memory, copy)[i]).data
                == memory[i].data,
{
}

/// Carrying a copy out a second time changes nothing.
pub proof fn lemma_copy_idempotent(memory: Seq<AllocationView>, copy: CopyCommand)
    requires
        copy.src.index < memory.len(),
        copy.dst.index < memory.len(),
    ensures
        after_copy(after_copy(memory, copy), copy) == after_copy(memory, copy),
{
    assert(after_copy(after_copy(memory, copy), copy) =~= after_copy(memory, copy));
}

/// While a copy is pending, the device takes no submission that names one of
/// its two buffers, on whatever queue and for whatever family it was recorded.
pub proof fn lemma_in_flight_is_not_resubmitted(
    device: DeviceView,
    copy: CopyCommand,
    command_buffer: CommandBufferView,
    queue: Queue,
)
    requires
        pending(device, copy),
        command_buffer.copy.src.index == copy.src.index || command_buffer.copy.src.index
            == copy.dst.index || command_buffer.copy.dst.index == copy.src.index
            || command_buffer.copy.dst.index == copy.dst.index,
    ensures
        !submit_allowed(device, command_buffer, queue),
{
}

/// A device owns the buffers of a copy after it as it did before: the tags
/// and the element counts stay.
pub proof fn lemma_copy_keeps_ownership(device: DeviceView, copy: CopyCommand, buffer: Buffer)
    requires
        pending(device, copy),
        device.owns(buffer),
    ensures
        (DeviceView { memory: after_copy(device.memory, copy), ..device }).owns(buffer),
{
}

} // verus!
