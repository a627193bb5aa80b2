use vk_bootstrap::buffer::{sequential_data, Buffer, BufferUsage};
use vk_bootstrap::command::{can_copy, CommandBufferBuilder, CopyCommand};
use vk_bootstrap::device::{can_open, LogicalDevice, Queue, PRIORITY_SCALE};
use vk_bootstrap::driver::{DriverOutcome, WaitOutcome};
use vk_bootstrap::error::GfxError;
use vk_bootstrap::selector::{PhysicalDeviceDescriptor, QueueFamily};
use vk_bootstrap::sync::{can_submit, is_pending, submit, wait};

fn physical() -> PhysicalDeviceDescriptor {
    PhysicalDeviceDescriptor {
        families: vec![
            QueueFamily {
                queues_count: 1,
                graphics: false,
                compute: false,
                transfer: true,
                presentation: false,
            },
            QueueFamily {
                queues_count: 4,
                graphics: true,
                compute: true,
                transfer: true,
                presentation: true,
            },
        ],
    }
}

fn open_device() -> (LogicalDevice, Vec<Queue>) {
    LogicalDevice::open(&physical(), 1, vec![500], DriverOutcome::Accepted).unwrap()
}

fn transfer_usage() -> BufferUsage {
    let mut usage = BufferUsage::none();
    usage.transfer_source = true;
    usage.transfer_destination = true;
    usage
}

fn record(device: &LogicalDevice, src: Buffer, dst: Buffer) -> vk_bootstrap::command::CommandBuffer {
    CommandBufferBuilder::begin(device, device.queue_family())
        .copy(src, dst)
        .unwrap()
        .build(DriverOutcome::Accepted)
        .unwrap()
}

#[test]
fn general_usage_sets_every_flag() {
    let usage = BufferUsage::all();
    assert!(usage.transfer_source);
    assert!(usage.transfer_destination);
    assert!(usage.uniform_texel_buffer);
    assert!(usage.storage_texel_buffer);
    assert!(usage.uniform_buffer);
    assert!(usage.storage_buffer);
    assert!(usage.index_buffer);
    assert!(usage.vertex_buffer);
    assert!(usage.indirect_buffer);
    assert!(usage.device_address);
    assert!(!usage.is_empty());
}

#[test]
fn empty_usage_sets_no_flag() {
    let usage = BufferUsage::none();
    assert!(usage.is_empty());
    assert!(!usage.transfer_source);
    assert!(!usage.device_address);
    assert_ne!(usage, BufferUsage::all());
    let mut one = BufferUsage::none();
    one.indirect_buffer = true;
    assert!(!one.is_empty());
}

#[test]
fn sequential_data_counts_up_from_zero() {
    assert_eq!(sequential_data(0), Vec::<u32>::new());
    assert_eq!(sequential_data(1), vec![0]);
    assert_eq!(sequential_data(5), vec![0, 1, 2, 3, 4]);
    let data = sequential_data(65536);
    assert_eq!(data.len(), 65536);
    assert_eq!(data[0], 0);
    assert_eq!(data[40000], 40000);
    assert_eq!(data[65535], 65535);
    assert_eq!(data, (0..65536).collect::<Vec<u32>>());
}

#[test]
fn device_opens_with_one_queue_at_half_priority() {
    let (device, queues) = open_device();
    assert_eq!(device.queue_family(), 1);
    assert_eq!(queues, vec![Queue { family: 1, index: 0, priority: 500 }]);
    assert!(device.has_queue(&queues[0]));
    assert!(!device.has_queue(&Queue { family: 0, index: 0, priority: 500 }));
    assert!(!device.has_queue(&Queue { family: 1, index: 1, priority: 500 }));
    assert!(!device.has_queue(&Queue { family: 1, index: 0, priority: 499 }));
}

#[test]
fn device_hands_back_queues_in_request_order() {
    let (device, queues) =
        LogicalDevice::open(&physical(), 1, vec![0, 1000, 250, 500], DriverOutcome::Accepted)
            .unwrap();
    assert_eq!(
        queues,
        vec![
            Queue { family: 1, index: 0, priority: 0 },
            Queue { family: 1, index: 1, priority: 1000 },
            Queue { family: 1, index: 2, priority: 250 },
            Queue { family: 1, index: 3, priority: 500 },
        ]
    );
    for queue in queues.iter() {
        assert!(device.has_queue(queue));
    }
}

#[test]
fn device_open_is_refused_on_bad_requests() {
    let physical = physical();
    assert_eq!(PRIORITY_SCALE, 1000);
    assert!(can_open(&physical, 1, &vec![500]));
    // the family does not exist
    assert!(!can_open(&physical, 2, &vec![500]));
    assert_eq!(
        LogicalDevice::open(&physical, 2, vec![500], DriverOutcome::Accepted).unwrap_err(),
        GfxError::DeviceOpenError
    );
    // the family cannot do graphics work
    assert!(!can_open(&physical, 0, &vec![500]));
    assert_eq!(
        LogicalDevice::open(&physical, 0, vec![500], DriverOutcome::Accepted).unwrap_err(),
        GfxError::DeviceOpenError
    );
    // no queue is asked for
    assert!(!can_open(&physical, 1, &vec![]));
    assert_eq!(
        LogicalDevice::open(&physical, 1, vec![], DriverOutcome::Accepted).unwrap_err(),
        GfxError::DeviceOpenError
    );
    // more queues than the family offers
    assert!(!can_open(&physical, 1, &vec![1, 2, 3, 4, 5]));
    assert_eq!(
        LogicalDevice::open(&physical, 1, vec![1, 2, 3, 4, 5], DriverOutcome::Accepted)
            .unwrap_err(),
        GfxError::DeviceOpenError
    );
    // a priority off the scale
    assert!(can_open(&physical, 1, &vec![1000]));
    assert!(!can_open(&physical, 1, &vec![1001]));
    assert_eq!(
        LogicalDevice::open(&physical, 1, vec![500, 1001], DriverOutcome::Accepted).unwrap_err(),
        GfxError::DeviceOpenError
    );
}

#[test]
fn device_open_fails_when_the_driver_refuses() {
    assert_eq!(
        LogicalDevice::open(&physical(), 1, vec![500], DriverOutcome::Rejected).unwrap_err(),
        GfxError::DeviceOpenError
    );
}

#[test]
fn buffer_is_allocated_with_its_tags() {
    let (mut device, _) = open_device();
    let first = device
        .allocate(BufferUsage::all(), true, vec![3, 1, 4, 1, 5], DriverOutcome::Accepted)
        .unwrap();
    assert_eq!(
        first,
        Buffer { index: 0, len: 5, usage: BufferUsage::all(), host_visible: true }
    );
    let second =
        device.allocate(transfer_usage(), false, vec![9; 3], DriverOutcome::Accepted).unwrap();
    assert_eq!(second, Buffer { index: 1, len: 3, usage: transfer_usage(), host_visible: false });
    assert!(device.owns(&first));
    assert!(device.owns(&second));
    assert!(!device.in_flight(0));
    assert!(!device.in_flight(1));
    assert!(!device.in_flight(2));
    assert_eq!(device.read(&first), Some(&vec![3, 1, 4, 1, 5]));
}

#[test]
fn buffer_with_a_forged_tag_is_not_owned() {
    let (mut device, _) = open_device();
    let buffer =
        device.allocate(BufferUsage::all(), true, vec![1, 2, 3], DriverOutcome::Accepted).unwrap();
    assert!(!device.owns(&Buffer { index: 1, ..buffer }));
    assert!(!device.owns(&Buffer { len: 4, ..buffer }));
    assert!(!device.owns(&Buffer { usage: transfer_usage(), ..buffer }));
    assert!(!device.owns(&Buffer { host_visible: false, ..buffer }));
    assert_eq!(device.read(&Buffer { len: 4, ..buffer }), None);
}

#[test]
fn buffer_without_usage_is_refused() {
    let (mut device, _) = open_device();
    assert_eq!(
        device.allocate(BufferUsage::none(), true, vec![1, 2, 3], DriverOutcome::Accepted),
        Err(GfxError::AllocationError)
    );
    // nothing was allocated: the next buffer is the first
    let buffer =
        device.allocate(BufferUsage::all(), true, vec![1, 2, 3], DriverOutcome::Accepted).unwrap();
    assert_eq!(buffer.index, 0);
}

#[test]
fn allocation_fails_when_the_driver_refuses() {
    let (mut device, _) = open_device();
    assert_eq!(
        device.allocate(BufferUsage::all(), true, vec![1, 2, 3], DriverOutcome::Rejected),
        Err(GfxError::AllocationError)
    );
    let buffer =
        device.allocate(BufferUsage::all(), true, vec![1, 2, 3], DriverOutcome::Accepted).unwrap();
    assert_eq!(buffer.index, 0);
}

#[test]
fn buffer_that_is_not_host_visible_cannot_be_read_back() {
    let (mut device, _) = open_device();
    let hidden =
        device.allocate(BufferUsage::all(), false, vec![1, 2, 3], DriverOutcome::Accepted).unwrap();
    let visible =
        device.allocate(BufferUsage::all(), true, vec![1, 2, 3], DriverOutcome::Accepted).unwrap();
    assert_eq!(device.read(&hidden), None);
    assert_eq!(device.read(&visible), Some(&vec![1, 2, 3]));
}

#[test]
fn copy_between_buffers_of_different_sizes_is_refused() {
    let (mut device, _) = open_device();
    let small =
        device.allocate(BufferUsage::all(), true, vec![1, 2, 3], DriverOutcome::Accepted).unwrap();
    let large = device
        .allocate(BufferUsage::all(), true, vec![1, 2, 3, 4], DriverOutcome::Accepted)
        .unwrap();
    assert!(!can_copy(&small, &large));
    assert!(!can_copy(&large, &small));
    let builder = CommandBufferBuilder::begin(&device, 1);
    assert_eq!(builder.copy(small, large).unwrap_err(), GfxError::IncompatibleBufferError);
    let builder = CommandBufferBuilder::begin(&device, 1);
    assert_eq!(builder.copy(large, small).unwrap_err(), GfxError::IncompatibleBufferError);
    // nothing reached the device
    assert!(!device.in_flight(small.index));
    assert!(!device.in_flight(large.index));
    assert_eq!(device.read(&small), Some(&vec![1, 2, 3]));
    assert_eq!(device.read(&large), Some(&vec![1, 2, 3, 4]));
}

#[test]
fn copy_without_transfer_usage_is_refused() {
    let (mut device, _) = open_device();
    let mut source_only = BufferUsage::none();
    source_only.transfer_source = true;
    let mut destination_only = BufferUsage::none();
    destination_only.transfer_destination = true;
    let src = device.allocate(source_only, true, vec![1, 2], DriverOutcome::Accepted).unwrap();
    let dst = device.allocate(destination_only, true, vec![0, 0], DriverOutcome::Accepted).unwrap();
    assert!(can_copy(&src, &dst));
    assert!(!can_copy(&dst, &src));
    assert!(!can_copy(&src, &src));
    assert!(!can_copy(&dst, &dst));
    let builder = CommandBufferBuilder::begin(&device, 1);
    assert_eq!(builder.copy(dst, src).unwrap_err(), GfxError::IncompatibleBufferError);
    let builder = CommandBufferBuilder::begin(&device, 1);
    assert!(builder.copy(src, dst).is_ok());
}

#[test]
fn command_buffer_holds_the_recorded_copy() {
    let (mut device, _) = open_device();
    let src =
        device.allocate(BufferUsage::all(), true, vec![1, 2], DriverOutcome::Accepted).unwrap();
    let dst =
        device.allocate(BufferUsage::all(), true, vec![0, 0], DriverOutcome::Accepted).unwrap();
    let command_buffer = record(&device, src, dst);
    assert_eq!(command_buffer.queue_family(), 1);
    assert_eq!(command_buffer.command(), CopyCommand { src, dst });
}

#[test]
fn recording_without_commands_cannot_be_built() {
    let (device, _) = open_device();
    let builder = CommandBufferBuilder::begin(&device, 1);
    assert_eq!(builder.build(DriverOutcome::Accepted).unwrap_err(), GfxError::RecordingError);
}

#[test]
fn recording_with_two_commands_cannot_be_built() {
    let (mut device, _) = open_device();
    let buffer =
        device.allocate(BufferUsage::all(), true, vec![1, 2], DriverOutcome::Accepted).unwrap();
    let builder = CommandBufferBuilder::begin(&device, 1)
        .copy(buffer, buffer)
        .unwrap()
        .copy(buffer, buffer)
        .unwrap();
    assert_eq!(builder.build(DriverOutcome::Accepted).unwrap_err(), GfxError::RecordingError);
}

#[test]
fn recording_fails_when_the_driver_refuses() {
    let (mut device, _) = open_device();
    let buffer =
        device.allocate(BufferUsage::all(), true, vec![1, 2], DriverOutcome::Accepted).unwrap();
    let builder = CommandBufferBuilder::begin(&device, 1).copy(buffer, buffer).unwrap();
    assert_eq!(builder.build(DriverOutcome::Rejected).unwrap_err(), GfxError::RecordingError);
}

#[test]
fn copy_onto_itself_keeps_the_sequence() {
    let (mut device, queues) = open_device();
    let buffer = device
        .allocate(BufferUsage::all(), true, sequential_data(65536), DriverOutcome::Accepted)
        .unwrap();
    assert_eq!(buffer.len, 65536);
    let command_buffer = record(&device, buffer, buffer);
    let fence = submit(&mut device, command_buffer, &queues[0], DriverOutcome::Accepted).unwrap();
    assert!(is_pending(&device, &fence));
    assert_eq!(wait(&mut device, fence, None, WaitOutcome::Signaled), Ok(()));
    let contents = device.read(&buffer).unwrap();
    assert_eq!(contents.len(), 65536);
    for (i, value) in contents.iter().enumerate() {
        assert_eq!(*value as usize, i);
    }
    assert!(device.owns(&buffer));
    assert!(!device.in_flight(buffer.index));
}

#[test]
fn copy_into_a_buffer_of_the_same_size_carries_the_sequence_over() {
    let (mut device, queues) = open_device();
    let src = device
        .allocate(BufferUsage::all(), true, sequential_data(65536), DriverOutcome::Accepted)
        .unwrap();
    let dst = device
        .allocate(BufferUsage::all(), true, vec![0xdead_beef; 65536], DriverOutcome::Accepted)
        .unwrap();
    let untouched =
        device.allocate(BufferUsage::all(), true, vec![7, 8, 9], DriverOutcome::Accepted).unwrap();
    let command_buffer = record(&device, src, dst);
    let fence = submit(&mut device, command_buffer, &queues[0], DriverOutcome::Accepted).unwrap();
    assert_eq!(wait(&mut device, fence, Some(1000), WaitOutcome::Signaled), Ok(()));
    let expected: Vec<u32> = (0..65536).collect();
    assert_eq!(device.read(&dst), Some(&expected));
    assert_eq!(device.read(&src), Some(&expected));
    assert_eq!(device.read(&untouched), Some(&vec![7, 8, 9]));
    assert!(device.owns(&src));
    assert!(device.owns(&dst));
}

#[test]
fn copy_carried_out_twice_gives_what_one_copy_gives() {
    let (mut device, queues) = open_device();
    let src =
        device.allocate(BufferUsage::all(), true, vec![5, 6, 7], DriverOutcome::Accepted).unwrap();
    let dst =
        device.allocate(BufferUsage::all(), true, vec![0, 0, 0], DriverOutcome::Accepted).unwrap();
    for _ in 0..2 {
        let command_buffer = record(&device, src, dst);
        let fence =
            submit(&mut device, command_buffer, &queues[0], DriverOutcome::Accepted).unwrap();
        assert_eq!(wait(&mut device, fence, None, WaitOutcome::Signaled), Ok(()));
        assert_eq!(device.read(&src), Some(&vec![5, 6, 7]));
        assert_eq!(device.read(&dst), Some(&vec![5, 6, 7]));
    }
}

#[test]
fn contents_are_untouched_until_the_fence_signals() {
    let (mut device, queues) = open_device();
    let src =
        device.allocate(BufferUsage::all(), true, vec![5, 6, 7], DriverOutcome::Accepted).unwrap();
    let dst =
        device.allocate(BufferUsage::all(), true, vec![0, 0, 0], DriverOutcome::Accepted).unwrap();
    let command_buffer = record(&device, src, dst);
    let fence = submit(&mut device, command_buffer, &queues[0], DriverOutcome::Accepted).unwrap();
    // in flight: the host reads nothing
    assert!(device.in_flight(src.index));
    assert!(device.in_flight(dst.index));
    assert_eq!(device.read(&src), None);
    assert_eq!(device.read(&dst), None);
    assert_eq!(wait(&mut device, fence, Some(5), WaitOutcome::TimedOut), Err(GfxError::TimeoutError));
    // still in flight, and a new submission that names the buffers is refused
    assert!(device.in_flight(src.index));
    assert!(device.in_flight(dst.index));
    let again = record(&device, src, dst);
    assert!(!can_submit(&device, &again, &queues[0]));
    assert_eq!(
        submit(&mut device, again, &queues[0], DriverOutcome::Accepted).unwrap_err(),
        GfxError::SubmissionError
    );
}

#[test]
fn buffer_in_flight_is_not_taken_by_a_second_submission() {
    let (mut device, queues) = open_device();
    let a = device.allocate(BufferUsage::all(), true, vec![1, 2], DriverOutcome::Accepted).unwrap();
    let b = device.allocate(BufferUsage::all(), true, vec![3, 4], DriverOutcome::Accepted).unwrap();
    let c = device.allocate(BufferUsage::all(), true, vec![5, 6], DriverOutcome::Accepted).unwrap();
    let d = device.allocate(BufferUsage::all(), true, vec![7, 8], DriverOutcome::Accepted).unwrap();
    let first = record(&device, a, b);
    let fence = submit(&mut device, first, &queues[0], DriverOutcome::Accepted).unwrap();
    // source in flight as destination, destination in flight as source
    for (src, dst) in [(c, a), (b, c), (a, a), (a, b)] {
        let command_buffer = record(&device, src, dst);
        assert_eq!(
            submit(&mut device, command_buffer, &queues[0], DriverOutcome::Accepted).unwrap_err(),
            GfxError::SubmissionError
        );
    }
    // buffers that are not in flight are taken
    let other = record(&device, c, d);
    let other_fence = submit(&mut device, other, &queues[0], DriverOutcome::Accepted).unwrap();
    assert_eq!(wait(&mut device, other_fence, None, WaitOutcome::Signaled), Ok(()));
    assert_eq!(device.read(&d), Some(&vec![5, 6]));
    assert_eq!(device.read(&a), None);
    // after the wait the first pair is free again
    assert_eq!(wait(&mut device, fence, None, WaitOutcome::Signaled), Ok(()));
    assert_eq!(device.read(&b), Some(&vec![1, 2]));
    let command_buffer = record(&device, b, c);
    let last = submit(&mut device, command_buffer, &queues[0], DriverOutcome::Accepted).unwrap();
    assert_eq!(wait(&mut device, last, None, WaitOutcome::Signaled), Ok(()));
    assert_eq!(device.read(&c), Some(&vec![1, 2]));
}

#[test]
fn submission_to_a_queue_of_another_family_is_refused() {
    let (mut device, queues) = open_device();
    let buffer =
        device.allocate(BufferUsage::all(), true, vec![1, 2], DriverOutcome::Accepted).unwrap();
    // recorded for a family that the queue is not of
    let command_buffer = CommandBufferBuilder::begin(&device, 0)
        .copy(buffer, buffer)
        .unwrap()
        .build(DriverOutcome::Accepted)
        .unwrap();
    assert_eq!(
        submit(&mut device, command_buffer, &queues[0], DriverOutcome::Accepted).unwrap_err(),
        GfxError::SubmissionError
    );
    // a queue that is not the device's
    let command_buffer = record(&device, buffer, buffer);
    let stranger = Queue { family: 1, index: 3, priority: 500 };
    assert_eq!(
        submit(&mut device, command_buffer, &stranger, DriverOutcome::Accepted).unwrap_err(),
        GfxError::SubmissionError
    );
    assert!(!device.in_flight(buffer.index));
}

#[test]
fn submission_of_a_buffer_of_another_device_is_refused() {
    let (mut device, queues) = open_device();
    let (mut other, _) = open_device();
    let foreign =
        other.allocate(BufferUsage::all(), true, vec![1, 2], DriverOutcome::Accepted).unwrap();
    let command_buffer = record(&other, foreign, foreign);
    assert!(!can_submit(&device, &command_buffer, &queues[0]));
    assert_eq!(
        submit(&mut device, command_buffer, &queues[0], DriverOutcome::Accepted).unwrap_err(),
        GfxError::SubmissionError
    );
}

#[test]
fn submission_fails_when_the_driver_refuses() {
    let (mut device, queues) = open_device();
    let buffer =
        device.allocate(BufferUsage::all(), true, vec![1, 2], DriverOutcome::Accepted).unwrap();
    let command_buffer = record(&device, buffer, buffer);
    assert!(can_submit(&device, &command_buffer, &queues[0]));
    assert_eq!(
        submit(&mut device, command_buffer, &queues[0], DriverOutcome::Rejected).unwrap_err(),
        GfxError::SubmissionError
    );
    assert!(!device.in_flight(buffer.index));
    assert_eq!(device.read(&buffer), Some(&vec![1, 2]));
}

#[test]
fn wait_reports_a_timeout_only_with_a_deadline() {
    let (mut device, queues) = open_device();
    let a = device.allocate(BufferUsage::all(), true, vec![1, 2], DriverOutcome::Accepted).unwrap();
    let b = device.allocate(BufferUsage::all(), true, vec![3, 4], DriverOutcome::Accepted).unwrap();
    let with_deadline = record(&device, a, a);
    let fence = submit(&mut device, with_deadline, &queues[0], DriverOutcome::Accepted).unwrap();
    assert_eq!(
        wait(&mut device, fence, Some(250), WaitOutcome::TimedOut),
        Err(GfxError::TimeoutError)
    );
    let without_deadline = record(&device, b, b);
    let fence = submit(&mut device, without_deadline, &queues[0], DriverOutcome::Accepted).unwrap();
    assert_eq!(
        wait(&mut device, fence, None, WaitOutcome::TimedOut),
        Err(GfxError::DeviceLostError)
    );
}

#[test]
fn wait_reports_a_lost_device() {
    let (mut device, queues) = open_device();
    let a = device.allocate(BufferUsage::all(), true, vec![1, 2], DriverOutcome::Accepted).unwrap();
    let b = device.allocate(BufferUsage::all(), true, vec![3, 4], DriverOutcome::Accepted).unwrap();
    let command_buffer = record(&device, a, b);
    let fence = submit(&mut device, command_buffer, &queues[0], DriverOutcome::Accepted).unwrap();
    assert_eq!(
        wait(&mut device, fence, Some(250), WaitOutcome::DeviceLost),
        Err(GfxError::DeviceLostError)
    );
    // the copy is not known to have happened, and the buffers stay in flight
    assert!(device.in_flight(a.index));
    assert!(device.in_flight(b.index));
    let command_buffer = record(&device, a, a);
    let fence = submit(&mut device, command_buffer, &queues[0], DriverOutcome::Accepted);
    assert_eq!(fence.unwrap_err(), GfxError::SubmissionError);
}

#[test]
fn diagnostics_name_the_failed_step() {
    assert_eq!(GfxError::InstanceCreationError.diagnostic(), "failed to create Vulkan instance");
    assert_eq!(GfxError::NoDeviceAvailable.diagnostic(), "No device available");
    assert_eq!(
        GfxError::NoSuitableQueueFamily.diagnostic(),
        "couldn't find a graphical queue family"
    );
    assert_eq!(GfxError::DeviceOpenError.diagnostic(), "failed to create device");
    assert_eq!(GfxError::SurfaceCreationError.diagnostic(), "Failed to create Vulkan window");
    assert_eq!(GfxError::AllocationError.diagnostic(), "failed to create buffer");
    assert_eq!(GfxError::RecordingError.diagnostic(), "failed to record command buffer");
    assert_eq!(
        GfxError::IncompatibleBufferError.diagnostic(),
        "source and destination buffers are incompatible"
    );
    assert_eq!(GfxError::SubmissionError.diagnostic(), "failed to submit command buffer");
    assert_eq!(GfxError::TimeoutError.diagnostic(), "timed out waiting for the device");
    assert_eq!(GfxError::DeviceLostError.diagnostic(), "device lost");
}

#[test]
fn read_back_is_held_against_the_copied_contents() {
    let (mut device, queues) = open_device();
    let src =
        device.allocate(BufferUsage::all(), true, vec![5, 6, 7], DriverOutcome::Accepted).unwrap();
    let dst =
        device.allocate(BufferUsage::all(), true, vec![0, 0, 0], DriverOutcome::Accepted).unwrap();
    let hidden =
        device.allocate(BufferUsage::all(), false, vec![1, 2], DriverOutcome::Accepted).unwrap();
    assert_eq!(device.matches_read_back(&dst, &vec![0, 0, 0]), Some(true));
    let command_buffer = record(&device, src, dst);
    let fence = submit(&mut device, command_buffer, &queues[0], DriverOutcome::Accepted).unwrap();
    // in flight: nothing to hold the read-back against
    assert_eq!(device.matches_read_back(&dst, &vec![5, 6, 7]), None);
    assert_eq!(wait(&mut device, fence, None, WaitOutcome::Signaled), Ok(()));
    assert_eq!(device.matches_read_back(&dst, &vec![5, 6, 7]), Some(true));
    assert_eq!(device.matches_read_back(&dst, &vec![0, 0, 0]), Some(false));
    assert_eq!(device.matches_read_back(&dst, &vec![5, 6]), Some(false));
    assert_eq!(device.matches_read_back(&dst, &vec![5, 6, 7, 8]), Some(false));
    assert_eq!(device.matches_read_back(&dst, &vec![5, 7, 6]), Some(false));
    assert_eq!(device.matches_read_back(&src, &vec![5, 6, 7]), Some(true));
    // a buffer that the host does not see gives nothing to compare
    assert_eq!(device.matches_read_back(&hidden, &vec![1, 2]), None);
}
