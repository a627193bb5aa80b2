//! Recording of the copy command into a command buffer.

use crate::buffer::Buffer;
use crate::device::LogicalDevice;
use crate::driver::DriverOutcome;
use crate::error::GfxError;
use vstd::prelude::*;

verus! {

/// A copy of the whole of one buffer into another.
#[derive(Clone, Copy, Debug, PartialEq, Eq, Structural)]
pub struct CopyCommand {
    pub src: Buffer,
    pub dst: Buffer,
}

/// Whether `src` can be copied into `dst`: both hold the same number of
/// elements, `src` may be read by a transfer and `dst` written by one.
pub open spec fn copy_compatible(src: Buffer, dst: Buffer) -> bool {
    &&& src.len == dst.len
    &&& src.usage.transfer_source
    &&& dst.usage.transfer_destination
}

/// Whether every copy of `commands` is between compatible buffers.
pub open spec fn commands_compatible(commands: Seq<CopyCommand>) -> bool {
    forall|i: int|
        0 <= i < commands.len() ==> copy_compatible((#[trigger] commands[i]).src, commands[i].dst)
}

/// Whether `src` can be copied into `dst`.
pub fn can_copy(src: &Buffer, dst: &Buffer) -> (b: bool)
    ensures
        b == copy_compatible(*src, *dst),
{
    src.len == dst.len && src.usage.transfer_source && dst.usage.transfer_destination
}

/// A command buffer that is being recorded.
#[derive(Debug)]
pub struct CommandBufferBuilder {
    queue_family: usize,
    commands: Vec<CopyCommand>,
}

/// The state of a recording.
pub struct BuilderView {
    /// The queue family that the commands are recorded for.
    pub queue_family: usize,
    /// The commands recorded so far, in order.
    pub commands: Seq<CopyCommand>,
}

impl View for CommandBufferBuilder {
    type V = BuilderView;

    closed spec fn view(&self) -> BuilderView {
        BuilderView { queue_family: self.queue_family, commands: self.commands@ }
    }
}

/// A recorded command buffer. It holds one copy and does not change any more.
#[derive(Debug)]
pub struct CommandBuffer {
    queue_family: usize,
    copy: CopyCommand,
}

/// What a recorded command buffer holds.
pub struct CommandBufferView {
    /// The queue family that the command buffer was recorded for.
    pub queue_family: usize,
    /// The copy that it carries out.
    pub copy: CopyCommand,
}

impl View for CommandBuffer {
    type V = CommandBufferView;

    closed spec fn view(&self) -> CommandBufferView {
        CommandBufferView { queue_family: self.queue_family, copy: self.copy }
    }
}

impl CommandBufferBuilder {
    /// Every copy of a recording is between compatible buffers.
    #[verifier::type_invariant]
    pub open spec fn inv(self) -> bool {
        commands_compatible(self@.commands)
    }

    /// Starts a recording on `device` for the queue family at `queue_family`.
    #[allow(unused_variables)]
    pub fn begin(device: &LogicalDevice, queue_family: usize) -> (builder: CommandBufferBuilder)
        ensures
            builder@ == (BuilderView { queue_family, commands: Seq::empty() }),
    {
        CommandBufferBuilder { queue_family, commands: Vec::new() }
    }

    /// Records a copy of `src` into `dst`. A buffer may be copied onto itself.
    ///
    /// The copy is refused, and nothing recorded, when the two buffers differ
    /// in their element counts, when `src` lacks the flag for being read by a
    /// transfer, or when `dst` lacks the flag for being written by one.
    pub fn copy(self, src: Buffer, dst: Buffer) -> (r: Result<CommandBufferBuilder, GfxError>)
        ensures
            r is Ok <==> copy_compatible(src, dst),
            match r {
                Ok(builder) => builder@ == (BuilderView {
                    queue_family: self@.queue_family,
                    commands: self@.commands.push(CopyCommand { src, dst }),
                }),
                Err(e) => e == GfxError::IncompatibleBufferError,
            },
    {
        proof {
            use_type_invariant(&self);
        }
        if !can_copy(&src, &dst) {
            return Err(GfxError::IncompatibleBufferError);
        }
        let queue_family = self.queue_family;
        let mut commands = self.commands;
        commands.push(CopyCommand { src, dst });
        Ok(CommandBufferBuilder { queue_family, commands })
    }

    /// Ends the recording. A command buffer comes out when exactly one copy
    /// was recorded and the driver goes along.
    pub fn build(self, driver: DriverOutcome) -> (r: Result<CommandBuffer, GfxError>)
        ensures
            r is Ok <==> self@.commands.len() == 1 && driver == DriverOutcome::Accepted,
            match r {
                Ok(command_buffer) => command_buffer@ == (CommandBufferView {
                    queue_family: self@.queue_family,
                    copy: self@.commands[0],
                }),
                Err(e) => e == GfxError::RecordingError,
            },
    {
        proof {
            use_type_invariant(&self);
        }
        if self.commands.len() != 1 {
            return Err(GfxError::RecordingError);
        }
        match driver {
            DriverOutcome::Rejected => Err(GfxError::RecordingError),
            DriverOutcome::Accepted => Ok(
                CommandBuffer { queue_family: self.queue_family, copy: self.commands[0] },
            ),
        }
    }
}

impl CommandBuffer {
    /// The copy of a command buffer is between compatible buffers.
    #[verifier::type_invariant]
    pub open spec fn inv(self) -> bool {
        copy_compatible(self@.copy.src, self@.copy.dst)
    }

    /// The queue family that the command buffer was recorded for.
    pub fn queue_family(&self) -> (f: usize)
        ensures
            f == self@.queue_family,
    {
        self.queue_family
    }

    /// The copy that the command buffer carries out. Its two buffers are
    /// compatible: no command buffer holds a copy between buffers that are not.
    pub fn command(&self) -> (c: CopyCommand)
        ensures
            c == self@.copy,
            copy_compatible(c.src, c.dst),
    {
        proof {
            use_type_invariant(self);
        }
        self.copy
    }
}

/// Two buffers of different element counts are never compatible, whatever
/// their usage flags: no copy between them is recorded, and so none submitted.
pub proof fn lemma_size_mismatch_is_incompatible(src: Buffer, dst: Buffer)
    requires
        src.len != dst.len,
    ensures
        !copy_compatible(src, dst),
{
}

} // verus!
