//! Ordered collection of frames and the command sequence that uploads
//! them: one reset command, then one send-frame command per frame, in
//! input order.
//!
//! The reset command must be sent and acknowledged (error code zero)
//! before any send-frame command of a new animation is issued; a session
//! that sees a nonzero reset response must not send any frame.

use crate::commands::ResetGifIdRequest;
use crate::commands::SendAnimationRequest;
use crate::commands::is_frame_command;
use crate::frame::Frame;
use vstd::prelude::*;

verus! {

/// The ordered frames of one animation, collected before upload.
pub struct AnimationBuilder {
    frames: Vec<Frame>,
}

impl AnimationBuilder {
    /// The frames collected so far, in input order.
    pub closed spec fn frames_seq(&self) -> Seq<Frame> {
        self.frames@
    }

    /// Every collected frame is a well-formed 64x64 buffer.
    pub open spec fn wf(&self) -> bool {
        forall|i: int| 0 <= i < self.frames_seq().len() ==> (#[trigger] self.frames_seq()[i]).wf()
    }

    /// An empty builder; `frame_count` only sizes the allocation.
    pub fn new(frame_count: usize) -> (r: AnimationBuilder)
        ensures
            r.wf(),
            r.frames_seq() == Seq::<Frame>::empty(),
    {
        let frames = Vec::with_capacity(frame_count);
        let r = AnimationBuilder { frames };
        proof {
            assert(r.frames_seq() =~= Seq::<Frame>::empty());
        }
        r
    }

    /// Append one frame after all frames added so far.
    pub fn add_frame(&mut self, frame: Frame)
        requires
            old(self).wf(),
            frame.wf(),
        ensures
            final(self).wf(),
            final(self).frames_seq() == old(self).frames_seq().push(frame),
    {
        self.frames.push(frame);
    }

    /// The collected frames, for building the upload commands.
    pub fn frames(&self) -> (r: &Vec<Frame>)
        ensures
            r@ == self.frames_seq(),
    {
        &self.frames
    }
}

/// The complete command sequence of one animation upload.
pub struct AnimationPlan {
    /// Sent first; the upload continues only if the device acknowledges
    /// it with error code zero.
    pub reset: ResetGifIdRequest,
    /// One send-frame command per input frame, in input order.
    pub commands: Vec<SendAnimationRequest>,
}

impl AnimationPlan {
    /// Build the upload for `frames`: the reset command, then exactly
    /// one send-frame command per frame, in input order, every command
    /// carrying the full frame count and its own zero-based offset.
    pub fn build(frames: &Vec<Frame>) -> (p: AnimationPlan)
        requires
            forall|i: int| 0 <= i < frames@.len() ==> (#[trigger] frames@[i]).wf(),
        ensures
            p.reset.command@ == "Draw/ResetHttpGifId"@,
            p.commands@.len() == frames@.len(),
            forall|i: int|
                0 <= i < frames@.len() ==> is_frame_command(
                    #[trigger] p.commands@[i],
                    frames@[i]@,
                    i,
                    frames@.len() as int,
                ),
    {
        AnimationPlan {
            reset: ResetGifIdRequest::new(),
            commands: SendAnimationRequest::multi_frame(frames),
        }
    }
}

} // verus!
