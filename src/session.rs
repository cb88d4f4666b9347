//! Sessions, their frame loop, and swapchains.
use vstd::prelude::*;

use crate::enumerate::{failed, retain_written, written_prefix};
use crate::instance::{Instance, SUCCESS};
use crate::system::System;
use crate::types::UnsupportedBackend;

verus! {

/// The native status of a wait that ran out of time.
pub const TIMEOUT_EXPIRED: i32 = 1;

/// Why a session or swapchain operation was refused or failed.
#[derive(Debug, Clone, Copy, PartialEq, Eq, Structural)]
pub enum XrSessionError {
    /// A frame was begun while the previous one had not been ended.
    FrameAlreadyBegun,
    /// A frame was ended that had not been begun.
    FrameNotBegun,
    /// An image was waited on or released without being acquired.
    ImageNotAcquired,
    /// The wait's deadline passed; the caller may wait again.
    Timeout,
    /// The runtime failed the call with the carried native status code.
    InternalError(i32),
}

/// Everything the native session creation call is handed: the graphics
/// handles the session binds to, and the queue it submits on.
#[derive(Debug, Clone, Copy, PartialEq, Eq, Structural)]
pub struct SessionCreateInfo {
    /// The instance handle of the XR runtime.
    pub instance: u64,
    /// The XR system identifier.
    pub system_id: u64,
    /// The host graphics instance.
    pub graphics_instance: u64,
    /// The host physical device.
    pub physical_device: u64,
    /// The host logical device.
    pub device: u64,
    /// The queue family that frames are submitted on; always 0.
    pub queue_family_index: u32,
    /// The queue that frames are submitted on; always 0.
    pub queue_index: u32,
}

/// Packages the graphics handles for session creation, on the first queue of
/// the first queue family.
pub fn session_create_info(
    instance: &Instance,
    system: &System,
    graphics_instance: u64,
    physical_device: u64,
    device: u64,
) -> (r: SessionCreateInfo)
    requires
        instance@.live,
    ensures
        r == (SessionCreateInfo {
            instance: instance@.handle,
            system_id: system.system_id(),
            graphics_instance,
            physical_device,
            device,
            queue_family_index: 0,
            queue_index: 0,
        }),
{
    SessionCreateInfo {
        instance: instance.handle(),
        system_id: system.id(),
        graphics_instance,
        physical_device,
        device,
        queue_family_index: 0,
        queue_index: 0,
    }
}

/// A session: one native session handle, with the frame stream that
/// sequences its frames.
#[derive(Debug)]
pub struct Session {
    handle: u64,
    in_frame: bool,
}

/// One call of the frame state machine: whether a frame is open before it,
/// whether it begins (`true`) or ends (`false`) a frame; gives whether a
/// frame is open after it, and the call's outcome.
pub open spec fn frame_step(in_frame: bool, begin: bool) -> (bool, Result<(), XrSessionError>) {
    if begin {
        if in_frame {
            (true, Err(XrSessionError::FrameAlreadyBegun))
        } else {
            (true, Ok(()))
        }
    } else {
        if in_frame {
            (false, Ok(()))
        } else {
            (false, Err(XrSessionError::FrameNotBegun))
        }
    }
}

/// Runs a sequence of begin (`true`) and end (`false`) calls from a session
/// with no open frame; gives whether a frame is open after them, and whether
/// every call was accepted.
pub open spec fn frame_run(calls: Seq<bool>) -> (bool, bool)
    decreases calls.len(),
{
    if calls.len() == 0 {
        (false, true)
    } else {
        let (open, accepted) = frame_run(calls.drop_last());
        let (next, outcome) = frame_step(open, calls.last());
        (next, accepted && outcome is Ok)
    }
}

/// Whether `calls` strictly alternates begin and end, starting with a begin.
pub open spec fn alternates(calls: Seq<bool>) -> bool {
    forall|i: int| 0 <= i < calls.len() ==> #[trigger] calls[i] == (i % 2 == 0)
}

impl Session {
    /// Finishes session creation from the native results.
    pub fn from_native(create_status: i32, handle: u64) -> (r: Result<Session, XrSessionError>)
        ensures
            create_status == SUCCESS ==> r is Ok && r->Ok_0.handle() == handle
                && !r->Ok_0.in_frame(),
            create_status != SUCCESS ==> r == Err::<Session, _>(
                XrSessionError::InternalError(create_status),
            ),
    {
        if create_status == SUCCESS {
            Ok(Session { handle, in_frame: false })
        } else {
            Err(XrSessionError::InternalError(create_status))
        }
    }

    /// The native session handle.
    pub closed spec fn handle(&self) -> u64 {
        self.handle
    }

    /// Whether a frame has been begun and not yet ended.
    pub closed spec fn in_frame(&self) -> bool {
        self.in_frame
    }

    /// The native session handle.
    pub fn raw_handle(&self) -> (r: u64)
        ensures
            r == self.handle(),
    {
        self.handle
    }

    /// Whether a frame has been begun and not yet ended.
    pub fn is_in_frame(&self) -> (r: bool)
        ensures
            r == self.in_frame(),
    {
        self.in_frame
    }

    /// Begins a frame. Refused while the previous frame is still open; on
    /// success the caller waits for and begins the native frame.
    pub fn begin_frame_stream(&mut self) -> (r: Result<(), XrSessionError>)
        ensures
            final(self).handle() == old(self).handle(),
            (final(self).in_frame(), r) == frame_step(old(self).in_frame(), true),
    {
        if self.in_frame {
            Err(XrSessionError::FrameAlreadyBegun)
        } else {
            self.in_frame = true;
            Ok(())
        }
    }

    /// Ends the open frame. Refused when no frame is open; on success the
    /// caller submits the frame's layers natively.
    pub fn end_frame_stream(&mut self) -> (r: Result<(), XrSessionError>)
        ensures
            final(self).handle() == old(self).handle(),
            (final(self).in_frame(), r) == frame_step(old(self).in_frame(), false),
    {
        if self.in_frame {
            self.in_frame = false;
            Ok(())
        } else {
            Err(XrSessionError::FrameNotBegun)
        }
    }
}

/// From a session with no open frame, a sequence of begin and end calls is
/// accepted in full exactly when it alternates strictly, starting with a
/// begin: an end with no open frame, and a second begin before an end, are
/// both refused.
pub proof fn lemma_frames_alternate(calls: Seq<bool>)
    ensures
        frame_run(calls).1 <==> alternates(calls),
        frame_run(calls).1 ==> frame_run(calls).0 == (calls.len() % 2 == 1),
    decreases calls.len(),
{
    if calls.len() > 0 {
        let prefix = calls.drop_last();
        lemma_frames_alternate(prefix);
        if alternates(calls) {
            assert forall|i: int| 0 <= i < prefix.len() implies #[trigger] prefix[i] == (i % 2
                == 0) by {
                assert(calls[i] == (i % 2 == 0));
            }
            assert(calls[calls.len() - 1] == ((calls.len() - 1) % 2 == 0));
        }
        if frame_run(calls).1 {
            assert forall|i: int| 0 <= i < calls.len() implies #[trigger] calls[i] == (i % 2
                == 0) by {
                if i < prefix.len() {
                    assert(prefix[i] == (i % 2 == 0));
                }
            }
        }
    }
}

/// The view state bit that marks a located orientation as valid.
pub const ORIENTATION_VALID: u64 = 0x1;

/// The view state bit that marks a located position as valid.
pub const POSITION_VALID: u64 = 0x2;

/// Whether the views located with these view state flags carry a pose that
/// may be trusted: both its orientation and its position are valid. Tracking
/// may be lost for a while, and then they are not.
pub fn views_valid(view_state_flags: u64) -> (r: bool)
    ensures
        r == (view_state_flags & ORIENTATION_VALID != 0 && view_state_flags & POSITION_VALID != 0),
{
    view_state_flags & ORIENTATION_VALID != 0 && view_state_flags & POSITION_VALID != 0
}

/// A swapchain: the images the runtime allocated for it, and the image
/// acquired for the current frame.
#[derive(Debug)]
pub struct Swapchain {
    handle: u64,
    images: Vec<u64>,
    acquired: Option<u32>,
    ready: bool,
}

impl Swapchain {
    /// Sets up a swapchain from the answer to the native image query: only
    /// the images the runtime wrote are kept.
    pub fn from_native(handle: u64, fill_status: i32, buffer: Vec<u64>, written_count: u32) -> (r:
        Result<Swapchain, UnsupportedBackend>)
        ensures
            r is Err <==> failed(fill_status),
            r is Ok ==> {
                let s = r->Ok_0;
                &&& s.handle() == handle
                &&& s.images() == written_prefix(buffer@, written_count)
                &&& s.acquired() is None
                &&& !s.ready()
            },
    {
        let images = retain_written(fill_status, buffer, written_count)?;
        Ok(Swapchain { handle, images, acquired: None, ready: false })
    }

    /// The native swapchain handle.
    pub closed spec fn handle(&self) -> u64 {
        self.handle
    }

    /// The images of the swapchain, fixed at creation.
    pub closed spec fn images(&self) -> Seq<u64> {
        self.images@
    }

    /// The index of the image acquired for the current frame, if any.
    pub closed spec fn acquired(&self) -> Option<u32> {
        self.acquired
    }

    /// Whether the acquired image may be written.
    pub closed spec fn ready(&self) -> bool {
        self.ready
    }

    /// The images of the swapchain, fixed at creation.
    pub fn enumerate_images(&self) -> (r: &Vec<u64>)
        ensures
            r@ == self.images(),
    {
        &self.images
    }

    /// Records the native result of acquiring an image and returns its index.
    /// A failed call, or an index outside the image set, is an internal error.
    pub fn acquire_image(&mut self, status: i32, index: u32) -> (r: Result<u32, XrSessionError>)
        ensures
            final(self).handle() == old(self).handle(),
            final(self).images() == old(self).images(),
            failed(status) ==> r == Err::<u32, _>(XrSessionError::InternalError(status))
                && final(self).acquired() == old(self).acquired() && final(self).ready() == old(
                self,
            ).ready(),
            !failed(status) && index < old(self).images().len() ==> r == Ok::<u32, XrSessionError>(
                index,
            ) && final(self).acquired() == Some(index) && !final(self).ready(),
            !failed(status) && index >= old(self).images().len() ==> r == Err::<
                u32,
                XrSessionError,
            >(XrSessionError::InternalError(status)) && final(self).acquired() == old(
                self,
            ).acquired() && final(self).ready() == old(self).ready(),
    {
        if status < 0 || index as usize >= self.images.len() {
            return Err(XrSessionError::InternalError(status));
        }
        self.acquired = Some(index);
        self.ready = false;
        Ok(index)
    }

    /// Records the native result of waiting on the acquired image. A timeout
    /// is reported as `Timeout` and leaves the image acquired, so the caller
    /// may wait again.
    pub fn wait_image(&mut self, status: i32) -> (r: Result<(), XrSessionError>)
        ensures
            final(self).handle() == old(self).handle(),
            final(self).images() == old(self).images(),
            final(self).acquired() == old(self).acquired(),
            old(self).acquired() is None ==> r == Err::<(), _>(XrSessionError::ImageNotAcquired)
                && final(self).ready() == old(self).ready(),
            old(self).acquired() is Some ==> {
                &&& status == TIMEOUT_EXPIRED ==> r == Err::<(), _>(XrSessionError::Timeout)
                &&& failed(status) ==> r == Err::<(), _>(XrSessionError::InternalError(status))
                &&& status == SUCCESS ==> r == Ok::<(), XrSessionError>(())
                &&& status != TIMEOUT_EXPIRED && !failed(status) && status != SUCCESS ==> r
                    == Err::<(), _>(XrSessionError::InternalError(status))
                &&& final(self).ready() == (r is Ok)
            },
    {
        if self.acquired.is_none() {
            return Err(XrSessionError::ImageNotAcquired);
        }
        if status == SUCCESS {
            self.ready = true;
            Ok(())
        } else if status == TIMEOUT_EXPIRED {
            self.ready = false;
            Err(XrSessionError::Timeout)
        } else {
            self.ready = false;
            Err(XrSessionError::InternalError(status))
        }
    }

    /// Hands the acquired image back; the caller releases it natively.
    pub fn release_image(&mut self) -> (r: Result<u32, XrSessionError>)
        ensures
            final(self).handle() == old(self).handle(),
            final(self).images() == old(self).images(),
            final(self).acquired() is None,
            !final(self).ready(),
            match old(self).acquired() {
                Some(i) => r == Ok::<u32, XrSessionError>(i),
                None => r == Err::<u32, _>(XrSessionError::ImageNotAcquired),
            },
    {
        let r = match self.acquired {
            Some(i) => Ok(i),
            None => Err(XrSessionError::ImageNotAcquired),
        };
        self.acquired = None;
        self.ready = false;
        r
    }
}

} // verus!
