//! The assembly of one frame from one sample, as a sequence of decisions.
//!
//! The driver performs each step that [`Assembler::step`] names on the real
//! pixel buffer and reports the outcome through the matching method. The
//! assembler decides what comes next, when no frame is due, and builds the
//! frame from the copied planes. Each lock it asks for is released before it
//! reaches [`Step::Finished`].

use vstd::prelude::*;
use crate::convert::{
    bgra_to_rgb, convert_bgra_to_rgb, crop_rows, cropped, remove_alpha_channel, without_alpha,
};
use crate::frame::{BGRAFrame, BGRFrame, Frame, RGBFrame, YUVFrame};
use crate::status::{complete, is_frame_complete, FrameStatusInfo, FRAME_STATUS_COMPLETE};

verus! {

/// The output format of an assembly.
#[derive(Debug, Clone, Copy, PartialEq, Eq, Structural)]
pub enum PixelFormat {
    /// Biplanar luma and chroma, copied with their strides.
    YUV,
    /// Packed, cropped, alpha dropped.
    BGR,
    /// Packed, cropped.
    BGRA,
    /// Packed, cropped, reordered to R, G, B.
    RGB,
}

/// What the driver does next.
#[derive(Debug, Clone, Copy, PartialEq, Eq, Structural)]
pub enum Step {
    /// Read the sample's frame-status metadata.
    ReadStatus,
    /// Lock the pixel buffer.
    Lock,
    /// Read the buffer's width and height.
    ReadBounds,
    /// Copy the planes, each as many bytes as `plane_len` gives.
    CopyPlanes,
    /// Unlock the pixel buffer.
    Unlock,
    /// Nothing: the assembly is over.
    Finished,
}

/// One plane as copied out of the locked buffer.
#[derive(Debug, Clone)]
pub struct Plane {
    pub stride: usize,
    pub bytes: Vec<u8>,
}

/// The state of one assembly.
#[derive(Debug, Clone, Copy)]
pub struct Assembler {
    pub format: PixelFormat,
    pub display_time: u64,
    pub step: Step,
    pub width: usize,
    pub height: usize,
    /// How many times the buffer was locked.
    pub locks: u8,
    /// How many times the buffer was unlocked.
    pub unlocks: u8,
    /// Whether the buffer's bounds were read.
    pub bounds_read: bool,
    /// Whether a frame was built.
    pub frame_made: bool,
}

/// Where an assembly of `format` begins.
pub open spec fn first_step(format: PixelFormat) -> Step {
    if format is YUV {
        Step::ReadStatus
    } else {
        Step::Lock
    }
}

/// The number of bytes copied from plane `index` with row stride `stride`:
/// the whole luma or packed plane, half the rows' worth of chroma.
pub open spec fn plane_bytes(index: nat, height: nat, stride: nat) -> nat {
    if index == 0 {
        height * stride
    } else {
        height * stride / 2
    }
}

impl Assembler {
    /// The state before any step.
    pub open spec fn initial(format: PixelFormat, display_time: u64) -> Assembler {
        Assembler {
            format,
            display_time,
            step: first_step(format),
            width: 0,
            height: 0,
            locks: 0,
            unlocks: 0,
            bounds_read: false,
            frame_made: false,
        }
    }

    /// The lock is taken at most once, never released more often than taken,
    /// and released before the end; geometry is read only under the lock,
    /// and a frame is built only from non-empty bounds.
    pub open spec fn wf(self) -> bool {
        &&& self.locks <= 1
        &&& self.unlocks <= self.locks
        &&& (self.frame_made ==> self.bounds_read && self.width > 0 && self.height > 0)
        &&& match self.step {
            Step::ReadStatus => self.format is YUV && self.locks == 0 && !self.bounds_read
                && !self.frame_made,
            Step::Lock => self.locks == 0 && !self.bounds_read && !self.frame_made,
            Step::ReadBounds => self.locks == 1 && self.unlocks == 0 && !self.bounds_read
                && !self.frame_made,
            Step::CopyPlanes => self.locks == 1 && self.unlocks == 0 && self.bounds_read
                && self.width > 0 && self.height > 0 && !self.frame_made,
            Step::Unlock => self.locks == 1 && self.unlocks == 0 && self.bounds_read,
            Step::Finished => self.locks == self.unlocks,
        }
    }

    pub open spec fn after_status(self, info: FrameStatusInfo) -> Assembler {
        Assembler {
            step: if complete(info) {
                Step::Lock
            } else {
                Step::Finished
            },
            ..self
        }
    }

    pub open spec fn after_locked(self) -> Assembler {
        Assembler { step: Step::ReadBounds, locks: (self.locks + 1) as u8, ..self }
    }

    pub open spec fn after_bounds(self, width: usize, height: usize) -> Assembler {
        Assembler {
            step: if width == 0 || height == 0 {
                Step::Unlock
            } else {
                Step::CopyPlanes
            },
            width,
            height,
            bounds_read: true,
            ..self
        }
    }

    pub open spec fn after_planes(self) -> Assembler {
        Assembler { step: Step::Unlock, frame_made: true, ..self }
    }

    pub open spec fn after_unlocked(self) -> Assembler {
        Assembler { step: Step::Finished, unlocks: (self.unlocks + 1) as u8, ..self }
    }

    /// The planes that a copy under these bounds must hand over: one packed
    /// plane wide enough for `width` four-byte pixels, or luma and chroma;
    /// each of the length `plane_bytes` gives, width and height fit an `i32`, and
    /// so do the biplanar strides, which the frame keeps.
    pub open spec fn planes_ok(self, planes: Seq<Plane>) -> bool {
        &&& self.width <= i32::MAX
        &&& self.height <= i32::MAX
        &&& planes.len() == if self.format is YUV { 2int } else { 1int }
        &&& forall|i: int|
            0 <= i < planes.len() ==> {
                &&& (self.format is YUV ==> #[trigger] planes[i].stride <= i32::MAX)
                &&& self.height * planes[i].stride <= usize::MAX
                &&& planes[i].bytes@.len() == plane_bytes(i as nat, self.height as nat, planes[i].stride as nat)
            }
        &&& (!(self.format is YUV) ==> 4 * self.width <= planes[0].stride)
    }

    /// The frame that these planes give.
    pub open spec fn frame_of(self, planes: Seq<Plane>, f: Frame) -> bool {
        let packed = cropped(planes[0].bytes@, planes[0].stride as nat, 4 * self.width as nat, self.height as nat);
        let t = self.display_time;
        let w = self.width as i32;
        let h = self.height as i32;
        match self.format {
            PixelFormat::YUV => f is YUV && f->YUV_0.display_time == t && f->YUV_0.width == w
                && f->YUV_0.height == h
                && f->YUV_0.luminance_bytes@ == planes[0].bytes@
                && f->YUV_0.luminance_stride == planes[0].stride as i32
                && f->YUV_0.chrominance_bytes@ == planes[1].bytes@
                && f->YUV_0.chrominance_stride == planes[1].stride as i32,
            PixelFormat::BGR => f is BGR && f->BGR_0.display_time == t && f->BGR_0.width == w
                && f->BGR_0.height == h && f->BGR_0.data@ == without_alpha(packed),
            PixelFormat::BGRA => f is BGRA && f->BGRA_0.display_time == t && f->BGRA_0.width == w
                && f->BGRA_0.height == h && f->BGRA_0.data@ == packed,
            PixelFormat::RGB => f is RGB && f->RGB_0.display_time == t && f->RGB_0.width == w
                && f->RGB_0.height == h && f->RGB_0.data@ == bgra_to_rgb(packed),
        }
    }

    /// Starts an assembly of `format` for a sample shown at `display_time`.
    pub fn new(format: PixelFormat, display_time: u64) -> (r: Assembler)
        ensures
            r == Assembler::initial(format, display_time),
            r.wf(),
    {
        let step = match format {
            PixelFormat::YUV => Step::ReadStatus,
            _ => Step::Lock,
        };
        Assembler {
            format,
            display_time,
            step,
            width: 0,
            height: 0,
            locks: 0,
            unlocks: 0,
            bounds_read: false,
            frame_made: false,
        }
    }

    /// The frame status was read: go on to lock only if the frame is complete.
    pub fn on_status(&mut self, info: &FrameStatusInfo)
        requires
            old(self).wf(),
            old(self).step == Step::ReadStatus,
        ensures
            *final(self) == old(self).after_status(*info),
            final(self).wf(),
    {
        if is_frame_complete(info) {
            self.step = Step::Lock;
        } else {
            self.step = Step::Finished;
        }
    }

    /// The buffer was locked: read its bounds next.
    pub fn on_locked(&mut self)
        requires
            old(self).wf(),
            old(self).step == Step::Lock,
        ensures
            *final(self) == old(self).after_locked(),
            final(self).wf(),
    {
        self.locks = self.locks + 1;
        self.step = Step::ReadBounds;
    }

    /// The bounds were read: with a zero dimension no frame is due and the
    /// buffer is unlocked at once; otherwise the planes are copied.
    pub fn on_bounds(&mut self, width: usize, height: usize)
        requires
            old(self).wf(),
            old(self).step == Step::ReadBounds,
        ensures
            *final(self) == old(self).after_bounds(width, height),
            final(self).wf(),
    {
        self.width = width;
        self.height = height;
        self.bounds_read = true;
        if width == 0 || height == 0 {
            self.step = Step::Unlock;
        } else {
            self.step = Step::CopyPlanes;
        }
    }

    /// How many bytes to copy from plane `index` whose rows are `stride`
    /// bytes apart, or `None` where `height * stride` does not fit a `usize`.
    pub fn plane_len(&self, index: usize, stride: usize) -> (r: Option<usize>)
        ensures
            r == (if self.height * stride <= usize::MAX {
                Some(plane_bytes(index as nat, self.height as nat, stride as nat) as usize)
            } else {
                None::<usize>
            }),
    {
        match self.height.checked_mul(stride) {
            Some(n) => if index == 0 {
                Some(n)
            } else {
                Some(n / 2)
            },
            None => None,
        }
    }

    /// Whether `planes` is what a copy under these bounds must hand over.
    pub fn planes_fit(&self, planes: &Vec<Plane>) -> (r: bool)
        ensures
            r == self.planes_ok(planes@),
    {
        if self.width > i32::MAX as usize || self.height > i32::MAX as usize {
            return false;
        }
        let count: usize = match self.format {
            PixelFormat::YUV => 2,
            _ => 1,
        };
        if planes.len() != count {
            return false;
        }
        let mut i: usize = 0;
        while i < count
            invariant
                i <= count,
                count == planes@.len(),
                forall|k: int|
                    0 <= k < i ==> {
                        &&& (self.format is YUV ==> #[trigger] planes@[k].stride <= i32::MAX)
                        &&& self.height * planes@[k].stride <= usize::MAX
                        &&& planes@[k].bytes@.len() == plane_bytes(k as nat, self.height as nat, planes@[k].stride as nat)
                    },
            decreases count - i,
        {
            let p = &planes[i];
            match self.format {
                PixelFormat::YUV => if p.stride > i32::MAX as usize {
                    return false;
                },
                _ => {},
            }
            match self.plane_len(i, p.stride) {
                Some(n) => if p.bytes.len() != n {
                    return false;
                },
                None => {
                    return false;
                },
            }
            i = i + 1;
        }
        match self.format {
            PixelFormat::YUV => true,
            _ => self.width <= planes[0].stride / 4,
        }
    }

    /// The planes were copied: build the frame, then unlock.
    pub fn on_planes(&mut self, planes: Vec<Plane>) -> (r: Frame)
        requires
            old(self).wf(),
            old(self).step == Step::CopyPlanes,
            old(self).planes_ok(planes@),
        ensures
            *final(self) == old(self).after_planes(),
            final(self).wf(),
            old(self).frame_of(planes@, r),
    {
        let t = self.display_time;
        let w = self.width as i32;
        let h = self.height as i32;
        proof {
            if !(self.format is YUV) {
                let len = cropped(planes@[0].bytes@, planes@[0].stride as nat, 4 * self.width as nat, self.height as nat).len();
                crate::convert::crop_keeps_row_starts(planes@[0].bytes@, planes@[0].stride as nat, self.width as nat, self.height as nat);
                let hw = self.height * self.width;
                assert(len == 4 * hw) by (nonlinear_arith)
                    requires len == self.height * (4 * self.width), hw == self.height * self.width;
                assert(len % 4 == 0);
            }
        }
        let frame = match self.format {
            PixelFormat::YUV => Frame::YUV(YUVFrame {
                display_time: t,
                width: w,
                height: h,
                luminance_bytes: planes[0].bytes.clone(),
                luminance_stride: planes[0].stride as i32,
                chrominance_bytes: planes[1].bytes.clone(),
                chrominance_stride: planes[1].stride as i32,
            }),
            PixelFormat::BGR => {
                let packed = crop_rows(&planes[0].bytes, planes[0].stride, self.width, self.height);
                Frame::BGR(BGRFrame { display_time: t, width: w, height: h, data: remove_alpha_channel(&packed) })
            },
            PixelFormat::BGRA => {
                let packed = crop_rows(&planes[0].bytes, planes[0].stride, self.width, self.height);
                Frame::BGRA(BGRAFrame { display_time: t, width: w, height: h, data: packed })
            },
            PixelFormat::RGB => {
                let packed = crop_rows(&planes[0].bytes, planes[0].stride, self.width, self.height);
                Frame::RGB(RGBFrame { display_time: t, width: w, height: h, data: convert_bgra_to_rgb(&packed) })
            },
        };
        self.frame_made = true;
        self.step = Step::Unlock;
        frame
    }

    /// The buffer was unlocked: the assembly is over.
    pub fn on_unlocked(&mut self)
        requires
            old(self).wf(),
            old(self).step == Step::Unlock,
        ensures
            *final(self) == old(self).after_unlocked(),
            final(self).wf(),
    {
        self.unlocks = self.unlocks + 1;
        self.step = Step::Finished;
    }
}

/// The state after the buffer of an assembly of `format` was locked, on the
/// way through a complete frame status where the format checks one.
pub open spec fn locked_state(format: PixelFormat, display_time: u64) -> Assembler {
    let start = Assembler::initial(format, display_time);
    if format is YUV {
        start.after_status(FrameStatusInfo::Status { value: FRAME_STATUS_COMPLETE }).after_locked()
    } else {
        start.after_locked()
    }
}

/// Bounds with a zero width or height give no frame, whatever the format: the
/// next step is the unlock, and the assembly ends with the buffer locked once
/// and unlocked once.
pub proof fn zero_bounds_give_no_frame(
    format: PixelFormat,
    display_time: u64,
    width: usize,
    height: usize,
)
    requires
        width == 0 || height == 0,
    ensures
        locked_state(format, display_time).after_bounds(width, height).step == Step::Unlock,
        ({
            let done = locked_state(format, display_time).after_bounds(width, height).after_unlocked();
            &&& done.step == Step::Finished
            &&& !done.frame_made
            &&& done.locks == 1
            &&& done.unlocks == 1
        }),
{
}

/// A biplanar assembly whose status metadata is not complete, as when the
/// attachment array is empty, ends at once: the buffer is never locked and
/// its bounds are never read.
pub proof fn incomplete_status_reads_no_geometry(display_time: u64, info: FrameStatusInfo)
    requires
        !complete(info),
    ensures
        ({
            let done = Assembler::initial(PixelFormat::YUV, display_time).after_status(info);
            &&& done.step == Step::Finished
            &&& done.locks == 0
            &&& !done.bounds_read
            &&& !done.frame_made
        }),
{
}

/// A finished assembly has released every lock that it took, and took at
/// most one.
pub proof fn finished_releases_lock(a: Assembler)
    requires
        a.wf(),
        a.step == Step::Finished,
    ensures
        a.locks == a.unlocks,
        a.locks <= 1,
{
}

} // verus!
