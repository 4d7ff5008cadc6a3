//! What the driver reports about one physical device, as plain values.
//!
//! A candidate is filled once, at enumeration time, and never refers back to
//! the driver: the selection works on owned data only.

use vstd::prelude::*;

verus! {

/// How finished frames are handed to the display.
#[derive(Clone, Copy, Debug, PartialEq, Eq)]
pub enum PresentMode {
    /// Frames are shown at once, without waiting for the vertical blank.
    Immediate,
    /// A one-entry queue whose entry is replaced by each newer frame.
    Mailbox,
    /// An ordered queue that is emptied at the pace of the vertical blank.
    Fifo,
    /// Like `Fifo`, but a late frame is shown at once.
    Relaxed,
}

/// The set of present modes that a device offers on the surface.
#[derive(Clone, Copy, Debug, PartialEq, Eq)]
pub struct PresentModes {
    pub immediate: bool,
    pub mailbox: bool,
    pub fifo: bool,
    pub relaxed: bool,
}

impl PresentModes {
    /// Whether `mode` belongs to the set.
    pub open spec fn contains(self, mode: PresentMode) -> bool {
        match mode {
            PresentMode::Immediate => self.immediate,
            PresentMode::Mailbox => self.mailbox,
            PresentMode::Fifo => self.fifo,
            PresentMode::Relaxed => self.relaxed,
        }
    }

    /// Tells whether the device offers `mode`.
    pub fn supports(&self, mode: PresentMode) -> (supported: bool)
        ensures
            supported == self.contains(mode),
    {
        match mode {
            PresentMode::Immediate => self.immediate,
            PresentMode::Mailbox => self.mailbox,
            PresentMode::Fifo => self.fifo,
            PresentMode::Relaxed => self.relaxed,
        }
    }
}

/// One pixel format of the surface, by the numbers that the graphics API
/// gives to the format and to its colour space.
#[derive(Clone, Copy, Debug, PartialEq, Eq)]
pub struct SurfaceFormat {
    pub format: u32,
    pub color_space: u32,
}

/// What a device answered when asked how it can present to the surface.
#[derive(Clone, Debug, PartialEq, Eq)]
pub struct SurfaceCapabilities {
    /// The pixel formats in which the device can present to the surface.
    pub supported_formats: Vec<SurfaceFormat>,
    /// The present modes that the device offers on the surface.
    pub present_modes: PresentModes,
}

/// The mathematical content of a [`SurfaceCapabilities`].
pub struct SurfaceCapabilitiesView {
    pub supported_formats: Seq<SurfaceFormat>,
    pub present_modes: PresentModes,
}

impl View for SurfaceCapabilities {
    type V = SurfaceCapabilitiesView;

    open spec fn view(&self) -> SurfaceCapabilitiesView {
        SurfaceCapabilitiesView {
            supported_formats: self.supported_formats@,
            present_modes: self.present_modes,
        }
    }
}

impl SurfaceCapabilitiesView {
    /// The device can keep a swapchain on the surface: it offers the
    /// vsync-paced `Fifo` mode and at least one pixel format.
    pub open spec fn presentable(self) -> bool {
        &&& self.present_modes.contains(PresentMode::Fifo)
        &&& self.supported_formats.len() >= 1
    }
}

impl SurfaceCapabilities {
    /// Decides whether the device can keep a swapchain on the surface.
    pub fn is_presentable(&self) -> (presentable: bool)
        ensures
            presentable == self@.presentable(),
    {
        self.present_modes.supports(PresentMode::Fifo) && self.supported_formats.len() >= 1
    }
}

/// What the driver answered when asked whether a queue family can present to
/// the surface.
#[derive(Clone, Copy, Debug, PartialEq, Eq)]
pub enum Presentation {
    Supported,
    Unsupported,
    /// The driver failed to answer.
    QueryFailed,
}

/// The capabilities of one queue family of a device.
#[derive(Clone, Copy, Debug, PartialEq, Eq)]
pub struct QueueFamily {
    /// Queues of this family execute graphics operations.
    pub supports_graphics: bool,
    /// Whether queues of this family can present to the surface.
    pub presentation: Presentation,
}

impl QueueFamily {
    /// The family is known to present to the surface. A query that failed
    /// counts as no support.
    pub open spec fn presents(self) -> bool {
        self.presentation is Supported
    }

    /// The family can both draw and present.
    pub open spec fn draws_and_presents(self) -> bool {
        self.supports_graphics && self.presents()
    }

    /// Decides whether the family can both draw and present.
    pub fn can_draw_and_present(&self) -> (usable: bool)
        ensures
            usable == self.draws_and_presents(),
    {
        self.supports_graphics && match self.presentation {
            Presentation::Supported => true,
            Presentation::Unsupported => false,
            Presentation::QueryFailed => false,
        }
    }
}

/// One enumerated physical device.
#[derive(Clone, Debug, PartialEq, Eq)]
pub struct Candidate {
    /// The queue families of the device, in the driver's order: the position
    /// of a family in this list is its identifier on the device.
    pub queue_families: Vec<QueueFamily>,
    /// The capabilities of the surface on this device, or `None` if the
    /// driver failed to report them.
    pub capabilities: Option<SurfaceCapabilities>,
}

/// The mathematical content of a [`Candidate`].
pub struct CandidateView {
    pub queue_families: Seq<QueueFamily>,
    pub capabilities: Option<SurfaceCapabilitiesView>,
}

impl View for Candidate {
    type V = CandidateView;

    open spec fn view(&self) -> CandidateView {
        CandidateView {
            queue_families: self.queue_families@,
            capabilities: match self.capabilities {
                Some(capabilities) => Some(capabilities@),
                None => None,
            },
        }
    }
}

impl DeepView for Candidate {
    type V = CandidateView;

    open spec fn deep_view(&self) -> CandidateView {
        self.view()
    }
}

impl CandidateView {
    /// Some queue family of the device executes graphics operations.
    pub open spec fn has_graphics_family(self) -> bool {
        exists|k: int|
            0 <= k < self.queue_families.len() && (#[trigger] self.queue_families[k]).supports_graphics
    }

    /// The selection requirements: a graphics-capable queue family, a surface
    /// capability query that succeeded, the `Fifo` present mode, and at least
    /// one supported pixel format.
    ///
    /// Whether the graphics-capable family can also present is not asked
    /// here; the choice of the queue family asks it afterwards.
    pub open spec fn qualifies(self) -> bool {
        &&& self.has_graphics_family()
        &&& self.capabilities matches Some(capabilities)
        &&& capabilities.presentable()
    }
}

impl Candidate {
    /// Looks for a queue family that executes graphics operations.
    pub fn has_graphics_family(&self) -> (found: bool)
        ensures
            found == self@.has_graphics_family(),
    {
        let mut k: usize = 0;
        while k < self.queue_families.len()
            invariant
                k <= self.queue_families.len(),
                forall|j: int| 0 <= j < k ==> !(#[trigger] self.queue_families@[j]).supports_graphics,
            decreases self.queue_families.len() - k,
        {
            if self.queue_families[k].supports_graphics {
                return true;
            }
            k += 1;
        }
        false
    }

    /// Decides whether the device meets the selection requirements.
    pub fn is_suitable(&self) -> (suitable: bool)
        ensures
            suitable == self@.qualifies(),
    {
        match &self.capabilities {
            Some(capabilities) => capabilities.is_presentable() && self.has_graphics_family(),
            None => false,
        }
    }
}

} // verus!
