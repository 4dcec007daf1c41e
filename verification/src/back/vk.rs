//! The Vulkan compute backend: what the driver reports about each GPU, which GPU is chosen,
//! and the steps that bring the chosen one up.

use vstd::prelude::*;

pub mod init;
pub mod outside;
pub mod probe;
pub mod query;
pub mod select;
pub mod text;

use self::probe::QueueFamily;
use self::select::Selection;

verus! {

/// A Vulkan device that has been brought up for compute work.
///
/// A value of this type is only ever made by [`init::Progress::advance`], when the driver
/// reports that the logical device for the chosen GPU exists.
#[derive(Clone, Copy, Debug, PartialEq, Eq)]
pub struct Backend {
    gpu: usize,
    queue_family: QueueFamily,
}

/// The backend is unavailable: the driver could not be loaded, refused a call, or offers no
/// suitable device.
#[derive(Clone, Copy, Debug, PartialEq, Eq, Structural)]
pub struct VulkanLoadError;

impl View for Backend {
    type V = Selection;

    /// The GPU the backend runs on and the queue family it is driven through.
    closed spec fn view(&self) -> Selection {
        Selection { device: self.gpu, queue_family: self.queue_family }
    }
}

impl Backend {
    /// The backend on the GPU and queue family of `selection`.
    pub closed spec fn on(selection: Selection) -> Backend {
        Backend { gpu: selection.device, queue_family: selection.queue_family }
    }

    /// A backend and the selection it was made for determine each other.
    pub proof fn lemma_on_inverts_view(backend: Backend, selection: Selection)
        ensures
            Backend::on(selection)@ == selection,
            Backend::on(backend@) == backend,
    {
    }

    pub(crate) fn new(selection: Selection) -> (backend: Backend)
        ensures
            backend == Backend::on(selection),
    {
        Backend { gpu: selection.device, queue_family: selection.queue_family }
    }

    /// The position of the GPU in enumeration order.
    pub fn gpu(&self) -> (index: usize)
        ensures
            index == self@.device,
    {
        self.gpu
    }

    /// The queue family that work is submitted to.
    pub fn queue_family(&self) -> (family: QueueFamily)
        ensures
            family == self@.queue_family,
    {
        self.queue_family
    }
}

} // verus!
