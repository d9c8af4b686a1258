//! The frame renderer: set up once for a window, then asked for one frame
//! plan per tick.

use crate::render::buffer::{BufferDescriptor, BufferId, BufferUsage, DeviceId};
use crate::render::error::RenderError;
use crate::render::frame::{
    blank,
    draw_calls,
    full_copy,
    packed_transforms,
    plan_frame,
    Frame,
    MODEL_MATRIX_BUFFER_SIZE,
    NUM_DRAWS,
};
use crate::render::mesh_storage::{
    new_model,
    valid_mesh,
    with_model,
    MeshId,
    Model,
    ModelStorage,
    Position,
};
use crate::render::transform::Transform;
use vstd::prelude::*;

verus! {

/// Size of a window's drawable area in physical pixels.
#[derive(Clone, Copy, Debug, PartialEq, Eq)]
pub struct WindowSize {
    pub width: u32,
    pub height: u32,
}

/// Layout of the pixels of a drawable surface.
#[derive(Clone, Copy, Debug, PartialEq, Eq)]
pub enum TextureFormat {
    /// Eight bits each of blue, green, red and alpha, linear.
    Bgra8Unorm,
    /// Eight bits each of blue, green, red and alpha, gamma-corrected.
    Bgra8UnormSrgb,
}

/// When a finished frame is shown.
#[derive(Clone, Copy, Debug, PartialEq, Eq)]
pub enum PresentMode {
    /// As soon as it is ready, without waiting for the display.
    NoVsync,
    /// At the display's next refresh.
    Vsync,
}

/// Configuration of the swapchain that frames are drawn into.
#[derive(Clone, Copy, Debug, PartialEq, Eq)]
pub struct SwapChainDescriptor {
    pub format: TextureFormat,
    pub present_mode: PresentMode,
    pub width: u32,
    pub height: u32,
}

/// The swapchain of a window of the given size: gamma-corrected BGRA, shown
/// without vertical sync, as large as the window.
pub open spec fn swap_chain_for(window: WindowSize) -> SwapChainDescriptor {
    SwapChainDescriptor {
        format: TextureFormat::Bgra8UnormSrgb,
        present_mode: PresentMode::NoVsync,
        width: window.width,
        height: window.height,
    }
}

impl SwapChainDescriptor {
    /// The swapchain configuration for a window of size `window`. A window
    /// without area has none, which counts as a failure to acquire a device.
    pub fn for_window(window: WindowSize) -> (described: Result<SwapChainDescriptor, RenderError>)
        ensures
            described == if window.width == 0 || window.height == 0 {
                Err::<SwapChainDescriptor, RenderError>(RenderError::DeviceAcquisition)
            } else {
                Ok::<SwapChainDescriptor, RenderError>(swap_chain_for(window))
            },
    {
        if window.width == 0 || window.height == 0 {
            Err(RenderError::DeviceAcquisition)
        } else {
            Ok(
                SwapChainDescriptor {
                    format: TextureFormat::Bgra8UnormSrgb,
                    present_mode: PresentMode::NoVsync,
                    width: window.width,
                    height: window.height,
                },
            )
        }
    }
}

/// The renderer of one window.
pub struct Renderer {
    swapchain: SwapChainDescriptor,
    /// The models to draw. Its device is the renderer's device.
    mesh_storage: ModelStorage,
    /// Buffer for all the current frame's model matrices.
    model_matrix_buffer: BufferId,
}

impl Renderer {
    /// The device that the renderer draws with.
    pub closed spec fn spec_device(&self) -> DeviceId {
        self.mesh_storage.spec_device()
    }

    /// The configuration of the swapchain.
    pub closed spec fn spec_swapchain(&self) -> SwapChainDescriptor {
        self.swapchain
    }

    /// The storage of the models that the renderer draws.
    pub closed spec fn spec_mesh_storage(&self) -> ModelStorage {
        self.mesh_storage
    }

    /// The persistent transform buffer.
    pub closed spec fn spec_model_matrix_buffer(&self) -> BufferId {
        self.model_matrix_buffer
    }

    /// The persistent transform buffer to create: `NUM_DRAWS` slots, filled
    /// by copies and read as uniform data.
    pub fn model_matrix_buffer_descriptor() -> (descriptor: BufferDescriptor)
        ensures
            descriptor.size == MODEL_MATRIX_BUFFER_SIZE,
            descriptor.usage == BufferUsage::uniform_copy_dst(),
    {
        BufferDescriptor { size: MODEL_MATRIX_BUFFER_SIZE, usage: BufferUsage::uniform_copy_dst() }
    }

    /// Creates a new renderer that can output to a window of size `window`.
    ///
    /// `device` is the device acquired for the window, `None` when there is
    /// no suitable one. `model_matrix_buffer` is the device's answer to the
    /// request `model_matrix_buffer_descriptor()`, `None` when the buffer
    /// could not be created. A window without area has no swapchain, and
    /// counts as a failure to acquire a device.
    pub fn from_window(
        window: WindowSize,
        device: Option<DeviceId>,
        model_matrix_buffer: Option<BufferId>,
    ) -> (created: Result<Renderer, RenderError>)
        ensures
            match created {
                Ok(renderer) => {
                    &&& window.width > 0
                    &&& window.height > 0
                    &&& device == Some(renderer.spec_device())
                    &&& model_matrix_buffer == Some(renderer.spec_model_matrix_buffer())
                    &&& renderer.spec_swapchain() == swap_chain_for(window)
                    &&& renderer.spec_mesh_storage()@ == Seq::<Model>::empty()
                    &&& renderer.spec_mesh_storage().spec_device() == renderer.spec_device()
                },
                Err(error) => if window.width == 0 || window.height == 0 || device is None {
                    error == RenderError::DeviceAcquisition
                } else {
                    model_matrix_buffer is None && error == RenderError::Allocation
                },
            },
    {
        let swapchain = match SwapChainDescriptor::for_window(window) {
            Ok(swapchain) => swapchain,
            Err(error) => {
                return Err(error);
            },
        };
        let device = match device {
            Some(device) => device,
            None => {
                return Err(RenderError::DeviceAcquisition);
            },
        };
        let mesh_storage = ModelStorage::with_device(device);
        let model_matrix_buffer = match model_matrix_buffer {
            Some(buffer) => buffer,
            None => {
                return Err(RenderError::Allocation);
            },
        };
        Ok(Renderer { swapchain, mesh_storage, model_matrix_buffer })
    }

    /// The device that the renderer draws with.
    #[verifier::when_used_as_spec(spec_device)]
    pub fn device(&self) -> (device: DeviceId)
        ensures
            device == self.spec_device(),
    {
        self.mesh_storage.device()
    }

    /// The configuration of the swapchain.
    #[verifier::when_used_as_spec(spec_swapchain)]
    pub fn swapchain(&self) -> (swapchain: SwapChainDescriptor)
        ensures
            swapchain == self.spec_swapchain(),
    {
        self.swapchain
    }

    /// The persistent transform buffer.
    #[verifier::when_used_as_spec(spec_model_matrix_buffer)]
    pub fn model_matrix_buffer(&self) -> (buffer: BufferId)
        ensures
            buffer == self.spec_model_matrix_buffer(),
    {
        self.model_matrix_buffer
    }

    /// The storage of the models that the renderer draws. It is bound to the
    /// renderer's device.
    pub fn get_mesh_storage(&self) -> (storage: &ModelStorage)
        ensures
            *storage == self.spec_mesh_storage(),
            storage.spec_device() == self.spec_device(),
    {
        &self.mesh_storage
    }

    /// Adds a mesh to the renderer's storage; see `ModelStorage::add_mesh`.
    /// Nothing but the storage changes.
    pub fn add_mesh(
        &mut self,
        model_matrix: Transform,
        vertices: &[Position],
        indices: &[u32],
        vertex_buffer: Option<BufferId>,
        index_buffer: Option<BufferId>,
    ) -> (added: Result<MeshId, RenderError>)
        requires
            valid_mesh(vertices@, indices@),
        ensures
            final(self).spec_device() == old(self).spec_device(),
            final(self).spec_swapchain() == old(self).spec_swapchain(),
            final(self).spec_model_matrix_buffer() == old(self).spec_model_matrix_buffer(),
            match (vertex_buffer, index_buffer) {
                (Some(vb), Some(ib)) => {
                    let next = with_model(
                        old(self).spec_mesh_storage()@,
                        new_model(model_matrix, indices@, vb, ib),
                    );
                    &&& final(self).spec_mesh_storage()@ == next.0
                    &&& added matches Ok(id)
                    &&& id == next.1
                },
                _ => {
                    &&& final(self).spec_mesh_storage()@ == old(self).spec_mesh_storage()@
                    &&& added == Err::<MeshId, RenderError>(RenderError::Allocation)
                },
            },
    {
        self.mesh_storage.add_mesh(model_matrix, vertices, indices, vertex_buffer, index_buffer)
    }

    /// Plans one frame: the transform of every stored model packed into its
    /// slot of a fresh staging buffer, the copy of that buffer into the
    /// transform buffer, and one draw per model.
    ///
    /// `delta_time` is the time since the previous tick, as the bit pattern
    /// of a single-precision number of seconds. It has no influence on the
    /// plan. With more than `NUM_DRAWS` models no frame is planned.
    pub fn tick(&self, delta_time: u32) -> (frame: Result<Frame, RenderError>)
        ensures
            match frame {
                Ok(plan) => {
                    &&& self.spec_mesh_storage()@.len() <= NUM_DRAWS
                    &&& plan.staging.usage == BufferUsage::copy_src()
                    &&& plan.staging.contents@ == packed_transforms(
                        self.spec_mesh_storage()@,
                        blank(MODEL_MATRIX_BUFFER_SIZE as nat),
                    )
                    &&& plan.copy == full_copy(self.spec_model_matrix_buffer())
                    &&& plan.draws@ == draw_calls(self.spec_mesh_storage()@)
                },
                Err(error) => {
                    &&& self.spec_mesh_storage()@.len() > NUM_DRAWS
                    &&& error == (RenderError::CapacityExceeded {
                        models: self.spec_mesh_storage()@.len() as usize,
                        capacity: NUM_DRAWS as usize,
                    })
                },
            },
    {
        plan_frame(self.mesh_storage.all_models(), self.model_matrix_buffer)
    }
}

} // verus!
