//! The store of drawable models.
//!
//! Models are only ever appended. The identifier of a model is its place in
//! the store, and that place is also the slot of the transform buffer that a
//! frame gives it.

use crate::render::buffer::{BufferData, BufferId, BufferUsage, DeviceId};
use crate::render::encoding::{encode_words, push_word, words_to_bytes};
use crate::render::error::RenderError;
use crate::render::transform::Transform;
use vstd::prelude::*;

verus! {

/// Identifier of a stored model: its zero-based place in insertion order.
pub type MeshId = usize;

/// A vertex position in object space, held as the bit patterns of its
/// single-precision coordinates x, y, z.
#[derive(Clone, Copy, Debug, PartialEq, Eq)]
pub struct Position {
    pub bits: [u32; 3],
}

impl View for Position {
    type V = Seq<u32>;

    open spec fn view(&self) -> Seq<u32> {
        self.bits@
    }
}

/// One drawable instance: a transform and the geometry buffers it is drawn
/// from.
#[derive(Clone, Copy, Debug, PartialEq, Eq)]
pub struct Model {
    /// Object-to-world transform.
    pub model_matrix: Transform,
    /// Buffer of vertex positions, written once when the model was added.
    pub vertex_buffer: BufferId,
    /// Buffer of indices, written once when the model was added.
    pub index_buffer: BufferId,
    /// Number of indices in `index_buffer`.
    pub index_count: u32,
}

/// The coordinates of all positions, in order: three words per position.
pub open spec fn position_words(positions: Seq<Position>) -> Seq<u32> {
    Seq::new(3 * positions.len(), |j: int| positions[j / 3]@[j % 3])
}

/// Geometry that can be drawn: at least one vertex, at least one index, no
/// more indices than a draw can count, and every index names a vertex.
pub open spec fn valid_mesh(vertices: Seq<Position>, indices: Seq<u32>) -> bool {
    &&& vertices.len() > 0
    &&& 0 < indices.len() <= u32::MAX
    &&& forall|i: int| 0 <= i < indices.len() ==> indices[i] < vertices.len()
}

/// The model that a successful addition stores.
pub open spec fn new_model(
    model_matrix: Transform,
    indices: Seq<u32>,
    vertex_buffer: BufferId,
    index_buffer: BufferId,
) -> Model {
    Model { model_matrix, vertex_buffer, index_buffer, index_count: indices.len() as u32 }
}

/// The store and the identifier handed out when `model` is added to a store
/// that holds `models`.
pub open spec fn with_model(models: Seq<Model>, model: Model) -> (Seq<Model>, nat) {
    (models.push(model), models.len())
}

/// The store after the models of `additions` have been added, one after
/// another, to a store that holds `models`.
pub open spec fn after_additions(models: Seq<Model>, additions: Seq<Model>) -> Seq<Model>
    decreases additions.len(),
{
    if additions.len() == 0 {
        models
    } else {
        after_additions(with_model(models, additions[0]).0, additions.drop_first())
    }
}

/// The identifier handed out by addition number `n`, counted from zero, when
/// the models of `additions` are added one after another to a store that
/// holds `models`.
pub open spec fn id_of_addition(models: Seq<Model>, additions: Seq<Model>, n: int) -> nat {
    with_model(after_additions(models, additions.take(n)), additions[n]).1
}

/// Additions append: the store afterwards is the store before, followed by
/// the added models in the order of their addition.
pub proof fn lemma_additions_append(models: Seq<Model>, additions: Seq<Model>)
    ensures
        after_additions(models, additions) == models + additions,
    decreases additions.len(),
{
    if additions.len() == 0 {
        assert(models + additions =~= models);
    } else {
        lemma_additions_append(models.push(additions[0]), additions.drop_first());
        assert(models.push(additions[0]) + additions.drop_first() =~= models + additions);
    }
}

/// Insertion order: after any sequence of additions to an empty store, the
/// store holds exactly the added models in the order of their addition, and
/// the identifier handed out by the `n`-th addition, counted from zero, is
/// `n`, the place of its model in the store.
pub proof fn lemma_insertion_order(additions: Seq<Model>)
    ensures
        after_additions(Seq::empty(), additions) == additions,
        forall|n: int|
            0 <= n < additions.len() ==> {
                &&& #[trigger] id_of_addition(Seq::empty(), additions, n) == n
                &&& after_additions(Seq::empty(), additions)[n] == additions[n]
            },
{
    lemma_additions_append(Seq::empty(), additions);
    assert(Seq::<Model>::empty() + additions =~= additions);
    assert forall|n: int| 0 <= n < additions.len() implies #[trigger] id_of_addition(
        Seq::empty(),
        additions,
        n,
    ) == n by {
        lemma_additions_append(Seq::empty(), additions.take(n));
    }
}

/// Tells whether the geometry can be drawn.
pub fn is_valid_mesh(vertices: &[Position], indices: &[u32]) -> (valid: bool)
    ensures
        valid == valid_mesh(vertices@, indices@),
{
    if vertices.len() == 0 || indices.len() == 0 || indices.len() > 0xffff_ffff {
        return false;
    }
    let mut i: usize = 0;
    while i < indices.len()
        invariant
            i <= indices.len(),
            forall|j: int| 0 <= j < i ==> indices@[j] < vertices.len(),
        decreases indices.len() - i,
    {
        if indices[i] as usize >= vertices.len() {
            return false;
        }
        i += 1;
    }
    true
}

/// The vertex buffer to create for `vertices`: their coordinates, three
/// words each, in order.
pub fn vertex_buffer_data(vertices: &[Position]) -> (data: BufferData)
    ensures
        data.usage == BufferUsage::vertex(),
        data.contents@ == words_to_bytes(position_words(vertices@)),
{
    let mut contents: Vec<u8> = Vec::new();
    let mut i: usize = 0;
    while i < vertices.len()
        invariant
            i <= vertices.len(),
            contents@ == words_to_bytes(position_words(vertices@.take(i as int))),
        decreases vertices.len() - i,
    {
        let position = vertices[i];
        push_word(&mut contents, position.bits[0]);
        push_word(&mut contents, position.bits[1]);
        push_word(&mut contents, position.bits[2]);
        i += 1;
        assert(contents@ =~= words_to_bytes(position_words(vertices@.take(i as int))));
    }
    assert(vertices@.take(vertices.len() as int) =~= vertices@);
    BufferData { usage: BufferUsage::vertex(), contents }
}

/// The index buffer to create for `indices`: one word each, in order.
pub fn index_buffer_data(indices: &[u32]) -> (data: BufferData)
    ensures
        data.usage == BufferUsage::index(),
        data.contents@ == words_to_bytes(indices@),
{
    BufferData { usage: BufferUsage::index(), contents: encode_words(indices) }
}

/// The models of one device, in insertion order.
pub struct ModelStorage {
    device: DeviceId,
    models: Vec<Model>,
}

impl View for ModelStorage {
    type V = Seq<Model>;

    closed spec fn view(&self) -> Seq<Model> {
        self.models@
    }
}

impl ModelStorage {
    /// The device whose buffers the stored models refer to.
    pub closed spec fn spec_device(&self) -> DeviceId {
        self.device
    }

    /// An empty store bound to `device`.
    pub fn with_device(device: DeviceId) -> (storage: ModelStorage)
        ensures
            storage@ == Seq::<Model>::empty(),
            storage.spec_device() == device,
    {
        ModelStorage { device, models: Vec::new() }
    }

    /// The device that this store is bound to.
    #[verifier::when_used_as_spec(spec_device)]
    pub fn device(&self) -> (device: DeviceId)
        ensures
            device == self.spec_device(),
    {
        self.device
    }

    /// Adds a mesh with the given transform, once the device has been asked
    /// for its two buffers.
    ///
    /// `vertex_buffer` and `index_buffer` are the device's answers to the
    /// requests `vertex_buffer_data(vertices)` and
    /// `index_buffer_data(indices)`; `None` says that the buffer could not be
    /// created. With both buffers the model is appended and its identifier
    /// returned. Otherwise the store is left as it was.
    #[allow(unused_variables)]
    pub fn add_mesh(
        &mut self,
        model_matrix: Transform,
        vertices: &[Position],
        indices: &[u32],
        vertex_buffer: Option<BufferId>,
        index_buffer: Option<BufferId>,
    ) -> (added: Result<MeshId, RenderError>)
        requires
            valid_mesh(vertices@, indices@),
        ensures
            final(self).spec_device() == old(self).spec_device(),
            match (vertex_buffer, index_buffer) {
                (Some(vb), Some(ib)) => {
                    let next = with_model(old(self)@, new_model(model_matrix, indices@, vb, ib));
                    &&& final(self)@ == next.0
                    &&& added matches Ok(id)
                    &&& id == next.1
                },
                _ => {
                    &&& final(self)@ == old(self)@
                    &&& added == Err::<MeshId, RenderError>(RenderError::Allocation)
                },
            },
    {
        match (vertex_buffer, index_buffer) {
            (Some(vertex_buffer), Some(index_buffer)) => {
                let id: MeshId = self.models.len();
                let index_count = indices.len() as u32;
                self.models.push(Model { model_matrix, vertex_buffer, index_buffer, index_count });
                Ok(id)
            },
            _ => Err(RenderError::Allocation),
        }
    }

    /// Every stored model, in insertion order.
    pub fn all_models(&self) -> (models: &[Model])
        ensures
            models@ == self@,
    {
        self.models.as_slice()
    }
}

} // verus!
