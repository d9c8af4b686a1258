//! Planning of one frame: the transforms packed into the slots of a staging
//! buffer, the copy of that buffer into the persistent transform buffer, and
//! one indexed draw per model.
//!
//! Slot `i` holds the transform of the `i`-th stored model. A plan is made
//! only when every model has a slot.

use crate::render::buffer::{BufferData, BufferId, BufferUsage};
use crate::render::encoding::{
    lemma_word_round_trip,
    overwritten,
    read_word,
    word_byte,
    words_at,
    words_to_bytes,
    write_words,
};
use crate::render::error::RenderError;
use crate::render::mesh_storage::{after_additions, lemma_additions_append, with_model, Model};
use crate::render::transform::{Transform, UNIFORM_SIZE};
use vstd::prelude::*;

verus! {

/// Number of slots of the transform buffer, and so the largest number of
/// models that one frame can draw.
pub const NUM_DRAWS: u64 = 1000;

/// Size in bytes of the transform buffer and of each frame's staging buffer.
pub const MODEL_MATRIX_BUFFER_SIZE: u64 = NUM_DRAWS * UNIFORM_SIZE;

/// A copy of `size` bytes from the frame's staging buffer into
/// `destination`.
#[derive(Clone, Copy, Debug, PartialEq, Eq)]
pub struct BufferCopy {
    pub source_offset: u64,
    pub destination: BufferId,
    pub destination_offset: u64,
    pub size: u64,
}

/// One indexed draw: the indices `0..index_count` of `index_buffer` over the
/// vertices of `vertex_buffer`, with the transform found `uniform_offset`
/// bytes into the transform buffer.
#[derive(Clone, Copy, Debug, PartialEq, Eq)]
pub struct DrawCall {
    pub vertex_buffer: BufferId,
    pub index_buffer: BufferId,
    pub uniform_offset: u64,
    pub index_count: u32,
}

/// Everything the device is asked to do for one frame, in this order: create
/// the staging buffer, copy it, then draw inside one render pass.
#[derive(Debug, PartialEq, Eq)]
pub struct Frame {
    pub staging: BufferData,
    pub copy: BufferCopy,
    pub draws: Vec<DrawCall>,
}

/// `count` zero bytes: a staging buffer as it is before anything is written.
pub open spec fn blank(count: nat) -> Seq<u8> {
    Seq::new(count, |i: int| 0u8)
}

/// The staging bytes after packing: the transform of model `i` in slot `i`,
/// every byte behind the last model's slot as it was in `prior`.
pub open spec fn packed_transforms(models: Seq<Model>, prior: Seq<u8>) -> Seq<u8> {
    Seq::new(
        prior.len(),
        |i: int|
            if i < UNIFORM_SIZE * models.len() {
                words_to_bytes(models[i / (UNIFORM_SIZE as int)].model_matrix@)[i % (UNIFORM_SIZE as int)]
            } else {
                prior[i]
            },
    )
}

/// The words held by slot `slot` of `bytes`.
pub open spec fn slot_transform(bytes: Seq<u8>, slot: int) -> Seq<u32> {
    words_at(bytes, UNIFORM_SIZE * slot, 16)
}

/// The draw of the model stored at `slot`.
pub open spec fn draw_call(model: Model, slot: int) -> DrawCall {
    DrawCall {
        vertex_buffer: model.vertex_buffer,
        index_buffer: model.index_buffer,
        uniform_offset: (UNIFORM_SIZE * slot) as u64,
        index_count: model.index_count,
    }
}

/// One draw per model, in storage order, each with the slot of its model.
pub open spec fn draw_calls(models: Seq<Model>) -> Seq<DrawCall> {
    Seq::new(models.len(), |i: int| draw_call(models[i], i))
}

/// The copy of the whole staging buffer to the start of `transform_buffer`.
pub open spec fn full_copy(transform_buffer: BufferId) -> BufferCopy {
    BufferCopy {
        source_offset: 0,
        destination: transform_buffer,
        destination_offset: 0,
        size: MODEL_MATRIX_BUFFER_SIZE,
    }
}

/// The bytes of the destination buffer once the device has carried out
/// `copy`, when the staging buffer holds `staging` and the destination held
/// `before`.
pub open spec fn after_copy(before: Seq<u8>, staging: Seq<u8>, copy: BufferCopy) -> Seq<u8> {
    overwritten(
        before,
        copy.destination_offset as int,
        staging.subrange(copy.source_offset as int, copy.source_offset + copy.size),
    )
}

/// Writes the transform of each model into the slot of `staging` that
/// matches its place in `models`, provided `staging` has a slot for each.
///
/// Bytes behind the last written slot keep their value. When there are more
/// models than slots, nothing is written.
pub fn pack_transforms(models: &[Model], staging: &mut Vec<u8>) -> (packed: Result<
    (),
    RenderError,
>)
    ensures
        match packed {
            Ok(_) => {
                &&& UNIFORM_SIZE * models.len() <= old(staging).len()
                &&& final(staging)@ == packed_transforms(models@, old(staging)@)
            },
            Err(error) => {
                &&& UNIFORM_SIZE * models.len() > old(staging).len()
                &&& error == (RenderError::CapacityExceeded {
                    models: models.len(),
                    capacity: old(staging).len() / (UNIFORM_SIZE as usize),
                })
                &&& final(staging)@ == old(staging)@
            },
        },
{
    let slot_size = UNIFORM_SIZE as usize;
    let capacity = staging.len() / slot_size;
    if models.len() > capacity {
        return Err(RenderError::CapacityExceeded { models: models.len(), capacity });
    }
    let ghost before = staging@;
    let mut i: usize = 0;
    assert(staging@ =~= packed_transforms(models@.take(0), before));
    while i < models.len()
        invariant
            i <= models.len(),
            slot_size == UNIFORM_SIZE,
            slot_size * models.len() <= staging.len(),
            staging.len() == before.len(),
            staging@ == packed_transforms(models@.take(i as int), before),
        decreases models.len() - i,
    {
        write_words(staging, slot_size * i, models[i].model_matrix.bits.as_slice());
        i += 1;
        assert(staging@ =~= packed_transforms(models@.take(i as int), before));
    }
    assert(models@.take(models.len() as int) =~= models@);
    Ok(())
}

/// Reads back the transform held by slot `slot` of `bytes`, if `bytes` is
/// long enough to have that slot.
pub fn read_transform(bytes: &[u8], slot: usize) -> (transform: Option<Transform>)
    ensures
        match transform {
            Some(read) => {
                &&& UNIFORM_SIZE * (slot + 1) <= bytes.len()
                &&& read@ == slot_transform(bytes@, slot as int)
            },
            None => UNIFORM_SIZE * (slot + 1) > bytes.len(),
        },
{
    let slot_size = UNIFORM_SIZE as usize;
    if slot >= bytes.len() / slot_size {
        return None;
    }
    let mut bits: [u32; 16] = [0; 16];
    let mut w: usize = 0;
    while w < 16
        invariant
            w <= 16,
            slot_size == UNIFORM_SIZE,
            slot_size * (slot + 1) <= bytes.len(),
            forall|k: int| 0 <= k < w ==> bits@[k] == slot_transform(bytes@, slot as int)[k],
        decreases 16 - w,
    {
        bits[w] = read_word(bytes, slot_size * slot + 4 * w);
        w += 1;
    }
    assert(bits@ =~= slot_transform(bytes@, slot as int));
    Some(Transform { bits })
}

/// Byte `k` of word `w` of slot `slot` after packing is that byte of that
/// word of the model stored at `slot`.
proof fn lemma_packed_byte(models: Seq<Model>, prior: Seq<u8>, slot: int, w: int, k: int)
    requires
        0 <= slot < models.len(),
        UNIFORM_SIZE * models.len() <= prior.len(),
        0 <= w < 16,
        0 <= k < 4,
    ensures
        packed_transforms(models, prior)[UNIFORM_SIZE * slot + 4 * w + k] == word_byte(
            models[slot].model_matrix@[w],
            k,
        ),
{
    let i = UNIFORM_SIZE * slot + 4 * w + k;
    let within = 4 * w + k;
    assert(i / (UNIFORM_SIZE as int) == slot && i % (UNIFORM_SIZE as int) == within);
    assert(within / 4 == w && within % 4 == k);
    assert(models[slot].model_matrix@.len() == 16);
}

/// A transform packed into a slot is read back from it bit for bit.
pub proof fn lemma_slot_round_trip(models: Seq<Model>, prior: Seq<u8>, slot: int)
    requires
        0 <= slot < models.len(),
        UNIFORM_SIZE * models.len() <= prior.len(),
    ensures
        slot_transform(packed_transforms(models, prior), slot) == models[slot].model_matrix@,
{
    let words = models[slot].model_matrix@;
    let read = slot_transform(packed_transforms(models, prior), slot);
    assert(words.len() == 16);
    assert forall|w: int| 0 <= w < 16 implies read[w] == words[w] by {
        lemma_packed_byte(models, prior, slot, w, 0);
        lemma_packed_byte(models, prior, slot, w, 1);
        lemma_packed_byte(models, prior, slot, w, 2);
        lemma_packed_byte(models, prior, slot, w, 3);
        lemma_word_round_trip(words[w]);
    }
    assert(read =~= words);
}

/// Round trip through a frame: the transform handed over with a model is
/// read back bit for bit from the slot named by the model's identifier, in
/// the staging buffer of every frame planned after the addition, however
/// many models were there before and are added later, as long as all of them
/// have a slot.
pub proof fn lemma_added_transform_round_trip(
    models: Seq<Model>,
    model: Model,
    later: Seq<Model>,
)
    requires
        models.len() + 1 + later.len() <= NUM_DRAWS,
    ensures
        ({
            let added = with_model(models, model);
            let stored = after_additions(added.0, later);
            slot_transform(
                packed_transforms(stored, blank(MODEL_MATRIX_BUFFER_SIZE as nat)),
                added.1 as int,
            ) == model.model_matrix@
        }),
{
    let added = with_model(models, model);
    lemma_additions_append(added.0, later);
    let stored = added.0 + later;
    assert(stored[added.1 as int] == model);
    lemma_slot_round_trip(stored, blank(MODEL_MATRIX_BUFFER_SIZE as nat), added.1 as int);
}

/// What a frame leaves in the transform buffer: the staging bytes, whatever
/// the buffer held before, so that frames planned for the same models leave
/// the same bytes; and at the offset of each draw, the transform of the
/// model that the draw is for.
pub proof fn lemma_draw_reads_own_transform(
    models: Seq<Model>,
    before: Seq<u8>,
    transform_buffer: BufferId,
    i: int,
)
    requires
        models.len() <= NUM_DRAWS,
        before.len() == MODEL_MATRIX_BUFFER_SIZE,
        0 <= i < models.len(),
    ensures
        ({
            let staging = packed_transforms(models, blank(MODEL_MATRIX_BUFFER_SIZE as nat));
            let buffer = after_copy(before, staging, full_copy(transform_buffer));
            &&& buffer == staging
            &&& words_at(buffer, draw_calls(models)[i].uniform_offset as int, 16)
                == models[i].model_matrix@
        }),
{
    let staging = packed_transforms(models, blank(MODEL_MATRIX_BUFFER_SIZE as nat));
    let buffer = after_copy(before, staging, full_copy(transform_buffer));
    assert(buffer =~= staging);
    lemma_slot_round_trip(models, blank(MODEL_MATRIX_BUFFER_SIZE as nat), i);
}

/// Slots behind the last model are not touched by packing.
pub proof fn lemma_unused_slots_kept(models: Seq<Model>, prior: Seq<u8>, slot: int)
    requires
        models.len() <= slot,
        UNIFORM_SIZE * (slot + 1) <= prior.len(),
    ensures
        slot_transform(packed_transforms(models, prior), slot) == slot_transform(prior, slot),
{
    assert(slot_transform(packed_transforms(models, prior), slot) =~= slot_transform(prior, slot));
}

/// The draws of a frame: one per model, in storage order.
fn plan_draws(models: &[Model]) -> (draws: Vec<DrawCall>)
    requires
        models.len() <= NUM_DRAWS,
    ensures
        draws@ == draw_calls(models@),
{
    let mut draws: Vec<DrawCall> = Vec::new();
    let mut i: usize = 0;
    while i < models.len()
        invariant
            i <= models.len(),
            models.len() <= NUM_DRAWS,
            draws@ == draw_calls(models@.take(i as int)),
        decreases models.len() - i,
    {
        let model = models[i];
        draws.push(
            DrawCall {
                vertex_buffer: model.vertex_buffer,
                index_buffer: model.index_buffer,
                uniform_offset: UNIFORM_SIZE * (i as u64),
                index_count: model.index_count,
            },
        );
        i += 1;
        assert(draws@ =~= draw_calls(models@.take(i as int)));
    }
    assert(models@.take(models.len() as int) =~= models@);
    draws
}

/// Plans the frame that draws `models` through `transform_buffer`.
///
/// With at most `NUM_DRAWS` models the plan holds a fresh staging buffer of
/// `NUM_DRAWS` slots with the transforms packed into it, the copy of all of
/// it to the start of `transform_buffer`, and one draw per model. With more
/// models there is no plan, and so no draw.
pub fn plan_frame(models: &[Model], transform_buffer: BufferId) -> (frame: Result<
    Frame,
    RenderError,
>)
    ensures
        match frame {
            Ok(plan) => {
                &&& models.len() <= NUM_DRAWS
                &&& plan.staging.usage == BufferUsage::copy_src()
                &&& plan.staging.contents@ == packed_transforms(
                    models@,
                    blank(MODEL_MATRIX_BUFFER_SIZE as nat),
                )
                &&& plan.copy == full_copy(transform_buffer)
                &&& plan.draws@ == draw_calls(models@)
            },
            Err(error) => {
                &&& models.len() > NUM_DRAWS
                &&& error == (RenderError::CapacityExceeded {
                    models: models.len(),
                    capacity: NUM_DRAWS as usize,
                })
            },
        },
{
    let mut contents: Vec<u8> = vec![0u8; MODEL_MATRIX_BUFFER_SIZE as usize];
    assert(contents@ =~= blank(MODEL_MATRIX_BUFFER_SIZE as nat));
    // The staging buffer has exactly `NUM_DRAWS` slots.
    assert(contents.len() == 64000 && UNIFORM_SIZE as usize == 64);
    match pack_transforms(models, &mut contents) {
        Err(error) => Err(error),
        Ok(_) => {
            let draws = plan_draws(models);
            Ok(
                Frame {
                    staging: BufferData { usage: BufferUsage::copy_src(), contents },
                    copy: BufferCopy {
                        source_offset: 0,
                        destination: transform_buffer,
                        destination_offset: 0,
                        size: MODEL_MATRIX_BUFFER_SIZE,
                    },
                    draws,
                },
            )
        },
    }
}

} // verus!
