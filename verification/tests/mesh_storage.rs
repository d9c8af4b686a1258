use cgmath::{Matrix4, SquareMatrix, Vector3};
use mesh_renderer::render::buffer::{BufferId, DeviceId};
use mesh_renderer::render::mesh_storage::{Model, ModelStorage, Position};
use mesh_renderer::render::{RenderError, Transform};

fn transform_of(matrix: Matrix4<f32>) -> Transform {
    let columns: [[f32; 4]; 4] = matrix.into();
    Transform::from_columns(columns.map(|column| column.map(f32::to_bits)))
}

fn position_of(vector: Vector3<f32>) -> Position {
    let coordinates: [f32; 3] = vector.into();
    Position { bits: coordinates.map(f32::to_bits) }
}

fn triangle() -> Vec<Position> {
    vec![
        position_of(Vector3::new(0.0, 0.0, 0.0)),
        position_of(Vector3::new(1.0, 0.0, 0.0)),
        position_of(Vector3::new(0.0, 1.0, 0.0)),
    ]
}

fn buffer(index: u32) -> Option<BufferId> {
    Some(BufferId { index })
}

#[test]
fn new_storage_is_empty_and_bound_to_its_device() {
    let storage = ModelStorage::with_device(DeviceId { index: 4 });
    assert!(storage.all_models().is_empty());
    assert_eq!(storage.device(), DeviceId { index: 4 });
}

#[test]
fn first_mesh_gets_identifier_zero() {
    let mut storage = ModelStorage::with_device(DeviceId { index: 0 });
    let id = storage.add_mesh(Transform::identity(), &triangle(), &[0, 1, 2], buffer(10), buffer(11));
    assert_eq!(id, Ok(0));
}

#[test]
fn identifiers_count_up_in_insertion_order() {
    let mut storage = ModelStorage::with_device(DeviceId { index: 0 });
    for n in 0..25usize {
        let matrix = Matrix4::from_translation(Vector3::new(n as f32, 0.0, 0.0));
        let id = storage.add_mesh(
            transform_of(matrix),
            &triangle(),
            &[0, 1, 2],
            buffer(2 * n as u32),
            buffer(2 * n as u32 + 1),
        );
        assert_eq!(id, Ok(n));
    }
    let models = storage.all_models();
    assert_eq!(models.len(), 25);
    for (n, model) in models.iter().enumerate() {
        let matrix = Matrix4::from_translation(Vector3::new(n as f32, 0.0, 0.0));
        assert_eq!(model.model_matrix, transform_of(matrix));
        assert_eq!(model.vertex_buffer, BufferId { index: 2 * n as u32 });
        assert_eq!(model.index_buffer, BufferId { index: 2 * n as u32 + 1 });
    }
}

#[test]
fn stored_model_records_what_was_added() {
    let mut storage = ModelStorage::with_device(DeviceId { index: 0 });
    let matrix = Matrix4::from_scale(2.0f32);
    storage
        .add_mesh(transform_of(matrix), &triangle(), &[0, 1, 2, 2, 1, 0], buffer(7), buffer(8))
        .unwrap();
    assert_eq!(
        storage.all_models(),
        &[Model {
            model_matrix: transform_of(matrix),
            vertex_buffer: BufferId { index: 7 },
            index_buffer: BufferId { index: 8 },
            index_count: 6,
        }]
    );
}

#[test]
fn failed_vertex_allocation_leaves_the_storage_unchanged() {
    let mut storage = ModelStorage::with_device(DeviceId { index: 0 });
    storage.add_mesh(Transform::identity(), &triangle(), &[0, 1, 2], buffer(1), buffer(2)).unwrap();
    let before = storage.all_models().to_vec();
    let added = storage.add_mesh(Transform::identity(), &triangle(), &[0, 1, 2], None, buffer(3));
    assert_eq!(added, Err(RenderError::Allocation));
    assert_eq!(storage.all_models(), before.as_slice());
}

#[test]
fn failed_index_allocation_leaves_the_storage_unchanged() {
    let mut storage = ModelStorage::with_device(DeviceId { index: 0 });
    let added = storage.add_mesh(Transform::identity(), &triangle(), &[0, 1, 2], buffer(3), None);
    assert_eq!(added, Err(RenderError::Allocation));
    assert!(storage.all_models().is_empty());
}

#[test]
fn both_allocations_failing_is_an_allocation_error() {
    let mut storage = ModelStorage::with_device(DeviceId { index: 0 });
    let added = storage.add_mesh(Transform::identity(), &triangle(), &[0, 1, 2], None, None);
    assert_eq!(added, Err(RenderError::Allocation));
    assert!(storage.all_models().is_empty());
}

#[test]
fn identifier_after_a_failure_is_the_next_free_place() {
    let mut storage = ModelStorage::with_device(DeviceId { index: 0 });
    assert_eq!(
        storage.add_mesh(Transform::identity(), &triangle(), &[0, 1, 2], buffer(1), buffer(2)),
        Ok(0)
    );
    assert_eq!(
        storage.add_mesh(Transform::identity(), &triangle(), &[0, 1, 2], None, None),
        Err(RenderError::Allocation)
    );
    assert_eq!(
        storage.add_mesh(Transform::identity(), &triangle(), &[0, 1, 2], buffer(3), buffer(4)),
        Ok(1)
    );
    assert_eq!(storage.all_models().len(), 2);
}

#[test]
fn adding_keeps_the_device() {
    let mut storage = ModelStorage::with_device(DeviceId { index: 9 });
    storage.add_mesh(Transform::identity(), &triangle(), &[0, 1, 2], buffer(1), buffer(2)).unwrap();
    assert_eq!(storage.device(), DeviceId { index: 9 });
}

#[test]
fn identity_transform_is_the_identity_matrix() {
    assert_eq!(Transform::identity(), transform_of(Matrix4::identity()));
}

#[test]
fn columns_are_laid_out_one_after_another() {
    let matrix = Matrix4::new(
        0.0f32, 1.0, 2.0, 3.0, 4.0, 5.0, 6.0, 7.0, 8.0, 9.0, 10.0, 11.0, 12.0, 13.0, 14.0, 15.0,
    );
    let transform = transform_of(matrix);
    for i in 0..16 {
        assert_eq!(transform.bits[i], (i as f32).to_bits());
    }
    assert_eq!(transform.bits[12], matrix.w.x.to_bits());
    assert_eq!(transform.bits[1], matrix.x.y.to_bits());
}
