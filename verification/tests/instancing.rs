use smol_engine::assets::{AssetManager, ModelHandle};
use smol_engine::components::LightTag;
use smol_engine::instancing::{
    draw_calls, instance_ranges, staging_bytes, upload_instances, Chunk, DrawCall, EntityFilter, InstanceCopy,
    InstanceData, InstanceOverflow, InstanceRange,
};
use smol_engine::model::Model;
use smol_engine::words::{Matrix4, Vector4};

fn model(capacity: u32) -> Model {
    Model { instance_capacity: capacity, meshes: Vec::new(), materials: Vec::new() }
}

fn matrix(tag: u32) -> Matrix4 {
    let column = |c: u32| Vector4 { x: tag + c, y: tag + c + 100, z: tag + c + 200, w: tag + c + 300 };
    Matrix4 { c0: column(0), c1: column(1), c2: column(2), c3: column(3) }
}

fn chunk(model: ModelHandle, entities: u32, light: bool) -> Chunk {
    Chunk {
        model,
        instances: (0..entities).map(|i| InstanceData::new(matrix(i))).collect(),
        light: if light { Some(LightTag) } else { None },
    }
}

fn two_models(capacity_a: u32, capacity_b: u32) -> (AssetManager, ModelHandle, ModelHandle) {
    let mut assets = AssetManager::new();
    let a = assets.load_model("a.obj");
    let b = assets.load_model("b.obj");
    assets
        .clear_load_queue(|path: &String| Ok(model(if path == "a.obj" { capacity_a } else { capacity_b })))
        .unwrap();
    (assets, a, b)
}

#[test]
fn fifty_and_three_entities_give_offsets_fifty_and_three() {
    let (assets, a, b) = two_models(100, 250);
    let chunks = vec![chunk(a, 50, false), chunk(b, 3, false)];
    let upload = upload_instances(&assets, &chunks).unwrap();
    assert_eq!(upload.offsets.get(&a), Some(50));
    assert_eq!(upload.offsets.get(&b), Some(3));
    assert_eq!(upload.offsets.len(), 2);
    assert_eq!(upload.staging.len(), 53);
    assert_eq!(
        upload.copies,
        vec![
            InstanceCopy { model: a, source: 0, target: InstanceRange { first: 0, count: 50 } },
            InstanceCopy { model: b, source: 50, target: InstanceRange { first: 0, count: 3 } },
        ]
    );
    let draws = draw_calls(&assets, &chunks, EntityFilter::WithoutLight).unwrap();
    assert_eq!(
        draws,
        vec![
            DrawCall { model: a, instances: InstanceRange { first: 0, count: 50 } },
            DrawCall { model: b, instances: InstanceRange { first: 0, count: 3 } },
        ]
    );
}

#[test]
fn groups_of_one_model_follow_each_other_in_its_buffer() {
    let (assets, a, b) = two_models(100, 100);
    let chunks = vec![chunk(a, 4, false), chunk(b, 2, false), chunk(a, 5, false), chunk(a, 1, false)];
    let (ranges, offsets) = instance_ranges(&assets, &chunks).unwrap();
    assert_eq!(
        ranges,
        vec![
            Some(InstanceRange { first: 0, count: 4 }),
            Some(InstanceRange { first: 0, count: 2 }),
            Some(InstanceRange { first: 4, count: 5 }),
            Some(InstanceRange { first: 9, count: 1 }),
        ]
    );
    assert_eq!(offsets.get(&a), Some(10));
    assert_eq!(offsets.get(&b), Some(2));
    let upload = upload_instances(&assets, &chunks).unwrap();
    let sources: Vec<usize> = upload.copies.iter().map(|c| c.source).collect();
    assert_eq!(sources, vec![0, 4, 6, 11]);
    assert_eq!(upload.staging[6], InstanceData::new(matrix(0)));
    assert_eq!(upload.staging[10], InstanceData::new(matrix(4)));
}

#[test]
fn every_pass_reads_what_the_upload_wrote() {
    let (assets, a, b) = two_models(100, 100);
    let chunks = vec![chunk(a, 4, false), chunk(b, 2, true), chunk(a, 5, false), chunk(b, 3, true)];
    let upload = upload_instances(&assets, &chunks).unwrap();
    for filter in [EntityFilter::All, EntityFilter::WithLight, EntityFilter::WithoutLight] {
        let draws = draw_calls(&assets, &chunks, filter).unwrap();
        for draw in &draws {
            assert!(upload.copies.iter().any(|c| c.model == draw.model && c.target == draw.instances));
        }
    }
    let opaque = draw_calls(&assets, &chunks, EntityFilter::WithoutLight).unwrap();
    let drawn_a: u32 = opaque.iter().filter(|d| d.model == a).map(|d| d.instances.count).sum();
    let written_a: u32 = upload.copies.iter().filter(|c| c.model == a).map(|c| c.target.count).sum();
    assert_eq!(drawn_a, 9);
    assert_eq!(written_a, 9);
    assert_eq!(upload.offsets.get(&a), Some(9));
    let lights = draw_calls(&assets, &chunks, EntityFilter::WithLight).unwrap();
    let drawn_b: u32 = lights.iter().filter(|d| d.model == b).map(|d| d.instances.count).sum();
    assert_eq!(drawn_b, 5);
    assert_eq!(upload.offsets.get(&b), Some(5));
}

#[test]
fn a_model_that_is_not_loaded_is_skipped() {
    let mut assets = AssetManager::new();
    let a = assets.load_model("a.obj");
    assets.clear_load_queue(|_p: &String| Ok(model(10))).unwrap();
    let pending = assets.load_model("later.obj");
    let chunks = vec![chunk(pending, 3, false), chunk(a, 2, false)];
    let upload = upload_instances(&assets, &chunks).unwrap();
    assert_eq!(upload.offsets.get(&pending), None);
    assert_eq!(upload.offsets.get(&a), Some(2));
    assert_eq!(upload.staging.len(), 2);
    assert_eq!(upload.copies.len(), 1);
    let draws = draw_calls(&assets, &chunks, EntityFilter::All).unwrap();
    assert_eq!(draws, vec![DrawCall { model: a, instances: InstanceRange { first: 0, count: 2 } }]);
}

#[test]
fn a_model_without_entities_is_absent_from_the_offsets() {
    let (assets, a, b) = two_models(10, 10);
    let chunks = vec![chunk(a, 0, false), chunk(b, 1, false)];
    let (ranges, offsets) = instance_ranges(&assets, &chunks).unwrap();
    assert_eq!(ranges, vec![None, Some(InstanceRange { first: 0, count: 1 })]);
    assert_eq!(offsets.get(&a), None);
    assert_eq!(offsets.len(), 1);
    let nothing: Vec<Chunk> = Vec::new();
    let upload = upload_instances(&assets, &nothing).unwrap();
    assert_eq!(upload.offsets.len(), 0);
    assert!(upload.copies.is_empty());
    assert!(upload.staging.is_empty());
}

#[test]
fn a_group_that_does_not_fit_is_reported_not_cut() {
    let (assets, a, b) = two_models(100, 4);
    let chunks = vec![chunk(b, 3, false), chunk(a, 100, false), chunk(b, 2, false), chunk(a, 1, false)];
    let expected = InstanceOverflow { chunk: 2, model: b, capacity: 4, used: 3, requested: 2 };
    assert_eq!(instance_ranges(&assets, &chunks).err(), Some(expected));
    assert_eq!(upload_instances(&assets, &chunks).err(), Some(expected));
    assert_eq!(draw_calls(&assets, &chunks, EntityFilter::WithLight).err(), Some(expected));
}

#[test]
fn a_full_buffer_is_no_overflow() {
    let (assets, a, _b) = two_models(5, 1);
    let chunks = vec![chunk(a, 2, false), chunk(a, 3, false)];
    let upload = upload_instances(&assets, &chunks).unwrap();
    assert_eq!(upload.offsets.get(&a), Some(5));
    let one_more = vec![chunk(a, 2, false), chunk(a, 3, false), chunk(a, 1, false)];
    assert_eq!(
        upload_instances(&assets, &one_more).err(),
        Some(InstanceOverflow { chunk: 2, model: a, capacity: 5, used: 5, requested: 1 })
    );
}

#[test]
fn filters_pick_groups_by_their_light() {
    let (assets, a, b) = two_models(100, 100);
    let chunks = vec![chunk(a, 1, false), chunk(b, 2, true), chunk(a, 3, true)];
    let with = draw_calls(&assets, &chunks, EntityFilter::WithLight).unwrap();
    assert_eq!(
        with,
        vec![
            DrawCall { model: b, instances: InstanceRange { first: 0, count: 2 } },
            DrawCall { model: a, instances: InstanceRange { first: 1, count: 3 } },
        ]
    );
    let without = draw_calls(&assets, &chunks, EntityFilter::WithoutLight).unwrap();
    assert_eq!(without, vec![DrawCall { model: a, instances: InstanceRange { first: 0, count: 1 } }]);
    assert_eq!(draw_calls(&assets, &chunks, EntityFilter::All).unwrap().len(), 3);
}

#[test]
fn copies_know_their_byte_offsets() {
    let copy = InstanceCopy {
        model: ModelHandle { id: 0 },
        source: 6,
        target: InstanceRange { first: 4, count: 5 },
    };
    assert_eq!(copy.source_offset(), Some(384));
    assert_eq!(copy.target_offset(), 256);
    assert_eq!(copy.size(), 320);
}

#[test]
fn staging_bytes_are_the_matrices_column_by_column_in_little_endian() {
    let one = 1.0f32.to_bits();
    let identity = Matrix4 {
        c0: Vector4 { x: one, y: 0, z: 0, w: 0 },
        c1: Vector4 { x: 0, y: one, z: 0, w: 0 },
        c2: Vector4 { x: 0, y: 0, z: one, w: 0 },
        c3: Vector4 { x: 2.5f32.to_bits(), y: 0, z: 0, w: one },
    };
    let staging = vec![InstanceData::new(identity), InstanceData::new(matrix(7))];
    let bytes = staging_bytes(&staging);
    assert_eq!(bytes.len(), 128);
    assert_eq!(&bytes[0..4], &1.0f32.to_le_bytes());
    assert_eq!(&bytes[4..8], &[0, 0, 0, 0]);
    assert_eq!(&bytes[20..24], &1.0f32.to_le_bytes());
    assert_eq!(&bytes[48..52], &2.5f32.to_le_bytes());
    assert_eq!(&bytes[64..68], &7u32.to_le_bytes());
    assert_eq!(&bytes[68..72], &107u32.to_le_bytes());
    assert_eq!(&bytes[124..128], &310u32.to_le_bytes());
    assert_eq!(identity.translation().x, 2.5f32.to_bits());
}
