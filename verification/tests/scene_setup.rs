use storage_buffer::color::Channel;
use storage_buffer::material::{AccessMode, CustomMaterial, ResourceKind};
use storage_buffer::scene::{setup, update, Cuboid, Vec3i, INSTANCE_COUNT};
use storage_buffer::store::Store;

#[test]
fn setup_spawns_ninety_one_instances_on_the_grid() {
    let scene = setup();
    assert_eq!(scene.instances.len(), INSTANCE_COUNT);
    assert_eq!(scene.instances.len(), 91);
    let mut k: usize = 0;
    for x in -6i32..=6i32 {
        for y in -3i32..=3i32 {
            let instance = &scene.instances[k];
            assert_eq!(instance.position, Vec3i { x, y, z: 0 });
            assert_eq!(instance.mesh, k);
            k += 1;
        }
    }
    assert_eq!(k, 91);
}

#[test]
fn all_instances_share_the_one_material() {
    let scene = setup();
    assert_eq!(scene.materials.len(), 1);
    for instance in &scene.instances {
        assert_eq!(instance.material, scene.material_handle);
    }
}

#[test]
fn every_instance_is_a_cube_of_three_tenths() {
    let scene = setup();
    assert_eq!(scene.meshes.len(), scene.instances.len());
    for instance in &scene.instances {
        assert_eq!(*scene.meshes.get(instance.mesh), Cuboid { size_tenths: 3 });
    }
}

#[test]
fn camera_looks_at_origin_from_z_ten() {
    let scene = setup();
    assert_eq!(scene.camera.position, Vec3i { x: 0, y: 0, z: 10 });
    assert_eq!(scene.camera.target, Vec3i { x: 0, y: 0, z: 0 });
    assert_eq!(scene.camera.up, Vec3i { x: 0, y: 1, z: 0 });
}

#[test]
fn buffer_starts_with_the_palette() {
    let scene = setup();
    assert_eq!(scene.buffers.len(), 1);
    let material = scene.materials.get(scene.material_handle);
    let buffer = scene.buffers.get(material.colors);
    assert_eq!(buffer.len(), 5);
    assert_eq!(buffer[0].r, Channel::Level { value: 1 });
    assert_eq!(buffer[0].g, Channel::Level { value: 0 });
    assert_eq!(buffer[4].g, Channel::Level { value: 1 });
    assert_eq!(buffer[4].b, Channel::Level { value: 1 });
}

#[test]
fn setup_scene_is_well_formed() {
    let scene = setup();
    assert!(scene.is_wf());
}

#[test]
fn update_wholly_replaces_the_buffer() {
    let mut scene = setup();
    update(&mut scene);
    let material = scene.materials.get(scene.material_handle);
    let buffer = scene.buffers.get(material.colors);
    assert_eq!(buffer.len(), 5);
    for i in 0..5usize {
        let base: u32 = i as u32;
        assert_eq!(buffer[i].r, Channel::Wave { base, shift: 0 });
        assert_eq!(buffer[i].g, Channel::Wave { base, shift: 2 });
        assert_eq!(buffer[i].b, Channel::Wave { base, shift: 4 });
        assert_eq!(buffer[i].a, Channel::Level { value: 1 });
    }
}

#[test]
fn update_touches_nothing_but_the_buffer() {
    let mut scene = setup();
    let camera_before = scene.camera;
    let handle_before: usize = scene.material_handle;
    update(&mut scene);
    assert_eq!(scene.camera, camera_before);
    assert_eq!(scene.material_handle, handle_before);
    assert_eq!(scene.instances.len(), 91);
    assert_eq!(scene.materials.len(), 1);
    assert_eq!(scene.buffers.len(), 1);
}

#[test]
fn repeated_updates_keep_length_and_contents() {
    let mut once = setup();
    update(&mut once);
    let mut twice = setup();
    update(&mut twice);
    update(&mut twice);
    let one = once.buffers.get(0);
    let two = twice.buffers.get(0);
    assert_eq!(one, two);
    assert_eq!(two.len(), 5);
}

#[test]
fn material_binds_the_buffer_read_only_at_slot_zero() {
    let layout = CustomMaterial::binding_layout();
    assert_eq!(layout.len(), 1);
    assert_eq!(layout[0].slot, 0);
    assert_eq!(layout[0].kind, ResourceKind::StorageBuffer);
    assert_eq!(layout[0].access, AccessMode::ReadOnly);
}

#[test]
fn both_shader_stages_share_one_asset() {
    assert_eq!(CustomMaterial::vertex_shader(), CustomMaterial::fragment_shader());
    assert_eq!(CustomMaterial::vertex_shader(), "shaders/storage_buffer.wgsl");
}

#[test]
fn store_handles_resolve_in_insertion_order() {
    let mut store: Store<u32> = Store::new();
    let first: usize = store.add(10);
    let second: usize = store.add(20);
    assert_eq!(first, 0);
    assert_eq!(second, 1);
    assert_eq!(*store.get(first), 10);
    assert_eq!(*store.get(second), 20);
    store.replace(first, 30);
    assert_eq!(*store.get(first), 30);
    assert_eq!(*store.get(second), 20);
    assert_eq!(store.len(), 2);
}
