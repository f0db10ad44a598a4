use vstd::prelude::*;
use vstd::arithmetic::div_mod::lemma_fundamental_div_mod_converse;

use crate::color::{frame_colors, frame_colors_spec, initial_colors, initial_colors_spec, ColorRecord};
use crate::material::CustomMaterial;
use crate::store::Store;

verus! {

/// Total spawned mesh instances: one per grid coordinate of the 13 x 7 grid.
pub const INSTANCE_COUNT: usize = 91;

/// An integer triple: grid positions, the camera's placement, and axis
/// directions all lie on whole world units in this scene.
#[derive(Clone, Copy, Debug, PartialEq, Eq, Structural)]
pub struct Vec3i {
    pub x: i32,
    pub y: i32,
    pub z: i32,
}

/// A cube mesh asset; the edge length is kept in tenths of a world unit.
#[derive(Clone, Copy, Debug, PartialEq, Eq, Structural)]
pub struct Cuboid {
    pub size_tenths: u32,
}

/// One spawned mesh entity: its own cube asset, the shared material, and
/// a spatial position.
#[derive(Clone, Copy, Debug, PartialEq, Eq, Structural)]
pub struct MeshInstance {
    pub mesh: usize,
    pub material: usize,
    pub position: Vec3i,
}

/// The camera entity: a fixed position, aimed at `target`, with `up` as
/// the up direction.
#[derive(Clone, Copy, Debug, PartialEq, Eq, Structural)]
pub struct Camera {
    pub position: Vec3i,
    pub target: Vec3i,
    pub up: Vec3i,
}

/// The whole scene: the asset registries, the spawned entities, and the
/// handle of the one shared material. The handle travels inside this
/// struct from population to updater, instead of through a process-wide
/// singleton.
pub struct Scene {
    pub buffers: Store<Vec<ColorRecord>>,
    pub materials: Store<CustomMaterial>,
    pub meshes: Store<Cuboid>,
    pub instances: Vec<MeshInstance>,
    pub camera: Camera,
    pub material_handle: usize,
}

/// Edge length of every spawned cube, in tenths of a world unit.
pub open spec fn cube_spec() -> Cuboid {
    Cuboid { size_tenths: 3 }
}

/// Grid position of instance `k`: instances are spawned column by column,
/// x running -6 through 6 and y running -3 through 3, so column `k / 7`
/// and row `k % 7`.
pub open spec fn grid_position(k: int) -> Vec3i {
    Vec3i { x: (k / 7 - 6) as i32, y: (k % 7 - 3) as i32, z: 0 }
}

/// Instance `k` as scene population spawns it: its own cube asset (handle
/// `k`), the one shared material (handle 0), and its grid position.
pub open spec fn instance_at(k: int) -> MeshInstance {
    MeshInstance { mesh: k as usize, material: 0, position: grid_position(k) }
}

/// The camera spawned at startup: at (0, 0, 10), looking at the world
/// origin, with the world y axis as up.
pub open spec fn camera_spec() -> Camera {
    Camera {
        position: Vec3i { x: 0, y: 0, z: 10 },
        target: Vec3i { x: 0, y: 0, z: 0 },
        up: Vec3i { x: 0, y: 1, z: 0 },
    }
}

impl Scene {
    /// Handle of the buffer the registered material reads.
    pub open spec fn colors_handle(self) -> int {
        self.materials.entries@[self.material_handle as int].colors as int
    }

    /// Well-formedness: the registered material handle resolves, and so
    /// does the buffer handle that material holds.
    pub open spec fn wf(self) -> bool {
        &&& (self.material_handle as int) < self.materials.entries@.len()
        &&& self.colors_handle() < self.buffers.entries@.len()
    }

    /// Runtime check of `wf`, for callers outside the verified world: an
    /// unresolvable handle is a startup-ordering error they must treat as
    /// fatal.
    pub fn is_wf(&self) -> (ok: bool)
        ensures
            ok == self.wf(),
    {
        if self.material_handle < self.materials.len() {
            let material = self.materials.get(self.material_handle);
            material.colors < self.buffers.len()
        } else {
            false
        }
    }
}

/// Everything scene population promises: one buffer holding the initial
/// palette, one material reading it at slot zero, 91 cubes covering the
/// 13 x 7 grid and all sharing that material, and the fixed camera.
pub open spec fn setup_spec(s: Scene) -> bool {
    &&& s.buffers.entries@.len() == 1
    &&& s.buffers.entries@[0]@ == initial_colors_spec()
    &&& s.materials.entries@.len() == 1
    &&& s.materials.entries@[0] == (CustomMaterial { colors: 0 })
    &&& s.material_handle == 0
    &&& s.meshes.entries@.len() == INSTANCE_COUNT
    &&& (forall|k: int| 0 <= k < INSTANCE_COUNT ==> s.meshes.entries@[k] == cube_spec())
    &&& s.instances@.len() == INSTANCE_COUNT
    &&& (forall|k: int| 0 <= k < INSTANCE_COUNT ==> s.instances@[k] == instance_at(k))
    &&& s.camera == camera_spec()
}

/// Scene population, run once at startup: creates the storage buffer with
/// the initial palette, the one material reading it, the grid of cube
/// instances sharing that material, and the camera.
#[verifier::loop_isolation(false)]
pub fn setup() -> (s: Scene)
    ensures
        setup_spec(s),
        s.wf(),
{
    let mut buffers: Store<Vec<ColorRecord>> = Store::new();
    let palette = initial_colors();
    let colors = buffers.add(palette);

    let mut materials: Store<CustomMaterial> = Store::new();
    let material_handle = materials.add(CustomMaterial { colors });

    let mut meshes: Store<Cuboid> = Store::new();
    let mut instances: Vec<MeshInstance> = Vec::new();
    let mut x: i32 = -6;
    while x <= 6
        invariant
            -6 <= x <= 7,
            meshes.entries@.len() == instances@.len(),
            instances@.len() == (x + 6) * 7,
            forall|k: int| 0 <= k < instances@.len() ==> instances@[k] == instance_at(k),
            forall|k: int| 0 <= k < meshes.entries@.len() ==> meshes.entries@[k] == cube_spec(),
        decreases 7 - x,
    {
        let mut y: i32 = -3;
        while y <= 3
            invariant
                -6 <= x <= 6,
                -3 <= y <= 4,
                meshes.entries@.len() == instances@.len(),
                instances@.len() == (x + 6) * 7 + (y + 3),
                forall|k: int| 0 <= k < instances@.len() ==> instances@[k] == instance_at(k),
                forall|k: int| 0 <= k < meshes.entries@.len() ==> meshes.entries@[k] == cube_spec(),
            decreases 4 - y,
        {
            proof {
                lemma_grid_index(x as int, y as int);
            }
            let mesh = meshes.add(Cuboid { size_tenths: 3 });
            instances.push(MeshInstance {
                mesh,
                material: material_handle,
                position: Vec3i { x, y, z: 0 },
            });
            y = y + 1;
        }
        x = x + 1;
    }

    let camera = Camera {
        position: Vec3i { x: 0, y: 0, z: 10 },
        target: Vec3i { x: 0, y: 0, z: 0 },
        up: Vec3i { x: 0, y: 1, z: 0 },
    };
    Scene { buffers, materials, meshes, instances, camera, material_handle }
}

/// The per-frame update as a relation between the scene before and after
/// one tick: the buffer the material reads is wholly replaced with the
/// frame's records, and nothing else moves.
pub open spec fn update_spec(pre: Scene, post: Scene) -> bool {
    &&& post.buffers.entries@.len() == pre.buffers.entries@.len()
    &&& post.buffers.entries@[pre.colors_handle()]@ == frame_colors_spec()
    &&& (forall|k: int|
        0 <= k < pre.buffers.entries@.len() && k != pre.colors_handle()
            ==> post.buffers.entries@[k] == pre.buffers.entries@[k])
    &&& post.materials.entries@ == pre.materials.entries@
    &&& post.meshes.entries@ == pre.meshes.entries@
    &&& post.instances@ == pre.instances@
    &&& post.camera == pre.camera
    &&& post.material_handle == pre.material_handle
}

/// The per-frame updater: resolves the registered material, then wholly
/// replaces the storage buffer it reads with this frame's records. A scene
/// whose handles do not resolve is ruled out by `wf`: that situation is a
/// startup-ordering error, not a recoverable condition.
pub fn update(scene: &mut Scene)
    requires
        old(scene).wf(),
    ensures
        update_spec(*old(scene), *final(scene)),
        final(scene).buffers.entries@[old(scene).colors_handle()]@.len() == 5,
        final(scene).wf(),
{
    let material = scene.materials.get(scene.material_handle);
    let colors = material.colors;
    let records = frame_colors();
    scene.buffers.replace(colors, records);
}

/// The instance spawned for grid coordinate (x, y) stands at index
/// (x + 6) * 7 + (y + 3), and that index decodes back to (x, y).
pub proof fn lemma_grid_index(x: int, y: int)
    requires
        -6 <= x <= 6,
        -3 <= y <= 3,
    ensures
        0 <= (x + 6) * 7 + (y + 3) < INSTANCE_COUNT,
        grid_position((x + 6) * 7 + (y + 3)) == (Vec3i { x: x as i32, y: y as i32, z: 0 }),
{
    lemma_fundamental_div_mod_converse((x + 6) * 7 + (y + 3), 7, x + 6, y + 3);
}

/// Law: after scene population, every grid coordinate (x, y) with
/// -6 <= x <= 6 and -3 <= y <= 3 has a spawned instance standing at
/// (x, y, 0), and that instance shares the one registered material.
pub proof fn lemma_grid_coverage(s: Scene, x: int, y: int)
    requires
        setup_spec(s),
        -6 <= x <= 6,
        -3 <= y <= 3,
    ensures
        exists|k: int|
            0 <= k < s.instances@.len()
                && (#[trigger] s.instances@[k]).position == (Vec3i { x: x as i32, y: y as i32, z: 0 })
                && s.instances@[k].material == s.material_handle,
{
    let k = (x + 6) * 7 + (y + 3);
    lemma_grid_index(x, y);
    assert(s.instances@[k] == instance_at(k));
    assert(s.instances@[k].position == (Vec3i { x: x as i32, y: y as i32, z: 0 }));
}

/// Law: the buffer's length is invariant under the per-frame update — the
/// updater writes exactly five records over the five that were there, and
/// touches no other buffer.
pub proof fn lemma_update_preserves_buffer_length(pre: Scene, post: Scene)
    requires
        pre.wf(),
        update_spec(pre, post),
    ensures
        post.buffers.entries@.len() == pre.buffers.entries@.len(),
        post.buffers.entries@[pre.colors_handle()]@.len() == 5,
        pre.buffers.entries@[pre.colors_handle()]@.len() == 5
            ==> post.buffers.entries@[pre.colors_handle()]@.len()
                == pre.buffers.entries@[pre.colors_handle()]@.len(),
{
}

/// Law: the update is stateless — what it writes never depends on what the
/// buffer held before, so two scenes, whatever their buffers' previous
/// contents, end a tick with identical records behind their materials.
pub proof fn lemma_update_stateless(pre1: Scene, post1: Scene, pre2: Scene, post2: Scene)
    requires
        pre1.wf(),
        pre2.wf(),
        update_spec(pre1, post1),
        update_spec(pre2, post2),
    ensures
        post1.buffers.entries@[pre1.colors_handle()]@
            == post2.buffers.entries@[pre2.colors_handle()]@,
{
}

/// Law: the update is deterministic — two ticks taken from the same scene
/// (hence the same elapsed time) leave the buffers with identical
/// contents, record for record.
pub proof fn lemma_update_deterministic(pre: Scene, post1: Scene, post2: Scene)
    requires
        pre.wf(),
        update_spec(pre, post1),
        update_spec(pre, post2),
    ensures
        post1.buffers.entries@.len() == post2.buffers.entries@.len(),
        forall|k: int|
            0 <= k < post1.buffers.entries@.len()
                ==> #[trigger] post1.buffers.entries@[k]@ == post2.buffers.entries@[k]@,
{
    assert forall|k: int|
        0 <= k < post1.buffers.entries@.len()
            implies #[trigger] post1.buffers.entries@[k]@ == post2.buffers.entries@[k]@ by {
        if k != pre.colors_handle() {
            assert(post1.buffers.entries@[k] == pre.buffers.entries@[k]);
            assert(post2.buffers.entries@[k] == pre.buffers.entries@[k]);
        }
    }
}

} // verus!
