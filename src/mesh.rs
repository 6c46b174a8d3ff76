//! Instanced meshes: many placements of a few shared GPU meshes.
use vstd::prelude::*;
use crate::types::{Color32, Mat4};

verus! {

/// A mesh whose geometry lives on the GPU. Instances holding the same handle share it.
#[derive(Clone, Copy, Debug, PartialEq, Eq, Structural)]
pub struct GpuMeshHandle {
    pub id: u64,
}

/// One placement of a shared mesh, with its own transform and additive color tint.
#[derive(Clone, Copy, Debug, PartialEq, Eq, Structural)]
pub struct MeshInstance {
    pub gpu_mesh: GpuMeshHandle,
    pub world_from_mesh: Mat4,
    pub additive_tint: Color32,
}

/// The frozen list of mesh instances of one frame.
pub struct MeshDrawData {
    pub instances: Vec<MeshInstance>,
}

/// How many instances a model of `model_len` meshes yields from `placement_len`
/// placements: one per placement of each complete group of `model_len` placements.
pub open spec fn instance_count(model_len: int, placement_len: int) -> int {
    (placement_len / model_len) * model_len
}

/// Instance `n` places mesh `n % model_len` of the model with the `n`-th transform and tint.
pub open spec fn instance_at(models: Seq<MeshInstance>, transforms: Seq<Mat4>, tints: Seq<Color32>, n: int) -> MeshInstance {
    MeshInstance {
        gpu_mesh: models[n % models.len() as int].gpu_mesh,
        world_from_mesh: transforms[n],
        additive_tint: tints[n],
    }
}

/// Places copies of a model made of several meshes. Placements come in groups of
/// `models.len()`, one per mesh of the model; a trailing incomplete group is ignored.
/// Every instance shares the GPU mesh of its model part and only carries its own
/// transform and tint.
pub fn build_mesh_instances(models: &Vec<MeshInstance>, transforms: &Vec<Mat4>, tints: &Vec<Color32>) -> (d: MeshDrawData)
    requires
        models@.len() > 0,
        transforms@.len() == tints@.len(),
    ensures
        d.instances@.len() == instance_count(models@.len() as int, tints@.len() as int),
        forall|n: int| 0 <= n < d.instances@.len() ==> #[trigger] d.instances@[n] == instance_at(models@, transforms@, tints@, n),
{
    let m = models.len();
    let placement_len = tints.len();
    let groups = placement_len / m;
    let mut instances: Vec<MeshInstance> = Vec::new();
    let mut g: usize = 0;
    proof {
        vstd::arithmetic::div_mod::lemma_fundamental_div_mod(tints@.len() as int, m as int);
    }
    while g < groups
        invariant
            m == models@.len(),
            m > 0,
            groups == tints@.len() as int / m as int,
            groups * m <= tints@.len(),
            placement_len == tints@.len(),
            transforms@.len() == tints@.len(),
            g <= groups,
            instances@.len() == g * m,
            forall|n: int| 0 <= n < instances@.len() ==> #[trigger] instances@[n] == instance_at(models@, transforms@, tints@, n),
        decreases groups - g,
    {
        let mut j: usize = 0;
        proof {
            assert(g * m + m <= groups * m) by (nonlinear_arith)
                requires
                    g < groups,
            ;
        }
        while j < m
            invariant
                m == models@.len(),
                m > 0,
                g < groups,
                g * m + m <= tints@.len(),
                placement_len == tints@.len(),
                transforms@.len() == tints@.len(),
                j <= m,
                instances@.len() == g * m + j,
                forall|n: int| 0 <= n < instances@.len() ==> #[trigger] instances@[n] == instance_at(models@, transforms@, tints@, n),
            decreases m - j,
        {
            assert(g * m + j < placement_len);
            let n = g * m + j;
            proof {
                vstd::arithmetic::div_mod::lemma_fundamental_div_mod_converse(n as int, m as int, g as int, j as int);
            }
            let inst = MeshInstance {
                gpu_mesh: models[j].gpu_mesh,
                world_from_mesh: transforms[n],
                additive_tint: tints[n],
            };
            instances.push(inst);
            j = j + 1;
        }
        proof {
            assert((g + 1) * m == g * m + m) by (nonlinear_arith);
        }
        g = g + 1;
    }
    MeshDrawData { instances }
}

} // verus!
