//! Expansion of draw requests into render-pass commands.
//!
//! A `DrawList` records, in order, the state changes and indexed draws that
//! a mesh or a model needs. Commands name meshes, materials and extra
//! bind groups by position, so that whoever owns the render pass can replay
//! them against the real handles.
use std::ops::Range;
use vstd::prelude::*;
use crate::model::{HasMaterials, HasMeshes, Mesh, materials_resolve};

verus! {

/// The bind group a `SetBindGroup` command binds.
#[derive(Clone, Copy, Debug, PartialEq, Eq, Structural)]
pub enum BindGroupSource {
    /// The bind group of the material at this position of the material list.
    Material(usize),
    /// The caller-supplied extra bind group at this position.
    Extra(usize),
}

/// One render-pass state change or draw.
#[derive(Clone, Copy, Debug, PartialEq, Eq, Structural)]
pub enum DrawCommand {
    SetVertexBuffer { slot: u32, mesh: usize },
    SetIndexBuffer { mesh: usize },
    SetBindGroup { slot: u32, source: BindGroupSource },
    /// Draws indices `0..index_count` for instances `instance_start..instance_end`.
    DrawIndexed { index_count: u32, instance_start: u32, instance_end: u32 },
}

/// The extra bind groups, at consecutive slots from `first_slot`.
pub open spec fn extra_bind_commands(first_slot: nat, extra: nat) -> Seq<DrawCommand> {
    Seq::new(
        extra,
        |i: int|
            DrawCommand::SetBindGroup {
                slot: (first_slot + i) as u32,
                source: BindGroupSource::Extra(i as usize),
            },
    )
}

/// The commands that draw one mesh: its buffers, the material at slot 0 if
/// there is one, the extra bind groups after it, then one indexed draw.
pub open spec fn mesh_draw_commands(
    mesh: usize,
    num_elements: u32,
    material: Option<usize>,
    instances: Range<u32>,
    extra: nat,
) -> Seq<DrawCommand> {
    let buffers = seq![
        DrawCommand::SetVertexBuffer { slot: 0, mesh },
        DrawCommand::SetIndexBuffer { mesh },
    ];
    let draw = DrawCommand::DrawIndexed {
        index_count: num_elements,
        instance_start: instances.start,
        instance_end: instances.end,
    };
    match material {
        Some(m) => buffers.push(
            DrawCommand::SetBindGroup { slot: 0, source: BindGroupSource::Material(m) },
        ) + extra_bind_commands(1, extra).push(draw),
        None => buffers + extra_bind_commands(0, extra).push(draw),
    }
}

/// The commands that draw every mesh of a list in order, each with its own
/// material when `with_materials` holds and with none otherwise.
pub open spec fn model_draw_commands<B>(
    meshes: Seq<Mesh<B>>,
    with_materials: bool,
    instances: Range<u32>,
    extra: nat,
) -> Seq<DrawCommand>
    decreases meshes.len(),
{
    if meshes.len() == 0 {
        seq![]
    } else {
        let i = meshes.len() - 1;
        let material = if with_materials {
            Some(meshes[i].material)
        } else {
            None
        };
        model_draw_commands(meshes.drop_last(), with_materials, instances, extra)
            + mesh_draw_commands(i as usize, meshes[i].num_elements, material, instances, extra)
    }
}

/// The number of indexed draws among `cmds`.
pub open spec fn draw_count(cmds: Seq<DrawCommand>) -> nat
    decreases cmds.len(),
{
    if cmds.len() == 0 {
        0
    } else {
        draw_count(cmds.drop_last()) + if cmds.last() is DrawIndexed {
            1nat
        } else {
            0nat
        }
    }
}

/// Number of commands recorded for one mesh.
pub open spec fn mesh_block_len(with_material: bool, extra: nat) -> nat {
    if with_material {
        extra + 4
    } else {
        extra + 3
    }
}

proof fn lemma_draw_count_concat(a: Seq<DrawCommand>, b: Seq<DrawCommand>)
    ensures
        draw_count(a + b) == draw_count(a) + draw_count(b),
    decreases b.len(),
{
    if b.len() == 0 {
        assert(a + b =~= a);
    } else {
        lemma_draw_count_concat(a, b.drop_last());
        assert((a + b).drop_last() =~= a + b.drop_last());
    }
}

proof fn lemma_draw_count_none(s: Seq<DrawCommand>)
    requires
        forall|k: int| 0 <= k < s.len() ==> s[k] !is DrawIndexed,
    ensures
        draw_count(s) == 0,
    decreases s.len(),
{
    if s.len() > 0 {
        lemma_draw_count_none(s.drop_last());
    }
}

proof fn lemma_mesh_block<B>(
    mesh: usize,
    num_elements: u32,
    material: Option<usize>,
    instances: Range<u32>,
    extra: nat,
)
    ensures
        ({
            let cmds = mesh_draw_commands(mesh, num_elements, material, instances, extra);
            let len = mesh_block_len(material is Some, extra);
            &&& cmds.len() == len
            &&& draw_count(cmds) == 1
            &&& cmds[len - 1] == DrawCommand::DrawIndexed {
                index_count: num_elements,
                instance_start: instances.start,
                instance_end: instances.end,
            }
            &&& forall|k: int| 0 <= k < len - 1 ==> cmds[k] !is DrawIndexed
        }),
{
    let cmds = mesh_draw_commands(mesh, num_elements, material, instances, extra);
    let len = mesh_block_len(material is Some, extra);
    assert(cmds.len() == len);
    assert forall|k: int| 0 <= k < len - 1 implies cmds[k] !is DrawIndexed by {}
    lemma_draw_count_none(cmds.drop_last());
}

#[verifier::spinoff_prover]
#[verifier::rlimit(40)]
proof fn lemma_model_blocks<B>(
    meshes: Seq<Mesh<B>>,
    with_materials: bool,
    instances: Range<u32>,
    extra: nat,
)
    requires
        meshes.len() <= usize::MAX,
    ensures
        ({
            let cmds = model_draw_commands(meshes, with_materials, instances, extra);
            let len = mesh_block_len(with_materials, extra);
            &&& cmds.len() == meshes.len() * len
            &&& draw_count(cmds) == meshes.len()
            &&& forall|i: int, j: int|
                0 <= i < meshes.len() && 0 <= j < len ==> #[trigger] cmds[i * len + j]
                    == mesh_draw_commands(
                    i as usize,
                    meshes[i].num_elements,
                    if with_materials {
                        Some(meshes[i].material)
                    } else {
                        None
                    },
                    instances,
                    extra,
                )[j]
        }),
    decreases meshes.len(),
{
    let len = mesh_block_len(with_materials, extra);
    if meshes.len() > 0 {
        let n = meshes.len() - 1;
        let rest = meshes.drop_last();
        let material = if with_materials {
            Some(meshes[n].material)
        } else {
            None
        };
        let head = model_draw_commands(rest, with_materials, instances, extra);
        let block = mesh_draw_commands(n as usize, meshes[n].num_elements, material, instances, extra);
        lemma_model_blocks(rest, with_materials, instances, extra);
        lemma_mesh_block::<B>(n as usize, meshes[n].num_elements, material, instances, extra);
        lemma_draw_count_concat(head, block);
        let cmds = model_draw_commands(meshes, with_materials, instances, extra);
        assert(cmds == head + block);
        assert(cmds.len() == meshes.len() * len) by (nonlinear_arith)
            requires
                cmds.len() == head.len() + block.len(),
                head.len() == n * len,
                block.len() == len,
                meshes.len() == n + 1,
        ;
        assert forall|i: int, j: int| 0 <= i < meshes.len() && 0 <= j < len implies #[trigger] cmds[i
            * len + j] == mesh_draw_commands(
            i as usize,
            meshes[i].num_elements,
            if with_materials {
                Some(meshes[i].material)
            } else {
                None
            },
            instances,
            extra,
        )[j] by {
            if i < n {
                assert(i * len + j < n * len) by (nonlinear_arith)
                    requires
                        0 <= i < n,
                        0 <= j < len,
                ;
                assert(rest[i] == meshes[i]);
                assert(head[i * len + j] == cmds[i * len + j]);
            } else {
                assert(i * len == n * len);
                assert(cmds[i * len + j] == block[j]);
            }
        }
    }
}

/// Drawing a model whose meshes all name one of its `material_count`
/// materials issues exactly one indexed draw per mesh. The commands form one
/// block per mesh, and inside each block the mesh's own material is bound at
/// slot 0 before the block's single draw, which comes last.
#[verifier::rlimit(40)]
pub proof fn lemma_draw_model_instanced_binds_material_per_draw<B>(
    meshes: Seq<Mesh<B>>,
    material_count: nat,
    instances: Range<u32>,
    extra: nat,
)
    requires
        meshes.len() <= usize::MAX,
        materials_resolve(meshes, material_count),
    ensures
        ({
            let cmds = model_draw_commands(meshes, true, instances, extra);
            let len = extra + 4;
            &&& draw_count(cmds) == meshes.len()
            &&& cmds.len() == meshes.len() * len
            &&& forall|i: int|
                0 <= i < meshes.len() ==> {
                    &&& #[trigger] cmds[i * len + 2] == DrawCommand::SetBindGroup {
                        slot: 0,
                        source: BindGroupSource::Material(meshes[i].material),
                    }
                    &&& meshes[i].material < material_count
                    &&& cmds[i * len + len - 1] == DrawCommand::DrawIndexed {
                        index_count: meshes[i].num_elements,
                        instance_start: instances.start,
                        instance_end: instances.end,
                    }
                    &&& forall|j: int| 0 <= j < len - 1 ==> (#[trigger] cmds[i * len + j]) !is DrawIndexed
                }
        }),
{
    let cmds = model_draw_commands(meshes, true, instances, extra);
    let len = extra + 4;
    lemma_model_blocks(meshes, true, instances, extra);
    assert forall|i: int| 0 <= i < meshes.len() implies {
        &&& #[trigger] cmds[i * len + 2] == DrawCommand::SetBindGroup {
            slot: 0,
            source: BindGroupSource::Material(meshes[i].material),
        }
        &&& meshes[i].material < material_count
        &&& cmds[i * len + len - 1] == DrawCommand::DrawIndexed {
            index_count: meshes[i].num_elements,
            instance_start: instances.start,
            instance_end: instances.end,
        }
        &&& forall|j: int| 0 <= j < len - 1 ==> (#[trigger] cmds[i * len + j]) !is DrawIndexed
    } by {
        let block = mesh_draw_commands(
            i as usize,
            meshes[i].num_elements,
            Some(meshes[i].material),
            instances,
            extra,
        );
        lemma_mesh_block::<B>(i as usize, meshes[i].num_elements, Some(meshes[i].material), instances, extra);
        assert(cmds[i * len + 2] == block[2]);
        assert(cmds[i * len + (len - 1)] == block[len - 1]);
        assert forall|j: int| 0 <= j < len - 1 implies (#[trigger] cmds[i * len + j]) !is DrawIndexed by {
            assert(cmds[i * len + j] == block[j]);
        }
    }
}

/// Drawing a model without materials issues exactly one indexed draw per
/// mesh and binds no material anywhere: in each mesh's block the extra bind
/// groups take slots 0, 1, ... in their given order, and the draw comes last.
#[verifier::rlimit(40)]
pub proof fn lemma_draw_model_no_mat_instanced_binds_extras_from_zero<B>(
    meshes: Seq<Mesh<B>>,
    instances: Range<u32>,
    extra: nat,
)
    requires
        meshes.len() <= usize::MAX,
        extra < u32::MAX,
    ensures
        ({
            let cmds = model_draw_commands(meshes, false, instances, extra);
            let len = extra + 3;
            &&& draw_count(cmds) == meshes.len()
            &&& cmds.len() == meshes.len() * len
            &&& forall|k: int|
                0 <= k < cmds.len() && (#[trigger] cmds[k]) is SetBindGroup
                    ==> cmds[k]->source is Extra
            &&& forall|i: int, j: int|
                0 <= i < meshes.len() && 0 <= j < extra ==> #[trigger] cmds[i * len + 2 + j]
                    == DrawCommand::SetBindGroup {
                    slot: j as u32,
                    source: BindGroupSource::Extra(j as usize),
                }
            &&& forall|i: int|
                0 <= i < meshes.len() ==> #[trigger] cmds[i * len + len - 1]
                    == DrawCommand::DrawIndexed {
                    index_count: meshes[i].num_elements,
                    instance_start: instances.start,
                    instance_end: instances.end,
                }
        }),
{
    let cmds = model_draw_commands(meshes, false, instances, extra);
    let len = extra + 3;
    lemma_model_blocks(meshes, false, instances, extra);
    assert forall|i: int, j: int| 0 <= i < meshes.len() && 0 <= j < len implies ({
        let c = #[trigger] cmds[i * len + j];
        &&& c is SetBindGroup ==> c->source is Extra
        &&& 2 <= j < len - 1 ==> c == DrawCommand::SetBindGroup {
            slot: (j - 2) as u32,
            source: BindGroupSource::Extra((j - 2) as usize),
        }
        &&& j == len - 1 ==> c == DrawCommand::DrawIndexed {
            index_count: meshes[i].num_elements,
            instance_start: instances.start,
            instance_end: instances.end,
        }
    }) by {
        let block = mesh_draw_commands(i as usize, meshes[i].num_elements, None, instances, extra);
        lemma_mesh_block::<B>(i as usize, meshes[i].num_elements, None, instances, extra);
        assert(cmds[i * len + j] == block[j]);
    }
    assert forall|k: int| 0 <= k < cmds.len() && (#[trigger] cmds[k]) is SetBindGroup implies cmds[k]->source is Extra by {
        let i = k / (len as int);
        let j = k % (len as int);
        assert(k == i * len + j && 0 <= j < len) by (nonlinear_arith)
            requires
                len > 0,
                i == k / (len as int),
                j == k % (len as int),
        ;
        assert(0 <= i < meshes.len()) by (nonlinear_arith)
            requires
                0 <= k < meshes.len() * len,
                len > 0,
                i == k / (len as int),
        ;
    }
    assert forall|i: int, j: int| 0 <= i < meshes.len() && 0 <= j < extra implies #[trigger] cmds[i
        * len + 2 + j] == DrawCommand::SetBindGroup {
        slot: j as u32,
        source: BindGroupSource::Extra(j as usize),
    } by {
        assert(i * len + 2 + j == i * len + (j + 2));
    }
    assert forall|i: int| 0 <= i < meshes.len() implies #[trigger] cmds[i * len + len - 1]
        == DrawCommand::DrawIndexed {
        index_count: meshes[i].num_elements,
        instance_start: instances.start,
        instance_end: instances.end,
    } by {
        assert(i * len + len - 1 == i * len + (len - 1));
    }
}

/// A recording of render-pass commands.
pub struct DrawList {
    pub commands: Vec<DrawCommand>,
}

impl DrawList {
    pub fn new() -> (r: DrawList)
        ensures
            r.commands@ == Seq::<DrawCommand>::empty(),
    {
        DrawList { commands: Vec::new() }
    }

    /// Records the drawing of one instance of `mesh`, which the commands
    /// call `mesh_index`.
    pub fn draw_mesh<B, X>(
        &mut self,
        mesh_index: usize,
        mesh: &Mesh<B>,
        material: Option<usize>,
        bind_groups: &[X],
    )
        requires
            bind_groups@.len() < u32::MAX,
        ensures
            final(self).commands@ == old(self).commands@ + mesh_draw_commands(
                mesh_index,
                mesh.num_elements,
                material,
                0..1,
                bind_groups@.len(),
            ),
    {
        self.draw_mesh_instanced(mesh_index, mesh, material, 0..1, bind_groups);
    }

    /// Records the drawing of the instances in `instances` of `mesh`, which
    /// the commands call `mesh_index`.
    #[verifier::rlimit(40)]
    pub fn draw_mesh_instanced<B, X>(
        &mut self,
        mesh_index: usize,
        mesh: &Mesh<B>,
        material: Option<usize>,
        instances: Range<u32>,
        bind_groups: &[X],
    )
        requires
            bind_groups@.len() < u32::MAX,
        ensures
            final(self).commands@ == old(self).commands@ + mesh_draw_commands(
                mesh_index,
                mesh.num_elements,
                material,
                instances,
                bind_groups@.len(),
            ),
    {
        self.commands.push(DrawCommand::SetVertexBuffer { slot: 0, mesh: mesh_index });
        self.commands.push(DrawCommand::SetIndexBuffer { mesh: mesh_index });
        let first: u32 = match material {
            Some(m) => {
                self.commands.push(
                    DrawCommand::SetBindGroup { slot: 0, source: BindGroupSource::Material(m) },
                );
                1
            },
            None => 0,
        };
        let ghost prefix = self.commands@;
        let mut i: usize = 0;
        while i < bind_groups.len()
            invariant
                i <= bind_groups@.len() < u32::MAX,
                first <= 1,
                self.commands@ == prefix + extra_bind_commands(first as nat, i as nat),
            decreases bind_groups@.len() - i,
        {
            self.commands.push(
                DrawCommand::SetBindGroup {
                    slot: first + i as u32,
                    source: BindGroupSource::Extra(i),
                },
            );
            assert(extra_bind_commands(first as nat, (i + 1) as nat) =~= extra_bind_commands(
                first as nat,
                i as nat,
            ).push(
                DrawCommand::SetBindGroup {
                    slot: (first + i) as u32,
                    source: BindGroupSource::Extra(i),
                },
            ));
            i += 1;
        }
        self.commands.push(
            DrawCommand::DrawIndexed {
                index_count: mesh.num_elements,
                instance_start: instances.start,
                instance_end: instances.end,
            },
        );
        assert(self.commands@ =~= old(self).commands@ + mesh_draw_commands(
            mesh_index,
            mesh.num_elements,
            material,
            instances,
            bind_groups@.len(),
        ));
    }
    /// Records one instance of every mesh of `model`, each with its material.
    pub fn draw_model<B, T, G, M: HasMeshes<B> + HasMaterials<T, G>, X>(
        &mut self,
        model: &M,
        bind_groups: &[X],
    )
        requires
            bind_groups@.len() < u32::MAX,
            materials_resolve(model.mesh_list(), model.material_list().len()),
        ensures
            final(self).commands@ == old(self).commands@ + model_draw_commands(
                model.mesh_list(),
                true,
                0..1,
                bind_groups@.len(),
            ),
    {
        self.draw_model_instanced(model, 0..1, bind_groups);
    }

    /// Records the instances in `instances` of every mesh of `model`, each
    /// with the material it names.
    pub fn draw_model_instanced<B, T, G, M: HasMeshes<B> + HasMaterials<T, G>, X>(
        &mut self,
        model: &M,
        instances: Range<u32>,
        bind_groups: &[X],
    )
        requires
            bind_groups@.len() < u32::MAX,
            materials_resolve(model.mesh_list(), model.material_list().len()),
        ensures
            final(self).commands@ == old(self).commands@ + model_draw_commands(
                model.mesh_list(),
                true,
                instances,
                bind_groups@.len(),
            ),
    {
        let meshes = model.meshes();
        let materials = model.materials();
        let mut i: usize = 0;
        while i < meshes.len()
            invariant
                bind_groups@.len() < u32::MAX,
                meshes@ == model.mesh_list(),
                materials@ == model.material_list(),
                materials_resolve(meshes@, materials@.len()),
                i <= meshes@.len(),
                self.commands@ == old(self).commands@ + model_draw_commands(
                    meshes@.take(i as int),
                    true,
                    instances,
                    bind_groups@.len(),
                ),
            decreases meshes@.len() - i,
        {
            let mesh = &meshes[i];
            let material = mesh.material;
            assert(meshes@[i as int].material < materials@.len());
            let range = Range { start: instances.start, end: instances.end };
            self.draw_mesh_instanced(i, mesh, Some(material), range, bind_groups);
            assert(meshes@.take(i + 1).drop_last() =~= meshes@.take(i as int));
            i += 1;
        }
        assert(meshes@.take(i as int) =~= meshes@);
    }

    /// Records one instance of every mesh of `model`, with no material.
    pub fn draw_model_no_mat<B, M: HasMeshes<B>, X>(&mut self, model: &M, bind_groups: &[X])
        requires
            bind_groups@.len() < u32::MAX,
        ensures
            final(self).commands@ == old(self).commands@ + model_draw_commands(
                model.mesh_list(),
                false,
                0..1,
                bind_groups@.len(),
            ),
    {
        self.draw_model_no_mat_instanced(model, 0..1, bind_groups);
    }

    /// Records the instances in `instances` of every mesh of `model`, with
    /// no material; the extra bind groups start at slot 0.
    pub fn draw_model_no_mat_instanced<B, M: HasMeshes<B>, X>(
        &mut self,
        model: &M,
        instances: Range<u32>,
        bind_groups: &[X],
    )
        requires
            bind_groups@.len() < u32::MAX,
        ensures
            final(self).commands@ == old(self).commands@ + model_draw_commands(
                model.mesh_list(),
                false,
                instances,
                bind_groups@.len(),
            ),
    {
        let meshes = model.meshes();
        let mut i: usize = 0;
        while i < meshes.len()
            invariant
                bind_groups@.len() < u32::MAX,
                meshes@ == model.mesh_list(),
                i <= meshes@.len(),
                self.commands@ == old(self).commands@ + model_draw_commands(
                    meshes@.take(i as int),
                    false,
                    instances,
                    bind_groups@.len(),
                ),
            decreases meshes@.len() - i,
        {
            let range = Range { start: instances.start, end: instances.end };
            self.draw_mesh_instanced(i, &meshes[i], None, range, bind_groups);
            assert(meshes@.take(i + 1).drop_last() =~= meshes@.take(i as int));
            i += 1;
        }
        assert(meshes@.take(i as int) =~= meshes@);
    }
}

} // verus!
