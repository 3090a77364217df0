//! Meshes, materials and the models that own them.
use vstd::prelude::*;

verus! {

/// One drawable piece of geometry: buffer handles, the number of indices to
/// draw and the position of its material in the owning model's list.
pub struct Mesh<B> {
    pub name: String,
    pub vertex_buffer: B,
    pub index_buffer: B,
    pub num_elements: u32,
    pub material: usize,
}

impl<B> Mesh<B> {
    /// Builds a mesh; a source that names no material gets material 0.
    pub fn new(
        name: String,
        vertex_buffer: B,
        index_buffer: B,
        num_elements: u32,
        material: Option<usize>,
    ) -> (r: Mesh<B>)
        ensures
            r.name@ == name@,
            r.vertex_buffer == vertex_buffer,
            r.index_buffer == index_buffer,
            r.num_elements == num_elements,
            r.material == match material {
                Some(m) => m,
                None => 0usize,
            },
    {
        let material = match material {
            Some(m) => m,
            None => 0,
        };
        Mesh { name, vertex_buffer, index_buffer, num_elements, material }
    }
}

/// Which of a material's two textures a binding refers to.
#[derive(Clone, Copy, Debug, PartialEq, Eq, Structural)]
pub enum TextureRole {
    Diffuse,
    Normal,
}

/// What a material binding slot holds.
#[derive(Clone, Copy, Debug, PartialEq, Eq, Structural)]
pub enum BindingResource {
    TextureView(TextureRole),
    Sampler(TextureRole),
}

/// One entry of a material's resource binding.
#[derive(Clone, Copy, Debug, PartialEq, Eq, Structural)]
pub struct BindingEntry {
    pub binding: u32,
    pub resource: BindingResource,
}

/// The fixed binding layout of every material.
pub open spec fn material_binding_layout() -> Seq<BindingEntry> {
    seq![
        BindingEntry { binding: 0, resource: BindingResource::TextureView(TextureRole::Diffuse) },
        BindingEntry { binding: 1, resource: BindingResource::Sampler(TextureRole::Diffuse) },
        BindingEntry { binding: 2, resource: BindingResource::TextureView(TextureRole::Normal) },
        BindingEntry { binding: 3, resource: BindingResource::Sampler(TextureRole::Normal) },
    ]
}

/// The entries a material's resource binding is built from: diffuse view,
/// diffuse sampler, normal-map view, normal-map sampler, at bindings 0 to 3.
pub fn material_bind_entries() -> (r: Vec<BindingEntry>)
    ensures
        r@ == material_binding_layout(),
{
    let r = vec![
        BindingEntry { binding: 0, resource: BindingResource::TextureView(TextureRole::Diffuse) },
        BindingEntry { binding: 1, resource: BindingResource::Sampler(TextureRole::Diffuse) },
        BindingEntry { binding: 2, resource: BindingResource::TextureView(TextureRole::Normal) },
        BindingEntry { binding: 3, resource: BindingResource::Sampler(TextureRole::Normal) },
    ];
    assert(r@ =~= material_binding_layout());
    r
}

/// A material: two textures and the resource binding built from them.
pub struct ModelMaterial<T, G> {
    pub name: String,
    pub diffuse_texture: T,
    pub normal_texture: T,
    pub bind_group: G,
}

impl<T, G> ModelMaterial<T, G> {
    /// Assembles a material from its textures and the binding made from
    /// them in the layout of `material_bind_entries`.
    pub fn new(name: String, diffuse_texture: T, normal_texture: T, bind_group: G) -> (r: Self)
        ensures
            r.name@ == name@,
            r.diffuse_texture == diffuse_texture,
            r.normal_texture == normal_texture,
            r.bind_group == bind_group,
    {
        ModelMaterial { name, diffuse_texture, normal_texture, bind_group }
    }
}

/// Something that can be bound as a material.
pub trait Material<G> {
    spec fn bind_group_spec(&self) -> G;

    fn bind_group(&self) -> (r: &G)
        ensures
            *r == self.bind_group_spec(),
    ;
}

impl<T, G> Material<G> for ModelMaterial<T, G> {
    open spec fn bind_group_spec(&self) -> G {
        self.bind_group
    }

    fn bind_group(&self) -> (r: &G) {
        &self.bind_group
    }
}

/// Capability of an aggregate that owns meshes.
pub trait HasMeshes<B> {
    spec fn mesh_list(&self) -> Seq<Mesh<B>>;

    fn meshes(&self) -> (r: &Vec<Mesh<B>>)
        ensures
            r@ == self.mesh_list(),
    ;
}

/// Capability of an aggregate that owns an index-addressable material list.
pub trait HasMaterials<T, G> {
    spec fn material_list(&self) -> Seq<ModelMaterial<T, G>>;

    fn materials(&self) -> (r: &Vec<ModelMaterial<T, G>>)
        ensures
            r@ == self.material_list(),
    ;
}

/// Every mesh names a material that exists.
pub open spec fn materials_resolve<B>(meshes: Seq<Mesh<B>>, material_count: nat) -> bool {
    forall|i: int| 0 <= i < meshes.len() ==> (#[trigger] meshes[i]).material < material_count
}

/// The first mesh whose material index is not below `material_count`, if
/// there is one.
pub fn first_unresolved_mesh<B>(meshes: &Vec<Mesh<B>>, material_count: usize) -> (r: Option<usize>)
    ensures
        r is None <==> materials_resolve(meshes@, material_count as nat),
        match r {
            Some(i) => {
                &&& i < meshes@.len()
                &&& meshes@[i as int].material >= material_count
                &&& materials_resolve(meshes@.take(i as int), material_count as nat)
            },
            None => true,
        },
{
    let mut i: usize = 0;
    while i < meshes.len()
        invariant
            i <= meshes@.len(),
            materials_resolve(meshes@.take(i as int), material_count as nat),
        decreases meshes@.len() - i,
    {
        if meshes[i].material >= material_count {
            return Some(i);
        }
        assert(meshes@.take(i + 1) =~= meshes@.take(i as int).push(meshes@[i as int]));
        i += 1;
    }
    assert(meshes@.take(i as int) =~= meshes@);
    None
}

/// Why a set of meshes and materials does not form a model.
#[derive(Clone, Copy, Debug, PartialEq, Eq, Structural)]
pub enum ModelError {
    /// The mesh at position `mesh` names a material past the end of the list.
    MaterialOutOfRange { mesh: usize, material: usize },
}

/// A model with materials: meshes plus the materials they refer to.
pub struct MatModel<B, T, G> {
    pub meshes: Vec<Mesh<B>>,
    pub materials: Vec<ModelMaterial<T, G>>,
}

/// A model drawn without materials.
pub struct NoMatModel<B> {
    pub meshes: Vec<Mesh<B>>,
}

impl<B, T, G> MatModel<B, T, G> {
    /// Each mesh's material index is a valid index into the material list.
    pub open spec fn wf(&self) -> bool {
        materials_resolve(self.meshes@, self.materials@.len())
    }

    /// Builds a model, refusing it when a mesh names a missing material
    /// (the first such mesh is reported).
    pub fn new(meshes: Vec<Mesh<B>>, materials: Vec<ModelMaterial<T, G>>) -> (r: Result<
        Self,
        ModelError,
    >)
        ensures
            match r {
                Ok(m) => m.meshes@ == meshes@ && m.materials@ == materials@ && m.wf(),
                Err(ModelError::MaterialOutOfRange { mesh, material }) => {
                    &&& mesh < meshes@.len()
                    &&& material == meshes@[mesh as int].material
                    &&& material >= materials@.len()
                    &&& materials_resolve(meshes@.take(mesh as int), materials@.len())
                },
            },
            r is Ok <==> materials_resolve(meshes@, materials@.len()),
    {
        match first_unresolved_mesh(&meshes, materials.len()) {
            Some(i) => Err(ModelError::MaterialOutOfRange { mesh: i, material: meshes[i].material }),
            None => Ok(MatModel { meshes, materials }),
        }
    }
}

impl<B, T, G> HasMeshes<B> for MatModel<B, T, G> {
    open spec fn mesh_list(&self) -> Seq<Mesh<B>> {
        self.meshes@
    }

    fn meshes(&self) -> (r: &Vec<Mesh<B>>) {
        &self.meshes
    }
}

impl<B> HasMeshes<B> for NoMatModel<B> {
    open spec fn mesh_list(&self) -> Seq<Mesh<B>> {
        self.meshes@
    }

    fn meshes(&self) -> (r: &Vec<Mesh<B>>) {
        &self.meshes
    }
}

impl<B, T, G> HasMaterials<T, G> for MatModel<B, T, G> {
    open spec fn material_list(&self) -> Seq<ModelMaterial<T, G>> {
        self.materials@
    }

    fn materials(&self) -> (r: &Vec<ModelMaterial<T, G>>) {
        &self.materials
    }
}

} // verus!
