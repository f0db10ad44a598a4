use vstd::prelude::*;

verus! {

/// What kind of GPU resource a binding exposes to the shader.
#[derive(Clone, Copy, Debug, PartialEq, Eq, Structural)]
pub enum ResourceKind {
    StorageBuffer,
}

/// How the shader stages may access a bound resource.
#[derive(Clone, Copy, Debug, PartialEq, Eq, Structural)]
pub enum AccessMode {
    ReadOnly,
    ReadWrite,
}

/// One row of a material's bind-group schema: which slot exposes which
/// kind of resource, and with which access.
#[derive(Clone, Copy, Debug, PartialEq, Eq, Structural)]
pub struct BindingDecl {
    pub slot: u32,
    pub kind: ResourceKind,
    pub access: AccessMode,
}

/// The material: a shader program paired with the handle of the color
/// storage buffer it reads. The handle is an index into the scene's
/// buffer registry, so every holder of a copy of this material observes
/// the one shared buffer.
#[derive(Clone, Copy, Debug, PartialEq, Eq, Structural)]
pub struct CustomMaterial {
    pub colors: usize,
}

/// The material's single binding: the color storage buffer, read-only,
/// at slot zero.
pub open spec fn storage_binding() -> BindingDecl {
    BindingDecl { slot: 0, kind: ResourceKind::StorageBuffer, access: AccessMode::ReadOnly }
}

/// Logical asset path of the shader program shared by both stages.
pub open spec fn shader_asset_path() -> Seq<char> {
    "shaders/storage_buffer.wgsl"@
}

impl CustomMaterial {
    /// Shader program for the vertex stage.
    pub fn vertex_shader() -> (path: &'static str)
        ensures
            path@ == shader_asset_path(),
    {
        "shaders/storage_buffer.wgsl"
    }

    /// Shader program for the fragment stage: the same shared asset the
    /// vertex stage uses.
    pub fn fragment_shader() -> (path: &'static str)
        ensures
            path@ == shader_asset_path(),
    {
        "shaders/storage_buffer.wgsl"
    }

    /// The bind-group schema, evaluated once at pipeline build: exactly
    /// one binding, exposing the storage buffer read-only at slot zero.
    pub fn binding_layout() -> (layout: Vec<BindingDecl>)
        ensures
            layout@.len() == 1,
            layout@[0] == storage_binding(),
    {
        let mut layout: Vec<BindingDecl> = Vec::new();
        layout.push(BindingDecl {
            slot: 0,
            kind: ResourceKind::StorageBuffer,
            access: AccessMode::ReadOnly,
        });
        layout
    }
}

} // verus!
