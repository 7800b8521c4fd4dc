use vstd::prelude::*;

verus! {

/// The kind of resource a descriptor binding makes visible to shaders.
#[derive(Clone, Copy, Debug, PartialEq, Eq, Structural)]
pub enum DescriptorKind {
    UniformBuffer,
    CombinedImageSampler,
}

/// The programmable stage a binding or a shader module belongs to.
#[derive(Clone, Copy, Debug, PartialEq, Eq, Structural)]
pub enum ShaderStage {
    Vertex,
    Fragment,
}

/// One binding of a descriptor set layout.
#[derive(Clone, Copy, Debug, PartialEq, Eq, Structural)]
pub struct LayoutBinding {
    pub binding: u32,
    pub kind: DescriptorKind,
    pub count: u32,
    pub stage: ShaderStage,
}

/// The uniform buffer of per-frame transforms, read by the vertex stage.
pub open spec fn uniform_binding() -> LayoutBinding {
    LayoutBinding {
        binding: 0,
        kind: DescriptorKind::UniformBuffer,
        count: 1,
        stage: ShaderStage::Vertex,
    }
}

/// The sampled texture, read by the fragment stage.
pub open spec fn sampler_binding() -> LayoutBinding {
    LayoutBinding {
        binding: 1,
        kind: DescriptorKind::CombinedImageSampler,
        count: 1,
        stage: ShaderStage::Fragment,
    }
}

/// The bindings of the pipeline's descriptor set layout, in binding order:
/// the uniform buffer at binding 0 and the texture sampler at binding 1.
pub fn descriptor_set_layout_bindings() -> (r: Vec<LayoutBinding>)
    ensures
        r@ == seq![uniform_binding(), sampler_binding()],
{
    let mut r: Vec<LayoutBinding> = Vec::new();
    r.push(LayoutBinding {
        binding: 0,
        kind: DescriptorKind::UniformBuffer,
        count: 1,
        stage: ShaderStage::Vertex,
    });
    r.push(LayoutBinding {
        binding: 1,
        kind: DescriptorKind::CombinedImageSampler,
        count: 1,
        stage: ShaderStage::Fragment,
    });
    assert(r@ =~= seq![uniform_binding(), sampler_binding()]);
    r
}

} // verus!
