use vstd::prelude::*;
use vulkanalia::vk;

verus! {

/// A graphics pipeline with its layouts, the geometry it draws and the
/// textures bound to it for the current run.
///
/// `V` is the vertex record whose layout the pipeline's vertex input states.
#[derive(Debug)]
pub struct EnginePipeline<V> {
    pub pipeline: vk::Pipeline,
    pub vec_vertex: Vec<V>,
    pub vec_index: Vec<u32>,
    pub vec_image: Vec<vk::Image>,
    pub vec_image_view: Vec<vk::ImageView>,
    pub descriptor_pool: vk::DescriptorPool,
    pub descriptor_set_layout: vk::DescriptorSetLayout,
    pub pipeline_layout: vk::PipelineLayout,
}

impl<V> EnginePipeline<V> {
    /// Each texture image has exactly one view, at the same position.
    pub open spec fn textures_paired(&self) -> bool {
        self.vec_image@.len() == self.vec_image_view@.len()
    }

    /// Bundles a created pipeline with its layouts and the descriptor pool
    /// that its sets come from; no geometry and no textures yet.
    pub fn new(
        pipeline: vk::Pipeline,
        descriptor_pool: vk::DescriptorPool,
        descriptor_set_layout: vk::DescriptorSetLayout,
        pipeline_layout: vk::PipelineLayout,
    ) -> (r: Self)
        ensures
            r.pipeline == pipeline,
            r.descriptor_pool == descriptor_pool,
            r.descriptor_set_layout == descriptor_set_layout,
            r.pipeline_layout == pipeline_layout,
            r.vec_vertex@.len() == 0,
            r.vec_index@.len() == 0,
            r.vec_image@.len() == 0,
            r.vec_image_view@.len() == 0,
            r.textures_paired(),
    {
        EnginePipeline {
            pipeline,
            vec_vertex: Vec::new(),
            vec_index: Vec::new(),
            vec_image: Vec::new(),
            vec_image_view: Vec::new(),
            descriptor_pool,
            descriptor_set_layout,
            pipeline_layout,
        }
    }

    /// Replaces the bound textures: one image per buffer of `vec_image`, all of
    /// `width` by `height` texels, made by `create_image`, then one view of
    /// each image, made by `create_view`, both lists in the order of the input.
    ///
    /// The first creation that fails aborts the batch with its error; both
    /// lists are then left empty, so that images and views stay paired.
    pub fn update_texture_vec<E, FI, FV>(
        &mut self,
        vec_image: Vec<Vec<u8>>,
        width: u32,
        height: u32,
        create_image: FI,
        create_view: FV,
    ) -> (r: Result<(), E>) where
        FI: Fn(&Vec<u8>, u32, u32) -> Result<vk::Image, E>,
        FV: Fn(vk::Image) -> Result<vk::ImageView, E>,

        requires
            forall|i: int|
                0 <= i < vec_image@.len() ==> create_image.requires((&vec_image@[i], width, height)),
            forall|image: vk::Image| create_view.requires((image,)),
        ensures
            final(self).pipeline == old(self).pipeline,
            final(self).vec_vertex@ == old(self).vec_vertex@,
            final(self).vec_index@ == old(self).vec_index@,
            final(self).descriptor_pool == old(self).descriptor_pool,
            final(self).descriptor_set_layout == old(self).descriptor_set_layout,
            final(self).pipeline_layout == old(self).pipeline_layout,
            final(self).textures_paired(),
            r.is_ok() ==> final(self).vec_image@.len() == vec_image@.len(),
            r.is_ok() ==> forall|i: int|
                0 <= i < vec_image@.len() ==> create_image.ensures(
                    (&vec_image@[i], width, height),
                    Ok(#[trigger] final(self).vec_image@[i]),
                ),
            r.is_ok() ==> forall|i: int|
                0 <= i < vec_image@.len() ==> create_view.ensures(
                    (final(self).vec_image@[i],),
                    Ok(#[trigger] final(self).vec_image_view@[i]),
                ),
            r.is_err() ==> final(self).vec_image@.len() == 0,
            match r {
                Ok(_) => true,
                Err(e) => (exists|i: int|
                    0 <= i < vec_image@.len() && #[trigger] create_image.ensures(
                        (&vec_image@[i], width, height),
                        Err(e),
                    )) || (exists|image: vk::Image| #[trigger] create_view.ensures((image,), Err(e))),
            },
    {
        self.vec_image.clear();
        self.vec_image_view.clear();
        let n = vec_image.len();
        let mut i: usize = 0;
        while i < n
            invariant
                n == vec_image@.len(),
                0 <= i <= n,
                self.vec_image@.len() == i,
                self.vec_image_view@.len() == 0,
                self.pipeline == old(self).pipeline,
                self.vec_vertex@ == old(self).vec_vertex@,
                self.vec_index@ == old(self).vec_index@,
                self.descriptor_pool == old(self).descriptor_pool,
                self.descriptor_set_layout == old(self).descriptor_set_layout,
                self.pipeline_layout == old(self).pipeline_layout,
                forall|k: int|
                    0 <= k < n ==> create_image.requires((&vec_image@[k], width, height)),
                forall|k: int|
                    0 <= k < i ==> create_image.ensures(
                        (&vec_image@[k], width, height),
                        Ok(#[trigger] self.vec_image@[k]),
                    ),
            decreases n - i,
        {
            let created = create_image(&vec_image[i], width, height);
            match created {
                Ok(image) => self.vec_image.push(image),
                Err(e) => {
                    self.vec_image.clear();
                    let r: Result<(), E> = Err(e);
                    assert(create_image.ensures((&vec_image@[i as int], width, height), Err(r->Err_0)));
                    return r;
                },
            }
            i = i + 1;
        }
        let mut j: usize = 0;
        while j < n
            invariant
                n == vec_image@.len(),
                0 <= j <= n,
                self.vec_image@.len() == n,
                self.vec_image_view@.len() == j,
                self.pipeline == old(self).pipeline,
                self.vec_vertex@ == old(self).vec_vertex@,
                self.vec_index@ == old(self).vec_index@,
                self.descriptor_pool == old(self).descriptor_pool,
                self.descriptor_set_layout == old(self).descriptor_set_layout,
                self.pipeline_layout == old(self).pipeline_layout,
                forall|image: vk::Image| create_view.requires((image,)),
                forall|k: int|
                    0 <= k < n ==> create_image.ensures(
                        (&vec_image@[k], width, height),
                        Ok(#[trigger] self.vec_image@[k]),
                    ),
                forall|k: int|
                    0 <= k < j ==> create_view.ensures(
                        (self.vec_image@[k],),
                        Ok(#[trigger] self.vec_image_view@[k]),
                    ),
            decreases n - j,
        {
            let image = self.vec_image[j];
            let created = create_view(image);
            match created {
                Ok(view) => self.vec_image_view.push(view),
                Err(e) => {
                    self.vec_image.clear();
                    self.vec_image_view.clear();
                    let r: Result<(), E> = Err(e);
                    assert(create_view.ensures((image,), Err(r->Err_0)));
                    return r;
                },
            }
            j = j + 1;
        }
        Ok(())
    }

    /// The pipeline handle to bind when drawing.
    pub fn pipeline(&self) -> (r: vk::Pipeline)
        ensures
            r == self.pipeline,
    {
        self.pipeline
    }
}

} // verus!
