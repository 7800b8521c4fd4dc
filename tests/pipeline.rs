use engine_pipeline::layout::{
    descriptor_set_layout_bindings, DescriptorKind, LayoutBinding, ShaderStage,
};
use engine_pipeline::pipeline::EnginePipeline;
use engine_pipeline::shader::{shader_code, ShaderCodeError};
use vulkanalia::vk;
use vulkanalia::vk::Handle;

fn empty_pipeline() -> EnginePipeline<u32> {
    EnginePipeline::new(
        vk::Pipeline::from_raw(7),
        vk::DescriptorPool::from_raw(8),
        vk::DescriptorSetLayout::from_raw(9),
        vk::PipelineLayout::from_raw(10),
    )
}

fn image_of(bytes: &Vec<u8>, width: u32, height: u32) -> Result<vk::Image, String> {
    Ok(vk::Image::from_raw(bytes.len() as u64 * 1000 + width as u64 * 10 + height as u64))
}

fn view_of(image: vk::Image) -> Result<vk::ImageView, String> {
    Ok(vk::ImageView::from_raw(image.as_raw() + 1))
}

#[test]
fn new_holds_the_handles_and_no_resources() {
    let p = empty_pipeline();
    assert_eq!(p.pipeline(), vk::Pipeline::from_raw(7));
    assert_eq!(p.descriptor_pool, vk::DescriptorPool::from_raw(8));
    assert_eq!(p.descriptor_set_layout, vk::DescriptorSetLayout::from_raw(9));
    assert_eq!(p.pipeline_layout, vk::PipelineLayout::from_raw(10));
    assert!(p.vec_vertex.is_empty());
    assert!(p.vec_index.is_empty());
    assert!(p.vec_image.is_empty());
    assert!(p.vec_image_view.is_empty());
}

#[test]
fn textures_are_created_in_input_order() {
    let mut p = empty_pipeline();
    let buffers = vec![vec![0u8; 1], vec![0u8; 2], vec![0u8; 3]];
    let r = p.update_texture_vec(buffers, 4, 2, image_of, view_of);
    assert_eq!(r, Ok(()));
    let images: Vec<u64> = p.vec_image.iter().map(|i| i.as_raw()).collect();
    let views: Vec<u64> = p.vec_image_view.iter().map(|v| v.as_raw()).collect();
    assert_eq!(images, vec![1042, 2042, 3042]);
    assert_eq!(views, vec![1043, 2043, 3043]);
}

#[test]
fn update_replaces_previous_textures_and_keeps_geometry() {
    let mut p = empty_pipeline();
    p.vec_index = vec![0, 1, 2];
    p.vec_vertex = vec![5, 6, 7];
    assert_eq!(p.update_texture_vec(vec![vec![1u8; 4], vec![1u8; 5]], 1, 1, image_of, view_of), Ok(()));
    assert_eq!(p.vec_image.len(), 2);
    assert_eq!(p.update_texture_vec(vec![vec![1u8; 6]], 1, 1, image_of, view_of), Ok(()));
    assert_eq!(p.vec_image, vec![vk::Image::from_raw(6011)]);
    assert_eq!(p.vec_image_view, vec![vk::ImageView::from_raw(6012)]);
    assert_eq!(p.vec_index, vec![0, 1, 2]);
    assert_eq!(p.vec_vertex, vec![5, 6, 7]);
    assert_eq!(p.pipeline(), vk::Pipeline::from_raw(7));
}

#[test]
fn update_with_no_buffers_clears_textures() {
    let mut p = empty_pipeline();
    assert_eq!(p.update_texture_vec(vec![vec![1u8; 4]], 1, 1, image_of, view_of), Ok(()));
    assert_eq!(p.update_texture_vec(Vec::new(), 1, 1, image_of, view_of), Ok(()));
    assert!(p.vec_image.is_empty());
    assert!(p.vec_image_view.is_empty());
}

#[test]
fn failed_image_aborts_the_batch() {
    let mut p = empty_pipeline();
    assert_eq!(p.update_texture_vec(vec![vec![1u8; 4]], 1, 1, image_of, view_of), Ok(()));
    let failing = |bytes: &Vec<u8>, w: u32, h: u32| {
        if bytes.is_empty() {
            Err(String::from("empty texture"))
        } else {
            image_of(bytes, w, h)
        }
    };
    let r = p.update_texture_vec(vec![vec![1u8; 2], Vec::new(), vec![1u8; 3]], 1, 1, failing, view_of);
    assert_eq!(r, Err(String::from("empty texture")));
    assert!(p.vec_image.is_empty());
    assert!(p.vec_image_view.is_empty());
}

#[test]
fn failed_view_aborts_the_batch() {
    let mut p = empty_pipeline();
    let failing = |image: vk::Image| {
        if image.as_raw() == 2011 {
            Err(String::from("no view"))
        } else {
            view_of(image)
        }
    };
    let r = p.update_texture_vec(vec![vec![1u8; 1], vec![1u8; 2]], 1, 1, image_of, failing);
    assert_eq!(r, Err(String::from("no view")));
    assert!(p.vec_image.is_empty());
    assert!(p.vec_image_view.is_empty());
}

#[test]
fn shader_code_copies_whole_words() {
    let bytes: Vec<u8> = vec![1, 2, 3, 4, 5, 6, 7, 8];
    let code = shader_code(&bytes).ok().unwrap();
    assert_eq!(code.code_size, 8);
    assert_eq!(code.bytecode.code_size(), 8);
    assert_eq!(
        code.bytecode.code(),
        &[u32::from_ne_bytes([1, 2, 3, 4]), u32::from_ne_bytes([5, 6, 7, 8])][..]
    );
}

#[test]
fn shader_code_refuses_empty_bytecode() {
    assert_eq!(shader_code(&[]).err(), Some(ShaderCodeError::Length(0)));
}

#[test]
fn shader_code_refuses_partial_words() {
    assert_eq!(shader_code(&[1, 2, 3, 4, 5]).err(), Some(ShaderCodeError::Length(5)));
    assert_eq!(shader_code(&[1, 2, 3]).err(), Some(ShaderCodeError::Length(3)));
}

#[test]
fn layout_has_uniform_then_sampler() {
    let bindings = descriptor_set_layout_bindings();
    assert_eq!(
        bindings,
        vec![
            LayoutBinding {
                binding: 0,
                kind: DescriptorKind::UniformBuffer,
                count: 1,
                stage: ShaderStage::Vertex,
            },
            LayoutBinding {
                binding: 1,
                kind: DescriptorKind::CombinedImageSampler,
                count: 1,
                stage: ShaderStage::Fragment,
            },
        ]
    );
}
