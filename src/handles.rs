use vstd::prelude::*;
use vulkanalia::vk;

verus! {

#[verifier::external_type_specification]
#[verifier::external_body]
pub struct ExPipeline(vk::Pipeline);

#[verifier::external_type_specification]
#[verifier::external_body]
pub struct ExPipelineLayout(vk::PipelineLayout);

#[verifier::external_type_specification]
#[verifier::external_body]
pub struct ExDescriptorPool(vk::DescriptorPool);

#[verifier::external_type_specification]
#[verifier::external_body]
pub struct ExDescriptorSetLayout(vk::DescriptorSetLayout);

#[verifier::external_type_specification]
#[verifier::external_body]
pub struct ExImage(vk::Image);

#[verifier::external_type_specification]
#[verifier::external_body]
pub struct ExImageView(vk::ImageView);

} // verus!
