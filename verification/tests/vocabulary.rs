//! Every value of the Vulkan vocabulary is the one Vulkan gives it.

use ash::vk as native;
use reims_vgpu_vulkan::vulkan as vk;

#[test]
fn attachment_load_op_values_are_vulkans() {
    assert_eq!(vk::AttachmentLoadOp::Load.as_raw(), native::AttachmentLoadOp::LOAD.as_raw());
    assert_eq!(vk::AttachmentLoadOp::Clear.as_raw(), native::AttachmentLoadOp::CLEAR.as_raw());
    assert_eq!(vk::AttachmentLoadOp::DontCare.as_raw(), native::AttachmentLoadOp::DONT_CARE.as_raw());
}

#[test]
fn attachment_store_op_values_are_vulkans() {
    assert_eq!(vk::AttachmentStoreOp::Store.as_raw(), native::AttachmentStoreOp::STORE.as_raw());
    assert_eq!(vk::AttachmentStoreOp::DontCare.as_raw(), native::AttachmentStoreOp::DONT_CARE.as_raw());
}

#[test]
fn blend_factor_values_are_vulkans() {
    assert_eq!(vk::BlendFactor::Zero.as_raw(), native::BlendFactor::ZERO.as_raw());
    assert_eq!(vk::BlendFactor::One.as_raw(), native::BlendFactor::ONE.as_raw());
    assert_eq!(vk::BlendFactor::SrcColor.as_raw(), native::BlendFactor::SRC_COLOR.as_raw());
    assert_eq!(vk::BlendFactor::OneMinusSrcColor.as_raw(), native::BlendFactor::ONE_MINUS_SRC_COLOR.as_raw());
    assert_eq!(vk::BlendFactor::DstColor.as_raw(), native::BlendFactor::DST_COLOR.as_raw());
    assert_eq!(vk::BlendFactor::OneMinusDstColor.as_raw(), native::BlendFactor::ONE_MINUS_DST_COLOR.as_raw());
    assert_eq!(vk::BlendFactor::SrcAlpha.as_raw(), native::BlendFactor::SRC_ALPHA.as_raw());
    assert_eq!(vk::BlendFactor::OneMinusSrcAlpha.as_raw(), native::BlendFactor::ONE_MINUS_SRC_ALPHA.as_raw());
    assert_eq!(vk::BlendFactor::DstAlpha.as_raw(), native::BlendFactor::DST_ALPHA.as_raw());
    assert_eq!(vk::BlendFactor::OneMinusDstAlpha.as_raw(), native::BlendFactor::ONE_MINUS_DST_ALPHA.as_raw());
    assert_eq!(vk::BlendFactor::ConstantColor.as_raw(), native::BlendFactor::CONSTANT_COLOR.as_raw());
    assert_eq!(vk::BlendFactor::OneMinusConstantColor.as_raw(), native::BlendFactor::ONE_MINUS_CONSTANT_COLOR.as_raw());
    assert_eq!(vk::BlendFactor::ConstantAlpha.as_raw(), native::BlendFactor::CONSTANT_ALPHA.as_raw());
    assert_eq!(vk::BlendFactor::OneMinusConstantAlpha.as_raw(), native::BlendFactor::ONE_MINUS_CONSTANT_ALPHA.as_raw());
    assert_eq!(vk::BlendFactor::SrcAlphaSaturate.as_raw(), native::BlendFactor::SRC_ALPHA_SATURATE.as_raw());
    assert_eq!(vk::BlendFactor::Src1Color.as_raw(), native::BlendFactor::SRC1_COLOR.as_raw());
    assert_eq!(vk::BlendFactor::OneMinusSrc1Color.as_raw(), native::BlendFactor::ONE_MINUS_SRC1_COLOR.as_raw());
    assert_eq!(vk::BlendFactor::Src1Alpha.as_raw(), native::BlendFactor::SRC1_ALPHA.as_raw());
    assert_eq!(vk::BlendFactor::OneMinusSrc1Alpha.as_raw(), native::BlendFactor::ONE_MINUS_SRC1_ALPHA.as_raw());
}

#[test]
fn blend_op_values_are_vulkans() {
    assert_eq!(vk::BlendOp::Add.as_raw(), native::BlendOp::ADD.as_raw());
    assert_eq!(vk::BlendOp::Subtract.as_raw(), native::BlendOp::SUBTRACT.as_raw());
    assert_eq!(vk::BlendOp::ReverseSubtract.as_raw(), native::BlendOp::REVERSE_SUBTRACT.as_raw());
    assert_eq!(vk::BlendOp::Min.as_raw(), native::BlendOp::MIN.as_raw());
    assert_eq!(vk::BlendOp::Max.as_raw(), native::BlendOp::MAX.as_raw());
}

#[test]
fn compare_op_values_are_vulkans() {
    assert_eq!(vk::CompareOp::Never.as_raw(), native::CompareOp::NEVER.as_raw());
    assert_eq!(vk::CompareOp::Less.as_raw(), native::CompareOp::LESS.as_raw());
    assert_eq!(vk::CompareOp::Equal.as_raw(), native::CompareOp::EQUAL.as_raw());
    assert_eq!(vk::CompareOp::LessOrEqual.as_raw(), native::CompareOp::LESS_OR_EQUAL.as_raw());
    assert_eq!(vk::CompareOp::Greater.as_raw(), native::CompareOp::GREATER.as_raw());
    assert_eq!(vk::CompareOp::NotEqual.as_raw(), native::CompareOp::NOT_EQUAL.as_raw());
    assert_eq!(vk::CompareOp::GreaterOrEqual.as_raw(), native::CompareOp::GREATER_OR_EQUAL.as_raw());
    assert_eq!(vk::CompareOp::Always.as_raw(), native::CompareOp::ALWAYS.as_raw());
}

#[test]
fn dynamic_state_values_are_vulkans() {
    assert_eq!(vk::DynamicState::LineWidth.as_raw(), native::DynamicState::LINE_WIDTH.as_raw());
    assert_eq!(vk::DynamicState::DepthBias.as_raw(), native::DynamicState::DEPTH_BIAS.as_raw());
    assert_eq!(vk::DynamicState::StencilCompareMask.as_raw(), native::DynamicState::STENCIL_COMPARE_MASK.as_raw());
    assert_eq!(vk::DynamicState::StencilWriteMask.as_raw(), native::DynamicState::STENCIL_WRITE_MASK.as_raw());
    assert_eq!(vk::DynamicState::StencilReference.as_raw(), native::DynamicState::STENCIL_REFERENCE.as_raw());
    assert_eq!(vk::DynamicState::CullMode.as_raw(), native::DynamicState::CULL_MODE.as_raw());
    assert_eq!(vk::DynamicState::FrontFace.as_raw(), native::DynamicState::FRONT_FACE.as_raw());
    assert_eq!(vk::DynamicState::DepthTestEnable.as_raw(), native::DynamicState::DEPTH_TEST_ENABLE.as_raw());
    assert_eq!(vk::DynamicState::DepthWriteEnable.as_raw(), native::DynamicState::DEPTH_WRITE_ENABLE.as_raw());
    assert_eq!(vk::DynamicState::DepthCompareOp.as_raw(), native::DynamicState::DEPTH_COMPARE_OP.as_raw());
    assert_eq!(vk::DynamicState::DepthBoundsTestEnable.as_raw(), native::DynamicState::DEPTH_BOUNDS_TEST_ENABLE.as_raw());
    assert_eq!(vk::DynamicState::StencilTestEnable.as_raw(), native::DynamicState::STENCIL_TEST_ENABLE.as_raw());
    assert_eq!(vk::DynamicState::StencilOp.as_raw(), native::DynamicState::STENCIL_OP.as_raw());
    assert_eq!(vk::DynamicState::DepthClampEnable.as_raw(), native::DynamicState::DEPTH_CLAMP_ENABLE_EXT.as_raw());
    assert_eq!(vk::DynamicState::PolygonMode.as_raw(), native::DynamicState::POLYGON_MODE_EXT.as_raw());
}

#[test]
fn front_face_values_are_vulkans() {
    assert_eq!(vk::FrontFace::CounterClockwise.as_raw(), native::FrontFace::COUNTER_CLOCKWISE.as_raw());
    assert_eq!(vk::FrontFace::Clockwise.as_raw(), native::FrontFace::CLOCKWISE.as_raw());
}

#[test]
fn image_layout_values_are_vulkans() {
    assert_eq!(vk::ImageLayout::Undefined.as_raw(), native::ImageLayout::UNDEFINED.as_raw());
    assert_eq!(vk::ImageLayout::General.as_raw(), native::ImageLayout::GENERAL.as_raw());
    assert_eq!(vk::ImageLayout::ColorAttachmentOptimal.as_raw(), native::ImageLayout::COLOR_ATTACHMENT_OPTIMAL.as_raw());
    assert_eq!(vk::ImageLayout::DepthStencilAttachmentOptimal.as_raw(), native::ImageLayout::DEPTH_STENCIL_ATTACHMENT_OPTIMAL.as_raw());
    assert_eq!(vk::ImageLayout::DepthStencilReadOnlyOptimal.as_raw(), native::ImageLayout::DEPTH_STENCIL_READ_ONLY_OPTIMAL.as_raw());
    assert_eq!(vk::ImageLayout::ShaderReadOnlyOptimal.as_raw(), native::ImageLayout::SHADER_READ_ONLY_OPTIMAL.as_raw());
    assert_eq!(vk::ImageLayout::TransferSrcOptimal.as_raw(), native::ImageLayout::TRANSFER_SRC_OPTIMAL.as_raw());
    assert_eq!(vk::ImageLayout::TransferDstOptimal.as_raw(), native::ImageLayout::TRANSFER_DST_OPTIMAL.as_raw());
    assert_eq!(vk::ImageLayout::PresentSrc.as_raw(), native::ImageLayout::PRESENT_SRC_KHR.as_raw());
}

#[test]
fn image_tiling_values_are_vulkans() {
    assert_eq!(vk::ImageTiling::Optimal.as_raw(), native::ImageTiling::OPTIMAL.as_raw());
    assert_eq!(vk::ImageTiling::Linear.as_raw(), native::ImageTiling::LINEAR.as_raw());
}

#[test]
fn image_type_values_are_vulkans() {
    assert_eq!(vk::ImageType::OneDimensional.as_raw(), native::ImageType::TYPE_1D.as_raw());
    assert_eq!(vk::ImageType::TwoDimensional.as_raw(), native::ImageType::TYPE_2D.as_raw());
    assert_eq!(vk::ImageType::ThreeDimensional.as_raw(), native::ImageType::TYPE_3D.as_raw());
}

#[test]
fn physical_device_type_values_are_vulkans() {
    assert_eq!(vk::PhysicalDeviceType::Other.as_raw(), native::PhysicalDeviceType::OTHER.as_raw());
    assert_eq!(vk::PhysicalDeviceType::IntegratedGpu.as_raw(), native::PhysicalDeviceType::INTEGRATED_GPU.as_raw());
    assert_eq!(vk::PhysicalDeviceType::DiscreteGpu.as_raw(), native::PhysicalDeviceType::DISCRETE_GPU.as_raw());
    assert_eq!(vk::PhysicalDeviceType::VirtualGpu.as_raw(), native::PhysicalDeviceType::VIRTUAL_GPU.as_raw());
    assert_eq!(vk::PhysicalDeviceType::Cpu.as_raw(), native::PhysicalDeviceType::CPU.as_raw());
}

#[test]
fn polygon_mode_values_are_vulkans() {
    assert_eq!(vk::PolygonMode::Fill.as_raw(), native::PolygonMode::FILL.as_raw());
    assert_eq!(vk::PolygonMode::Line.as_raw(), native::PolygonMode::LINE.as_raw());
}

#[test]
fn sharing_mode_values_are_vulkans() {
    assert_eq!(vk::SharingMode::Exclusive.as_raw(), native::SharingMode::EXCLUSIVE.as_raw());
    assert_eq!(vk::SharingMode::Concurrent.as_raw(), native::SharingMode::CONCURRENT.as_raw());
}

#[test]
fn stencil_op_values_are_vulkans() {
    assert_eq!(vk::StencilOp::Keep.as_raw(), native::StencilOp::KEEP.as_raw());
    assert_eq!(vk::StencilOp::Zero.as_raw(), native::StencilOp::ZERO.as_raw());
    assert_eq!(vk::StencilOp::Replace.as_raw(), native::StencilOp::REPLACE.as_raw());
    assert_eq!(vk::StencilOp::IncrementAndClamp.as_raw(), native::StencilOp::INCREMENT_AND_CLAMP.as_raw());
    assert_eq!(vk::StencilOp::DecrementAndClamp.as_raw(), native::StencilOp::DECREMENT_AND_CLAMP.as_raw());
    assert_eq!(vk::StencilOp::Invert.as_raw(), native::StencilOp::INVERT.as_raw());
    assert_eq!(vk::StencilOp::IncrementAndWrap.as_raw(), native::StencilOp::INCREMENT_AND_WRAP.as_raw());
    assert_eq!(vk::StencilOp::DecrementAndWrap.as_raw(), native::StencilOp::DECREMENT_AND_WRAP.as_raw());
}

#[test]
fn access_bits_are_vulkans() {
    assert_eq!(vk::access::NONE, native::AccessFlags::NONE.as_raw());
    assert_eq!(vk::access::UNIFORM_READ, native::AccessFlags::UNIFORM_READ.as_raw());
    assert_eq!(vk::access::INPUT_ATTACHMENT_READ, native::AccessFlags::INPUT_ATTACHMENT_READ.as_raw());
    assert_eq!(vk::access::SHADER_READ, native::AccessFlags::SHADER_READ.as_raw());
    assert_eq!(vk::access::SHADER_WRITE, native::AccessFlags::SHADER_WRITE.as_raw());
    assert_eq!(vk::access::COLOR_ATTACHMENT_READ, native::AccessFlags::COLOR_ATTACHMENT_READ.as_raw());
    assert_eq!(vk::access::COLOR_ATTACHMENT_WRITE, native::AccessFlags::COLOR_ATTACHMENT_WRITE.as_raw());
    assert_eq!(vk::access::DEPTH_STENCIL_ATTACHMENT_READ, native::AccessFlags::DEPTH_STENCIL_ATTACHMENT_READ.as_raw());
    assert_eq!(vk::access::DEPTH_STENCIL_ATTACHMENT_WRITE, native::AccessFlags::DEPTH_STENCIL_ATTACHMENT_WRITE.as_raw());
    assert_eq!(vk::access::TRANSFER_READ, native::AccessFlags::TRANSFER_READ.as_raw());
    assert_eq!(vk::access::TRANSFER_WRITE, native::AccessFlags::TRANSFER_WRITE.as_raw());
    assert_eq!(vk::access::MEMORY_READ, native::AccessFlags::MEMORY_READ.as_raw());
    assert_eq!(vk::access::MEMORY_WRITE, native::AccessFlags::MEMORY_WRITE.as_raw());
}

#[test]
fn access2_bits_are_vulkans() {
    assert_eq!(vk::access2::NONE, native::AccessFlags2::NONE.as_raw());
    assert_eq!(vk::access2::UNIFORM_READ, native::AccessFlags2::UNIFORM_READ.as_raw());
    assert_eq!(vk::access2::INPUT_ATTACHMENT_READ, native::AccessFlags2::INPUT_ATTACHMENT_READ.as_raw());
    assert_eq!(vk::access2::COLOR_ATTACHMENT_READ, native::AccessFlags2::COLOR_ATTACHMENT_READ.as_raw());
    assert_eq!(vk::access2::COLOR_ATTACHMENT_WRITE, native::AccessFlags2::COLOR_ATTACHMENT_WRITE.as_raw());
    assert_eq!(vk::access2::DEPTH_STENCIL_ATTACHMENT_READ, native::AccessFlags2::DEPTH_STENCIL_ATTACHMENT_READ.as_raw());
    assert_eq!(vk::access2::DEPTH_STENCIL_ATTACHMENT_WRITE, native::AccessFlags2::DEPTH_STENCIL_ATTACHMENT_WRITE.as_raw());
    assert_eq!(vk::access2::TRANSFER_READ, native::AccessFlags2::TRANSFER_READ.as_raw());
    assert_eq!(vk::access2::TRANSFER_WRITE, native::AccessFlags2::TRANSFER_WRITE.as_raw());
    assert_eq!(vk::access2::HOST_WRITE, native::AccessFlags2::HOST_WRITE.as_raw());
    assert_eq!(vk::access2::MEMORY_READ, native::AccessFlags2::MEMORY_READ.as_raw());
    assert_eq!(vk::access2::MEMORY_WRITE, native::AccessFlags2::MEMORY_WRITE.as_raw());
    assert_eq!(vk::access2::SHADER_SAMPLED_READ, native::AccessFlags2::SHADER_SAMPLED_READ.as_raw());
    assert_eq!(vk::access2::SHADER_STORAGE_READ, native::AccessFlags2::SHADER_STORAGE_READ.as_raw());
    assert_eq!(vk::access2::SHADER_STORAGE_WRITE, native::AccessFlags2::SHADER_STORAGE_WRITE.as_raw());
}

#[test]
fn buffer_usage_bits_are_vulkans() {
    assert_eq!(vk::buffer_usage::TRANSFER_SRC, native::BufferUsageFlags::TRANSFER_SRC.as_raw());
    assert_eq!(vk::buffer_usage::TRANSFER_DST, native::BufferUsageFlags::TRANSFER_DST.as_raw());
    assert_eq!(vk::buffer_usage::UNIFORM_TEXEL_BUFFER, native::BufferUsageFlags::UNIFORM_TEXEL_BUFFER.as_raw());
    assert_eq!(vk::buffer_usage::STORAGE_TEXEL_BUFFER, native::BufferUsageFlags::STORAGE_TEXEL_BUFFER.as_raw());
    assert_eq!(vk::buffer_usage::UNIFORM_BUFFER, native::BufferUsageFlags::UNIFORM_BUFFER.as_raw());
    assert_eq!(vk::buffer_usage::STORAGE_BUFFER, native::BufferUsageFlags::STORAGE_BUFFER.as_raw());
    assert_eq!(vk::buffer_usage::INDEX_BUFFER, native::BufferUsageFlags::INDEX_BUFFER.as_raw());
    assert_eq!(vk::buffer_usage::VERTEX_BUFFER, native::BufferUsageFlags::VERTEX_BUFFER.as_raw());
    assert_eq!(vk::buffer_usage::INDIRECT_BUFFER, native::BufferUsageFlags::INDIRECT_BUFFER.as_raw());
}

#[test]
fn color_component_bits_are_vulkans() {
    assert_eq!(vk::color_component::R, native::ColorComponentFlags::R.as_raw());
    assert_eq!(vk::color_component::G, native::ColorComponentFlags::G.as_raw());
    assert_eq!(vk::color_component::B, native::ColorComponentFlags::B.as_raw());
    assert_eq!(vk::color_component::A, native::ColorComponentFlags::A.as_raw());
    assert_eq!(vk::color_component::RGBA, native::ColorComponentFlags::RGBA.as_raw());
}

#[test]
fn cull_mode_bits_are_vulkans() {
    assert_eq!(vk::cull_mode::NONE, native::CullModeFlags::NONE.as_raw());
    assert_eq!(vk::cull_mode::FRONT, native::CullModeFlags::FRONT.as_raw());
    assert_eq!(vk::cull_mode::BACK, native::CullModeFlags::BACK.as_raw());
}

#[test]
fn image_create_bits_are_vulkans() {
    assert_eq!(vk::image_create::MUTABLE_FORMAT, native::ImageCreateFlags::MUTABLE_FORMAT.as_raw());
    assert_eq!(vk::image_create::CUBE_COMPATIBLE, native::ImageCreateFlags::CUBE_COMPATIBLE.as_raw());
    assert_eq!(vk::image_create::TYPE_2D_ARRAY_COMPATIBLE, native::ImageCreateFlags::TYPE_2D_ARRAY_COMPATIBLE.as_raw());
}

#[test]
fn image_usage_bits_are_vulkans() {
    assert_eq!(vk::image_usage::TRANSFER_SRC, native::ImageUsageFlags::TRANSFER_SRC.as_raw());
    assert_eq!(vk::image_usage::TRANSFER_DST, native::ImageUsageFlags::TRANSFER_DST.as_raw());
    assert_eq!(vk::image_usage::SAMPLED, native::ImageUsageFlags::SAMPLED.as_raw());
    assert_eq!(vk::image_usage::STORAGE, native::ImageUsageFlags::STORAGE.as_raw());
    assert_eq!(vk::image_usage::COLOR_ATTACHMENT, native::ImageUsageFlags::COLOR_ATTACHMENT.as_raw());
    assert_eq!(vk::image_usage::DEPTH_STENCIL_ATTACHMENT, native::ImageUsageFlags::DEPTH_STENCIL_ATTACHMENT.as_raw());
}

#[test]
fn stage_bits_are_vulkans() {
    assert_eq!(vk::stage::NONE, native::PipelineStageFlags::NONE.as_raw());
    assert_eq!(vk::stage::VERTEX_SHADER, native::PipelineStageFlags::VERTEX_SHADER.as_raw());
    assert_eq!(vk::stage::FRAGMENT_SHADER, native::PipelineStageFlags::FRAGMENT_SHADER.as_raw());
    assert_eq!(vk::stage::EARLY_FRAGMENT_TESTS, native::PipelineStageFlags::EARLY_FRAGMENT_TESTS.as_raw());
    assert_eq!(vk::stage::LATE_FRAGMENT_TESTS, native::PipelineStageFlags::LATE_FRAGMENT_TESTS.as_raw());
    assert_eq!(vk::stage::COLOR_ATTACHMENT_OUTPUT, native::PipelineStageFlags::COLOR_ATTACHMENT_OUTPUT.as_raw());
    assert_eq!(vk::stage::COMPUTE_SHADER, native::PipelineStageFlags::COMPUTE_SHADER.as_raw());
    assert_eq!(vk::stage::TRANSFER, native::PipelineStageFlags::TRANSFER.as_raw());
    assert_eq!(vk::stage::ALL_GRAPHICS, native::PipelineStageFlags::ALL_GRAPHICS.as_raw());
    assert_eq!(vk::stage::ALL_COMMANDS, native::PipelineStageFlags::ALL_COMMANDS.as_raw());
    assert_eq!(vk::stage::TASK_SHADER, native::PipelineStageFlags::TASK_SHADER_EXT.as_raw());
    assert_eq!(vk::stage::MESH_SHADER, native::PipelineStageFlags::MESH_SHADER_EXT.as_raw());
}

#[test]
fn stage2_bits_are_vulkans() {
    assert_eq!(vk::stage2::NONE, native::PipelineStageFlags2::NONE.as_raw());
    assert_eq!(vk::stage2::VERTEX_SHADER, native::PipelineStageFlags2::VERTEX_SHADER.as_raw());
    assert_eq!(vk::stage2::FRAGMENT_SHADER, native::PipelineStageFlags2::FRAGMENT_SHADER.as_raw());
    assert_eq!(vk::stage2::EARLY_FRAGMENT_TESTS, native::PipelineStageFlags2::EARLY_FRAGMENT_TESTS.as_raw());
    assert_eq!(vk::stage2::LATE_FRAGMENT_TESTS, native::PipelineStageFlags2::LATE_FRAGMENT_TESTS.as_raw());
    assert_eq!(vk::stage2::COLOR_ATTACHMENT_OUTPUT, native::PipelineStageFlags2::COLOR_ATTACHMENT_OUTPUT.as_raw());
    assert_eq!(vk::stage2::COMPUTE_SHADER, native::PipelineStageFlags2::COMPUTE_SHADER.as_raw());
    assert_eq!(vk::stage2::ALL_TRANSFER, native::PipelineStageFlags2::ALL_TRANSFER.as_raw());
    assert_eq!(vk::stage2::HOST, native::PipelineStageFlags2::HOST.as_raw());
    assert_eq!(vk::stage2::ALL_GRAPHICS, native::PipelineStageFlags2::ALL_GRAPHICS.as_raw());
    assert_eq!(vk::stage2::TASK_SHADER, native::PipelineStageFlags2::TASK_SHADER_EXT.as_raw());
    assert_eq!(vk::stage2::MESH_SHADER, native::PipelineStageFlags2::MESH_SHADER_EXT.as_raw());
}

#[test]
fn queue_bits_are_vulkans() {
    assert_eq!(vk::queue::GRAPHICS, native::QueueFlags::GRAPHICS.as_raw());
    assert_eq!(vk::queue::COMPUTE, native::QueueFlags::COMPUTE.as_raw());
    assert_eq!(vk::queue::TRANSFER, native::QueueFlags::TRANSFER.as_raw());
    assert_eq!(vk::queue::SPARSE_BINDING, native::QueueFlags::SPARSE_BINDING.as_raw());
    assert_eq!(vk::queue::VIDEO_DECODE, native::QueueFlags::VIDEO_DECODE_KHR.as_raw());
}

#[test]
fn sample_count_bits_are_vulkans() {
    assert_eq!(vk::sample_count::TYPE_1, native::SampleCountFlags::TYPE_1.as_raw());
    assert_eq!(vk::sample_count::TYPE_2, native::SampleCountFlags::TYPE_2.as_raw());
    assert_eq!(vk::sample_count::TYPE_4, native::SampleCountFlags::TYPE_4.as_raw());
    assert_eq!(vk::sample_count::TYPE_8, native::SampleCountFlags::TYPE_8.as_raw());
    assert_eq!(vk::sample_count::TYPE_16, native::SampleCountFlags::TYPE_16.as_raw());
    assert_eq!(vk::sample_count::TYPE_32, native::SampleCountFlags::TYPE_32.as_raw());
    assert_eq!(vk::sample_count::TYPE_64, native::SampleCountFlags::TYPE_64.as_raw());
}
