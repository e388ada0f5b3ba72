//! The device limits the application requests.

use vstd::prelude::*;
use crate::bindings::{count_bindings, spec_compute_layout, spec_render_layout, BindingKind, ShaderStage, STORAGE_FORMAT};
use crate::dispatch::WORKGROUP_SIZE;

verus! {

/// `wgpu::Limits`. Every field of it is a public `u32` or `u64`, so Verus
/// reads the fields and contracts can speak of each limit.
#[verifier::external_type_specification]
pub struct ExLimits(wgpu::Limits);

/// The value of `wgpu::Limits::default()`, field by field as wgpu defines it:
/// limits that every modern backend and WebGPU guarantee.
pub open spec fn wgpu_default_limits() -> wgpu::Limits {
    wgpu::Limits {
        max_texture_dimension_1d: 8192,
        max_texture_dimension_2d: 8192,
        max_texture_dimension_3d: 2048,
        max_texture_array_layers: 256,
        max_bind_groups: 4,
        max_bindings_per_bind_group: 1000,
        max_dynamic_uniform_buffers_per_pipeline_layout: 8,
        max_dynamic_storage_buffers_per_pipeline_layout: 4,
        max_sampled_textures_per_shader_stage: 16,
        max_samplers_per_shader_stage: 16,
        max_storage_buffers_per_shader_stage: 8,
        max_storage_textures_per_shader_stage: 4,
        max_uniform_buffers_per_shader_stage: 12,
        max_binding_array_elements_per_shader_stage: 0,
        max_binding_array_acceleration_structure_elements_per_shader_stage: 0,
        max_binding_array_sampler_elements_per_shader_stage: 0,
        max_uniform_buffer_binding_size: 65536,
        max_storage_buffer_binding_size: 134217728,
        max_vertex_buffers: 8,
        max_buffer_size: 268435456,
        max_vertex_attributes: 16,
        max_vertex_buffer_array_stride: 2048,
        max_inter_stage_shader_variables: 16,
        min_uniform_buffer_offset_alignment: 256,
        min_storage_buffer_offset_alignment: 256,
        max_color_attachments: 8,
        max_color_attachment_bytes_per_sample: 32,
        max_compute_workgroup_storage_size: 16384,
        max_compute_invocations_per_workgroup: 256,
        max_compute_workgroup_size_x: 256,
        max_compute_workgroup_size_y: 256,
        max_compute_workgroup_size_z: 64,
        max_compute_workgroups_per_dimension: 65535,
        max_immediate_size: 0,
        max_non_sampler_bindings: 1000000,
        max_task_mesh_workgroup_total_count: 0,
        max_task_mesh_workgroups_per_dimension: 0,
        max_task_invocations_per_workgroup: 0,
        max_task_invocations_per_dimension: 0,
        max_mesh_invocations_per_workgroup: 0,
        max_mesh_invocations_per_dimension: 0,
        max_task_payload_size: 0,
        max_mesh_output_vertices: 0,
        max_mesh_output_primitives: 0,
        max_mesh_output_layers: 0,
        max_mesh_multiview_view_count: 0,
        max_blas_primitive_count: 0,
        max_blas_geometry_count: 0,
        max_tlas_instance_count: 0,
        max_acceleration_structures_per_shader_stage: 0,
        max_multiview_view_count: 0,
    }
}

/// Calls `wgpu::Limits::default()`, which wgpu defines as the constant
/// `wgpu_default_limits` states.
#[verifier::external_body]
fn default_limits() -> (limits: wgpu::Limits)
    ensures
        limits == wgpu_default_limits(),
{
    wgpu::Limits::default()
}

/// `base` with the three texture dimension limits taken from `other`.
pub open spec fn spec_using_resolution(base: wgpu::Limits, other: wgpu::Limits) -> wgpu::Limits {
    wgpu::Limits {
        max_texture_dimension_1d: other.max_texture_dimension_1d,
        max_texture_dimension_2d: other.max_texture_dimension_2d,
        max_texture_dimension_3d: other.max_texture_dimension_3d,
        ..base
    }
}

/// `base` with the texture dimension limits of `other`, as
/// `wgpu::Limits::using_resolution` computes it.
pub fn using_resolution(base: wgpu::Limits, other: wgpu::Limits) -> (limits: wgpu::Limits)
    ensures
        limits == spec_using_resolution(base, other),
        limits.max_texture_dimension_1d == other.max_texture_dimension_1d,
        limits.max_texture_dimension_2d == other.max_texture_dimension_2d,
        limits.max_texture_dimension_3d == other.max_texture_dimension_3d,
        limits.max_texture_array_layers == base.max_texture_array_layers,
        limits.max_bind_groups == base.max_bind_groups,
        limits.max_bindings_per_bind_group == base.max_bindings_per_bind_group,
        limits.max_dynamic_uniform_buffers_per_pipeline_layout == base.max_dynamic_uniform_buffers_per_pipeline_layout,
        limits.max_dynamic_storage_buffers_per_pipeline_layout == base.max_dynamic_storage_buffers_per_pipeline_layout,
        limits.max_sampled_textures_per_shader_stage == base.max_sampled_textures_per_shader_stage,
        limits.max_samplers_per_shader_stage == base.max_samplers_per_shader_stage,
        limits.max_storage_buffers_per_shader_stage == base.max_storage_buffers_per_shader_stage,
        limits.max_storage_textures_per_shader_stage == base.max_storage_textures_per_shader_stage,
        limits.max_uniform_buffers_per_shader_stage == base.max_uniform_buffers_per_shader_stage,
        limits.max_binding_array_elements_per_shader_stage == base.max_binding_array_elements_per_shader_stage,
        limits.max_binding_array_acceleration_structure_elements_per_shader_stage == base.max_binding_array_acceleration_structure_elements_per_shader_stage,
        limits.max_binding_array_sampler_elements_per_shader_stage == base.max_binding_array_sampler_elements_per_shader_stage,
        limits.max_uniform_buffer_binding_size == base.max_uniform_buffer_binding_size,
        limits.max_storage_buffer_binding_size == base.max_storage_buffer_binding_size,
        limits.max_vertex_buffers == base.max_vertex_buffers,
        limits.max_buffer_size == base.max_buffer_size,
        limits.max_vertex_attributes == base.max_vertex_attributes,
        limits.max_vertex_buffer_array_stride == base.max_vertex_buffer_array_stride,
        limits.max_inter_stage_shader_variables == base.max_inter_stage_shader_variables,
        limits.min_uniform_buffer_offset_alignment == base.min_uniform_buffer_offset_alignment,
        limits.min_storage_buffer_offset_alignment == base.min_storage_buffer_offset_alignment,
        limits.max_color_attachments == base.max_color_attachments,
        limits.max_color_attachment_bytes_per_sample == base.max_color_attachment_bytes_per_sample,
        limits.max_compute_workgroup_storage_size == base.max_compute_workgroup_storage_size,
        limits.max_compute_invocations_per_workgroup == base.max_compute_invocations_per_workgroup,
        limits.max_compute_workgroup_size_x == base.max_compute_workgroup_size_x,
        limits.max_compute_workgroup_size_y == base.max_compute_workgroup_size_y,
        limits.max_compute_workgroup_size_z == base.max_compute_workgroup_size_z,
        limits.max_compute_workgroups_per_dimension == base.max_compute_workgroups_per_dimension,
        limits.max_immediate_size == base.max_immediate_size,
        limits.max_non_sampler_bindings == base.max_non_sampler_bindings,
        limits.max_task_mesh_workgroup_total_count == base.max_task_mesh_workgroup_total_count,
        limits.max_task_mesh_workgroups_per_dimension == base.max_task_mesh_workgroups_per_dimension,
        limits.max_task_invocations_per_workgroup == base.max_task_invocations_per_workgroup,
        limits.max_task_invocations_per_dimension == base.max_task_invocations_per_dimension,
        limits.max_mesh_invocations_per_workgroup == base.max_mesh_invocations_per_workgroup,
        limits.max_mesh_invocations_per_dimension == base.max_mesh_invocations_per_dimension,
        limits.max_task_payload_size == base.max_task_payload_size,
        limits.max_mesh_output_vertices == base.max_mesh_output_vertices,
        limits.max_mesh_output_primitives == base.max_mesh_output_primitives,
        limits.max_mesh_output_layers == base.max_mesh_output_layers,
        limits.max_mesh_multiview_view_count == base.max_mesh_multiview_view_count,
        limits.max_blas_primitive_count == base.max_blas_primitive_count,
        limits.max_blas_geometry_count == base.max_blas_geometry_count,
        limits.max_tlas_instance_count == base.max_tlas_instance_count,
        limits.max_acceleration_structures_per_shader_stage == base.max_acceleration_structures_per_shader_stage,
        limits.max_multiview_view_count == base.max_multiview_view_count,
{
    wgpu::Limits {
        max_texture_dimension_1d: other.max_texture_dimension_1d,
        max_texture_dimension_2d: other.max_texture_dimension_2d,
        max_texture_dimension_3d: other.max_texture_dimension_3d,
        ..base
    }
}

/// The limits to request from a device whose adapter supports
/// `adapter_limits`: wgpu's defaults, which admit the storage texture the
/// compute shader writes, with the adapter's texture dimension limits so
/// that the surface can be as large as the display.
pub fn required_limits(adapter_limits: wgpu::Limits) -> (limits: wgpu::Limits)
    ensures
        limits == spec_using_resolution(wgpu_default_limits(), adapter_limits),
        limits.max_texture_dimension_1d == adapter_limits.max_texture_dimension_1d,
        limits.max_texture_dimension_2d == adapter_limits.max_texture_dimension_2d,
        limits.max_texture_dimension_3d == adapter_limits.max_texture_dimension_3d,
        limits.max_texture_array_layers == wgpu_default_limits().max_texture_array_layers,
        limits.max_bind_groups == wgpu_default_limits().max_bind_groups,
        limits.max_bindings_per_bind_group == wgpu_default_limits().max_bindings_per_bind_group,
        limits.max_dynamic_uniform_buffers_per_pipeline_layout == wgpu_default_limits().max_dynamic_uniform_buffers_per_pipeline_layout,
        limits.max_dynamic_storage_buffers_per_pipeline_layout == wgpu_default_limits().max_dynamic_storage_buffers_per_pipeline_layout,
        limits.max_sampled_textures_per_shader_stage == wgpu_default_limits().max_sampled_textures_per_shader_stage,
        limits.max_samplers_per_shader_stage == wgpu_default_limits().max_samplers_per_shader_stage,
        limits.max_storage_buffers_per_shader_stage == wgpu_default_limits().max_storage_buffers_per_shader_stage,
        limits.max_storage_textures_per_shader_stage == wgpu_default_limits().max_storage_textures_per_shader_stage,
        limits.max_uniform_buffers_per_shader_stage == wgpu_default_limits().max_uniform_buffers_per_shader_stage,
        limits.max_binding_array_elements_per_shader_stage == wgpu_default_limits().max_binding_array_elements_per_shader_stage,
        limits.max_binding_array_acceleration_structure_elements_per_shader_stage == wgpu_default_limits().max_binding_array_acceleration_structure_elements_per_shader_stage,
        limits.max_binding_array_sampler_elements_per_shader_stage == wgpu_default_limits().max_binding_array_sampler_elements_per_shader_stage,
        limits.max_uniform_buffer_binding_size == wgpu_default_limits().max_uniform_buffer_binding_size,
        limits.max_storage_buffer_binding_size == wgpu_default_limits().max_storage_buffer_binding_size,
        limits.max_vertex_buffers == wgpu_default_limits().max_vertex_buffers,
        limits.max_buffer_size == wgpu_default_limits().max_buffer_size,
        limits.max_vertex_attributes == wgpu_default_limits().max_vertex_attributes,
        limits.max_vertex_buffer_array_stride == wgpu_default_limits().max_vertex_buffer_array_stride,
        limits.max_inter_stage_shader_variables == wgpu_default_limits().max_inter_stage_shader_variables,
        limits.min_uniform_buffer_offset_alignment == wgpu_default_limits().min_uniform_buffer_offset_alignment,
        limits.min_storage_buffer_offset_alignment == wgpu_default_limits().min_storage_buffer_offset_alignment,
        limits.max_color_attachments == wgpu_default_limits().max_color_attachments,
        limits.max_color_attachment_bytes_per_sample == wgpu_default_limits().max_color_attachment_bytes_per_sample,
        limits.max_compute_workgroup_storage_size == wgpu_default_limits().max_compute_workgroup_storage_size,
        limits.max_compute_invocations_per_workgroup == wgpu_default_limits().max_compute_invocations_per_workgroup,
        limits.max_compute_workgroup_size_x == wgpu_default_limits().max_compute_workgroup_size_x,
        limits.max_compute_workgroup_size_y == wgpu_default_limits().max_compute_workgroup_size_y,
        limits.max_compute_workgroup_size_z == wgpu_default_limits().max_compute_workgroup_size_z,
        limits.max_compute_workgroups_per_dimension == wgpu_default_limits().max_compute_workgroups_per_dimension,
        limits.max_immediate_size == wgpu_default_limits().max_immediate_size,
        limits.max_non_sampler_bindings == wgpu_default_limits().max_non_sampler_bindings,
        limits.max_task_mesh_workgroup_total_count == wgpu_default_limits().max_task_mesh_workgroup_total_count,
        limits.max_task_mesh_workgroups_per_dimension == wgpu_default_limits().max_task_mesh_workgroups_per_dimension,
        limits.max_task_invocations_per_workgroup == wgpu_default_limits().max_task_invocations_per_workgroup,
        limits.max_task_invocations_per_dimension == wgpu_default_limits().max_task_invocations_per_dimension,
        limits.max_mesh_invocations_per_workgroup == wgpu_default_limits().max_mesh_invocations_per_workgroup,
        limits.max_mesh_invocations_per_dimension == wgpu_default_limits().max_mesh_invocations_per_dimension,
        limits.max_task_payload_size == wgpu_default_limits().max_task_payload_size,
        limits.max_mesh_output_vertices == wgpu_default_limits().max_mesh_output_vertices,
        limits.max_mesh_output_primitives == wgpu_default_limits().max_mesh_output_primitives,
        limits.max_mesh_output_layers == wgpu_default_limits().max_mesh_output_layers,
        limits.max_mesh_multiview_view_count == wgpu_default_limits().max_mesh_multiview_view_count,
        limits.max_blas_primitive_count == wgpu_default_limits().max_blas_primitive_count,
        limits.max_blas_geometry_count == wgpu_default_limits().max_blas_geometry_count,
        limits.max_tlas_instance_count == wgpu_default_limits().max_tlas_instance_count,
        limits.max_acceleration_structures_per_shader_stage == wgpu_default_limits().max_acceleration_structures_per_shader_stage,
        limits.max_multiview_view_count == wgpu_default_limits().max_multiview_view_count,
{
    using_resolution(default_limits(), adapter_limits)
}

/// Taking the resolution of `other` changes exactly the 1D, 2D and 3D
/// texture dimension limits, to those of `other`; every other limit,
/// including the texture array layers, stays that of `base`.
pub proof fn lemma_using_resolution_changes_only_dimensions(base: wgpu::Limits, other: wgpu::Limits)
    ensures
        spec_using_resolution(base, other).max_texture_dimension_1d == other.max_texture_dimension_1d,
        spec_using_resolution(base, other).max_texture_dimension_2d == other.max_texture_dimension_2d,
        spec_using_resolution(base, other).max_texture_dimension_3d == other.max_texture_dimension_3d,
        spec_using_resolution(base, other).max_texture_array_layers == base.max_texture_array_layers,
        spec_using_resolution(base, other).max_bind_groups == base.max_bind_groups,
        spec_using_resolution(base, other).max_bindings_per_bind_group == base.max_bindings_per_bind_group,
        spec_using_resolution(base, other).max_dynamic_uniform_buffers_per_pipeline_layout == base.max_dynamic_uniform_buffers_per_pipeline_layout,
        spec_using_resolution(base, other).max_dynamic_storage_buffers_per_pipeline_layout == base.max_dynamic_storage_buffers_per_pipeline_layout,
        spec_using_resolution(base, other).max_sampled_textures_per_shader_stage == base.max_sampled_textures_per_shader_stage,
        spec_using_resolution(base, other).max_samplers_per_shader_stage == base.max_samplers_per_shader_stage,
        spec_using_resolution(base, other).max_storage_buffers_per_shader_stage == base.max_storage_buffers_per_shader_stage,
        spec_using_resolution(base, other).max_storage_textures_per_shader_stage == base.max_storage_textures_per_shader_stage,
        spec_using_resolution(base, other).max_uniform_buffers_per_shader_stage == base.max_uniform_buffers_per_shader_stage,
        spec_using_resolution(base, other).max_binding_array_elements_per_shader_stage == base.max_binding_array_elements_per_shader_stage,
        spec_using_resolution(base, other).max_binding_array_acceleration_structure_elements_per_shader_stage == base.max_binding_array_acceleration_structure_elements_per_shader_stage,
        spec_using_resolution(base, other).max_binding_array_sampler_elements_per_shader_stage == base.max_binding_array_sampler_elements_per_shader_stage,
        spec_using_resolution(base, other).max_uniform_buffer_binding_size == base.max_uniform_buffer_binding_size,
        spec_using_resolution(base, other).max_storage_buffer_binding_size == base.max_storage_buffer_binding_size,
        spec_using_resolution(base, other).max_vertex_buffers == base.max_vertex_buffers,
        spec_using_resolution(base, other).max_buffer_size == base.max_buffer_size,
        spec_using_resolution(base, other).max_vertex_attributes == base.max_vertex_attributes,
        spec_using_resolution(base, other).max_vertex_buffer_array_stride == base.max_vertex_buffer_array_stride,
        spec_using_resolution(base, other).max_inter_stage_shader_variables == base.max_inter_stage_shader_variables,
        spec_using_resolution(base, other).min_uniform_buffer_offset_alignment == base.min_uniform_buffer_offset_alignment,
        spec_using_resolution(base, other).min_storage_buffer_offset_alignment == base.min_storage_buffer_offset_alignment,
        spec_using_resolution(base, other).max_color_attachments == base.max_color_attachments,
        spec_using_resolution(base, other).max_color_attachment_bytes_per_sample == base.max_color_attachment_bytes_per_sample,
        spec_using_resolution(base, other).max_compute_workgroup_storage_size == base.max_compute_workgroup_storage_size,
        spec_using_resolution(base, other).max_compute_invocations_per_workgroup == base.max_compute_invocations_per_workgroup,
        spec_using_resolution(base, other).max_compute_workgroup_size_x == base.max_compute_workgroup_size_x,
        spec_using_resolution(base, other).max_compute_workgroup_size_y == base.max_compute_workgroup_size_y,
        spec_using_resolution(base, other).max_compute_workgroup_size_z == base.max_compute_workgroup_size_z,
        spec_using_resolution(base, other).max_compute_workgroups_per_dimension == base.max_compute_workgroups_per_dimension,
        spec_using_resolution(base, other).max_immediate_size == base.max_immediate_size,
        spec_using_resolution(base, other).max_non_sampler_bindings == base.max_non_sampler_bindings,
        spec_using_resolution(base, other).max_task_mesh_workgroup_total_count == base.max_task_mesh_workgroup_total_count,
        spec_using_resolution(base, other).max_task_mesh_workgroups_per_dimension == base.max_task_mesh_workgroups_per_dimension,
        spec_using_resolution(base, other).max_task_invocations_per_workgroup == base.max_task_invocations_per_workgroup,
        spec_using_resolution(base, other).max_task_invocations_per_dimension == base.max_task_invocations_per_dimension,
        spec_using_resolution(base, other).max_mesh_invocations_per_workgroup == base.max_mesh_invocations_per_workgroup,
        spec_using_resolution(base, other).max_mesh_invocations_per_dimension == base.max_mesh_invocations_per_dimension,
        spec_using_resolution(base, other).max_task_payload_size == base.max_task_payload_size,
        spec_using_resolution(base, other).max_mesh_output_vertices == base.max_mesh_output_vertices,
        spec_using_resolution(base, other).max_mesh_output_primitives == base.max_mesh_output_primitives,
        spec_using_resolution(base, other).max_mesh_output_layers == base.max_mesh_output_layers,
        spec_using_resolution(base, other).max_mesh_multiview_view_count == base.max_mesh_multiview_view_count,
        spec_using_resolution(base, other).max_blas_primitive_count == base.max_blas_primitive_count,
        spec_using_resolution(base, other).max_blas_geometry_count == base.max_blas_geometry_count,
        spec_using_resolution(base, other).max_tlas_instance_count == base.max_tlas_instance_count,
        spec_using_resolution(base, other).max_acceleration_structures_per_shader_stage == base.max_acceleration_structures_per_shader_stage,
        spec_using_resolution(base, other).max_multiview_view_count == base.max_multiview_view_count,
{
}

/// Whatever the adapter reports, the requested limits are wgpu's defaults
/// in every field but the three texture dimensions, which are the adapter's:
/// in particular 256 texture array layers and 4 storage textures per stage.
pub proof fn lemma_required_limits_are_defaults_but_resolution(adapter: wgpu::Limits)
    ensures
        spec_using_resolution(wgpu_default_limits(), adapter).max_texture_dimension_1d == adapter.max_texture_dimension_1d,
        spec_using_resolution(wgpu_default_limits(), adapter).max_texture_dimension_2d == adapter.max_texture_dimension_2d,
        spec_using_resolution(wgpu_default_limits(), adapter).max_texture_dimension_3d == adapter.max_texture_dimension_3d,
        spec_using_resolution(wgpu_default_limits(), adapter).max_texture_array_layers == wgpu_default_limits().max_texture_array_layers,
        spec_using_resolution(wgpu_default_limits(), adapter).max_bind_groups == wgpu_default_limits().max_bind_groups,
        spec_using_resolution(wgpu_default_limits(), adapter).max_bindings_per_bind_group == wgpu_default_limits().max_bindings_per_bind_group,
        spec_using_resolution(wgpu_default_limits(), adapter).max_dynamic_uniform_buffers_per_pipeline_layout == wgpu_default_limits().max_dynamic_uniform_buffers_per_pipeline_layout,
        spec_using_resolution(wgpu_default_limits(), adapter).max_dynamic_storage_buffers_per_pipeline_layout == wgpu_default_limits().max_dynamic_storage_buffers_per_pipeline_layout,
        spec_using_resolution(wgpu_default_limits(), adapter).max_sampled_textures_per_shader_stage == wgpu_default_limits().max_sampled_textures_per_shader_stage,
        spec_using_resolution(wgpu_default_limits(), adapter).max_samplers_per_shader_stage == wgpu_default_limits().max_samplers_per_shader_stage,
        spec_using_resolution(wgpu_default_limits(), adapter).max_storage_buffers_per_shader_stage == wgpu_default_limits().max_storage_buffers_per_shader_stage,
        spec_using_resolution(wgpu_default_limits(), adapter).max_storage_textures_per_shader_stage == wgpu_default_limits().max_storage_textures_per_shader_stage,
        spec_using_resolution(wgpu_default_limits(), adapter).max_uniform_buffers_per_shader_stage == wgpu_default_limits().max_uniform_buffers_per_shader_stage,
        spec_using_resolution(wgpu_default_limits(), adapter).max_binding_array_elements_per_shader_stage == wgpu_default_limits().max_binding_array_elements_per_shader_stage,
        spec_using_resolution(wgpu_default_limits(), adapter).max_binding_array_acceleration_structure_elements_per_shader_stage == wgpu_default_limits().max_binding_array_acceleration_structure_elements_per_shader_stage,
        spec_using_resolution(wgpu_default_limits(), adapter).max_binding_array_sampler_elements_per_shader_stage == wgpu_default_limits().max_binding_array_sampler_elements_per_shader_stage,
        spec_using_resolution(wgpu_default_limits(), adapter).max_uniform_buffer_binding_size == wgpu_default_limits().max_uniform_buffer_binding_size,
        spec_using_resolution(wgpu_default_limits(), adapter).max_storage_buffer_binding_size == wgpu_default_limits().max_storage_buffer_binding_size,
        spec_using_resolution(wgpu_default_limits(), adapter).max_vertex_buffers == wgpu_default_limits().max_vertex_buffers,
        spec_using_resolution(wgpu_default_limits(), adapter).max_buffer_size == wgpu_default_limits().max_buffer_size,
        spec_using_resolution(wgpu_default_limits(), adapter).max_vertex_attributes == wgpu_default_limits().max_vertex_attributes,
        spec_using_resolution(wgpu_default_limits(), adapter).max_vertex_buffer_array_stride == wgpu_default_limits().max_vertex_buffer_array_stride,
        spec_using_resolution(wgpu_default_limits(), adapter).max_inter_stage_shader_variables == wgpu_default_limits().max_inter_stage_shader_variables,
        spec_using_resolution(wgpu_default_limits(), adapter).min_uniform_buffer_offset_alignment == wgpu_default_limits().min_uniform_buffer_offset_alignment,
        spec_using_resolution(wgpu_default_limits(), adapter).min_storage_buffer_offset_alignment == wgpu_default_limits().min_storage_buffer_offset_alignment,
        spec_using_resolution(wgpu_default_limits(), adapter).max_color_attachments == wgpu_default_limits().max_color_attachments,
        spec_using_resolution(wgpu_default_limits(), adapter).max_color_attachment_bytes_per_sample == wgpu_default_limits().max_color_attachment_bytes_per_sample,
        spec_using_resolution(wgpu_default_limits(), adapter).max_compute_workgroup_storage_size == wgpu_default_limits().max_compute_workgroup_storage_size,
        spec_using_resolution(wgpu_default_limits(), adapter).max_compute_invocations_per_workgroup == wgpu_default_limits().max_compute_invocations_per_workgroup,
        spec_using_resolution(wgpu_default_limits(), adapter).max_compute_workgroup_size_x == wgpu_default_limits().max_compute_workgroup_size_x,
        spec_using_resolution(wgpu_default_limits(), adapter).max_compute_workgroup_size_y == wgpu_default_limits().max_compute_workgroup_size_y,
        spec_using_resolution(wgpu_default_limits(), adapter).max_compute_workgroup_size_z == wgpu_default_limits().max_compute_workgroup_size_z,
        spec_using_resolution(wgpu_default_limits(), adapter).max_compute_workgroups_per_dimension == wgpu_default_limits().max_compute_workgroups_per_dimension,
        spec_using_resolution(wgpu_default_limits(), adapter).max_immediate_size == wgpu_default_limits().max_immediate_size,
        spec_using_resolution(wgpu_default_limits(), adapter).max_non_sampler_bindings == wgpu_default_limits().max_non_sampler_bindings,
        spec_using_resolution(wgpu_default_limits(), adapter).max_task_mesh_workgroup_total_count == wgpu_default_limits().max_task_mesh_workgroup_total_count,
        spec_using_resolution(wgpu_default_limits(), adapter).max_task_mesh_workgroups_per_dimension == wgpu_default_limits().max_task_mesh_workgroups_per_dimension,
        spec_using_resolution(wgpu_default_limits(), adapter).max_task_invocations_per_workgroup == wgpu_default_limits().max_task_invocations_per_workgroup,
        spec_using_resolution(wgpu_default_limits(), adapter).max_task_invocations_per_dimension == wgpu_default_limits().max_task_invocations_per_dimension,
        spec_using_resolution(wgpu_default_limits(), adapter).max_mesh_invocations_per_workgroup == wgpu_default_limits().max_mesh_invocations_per_workgroup,
        spec_using_resolution(wgpu_default_limits(), adapter).max_mesh_invocations_per_dimension == wgpu_default_limits().max_mesh_invocations_per_dimension,
        spec_using_resolution(wgpu_default_limits(), adapter).max_task_payload_size == wgpu_default_limits().max_task_payload_size,
        spec_using_resolution(wgpu_default_limits(), adapter).max_mesh_output_vertices == wgpu_default_limits().max_mesh_output_vertices,
        spec_using_resolution(wgpu_default_limits(), adapter).max_mesh_output_primitives == wgpu_default_limits().max_mesh_output_primitives,
        spec_using_resolution(wgpu_default_limits(), adapter).max_mesh_output_layers == wgpu_default_limits().max_mesh_output_layers,
        spec_using_resolution(wgpu_default_limits(), adapter).max_mesh_multiview_view_count == wgpu_default_limits().max_mesh_multiview_view_count,
        spec_using_resolution(wgpu_default_limits(), adapter).max_blas_primitive_count == wgpu_default_limits().max_blas_primitive_count,
        spec_using_resolution(wgpu_default_limits(), adapter).max_blas_geometry_count == wgpu_default_limits().max_blas_geometry_count,
        spec_using_resolution(wgpu_default_limits(), adapter).max_tlas_instance_count == wgpu_default_limits().max_tlas_instance_count,
        spec_using_resolution(wgpu_default_limits(), adapter).max_acceleration_structures_per_shader_stage == wgpu_default_limits().max_acceleration_structures_per_shader_stage,
        spec_using_resolution(wgpu_default_limits(), adapter).max_multiview_view_count == wgpu_default_limits().max_multiview_view_count,
        spec_using_resolution(wgpu_default_limits(), adapter).max_texture_array_layers == 256,
        spec_using_resolution(wgpu_default_limits(), adapter).max_storage_textures_per_shader_stage == 4,
{
}

/// Whether a device with `limits` can hold the two pipelines: enough
/// uniform buffers, storage textures, sampled textures and samplers per
/// stage for their layouts, one bind group each, and square workgroups of
/// `WORKGROUP_SIZE`.
pub open spec fn pipelines_fit(limits: wgpu::Limits) -> bool {
    let compute = spec_compute_layout();
    let render = spec_render_layout();
    &&& count_bindings(compute, ShaderStage::Compute, BindingKind::UniformBuffer)
        <= limits.max_uniform_buffers_per_shader_stage
    &&& count_bindings(compute, ShaderStage::Compute, BindingKind::WriteOnlyStorageTexture { format: STORAGE_FORMAT })
        <= limits.max_storage_textures_per_shader_stage
    &&& count_bindings(render, ShaderStage::Fragment, BindingKind::FilterableTexture)
        <= limits.max_sampled_textures_per_shader_stage
    &&& count_bindings(render, ShaderStage::Fragment, BindingKind::FilteringSampler)
        <= limits.max_samplers_per_shader_stage
    &&& 1 <= limits.max_bind_groups
    &&& WORKGROUP_SIZE <= limits.max_compute_workgroup_size_x
    &&& WORKGROUP_SIZE <= limits.max_compute_workgroup_size_y
    &&& WORKGROUP_SIZE * WORKGROUP_SIZE <= limits.max_compute_invocations_per_workgroup
}

/// Whatever the adapter reports, the requested limits admit both pipelines.
pub proof fn lemma_required_limits_fit_pipelines(adapter_limits: wgpu::Limits)
    ensures
        pipelines_fit(spec_using_resolution(wgpu_default_limits(), adapter_limits)),
{
    reveal_with_fuel(count_bindings, 3);
}

} // verus!
