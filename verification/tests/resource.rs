use surface_lifecycle::resource::{
    adapter_options, device_descriptor, pipeline_layout_descriptor, render_pass,
    render_pipeline_descriptor, shader_entry_point, swap_chain_descriptor, with_size, Color,
    DeviceDescriptor, Features, Handle, IndexFormat, Limits, PipelineLayoutDescriptor,
    PowerPreference, PresentMode, PrimitiveTopology, RenderPass, RenderPipelineDescriptor,
    RequestAdapterOptions, SwapChainDescriptor, TextureFormat, TextureUsage,
};

#[test]
fn handle_keeps_its_number() {
    assert_eq!(Handle::new(42), Handle { id: 42 });
    assert_eq!(Handle::new(u64::MAX).id, u64::MAX);
}

#[test]
fn adapter_must_fit_the_surface() {
    assert_eq!(
        adapter_options(Handle::new(3)),
        RequestAdapterOptions {
            power_preference: PowerPreference::Default,
            compatible_surface: Some(Handle { id: 3 }),
        }
    );
}

#[test]
fn device_is_plain() {
    assert_eq!(
        device_descriptor(),
        DeviceDescriptor { features: Features::Empty, limits: Limits::Default, shader_validation: true }
    );
}

#[test]
fn layout_binds_nothing() {
    assert_eq!(
        pipeline_layout_descriptor(),
        PipelineLayoutDescriptor { bind_group_layouts: 0, push_constant_ranges: 0 }
    );
}

#[test]
fn pipeline_draws_triangles_without_buffers() {
    assert_eq!(
        render_pipeline_descriptor(
            Handle::new(1),
            Handle::new(2),
            Handle::new(3),
            TextureFormat::Bgra8UnormSrgb
        ),
        RenderPipelineDescriptor {
            layout: Handle { id: 1 },
            vertex_module: Handle { id: 2 },
            fragment_module: Handle { id: 3 },
            primitive_topology: PrimitiveTopology::TriangleList,
            color_format: TextureFormat::Bgra8UnormSrgb,
            depth_stencil: false,
            index_format: IndexFormat::Uint16,
            vertex_buffers: 0,
            sample_count: 1,
            sample_mask: 4294967295,
            alpha_to_coverage_enabled: false,
        }
    );
}

#[test]
fn swap_chain_is_an_output_attachment_by_mailbox() {
    let descriptor = swap_chain_descriptor(TextureFormat::Rgba8Unorm, 1024, 768);
    assert_eq!(
        descriptor,
        SwapChainDescriptor {
            usage: TextureUsage {
                copy_src: false,
                copy_dst: false,
                sampled: false,
                storage: false,
                output_attachment: true,
            },
            format: TextureFormat::Rgba8Unorm,
            width: 1024,
            height: 768,
            present_mode: PresentMode::Mailbox,
        }
    );
    assert_eq!(swap_chain_descriptor(TextureFormat::Rgba8Unorm, 0, 0).width, 0);
}

#[test]
fn with_size_changes_only_the_size() {
    let descriptor = SwapChainDescriptor {
        usage: TextureUsage {
            copy_src: true,
            copy_dst: false,
            sampled: true,
            storage: false,
            output_attachment: true,
        },
        format: TextureFormat::Bgra8Unorm,
        width: 1,
        height: 2,
        present_mode: PresentMode::Fifo,
    };
    assert_eq!(
        with_size(descriptor, 800, 600),
        SwapChainDescriptor { width: 800, height: 600, ..descriptor }
    );
    assert_eq!(with_size(descriptor, 1, 2), descriptor);
    assert_eq!(with_size(descriptor, u32::MAX, 0).width, u32::MAX);
}

#[test]
fn pass_clears_to_green_and_draws_three_vertices() {
    assert_eq!(
        render_pass(Handle::new(8), Handle::new(9)),
        RenderPass {
            attachment: Handle { id: 8 },
            clear: Color::Green,
            store: true,
            pipeline: Handle { id: 9 },
            first_vertex: 0,
            end_vertex: 3,
            first_instance: 0,
            end_instance: 1,
        }
    );
}

#[test]
fn shaders_are_entered_at_main() {
    assert_eq!(shader_entry_point(), "main");
}
