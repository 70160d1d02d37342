use gpu_compute::launch::{
    attachment_draw, buffer_draw, buffer_output_len, compute_layout, compute_output_len,
    sampler_layout, storage_buffer_layout, ComputeLayout, ComputeParameters, DrawCall, Extent2,
    GraphicsLayout, OutputModification, QuadMethod, SetupError,
};

fn e(x: u32, y: u32) -> Extent2 {
    Extent2 { x, y }
}

#[test]
fn quad_methods_by_support() {
    assert_eq!(
        QuadMethod::all(false),
        vec![QuadMethod::two_triangles, QuadMethod::large_triangle]
    );
    assert_eq!(
        QuadMethod::all(true),
        vec![
            QuadMethod::two_triangles,
            QuadMethod::large_triangle,
            QuadMethod::fill_rectangle
        ]
    );
}

#[test]
fn quad_method_details() {
    assert_eq!(QuadMethod::default(), QuadMethod::large_triangle);
    assert_eq!(QuadMethod::large_triangle.data_scale(), 2);
    assert_eq!(QuadMethod::two_triangles.data_scale(), 1);
    assert!(QuadMethod::fill_rectangle.uses_fill_rectangle());
    assert!(!QuadMethod::two_triangles.uses_fill_rectangle());
    assert_eq!(QuadMethod::two_triangles.vertex_count(4), 4);
    assert_eq!(QuadMethod::large_triangle.vertex_count(4), 3);
}

#[test]
fn draws_for_attachment() {
    assert_eq!(
        attachment_draw(QuadMethod::two_triangles, true, 7, 4),
        DrawCall { vertex_count: 4, instance_count: 7, first_vertex: 0, first_instance: 0 }
    );
    assert_eq!(
        attachment_draw(QuadMethod::large_triangle, false, 7, 4),
        DrawCall { vertex_count: 3, instance_count: 1, first_vertex: 0, first_instance: 7 }
    );
}

#[test]
fn draw_for_buffer() {
    assert_eq!(
        buffer_draw(QuadMethod::two_triangles, 9, 4),
        DrawCall { vertex_count: 4, instance_count: 1, first_vertex: 0, first_instance: 9 }
    );
}

#[test]
fn storage_buffer_layout_ok() {
    assert_eq!(
        storage_buffer_layout(e(256, 8), 2, 4),
        Ok(GraphicsLayout { viewport: e(128, 2), instance_id: 2, data_size: 2048 })
    );
}

#[test]
fn storage_buffer_layout_errors() {
    assert_eq!(storage_buffer_layout(e(256, 8), 0, 1), Err(SetupError::ZeroFramebufferRows));
    assert_eq!(
        storage_buffer_layout(e(255, 8), 2, 1),
        Err(SetupError::FramebufferRowsDoNotDivideWidth)
    );
    assert_eq!(
        storage_buffer_layout(e(0x10000, 0x10000), 1, 1),
        Err(SetupError::TooManyElements)
    );
    assert_eq!(storage_buffer_layout(e(256, 0), 1, 1), Err(SetupError::NoElements));
    assert_eq!(storage_buffer_layout(e(256, 8), 1, 0), Err(SetupError::ZeroVectorization));
    assert_eq!(
        storage_buffer_layout(e(256, 8), 1, 3),
        Err(SetupError::VectorizationDoesNotDivideHeight)
    );
}

#[test]
fn sampler_layout_ok_and_errors() {
    assert_eq!(
        sampler_layout(e(16384, 3), 4),
        Ok(GraphicsLayout { viewport: e(4096, 4), instance_id: 3, data_size: 49152 })
    );
    assert_eq!(sampler_layout(e(10, 3), 0), Err(SetupError::ZeroFramebufferRows));
    assert_eq!(sampler_layout(e(0, 3), 1), Err(SetupError::NoElements));
}

#[test]
fn compute_layout_ok_and_errors() {
    assert_eq!(
        compute_layout(e(1024, 8), 2),
        Ok(ComputeLayout { viewport: e(1024, 1), instance_id: 4, workgroups: 16, data_size: 8192 })
    );
    assert_eq!(compute_layout(e(1000, 8), 2), Err(SetupError::WidthNotWorkgroupMultiple));
    assert_eq!(compute_layout(e(1024, 7), 2), Err(SetupError::VectorizationDoesNotDivideHeight));
    assert_eq!(compute_layout(e(1024, 8), 0), Err(SetupError::ZeroVectorization));
    assert_eq!(compute_layout(e(0x20000, 0x10000), 1), Err(SetupError::TooManyElements));
}

#[test]
fn compute_output_sizes() {
    let v = e(1024, 1);
    assert_eq!(compute_output_len(OutputModification::OneForOne, v, 2, 32), Some(2048));
    assert_eq!(compute_output_len(OutputModification::SingleValue, v, 2, 32), Some(2));
    assert_eq!(compute_output_len(OutputModification::OnePerSubgroup, v, 1, 32), Some(32));
    assert_eq!(compute_output_len(OutputModification::OnePerSubgroup, e(1000, 1), 1, 32), Some(32));
    assert_eq!(compute_output_len(OutputModification::OnePerSubgroup, v, 1, 0), None);
    assert_eq!(compute_output_len(OutputModification::FixedSize(5000), v, 1, 32), Some(5000));
    assert_eq!(compute_output_len(OutputModification::FixedSize(10), v, 3, 32), Some(3072));
    assert_eq!(
        compute_output_len(OutputModification::FixedSize(u64::MAX), v, 2, 32),
        None
    );
}

#[test]
fn graphics_buffer_output_sizes() {
    assert_eq!(buffer_output_len(e(128, 2), 4), Some(1024));
    assert_eq!(buffer_output_len(e(0x10000, 0x10000), 1), None);
    assert_eq!(buffer_output_len(e(0x10000, 0x10000), 0), Some(0));
}

#[test]
fn compute_parameter_defaults() {
    let p = ComputeParameters::default();
    assert_eq!(p.vectorization_factor, 1);
    assert!(!p.clear_buffer);
    assert!(!p.skip_cpu_final_accumulation);
    assert_eq!(p.output, OutputModification::OneForOne);
    assert_eq!(OutputModification::default(), OutputModification::OneForOne);
}
