//! The shape of a launch: how the quad is drawn, how large the framebuffer or
//! dispatch is, and how many instances carry the data, for both the graphics
//! path and the compute path.

use vstd::prelude::*;

verus! {

/// Two unsigned dimensions, `x` then `y`.
#[derive(Clone, Copy, Debug, PartialEq, Eq, Structural)]
pub struct Extent2 {
    pub x: u32,
    pub y: u32,
}

/// How the full-screen quad that runs a fragment shader over every pixel is drawn.
#[derive(Clone, Copy, Debug, PartialEq, Eq, Structural, PartialOrd, Ord, Hash)]
#[allow(non_camel_case_types)]
pub enum QuadMethod {
    /// A strip of two triangles from the four-vertex buffer.
    two_triangles,
    /// One triangle twice the size of the viewport, clipped to it.
    large_triangle,
    /// One triangle rasterised as its bounding rectangle (NV_fill_rectangle).
    fill_rectangle,
}

impl Default for QuadMethod {
    fn default() -> (r: QuadMethod)
        ensures
            r == QuadMethod::large_triangle,
    {
        QuadMethod::large_triangle
    }
}

/// The arguments of one draw command.
#[derive(Clone, Copy, Debug, PartialEq, Eq, Structural)]
pub struct DrawCall {
    pub vertex_count: u32,
    pub instance_count: u32,
    pub first_vertex: u32,
    pub first_instance: u32,
}

/// Vertices drawn for `q`, given the length of the vertex buffer.
pub open spec fn vertex_count_spec(q: QuadMethod, vertex_buffer_len: u32) -> u32 {
    if q == QuadMethod::two_triangles {
        vertex_buffer_len
    } else {
        3
    }
}

impl QuadMethod {
    /// The quad methods a device can use: `fill_rectangle` only where the
    /// device supports it.
    pub fn all(supports_fill_rectangle: bool) -> (r: Vec<QuadMethod>)
        ensures
            supports_fill_rectangle ==> r@ == seq![
                QuadMethod::two_triangles,
                QuadMethod::large_triangle,
                QuadMethod::fill_rectangle,
            ],
            !supports_fill_rectangle ==> r@ == seq![
                QuadMethod::two_triangles,
                QuadMethod::large_triangle,
            ],
    {
        let mut r: Vec<QuadMethod> = Vec::new();
        r.push(QuadMethod::two_triangles);
        r.push(QuadMethod::large_triangle);
        if supports_fill_rectangle {
            r.push(QuadMethod::fill_rectangle);
        }
        r
    }

    /// The scale the vertex shader applies to the quad: the large triangle
    /// extends to twice the viewport.
    pub fn data_scale(self) -> (r: u32)
        ensures
            r == (if self == QuadMethod::large_triangle {
                2u32
            } else {
                1u32
            }),
    {
        if self == QuadMethod::large_triangle {
            2
        } else {
            1
        }
    }

    /// Whether the rasteriser must run in fill-rectangle polygon mode.
    pub fn uses_fill_rectangle(self) -> (r: bool)
        ensures
            r == (self == QuadMethod::fill_rectangle),
    {
        self == QuadMethod::fill_rectangle
    }

    /// Vertices to draw: the whole vertex buffer for two triangles, three otherwise.
    pub fn vertex_count(self, vertex_buffer_len: u32) -> (r: u32)
        ensures
            r == vertex_count_spec(self, vertex_buffer_len),
    {
        if self == QuadMethod::two_triangles {
            vertex_buffer_len
        } else {
            3
        }
    }
}

/// The draw into a render attachment. With instancing and blending, every
/// instance is drawn and blended into the attachment; without, one instance
/// is drawn and the instance id is handed over as the first instance.
pub fn attachment_draw(
    quad: QuadMethod,
    use_instances_and_blend: bool,
    instance_id: u32,
    vertex_buffer_len: u32,
) -> (r: DrawCall)
    ensures
        r.vertex_count == vertex_count_spec(quad, vertex_buffer_len),
        r.first_vertex == 0,
        use_instances_and_blend ==> r.instance_count == instance_id && r.first_instance == 0,
        !use_instances_and_blend ==> r.instance_count == 1 && r.first_instance == instance_id,
{
    DrawCall {
        vertex_count: quad.vertex_count(vertex_buffer_len),
        instance_count: if use_instances_and_blend {
            instance_id
        } else {
            1
        },
        first_vertex: 0,
        first_instance: if use_instances_and_blend {
            0
        } else {
            instance_id
        },
    }
}

/// The draw that writes to a storage buffer: one instance, the instance id
/// handed over as the first instance.
pub fn buffer_draw(quad: QuadMethod, instance_id: u32, vertex_buffer_len: u32) -> (r: DrawCall)
    ensures
        r == (DrawCall {
            vertex_count: vertex_count_spec(quad, vertex_buffer_len),
            instance_count: 1,
            first_vertex: 0,
            first_instance: instance_id,
        }),
{
    DrawCall {
        vertex_count: quad.vertex_count(vertex_buffer_len),
        instance_count: 1,
        first_vertex: 0,
        first_instance: instance_id,
    }
}

/// Why a launch cannot be set up.
#[derive(Clone, Copy, Debug, PartialEq, Eq, Structural)]
pub enum SetupError {
    /// The framebuffer was asked to have no rows.
    ZeroFramebufferRows,
    /// The data width does not split evenly into framebuffer rows.
    FramebufferRowsDoNotDivideWidth,
    /// The element count `x * y` does not fit in `u32`.
    TooManyElements,
    /// There are no elements to reduce.
    NoElements,
    /// The vectorization factor is zero.
    ZeroVectorization,
    /// The data height is not a multiple of the vectorization factor.
    VectorizationDoesNotDivideHeight,
    /// The data width is not a multiple of the compute workgroup size.
    WidthNotWorkgroupMultiple,
}

/// Invocations per workgroup of the compute shaders.
pub const WORKGROUP_SIZE: u32 = 64;

/// The shape of a launch on the graphics path.
#[derive(Clone, Copy, Debug, PartialEq, Eq, Structural)]
pub struct GraphicsLayout {
    /// Framebuffer size.
    pub viewport: Extent2,
    /// Instance count, or first instance, handed to the draw.
    pub instance_id: u32,
    /// Number of data elements, pushed to the shader as a constant.
    pub data_size: u32,
}

/// The shape of a launch on the compute path.
#[derive(Clone, Copy, Debug, PartialEq, Eq, Structural)]
pub struct ComputeLayout {
    /// Invocation grid; one row.
    pub viewport: Extent2,
    /// Pushed to the shader as a constant: the data rows each invocation covers.
    pub instance_id: u32,
    /// Workgroups dispatched along `x`.
    pub workgroups: u32,
    /// Number of data elements.
    pub data_size: u32,
}

/// The element count `x * y` is out of range: too large for `u32`, or zero.
pub open spec fn element_count_error(data_size: Extent2) -> Option<SetupError> {
    if data_size.x * data_size.y > u32::MAX {
        Some(SetupError::TooManyElements)
    } else if data_size.x * data_size.y == 0 {
        Some(SetupError::NoElements)
    } else {
        None
    }
}

/// The vectorization factor does not split the data height.
pub open spec fn vectorization_error(data_size: Extent2, vectorization_factor: u32) -> Option<
    SetupError,
> {
    if vectorization_factor == 0 {
        Some(SetupError::ZeroVectorization)
    } else if data_size.y % vectorization_factor != 0 {
        Some(SetupError::VectorizationDoesNotDivideHeight)
    } else {
        None
    }
}

/// The layout for data read from a storage buffer by a fragment shader: the
/// width is split into `framebuffer_y` rows and the height into instances of
/// `vectorization_factor` rows each.
pub open spec fn storage_buffer_layout_spec(
    data_size: Extent2,
    framebuffer_y: u32,
    vectorization_factor: u32,
) -> Result<GraphicsLayout, SetupError> {
    if framebuffer_y == 0 {
        Err(SetupError::ZeroFramebufferRows)
    } else if data_size.x % framebuffer_y != 0 {
        Err(SetupError::FramebufferRowsDoNotDivideWidth)
    } else if element_count_error(data_size) is Some {
        Err(element_count_error(data_size).unwrap())
    } else if vectorization_error(data_size, vectorization_factor) is Some {
        Err(vectorization_error(data_size, vectorization_factor).unwrap())
    } else {
        Ok(
            GraphicsLayout {
                viewport: Extent2 { x: (data_size.x / framebuffer_y) as u32, y: framebuffer_y },
                instance_id: (data_size.y / vectorization_factor) as u32,
                data_size: (data_size.x * data_size.y) as u32,
            },
        )
    }
}

/// The layout for data sampled from a 2D image by a fragment shader: one
/// instance per image row.
pub open spec fn sampler_layout_spec(data_size: Extent2, framebuffer_y: u32) -> Result<
    GraphicsLayout,
    SetupError,
> {
    if element_count_error(data_size) is Some {
        Err(element_count_error(data_size).unwrap())
    } else if framebuffer_y == 0 {
        Err(SetupError::ZeroFramebufferRows)
    } else {
        Ok(
            GraphicsLayout {
                viewport: Extent2 { x: (data_size.x / framebuffer_y) as u32, y: framebuffer_y },
                instance_id: data_size.y,
                data_size: (data_size.x * data_size.y) as u32,
            },
        )
    }
}

/// The layout for data read from a storage buffer by a compute shader: one
/// invocation per column, in workgroups of [`WORKGROUP_SIZE`].
pub open spec fn compute_layout_spec(data_size: Extent2, vectorization_factor: u32) -> Result<
    ComputeLayout,
    SetupError,
> {
    if element_count_error(data_size) is Some {
        Err(element_count_error(data_size).unwrap())
    } else if data_size.x % WORKGROUP_SIZE != 0 {
        Err(SetupError::WidthNotWorkgroupMultiple)
    } else if vectorization_error(data_size, vectorization_factor) is Some {
        Err(vectorization_error(data_size, vectorization_factor).unwrap())
    } else {
        Ok(
            ComputeLayout {
                viewport: Extent2 { x: data_size.x, y: 1 },
                instance_id: (data_size.y / vectorization_factor) as u32,
                workgroups: (data_size.x / WORKGROUP_SIZE) as u32,
                data_size: (data_size.x * data_size.y) as u32,
            },
        )
    }
}

/// `x * y`, or the reason it cannot be reduced.
fn element_count(data_size: Extent2) -> (r: Result<u32, SetupError>)
    ensures
        element_count_error(data_size) is None ==> r == Ok::<u32, SetupError>(
            (data_size.x * data_size.y) as u32,
        ),
        element_count_error(data_size) is Some ==> r == Err::<u32, SetupError>(
            element_count_error(data_size).unwrap(),
        ),
{
    match data_size.x.checked_mul(data_size.y) {
        None => Err(SetupError::TooManyElements),
        Some(0) => Err(SetupError::NoElements),
        Some(n) => Ok(n),
    }
}

/// The instance count of a vectorised launch, or the reason there is none.
fn vectorized_rows(data_size: Extent2, vectorization_factor: u32) -> (r: Result<u32, SetupError>)
    ensures
        vectorization_error(data_size, vectorization_factor) is None ==> r == Ok::<u32, SetupError>(
            (data_size.y / vectorization_factor) as u32,
        ),
        vectorization_error(data_size, vectorization_factor) is Some ==> r == Err::<
            u32,
            SetupError,
        >(vectorization_error(data_size, vectorization_factor).unwrap()),
{
    if vectorization_factor == 0 {
        Err(SetupError::ZeroVectorization)
    } else if data_size.y % vectorization_factor != 0 {
        Err(SetupError::VectorizationDoesNotDivideHeight)
    } else {
        Ok(data_size.y / vectorization_factor)
    }
}

/// Checks and computes the launch of a fragment shader that reads its data
/// from a storage buffer.
pub fn storage_buffer_layout(data_size: Extent2, framebuffer_y: u32, vectorization_factor: u32) -> (r:
    Result<GraphicsLayout, SetupError>)
    ensures
        r == storage_buffer_layout_spec(data_size, framebuffer_y, vectorization_factor),
{
    if framebuffer_y == 0 {
        return Err(SetupError::ZeroFramebufferRows);
    }
    if data_size.x % framebuffer_y != 0 {
        return Err(SetupError::FramebufferRowsDoNotDivideWidth);
    }
    let total = match element_count(data_size) {
        Ok(n) => n,
        Err(e) => return Err(e),
    };
    let instance_id = match vectorized_rows(data_size, vectorization_factor) {
        Ok(n) => n,
        Err(e) => return Err(e),
    };
    Ok(
        GraphicsLayout {
            viewport: Extent2 { x: data_size.x / framebuffer_y, y: framebuffer_y },
            instance_id,
            data_size: total,
        },
    )
}

/// Checks and computes the launch of a fragment shader that samples its data
/// from a 2D image.
pub fn sampler_layout(data_size: Extent2, framebuffer_y: u32) -> (r: Result<
    GraphicsLayout,
    SetupError,
>)
    ensures
        r == sampler_layout_spec(data_size, framebuffer_y),
{
    let total = match element_count(data_size) {
        Ok(n) => n,
        Err(e) => return Err(e),
    };
    if framebuffer_y == 0 {
        return Err(SetupError::ZeroFramebufferRows);
    }
    Ok(
        GraphicsLayout {
            viewport: Extent2 { x: data_size.x / framebuffer_y, y: framebuffer_y },
            instance_id: data_size.y,
            data_size: total,
        },
    )
}

/// Checks and computes the launch of a compute shader that reads its data
/// from a storage buffer.
pub fn compute_layout(data_size: Extent2, vectorization_factor: u32) -> (r: Result<
    ComputeLayout,
    SetupError,
>)
    ensures
        r == compute_layout_spec(data_size, vectorization_factor),
{
    let total = match element_count(data_size) {
        Ok(n) => n,
        Err(e) => return Err(e),
    };
    if data_size.x % WORKGROUP_SIZE != 0 {
        return Err(SetupError::WidthNotWorkgroupMultiple);
    }
    let instance_id = match vectorized_rows(data_size, vectorization_factor) {
        Ok(n) => n,
        Err(e) => return Err(e),
    };
    Ok(
        ComputeLayout {
            viewport: Extent2 { x: data_size.x, y: 1 },
            instance_id,
            workgroups: data_size.x / WORKGROUP_SIZE,
            data_size: total,
        },
    )
}

/// How large the output buffer of a compute launch is made.
#[derive(Clone, Copy, Debug, PartialEq, Eq, Structural)]
pub enum OutputModification {
    /// One output per invocation.
    OneForOne,
    /// A single output value.
    SingleValue,
    /// One output per subgroup.
    OnePerSubgroup,
    /// At least the given number of outputs, to measure what the final
    /// accumulation of an oversized output costs.
    FixedSize(u64),
}

impl Default for OutputModification {
    fn default() -> (r: OutputModification)
        ensures
            r == OutputModification::OneForOne,
    {
        OutputModification::OneForOne
    }
}

/// Settings of a compute launch.
#[derive(Clone, Copy, Debug, PartialEq, Eq, Structural)]
pub struct ComputeParameters {
    /// Data rows each invocation reads.
    pub vectorization_factor: u32,
    /// Whether the output buffer is filled with zeros before the dispatch.
    pub clear_buffer: bool,
    pub output: OutputModification,
    /// Whether the result read back is left unchecked.
    pub skip_cpu_final_accumulation: bool,
}

impl Default for ComputeParameters {
    fn default() -> (r: ComputeParameters)
        ensures
            r == (ComputeParameters {
                vectorization_factor: 1,
                clear_buffer: false,
                output: OutputModification::OneForOne,
                skip_cpu_final_accumulation: false,
            }),
    {
        ComputeParameters {
            vectorization_factor: 1,
            clear_buffer: false,
            output: OutputModification::default(),
            skip_cpu_final_accumulation: false,
        }
    }
}

/// `a / b` rounded up.
pub open spec fn div_ceil_spec(a: int, b: int) -> int {
    (a + b - 1) / b
}

/// Outputs of a compute launch over `viewport`, before vectorization.
pub open spec fn compute_outputs_spec(output: OutputModification, viewport: Extent2, subgroup_size: u32) -> int {
    let n = viewport.x * viewport.y;
    match output {
        OutputModification::OneForOne => n,
        OutputModification::SingleValue => 1,
        OutputModification::OnePerSubgroup => div_ceil_spec(n, subgroup_size as int),
        OutputModification::FixedSize(size) => if size >= n {
            size as int
        } else {
            n
        },
    }
}

/// Whether the output size of a compute launch is defined: the invocation
/// count fits in `u32`, a subgroup has at least one invocation where outputs
/// are per subgroup, and the vectorised size fits in `u64`.
pub open spec fn compute_output_len_defined(
    output: OutputModification,
    viewport: Extent2,
    vectorization_factor: u32,
    subgroup_size: u32,
) -> bool {
    &&& viewport.x * viewport.y <= u32::MAX
    &&& (output == OutputModification::OnePerSubgroup ==> subgroup_size > 0)
    &&& compute_outputs_spec(output, viewport, subgroup_size) * vectorization_factor <= u64::MAX
}

/// Elements of the output buffer of a compute launch: the outputs that
/// `output` asks for, times the vectorization factor.
pub fn compute_output_len(
    output: OutputModification,
    viewport: Extent2,
    vectorization_factor: u32,
    subgroup_size: u32,
) -> (r: Option<u64>)
    ensures
        compute_output_len_defined(output, viewport, vectorization_factor, subgroup_size)
            ==> r == Some((compute_outputs_spec(output, viewport, subgroup_size)
            * vectorization_factor) as u64),
        !compute_output_len_defined(output, viewport, vectorization_factor, subgroup_size)
            ==> r is None,
{
    let n = match viewport.x.checked_mul(viewport.y) {
        Some(n) => n as u64,
        None => return None,
    };
    let base: u64 = match output {
        OutputModification::OneForOne => n,
        OutputModification::SingleValue => 1,
        OutputModification::OnePerSubgroup => {
            if subgroup_size == 0 {
                return None;
            }
            (n + subgroup_size as u64 - 1) / subgroup_size as u64
        },
        OutputModification::FixedSize(size) => if size >= n {
            size
        } else {
            n
        },
    };
    base.checked_mul(vectorization_factor as u64)
}

/// Elements of the storage buffer a fragment shader writes: one per pixel
/// and vector lane; `None` when the count does not fit in `u32`.
pub fn buffer_output_len(viewport: Extent2, vectorization_factor: u32) -> (r: Option<u64>)
    ensures
        viewport.x * viewport.y * vectorization_factor <= u32::MAX ==> r == Some(
            (viewport.x * viewport.y * vectorization_factor) as u64,
        ),
        viewport.x * viewport.y * vectorization_factor > u32::MAX ==> r is None,
{
    if vectorization_factor == 0 {
        assert(viewport.x * viewport.y * vectorization_factor == 0);
        return Some(0);
    }
    match viewport.x.checked_mul(viewport.y) {
        None => {
            assert(viewport.x * viewport.y * vectorization_factor > u32::MAX) by (nonlinear_arith)
                requires
                    viewport.x * viewport.y > u32::MAX,
                    vectorization_factor >= 1,
            ;
            None
        },
        Some(xy) => match xy.checked_mul(vectorization_factor) {
            None => None,
            Some(total) => Some(total as u64),
        },
    }
}

} // verus!
