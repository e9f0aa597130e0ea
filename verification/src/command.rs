//! What the coordinator asks of the host and of the GPU surface.

use vstd::prelude::*;
use crate::viewport::ViewportSize;

verus! {

/// How many texture samplers the shader program reads.
#[derive(Clone, Copy, Debug, PartialEq, Eq, Structural)]
pub enum TextureCount {
    Zero,
    One,
    Two,
}

impl TextureCount {
    pub open spec fn count(self) -> nat {
        match self {
            TextureCount::Zero => 0,
            TextureCount::One => 1,
            TextureCount::Two => 2,
        }
    }

    /// The count for `n` textures, where the shader program can read that many.
    pub fn from_count(n: u8) -> (count: Option<TextureCount>)
        ensures
            n <= 2 <==> count is Some,
            count is Some ==> count->Some_0.count() == n,
    {
        if n == 0 {
            Some(TextureCount::Zero)
        } else if n == 1 {
            Some(TextureCount::One)
        } else if n == 2 {
            Some(TextureCount::Two)
        } else {
            None
        }
    }

    pub fn as_u8(&self) -> (n: u8)
        ensures
            n == self.count(),
    {
        match self {
            TextureCount::Zero => 0,
            TextureCount::One => 1,
            TextureCount::Two => 2,
        }
    }
}

/// The variant of the demo that a coordinator drives. It is fixed when the
/// coordinator is made.
#[derive(Clone, Copy, Debug, PartialEq, Eq, Structural)]
pub struct RenderOptions {
    pub textures: TextureCount,
    pub cull_backfaces: bool,
}

/// A named parameter that the shader program receives with a draw call.
#[derive(Clone, Copy, Debug, PartialEq, Eq, Structural)]
pub enum Uniform {
    Model,
    View,
    Perspective,
    Light,
    DiffuseTexture,
    NormalTexture,
}

impl Uniform {
    /// The name under which the shader sources declare the parameter.
    pub open spec fn spec_name(self) -> Seq<char> {
        match self {
            Uniform::Model => "model"@,
            Uniform::View => "view"@,
            Uniform::Perspective => "perspective"@,
            Uniform::Light => "u_light"@,
            Uniform::DiffuseTexture => "diffuse_tex"@,
            Uniform::NormalTexture => "normal_tex"@,
        }
    }

    pub fn name(&self) -> (name: &'static str)
        ensures
            name@ == self.spec_name(),
    {
        match self {
            Uniform::Model => "model",
            Uniform::View => "view",
            Uniform::Perspective => "perspective",
            Uniform::Light => "u_light",
            Uniform::DiffuseTexture => "diffuse_tex",
            Uniform::NormalTexture => "normal_tex",
        }
    }
}

/// The three matrices and the light direction, which every variant binds.
pub open spec fn transform_uniforms() -> Seq<Uniform> {
    seq![Uniform::Model, Uniform::View, Uniform::Perspective, Uniform::Light]
}

/// The samplers that go with a texture count: the diffuse map first.
pub open spec fn sampler_uniforms(textures: TextureCount) -> Seq<Uniform> {
    match textures {
        TextureCount::Zero => seq![],
        TextureCount::One => seq![Uniform::DiffuseTexture],
        TextureCount::Two => seq![Uniform::DiffuseTexture, Uniform::NormalTexture],
    }
}

/// The one draw call of a frame: everything the coordinator decides about it.
/// The host fills in the values, which are floating-point matrices and GPU
/// handles.
#[derive(Clone, Copy, Debug, PartialEq, Eq, Structural)]
pub struct DrawCall {
    /// The number of the frame, counting from 1. The animation phase of the
    /// frame is `tick` times the fixed step of [`PHASE_STEP_NUMERATOR`] over
    /// [`PHASE_STEP_DENOMINATOR`] radians.
    pub tick: u64,
    /// The size that the host reported last. The projection is computed for
    /// [`DrawCall::projection_size`].
    pub viewport: ViewportSize,
    /// Fragments pass only if they are nearer than what the depth buffer holds.
    pub depth_test: bool,
    /// Fragments that pass write their depth.
    pub depth_write: bool,
    pub cull_backfaces: bool,
    pub textures: TextureCount,
}

/// The animation phase advances by this many radians per frame, over
/// [`PHASE_STEP_DENOMINATOR`]. The step does not depend on the wall clock.
pub const PHASE_STEP_NUMERATOR: u64 = 1;

pub const PHASE_STEP_DENOMINATOR: u64 = 50;

impl DrawCall {
    /// The size for which the projection is computed: the one the host
    /// reported where an aspect ratio can be formed from it, else the one that
    /// the frame's surface has.
    pub open spec fn projection_viewport(self, surface: ViewportSize) -> ViewportSize {
        if self.viewport.has_area() {
            self.viewport
        } else {
            surface
        }
    }

    pub fn projection_size(&self, surface: ViewportSize) -> (size: ViewportSize)
        ensures
            size == self.projection_viewport(surface),
    {
        if self.viewport.is_drawable() {
            self.viewport
        } else {
            surface
        }
    }

    /// The uniform set of the call, in binding order.
    pub open spec fn uniform_set(self) -> Seq<Uniform> {
        transform_uniforms() + sampler_uniforms(self.textures)
    }

    pub fn uniforms(&self) -> (set: Vec<Uniform>)
        ensures
            set@ == self.uniform_set(),
    {
        let mut set: Vec<Uniform> = Vec::new();
        set.push(Uniform::Model);
        set.push(Uniform::View);
        set.push(Uniform::Perspective);
        set.push(Uniform::Light);
        match self.textures {
            TextureCount::Zero => {},
            TextureCount::One => {
                set.push(Uniform::DiffuseTexture);
            },
            TextureCount::Two => {
                set.push(Uniform::DiffuseTexture);
                set.push(Uniform::NormalTexture);
            },
        }
        assert(set@ =~= self.uniform_set());
        set
    }
}

/// What the surface of a frame is cleared to, in tenths of the full range of
/// each value.
#[derive(Clone, Copy, Debug, PartialEq, Eq, Structural)]
pub struct ClearValues {
    pub red_tenths: u32,
    pub green_tenths: u32,
    pub blue_tenths: u32,
    pub alpha_tenths: u32,
    pub depth_tenths: u32,
}

impl ClearValues {
    /// The values that every frame is cleared to: opaque blue, and a depth
    /// of 1, which is the far end of the depth range.
    pub open spec fn fixed() -> ClearValues {
        ClearValues {
            red_tenths: 0,
            green_tenths: 0,
            blue_tenths: 10,
            alpha_tenths: 10,
            depth_tenths: 10,
        }
    }

    pub fn every_frame() -> (values: ClearValues)
        ensures
            values == ClearValues::fixed(),
    {
        ClearValues {
            red_tenths: 0,
            green_tenths: 0,
            blue_tenths: 10,
            alpha_tenths: 10,
            depth_tenths: 10,
        }
    }
}

/// One operation that the host carries out for the coordinator.
#[derive(Clone, Copy, Debug, PartialEq, Eq, Structural)]
pub enum Command {
    /// Stop dispatching events.
    Exit,
    /// Tell the GPU surface its new size.
    ResizeSurface(ViewportSize),
    /// Ask the host to deliver a redraw request.
    RequestRedraw,
    /// Obtain a fresh draw surface for one frame.
    BeginFrame,
    /// Clear colour and depth of the frame's surface to the given values.
    Clear(ClearValues),
    /// Issue the frame's draw call.
    Draw(DrawCall),
    /// Present the frame and give up its surface.
    Present,
}

} // verus!
