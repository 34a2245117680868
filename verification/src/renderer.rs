//! The presentation surface of a window: how its configuration is negotiated,
//! kept in step with the window, and driven through one frame.

use vstd::prelude::*;
use crate::error::AcquisitionError;
use crate::window::{dimensions_valid, Dimensions};

verus! {

/// `wgpu::TextureFormat`, carried through as an opaque value.
#[verifier::external_type_specification]
#[verifier::external_body]
pub struct ExTextureFormat(wgpu::TextureFormat);

/// `wgpu::PresentMode`, carried through as an opaque value.
#[verifier::external_type_specification]
#[verifier::external_body]
pub struct ExPresentMode(wgpu::PresentMode);

/// `wgpu::CompositeAlphaMode`, carried through as an opaque value.
#[verifier::external_type_specification]
#[verifier::external_body]
pub struct ExCompositeAlphaMode(wgpu::CompositeAlphaMode);

/// Whether `wgpu::TextureFormat::is_srgb` holds of a format.
pub uninterp spec fn srgb_encoded(format: wgpu::TextureFormat) -> bool;

/// Calls `wgpu::TextureFormat::is_srgb`, which compares the format with the
/// same format stripped of its sRGB suffix. The answer depends on the format
/// alone; the contract gives it the name [`srgb_encoded`] and claims nothing
/// more.
#[verifier::external_body]
fn format_is_srgb(format: &wgpu::TextureFormat) -> (srgb: bool)
    ensures
        srgb == srgb_encoded(*format),
{
    format.is_srgb()
}

/// `wgpu::SurfaceError`, carried through as an opaque value.
#[verifier::external_type_specification]
#[verifier::external_body]
pub struct ExSurfaceError(wgpu::SurfaceError);

/// Why a surface did not hand out a texture to render the next frame into.
#[derive(Debug, Clone, Copy, PartialEq, Eq, Structural)]
pub enum SurfaceFault {
    /// No texture became available in time.
    Timeout,
    /// The surface has changed underneath its configuration.
    Outdated,
    /// The surface has been lost and must be configured again.
    Lost,
    /// No memory is left for another frame.
    OutOfMemory,
}

/// The fault that a `wgpu::SurfaceError` stands for: its variant of the same
/// name.
pub uninterp spec fn surface_fault(error: wgpu::SurfaceError) -> SurfaceFault;

/// Tells the four variants of `wgpu::SurfaceError` apart. The contract names
/// the fault after the error and claims nothing more.
#[verifier::external_body]
fn fault_of(error: &wgpu::SurfaceError) -> (fault: SurfaceFault)
    ensures
        fault == surface_fault(*error),
{
    match error {
        wgpu::SurfaceError::Timeout => SurfaceFault::Timeout,
        wgpu::SurfaceError::Outdated => SurfaceFault::Outdated,
        wgpu::SurfaceError::Lost => SurfaceFault::Lost,
        wgpu::SurfaceError::OutOfMemory => SurfaceFault::OutOfMemory,
    }
}

/// For each format of a list, whether it is sRGB-encoded.
pub open spec fn srgb_flags(formats: Seq<wgpu::TextureFormat>) -> Seq<bool> {
    Seq::new(formats.len(), |i: int| srgb_encoded(formats[i]))
}

/// `index` is the position that format selection prefers in a list whose
/// entries are flagged as sRGB or not: the first flagged entry, or the first
/// entry of all where none is flagged.
pub open spec fn preferred_at(flags: Seq<bool>, index: int) -> bool {
    &&& 0 <= index < flags.len()
    &&& forall|j: int| 0 <= j < index ==> !flags[j]
    &&& flags[index] || (index == 0 && forall|j: int| 0 <= j < flags.len() ==> !flags[j])
}

/// At most one position of a list is preferred.
pub proof fn lemma_preferred_unique(flags: Seq<bool>, a: int, b: int)
    requires
        preferred_at(flags, a),
        preferred_at(flags, b),
    ensures
        a == b,
{
}

/// Picks the preferred position of a list of sRGB flags.
///
/// An empty list has none. Otherwise the result is the first position whose
/// flag is set, and position zero where no flag is set.
pub fn preferred_index(flags: &Vec<bool>) -> (choice: Option<usize>)
    ensures
        flags.len() == 0 <==> choice is None,
        choice matches Some(index) ==> preferred_at(flags@, index as int),
{
    if flags.len() == 0 {
        return None;
    }
    let mut i: usize = 0;
    while i < flags.len()
        invariant
            i <= flags.len(),
            forall|j: int| 0 <= j < i ==> !flags[j],
        decreases flags.len() - i,
    {
        if flags[i] {
            return Some(i);
        }
        i += 1;
    }
    Some(0)
}

/// Asks of every format of a list whether it is sRGB-encoded.
pub fn classify_formats(formats: &Vec<wgpu::TextureFormat>) -> (flags: Vec<bool>)
    ensures
        flags@ == srgb_flags(formats@),
{
    let mut flags: Vec<bool> = Vec::new();
    let mut i: usize = 0;
    while i < formats.len()
        invariant
            i <= formats.len(),
            flags.len() == i,
            forall|j: int| 0 <= j < i ==> flags[j] == srgb_encoded(formats[j]),
        decreases formats.len() - i,
    {
        let srgb = format_is_srgb(&formats[i]);
        flags.push(srgb);
        i += 1;
    }
    flags
}

/// Selects the surface format from the formats that a surface supports: the
/// first sRGB-encoded one, else the first one listed. An empty list yields
/// nothing.
pub fn select_format(formats: &Vec<wgpu::TextureFormat>) -> (choice: Option<wgpu::TextureFormat>)
    ensures
        formats.len() == 0 <==> choice is None,
        choice matches Some(format) ==> exists|index: int|
            #[trigger] preferred_at(srgb_flags(formats@), index) && format == formats[index],
{
    let flags = classify_formats(formats);
    match preferred_index(&flags) {
        Some(index) => Some(formats[index]),
        None => None,
    }
}

/// What a surface supports with the adapter that was chosen for it.
#[derive(Debug)]
pub struct SurfaceCapabilities {
    pub formats: Vec<wgpu::TextureFormat>,
    pub present_modes: Vec<wgpu::PresentMode>,
    pub alpha_modes: Vec<wgpu::CompositeAlphaMode>,
}

/// How a surface is set up for presentation.
#[derive(Debug, Clone, Copy, PartialEq, Eq)]
pub struct SurfaceConfiguration {
    pub format: wgpu::TextureFormat,
    pub width: u32,
    pub height: u32,
    pub present_mode: wgpu::PresentMode,
    pub alpha_mode: wgpu::CompositeAlphaMode,
}

impl SurfaceConfiguration {
    /// The size that the configuration gives the surface.
    pub open spec fn dimensions(self) -> Dimensions {
        Dimensions { width: self.width, height: self.height }
    }

    /// The same configuration with another size.
    pub open spec fn with_dimensions(self, dimensions: Dimensions) -> SurfaceConfiguration {
        SurfaceConfiguration { width: dimensions.width, height: dimensions.height, ..self }
    }

    /// The configuration after a resize request: valid dimensions replace the
    /// size, any others leave the configuration as it is.
    pub open spec fn resized(self, dimensions: Dimensions) -> SurfaceConfiguration {
        if dimensions.valid() {
            self.with_dimensions(dimensions)
        } else {
            self
        }
    }
}

/// A resize keeps the format, the presentation mode and the alpha mode of a
/// configuration, whatever the dimensions.
pub proof fn lemma_resize_keeps_negotiated_modes(
    configuration: SurfaceConfiguration,
    dimensions: Dimensions,
)
    ensures
        configuration.resized(dimensions).format == configuration.format,
        configuration.resized(dimensions).present_mode == configuration.present_mode,
        configuration.resized(dimensions).alpha_mode == configuration.alpha_mode,
{
}

/// A resize to dimensions that are not valid leaves a configuration as it
/// is, and a resize to valid dimensions leaves it with just those.
pub proof fn lemma_resize_mirrors_valid_dimensions(
    configuration: SurfaceConfiguration,
    dimensions: Dimensions,
)
    ensures
        !dimensions.valid() ==> configuration.resized(dimensions) == configuration,
        dimensions.valid() ==> configuration.resized(dimensions).dimensions() == dimensions,
{
}

/// Of two valid resizes in a row the last one wins: the configuration is the
/// one that the second resize alone would have given.
pub proof fn lemma_resize_last_write_wins(
    configuration: SurfaceConfiguration,
    first: Dimensions,
    second: Dimensions,
)
    requires
        first.valid(),
        second.valid(),
    ensures
        configuration.resized(first).resized(second) == configuration.resized(second),
        configuration.resized(first).resized(second).dimensions() == second,
{
}

/// A resize to the dimensions that a configuration already has gives the same
/// configuration again.
pub proof fn lemma_resize_idempotent(configuration: SurfaceConfiguration, dimensions: Dimensions)
    ensures
        configuration.resized(dimensions).resized(dimensions) == configuration.resized(
            dimensions,
        ),
{
}

/// The step at which negotiation fails for a window size and a set of
/// capabilities, if it fails.
pub open spec fn negotiation_failure(
    window_size: Dimensions,
    capabilities: SurfaceCapabilities,
) -> Option<AcquisitionError> {
    if capabilities.formats.len() == 0 {
        Some(AcquisitionError::NoSurfaceFormat)
    } else if capabilities.present_modes.len() == 0 {
        Some(AcquisitionError::NoPresentMode)
    } else if capabilities.alpha_modes.len() == 0 {
        Some(AcquisitionError::NoAlphaMode)
    } else if !window_size.valid() {
        Some(AcquisitionError::EmptyWindow)
    } else {
        None
    }
}

/// `configuration` is what negotiation yields for a window size and a set of
/// capabilities: the preferred format, the size of the window, and the first
/// presentation mode and alpha mode listed.
pub open spec fn negotiated(
    window_size: Dimensions,
    capabilities: SurfaceCapabilities,
    configuration: SurfaceConfiguration,
) -> bool {
    &&& exists|index: int|
        #[trigger] preferred_at(srgb_flags(capabilities.formats@), index)
            && configuration.format == capabilities.formats[index]
    &&& configuration.dimensions() == window_size
    &&& configuration.present_mode == capabilities.present_modes[0]
    &&& configuration.alpha_mode == capabilities.alpha_modes[0]
}

/// One step of recording and presenting a frame, in the order in which a
/// frame driver performs them.
#[derive(Debug, Clone, Copy, PartialEq, Eq, Structural)]
pub enum FrameCommand {
    /// Create a view of the acquired texture with default parameters.
    CreateView,
    /// Create the encoder that records the commands of the frame.
    CreateEncoder,
    /// Begin a render pass whose only colour attachment is the view, cleared
    /// to the fixed background colour on load and stored at the end.
    BeginRenderPass,
    /// Bind the render pipeline.
    SetPipeline,
    /// Draw without an index buffer: vertices from `first_vertex` up to, not
    /// including, `end_vertex`, and instances likewise.
    Draw { first_vertex: u32, end_vertex: u32, first_instance: u32, end_instance: u32 },
    /// End the render pass.
    EndRenderPass,
    /// Finish the encoder and submit what it recorded to the queue.
    Submit,
    /// Present the acquired texture.
    Present,
}

/// The commands of one frame: a single cleared pass that draws three
/// vertices once, submitted and then presented.
pub open spec fn frame_commands() -> Seq<FrameCommand> {
    seq![
        FrameCommand::CreateView,
        FrameCommand::CreateEncoder,
        FrameCommand::BeginRenderPass,
        FrameCommand::SetPipeline,
        FrameCommand::Draw { first_vertex: 0, end_vertex: 3, first_instance: 0, end_instance: 1 },
        FrameCommand::EndRenderPass,
        FrameCommand::Submit,
        FrameCommand::Present,
    ]
}

/// How vertices are assembled into primitives.
#[derive(Debug, Clone, Copy, PartialEq, Eq, Structural)]
pub enum PrimitiveTopology {
    PointList,
    LineList,
    LineStrip,
    TriangleList,
    TriangleStrip,
}

/// The winding order of the vertices of a triangle that faces the viewer.
#[derive(Debug, Clone, Copy, PartialEq, Eq, Structural)]
pub enum FrontFace {
    Ccw,
    Cw,
}

/// A side of a triangle.
#[derive(Debug, Clone, Copy, PartialEq, Eq, Structural)]
pub enum Face {
    Front,
    Back,
}

/// How the inside of a polygon is rasterized.
#[derive(Debug, Clone, Copy, PartialEq, Eq, Structural)]
pub enum PolygonMode {
    Fill,
    Line,
    Point,
}

/// How a new colour is combined with the one that is already there.
#[derive(Debug, Clone, Copy, PartialEq, Eq, Structural)]
pub enum BlendMode {
    /// The new colour replaces the old one.
    Replace,
    /// The new colour is laid over the old one by its alpha.
    AlphaBlending,
}

/// The fixed-function state of the render pipeline.
#[derive(Debug, Clone, Copy, PartialEq, Eq)]
pub struct PipelineDescriptor {
    /// The format of the only colour target.
    pub target_format: wgpu::TextureFormat,
    pub blend: BlendMode,
    pub topology: PrimitiveTopology,
    pub front_face: FrontFace,
    /// The side of a triangle that is not drawn, if any.
    pub cull_mode: Option<Face>,
    pub polygon_mode: PolygonMode,
    /// Whether the pipeline has a depth and stencil attachment.
    pub depth_stencil: bool,
    /// The number of samples per pixel.
    pub sample_count: u32,
}

/// The pipeline that draws into a surface of the given format: triangle
/// lists with counter-clockwise front faces, back faces culled, polygons
/// filled, one colour target of the format of the surface whose colours
/// replace what was there, no depth or stencil attachment, one sample.
pub open spec fn pipeline_for(format: wgpu::TextureFormat) -> PipelineDescriptor {
    PipelineDescriptor {
        target_format: format,
        blend: BlendMode::Replace,
        topology: PrimitiveTopology::TriangleList,
        front_face: FrontFace::Ccw,
        cull_mode: Some(Face::Back),
        polygon_mode: PolygonMode::Fill,
        depth_stencil: false,
        sample_count: 1,
    }
}

/// The surface of one window together with its current configuration.
///
/// The configuration always has a width and a height greater than zero: it
/// starts from the size of the window and changes only through [`Renderer::resize`],
/// which ignores dimensions that are not valid.
#[derive(Debug)]
pub struct Renderer {
    config: SurfaceConfiguration,
}

impl View for Renderer {
    type V = SurfaceConfiguration;

    closed spec fn view(&self) -> SurfaceConfiguration {
        self.config
    }
}

impl Renderer {
    /// The configuration has a width and a height greater than zero. This
    /// holds of every renderer.
    #[verifier::type_invariant]
    pub open spec fn presentable(self) -> bool {
        self@.dimensions().valid()
    }

    /// Negotiates the configuration of a surface from the size of its window
    /// and from what the surface supports.
    ///
    /// The format is the first sRGB-encoded one that is supported, else the
    /// first one supported; presentation mode and alpha mode are the first
    /// ones listed. Negotiation fails where a list is empty or the window has
    /// no area, and says which.
    pub fn new(window_size: &Dimensions, capabilities: &SurfaceCapabilities) -> (result: Result<
        Renderer,
        AcquisitionError,
    >)
        ensures
            negotiation_failure(*window_size, *capabilities) matches Some(error) ==> result
                == Err::<Renderer, AcquisitionError>(error),
            negotiation_failure(*window_size, *capabilities) is None ==> result is Ok,
            result matches Ok(renderer) ==> negotiated(*window_size, *capabilities, renderer@),
    {
        let format = match select_format(&capabilities.formats) {
            Some(format) => format,
            None => { return Err(AcquisitionError::NoSurfaceFormat); },
        };
        if capabilities.present_modes.len() == 0 {
            return Err(AcquisitionError::NoPresentMode);
        }
        if capabilities.alpha_modes.len() == 0 {
            return Err(AcquisitionError::NoAlphaMode);
        }
        if !dimensions_valid(window_size) {
            return Err(AcquisitionError::EmptyWindow);
        }
        let config = SurfaceConfiguration {
            format,
            width: window_size.width,
            height: window_size.height,
            present_mode: capabilities.present_modes[0],
            alpha_mode: capabilities.alpha_modes[0],
        };
        Ok(Renderer { config })
    }

    /// The current configuration of the surface.
    pub fn config(&self) -> (configuration: SurfaceConfiguration)
        ensures
            configuration == self@,
            configuration.dimensions().valid(),
    {
        proof {
            use_type_invariant(self);
        }
        self.config
    }

    /// The description of the render pipeline for the surface. It depends on
    /// the format of the surface alone, which never changes.
    pub fn pipeline(&self) -> (descriptor: PipelineDescriptor)
        ensures
            descriptor == pipeline_for(self@.format),
    {
        PipelineDescriptor {
            target_format: self.config.format,
            blend: BlendMode::Replace,
            topology: PrimitiveTopology::TriangleList,
            front_face: FrontFace::Ccw,
            cull_mode: Some(Face::Back),
            polygon_mode: PolygonMode::Fill,
            depth_stencil: false,
            sample_count: 1,
        }
    }

    /// Takes new dimensions for the surface.
    ///
    /// Dimensions with a zero component are ignored: the configuration stays
    /// as it is and nothing is to be applied. Valid dimensions replace the
    /// width and the height, and the new configuration is handed back to be
    /// applied to the surface, also where the size is the one it already had.
    pub fn resize(&mut self, new_dimensions: &Dimensions) -> (applied: Option<SurfaceConfiguration>)
        ensures
            final(self)@ == old(self)@.resized(*new_dimensions),
            final(self)@.dimensions().valid(),
            !new_dimensions.valid() ==> *final(self) == *old(self),
            new_dimensions.valid() ==> applied == Some(final(self)@),
            !new_dimensions.valid() ==> applied is None,
    {
        proof {
            use_type_invariant(&*self);
        }
        if !dimensions_valid(new_dimensions) {
            return None;
        }
        let config = SurfaceConfiguration {
            format: self.config.format,
            width: new_dimensions.width,
            height: new_dimensions.height,
            present_mode: self.config.present_mode,
            alpha_mode: self.config.alpha_mode,
        };
        self.config = config;
        Some(config)
    }

    /// Plans one frame from the outcome of acquiring the next texture of the
    /// surface.
    ///
    /// Where the texture was acquired, the result is the sequence of commands
    /// that records, submits and presents the frame. Where it was not, the
    /// result is the fault that the error stands for, and nothing is to be
    /// recorded or submitted. The renderer itself does not change.
    pub fn render(&mut self, acquired: Result<(), wgpu::SurfaceError>) -> (result: Result<
        Vec<FrameCommand>,
        SurfaceFault,
    >)
        ensures
            *final(self) == *old(self),
            acquired is Ok ==> result is Ok && result->Ok_0@ == frame_commands(),
            acquired matches Err(error) ==> result == Err::<Vec<FrameCommand>, SurfaceFault>(
                surface_fault(error),
            ),
    {
        match acquired {
            Ok(_) => {
                let mut commands: Vec<FrameCommand> = Vec::new();
                commands.push(FrameCommand::CreateView);
                commands.push(FrameCommand::CreateEncoder);
                commands.push(FrameCommand::BeginRenderPass);
                commands.push(FrameCommand::SetPipeline);
                commands.push(
                    FrameCommand::Draw {
                        first_vertex: 0,
                        end_vertex: 3,
                        first_instance: 0,
                        end_instance: 1,
                    },
                );
                commands.push(FrameCommand::EndRenderPass);
                commands.push(FrameCommand::Submit);
                commands.push(FrameCommand::Present);
                Ok(commands)
            },
            Err(error) => Err(fault_of(&error)),
        }
    }
}

} // verus!
