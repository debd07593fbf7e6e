//! The canvas: its surface size, its multisample setup, the colour
//! attachment each frame draws into, and its queue of render commands.
use vstd::prelude::*;

use crate::commands::Commands;
use crate::gpu::{
    allows_multisample_x4, default_backends, default_memory_hints, default_power_preference,
    default_present_mode, format_allows_multisample_x4,
};
use crate::multisample::{sample_count_for, spec_sample_count, Multisample};

verus! {

/// Settings for creating a canvas.
pub struct Options {
    /// Requested surface width in pixels.
    pub width: u32,
    /// Requested surface height in pixels.
    pub height: u32,
    /// Graphics backends wgpu may use.
    pub backends: wgpu::Backends,
    /// Which kind of adapter to prefer.
    pub power_preference: wgpu::PowerPreference,
    /// Memory allocation hints for the device.
    pub hints: wgpu::MemoryHints,
    /// Presentation mode of the surface.
    pub mode: wgpu::PresentMode,
    /// Requested anti-aliasing level.
    pub multisample: Multisample,
}

impl Default for Options {
    /// A zero-sized surface (configured as one pixel), one sample per
    /// pixel, and wgpu's default backends, power preference, memory hints
    /// and presentation mode.
    fn default() -> (options: Self)
        ensures
            options.width == 0,
            options.height == 0,
            options.multisample == Multisample::X1,
    {
        Options {
            width: 0,
            height: 0,
            backends: default_backends(),
            power_preference: default_power_preference(),
            hints: default_memory_hints(),
            mode: default_present_mode(),
            multisample: Multisample::X1,
        }
    }
}

/// A texture format the canvas names.
#[derive(PartialEq, Eq, Structural, Clone, Copy, Debug)]
pub enum TargetFormat {
    /// wgpu's `TextureFormat::Rgba8UnormSrgb`.
    Rgba8UnormSrgb,
}

/// The format in which a canvas views its surface: its multisample support
/// decides the sample count, and the multisampled texture has it.
pub open spec fn spec_view_format() -> TargetFormat {
    TargetFormat::Rgba8UnormSrgb
}

/// The format in which a canvas views its surface.
pub fn surface_view_format() -> (format: TargetFormat)
    ensures
        format == spec_view_format(),
{
    TargetFormat::Rgba8UnormSrgb
}

/// The dimension of a texture the canvas allocates.
#[derive(PartialEq, Eq, Structural, Clone, Copy, Debug)]
pub enum TargetDimension {
    /// wgpu's `TextureDimension::D2`.
    D2,
}

/// How a texture the canvas configures or allocates may be used.
#[derive(PartialEq, Eq, Structural, Clone, Copy, Debug)]
pub struct TargetUsage {
    /// wgpu's `TextureUsages::RENDER_ATTACHMENT`.
    pub render_attachment: bool,
    /// wgpu's `TextureUsages::TRANSIENT`: the contents are not kept
    /// between passes.
    pub transient: bool,
}

/// How the alpha channel of a surface is composited.
#[derive(PartialEq, Eq, Structural, Clone, Copy, Debug)]
pub enum SurfaceAlpha {
    /// wgpu's `CompositeAlphaMode::Auto`: wgpu picks the mode.
    Auto,
}

/// How a surface is configured: its size, its usage, its alpha mode, the
/// formats it may be viewed in, and how many frames may be queued for
/// presentation. Its texture format is the first one the surface supports,
/// which wgpu reports; its presentation mode comes from the settings of the
/// canvas or context.
#[derive(PartialEq, Eq, Structural, Clone, Copy, Debug)]
pub struct SurfacePlan {
    /// Width in pixels.
    pub width: u32,
    /// Height in pixels.
    pub height: u32,
    /// Usage of the surface textures.
    pub usage: TargetUsage,
    /// How the alpha channel is composited.
    pub alpha_mode: SurfaceAlpha,
    /// The one extra format views of the surface may have, if any.
    pub view_format: Option<TargetFormat>,
    /// Frames that may be queued ahead of presentation.
    pub desired_maximum_frame_latency: u32,
}

/// The configuration of a surface of the given size, viewable in
/// `view_format`: a render attachment, alpha composited as wgpu picks, two
/// frames of latency.
pub open spec fn surface_plan_for(
    width: u32,
    height: u32,
    view_format: Option<TargetFormat>,
) -> SurfacePlan {
    SurfacePlan {
        width,
        height,
        usage: TargetUsage { render_attachment: true, transient: false },
        alpha_mode: SurfaceAlpha::Auto,
        view_format,
        desired_maximum_frame_latency: 2,
    }
}

/// Describes the configuration of a surface of the given size, viewable in
/// `view_format`.
pub fn surface_plan(width: u32, height: u32, view_format: Option<TargetFormat>) -> (plan:
    SurfacePlan)
    ensures
        plan == surface_plan_for(width, height, view_format),
        plan.width == width,
        plan.height == height,
        plan.view_format == view_format,
{
    SurfacePlan {
        width,
        height,
        usage: TargetUsage { render_attachment: true, transient: false },
        alpha_mode: SurfaceAlpha::Auto,
        view_format,
        desired_maximum_frame_latency: 2,
    }
}

/// The size a surface is configured with for a requested size: a surface
/// is never empty, so a requested zero becomes one.
pub open spec fn surface_extent(requested: u32) -> u32 {
    if requested == 0 {
        1
    } else {
        requested
    }
}

/// Clamps a requested surface dimension to at least one pixel.
pub fn clamp_extent(requested: u32) -> (extent: u32)
    ensures
        extent == surface_extent(requested),
{
    if requested == 0 {
        1
    } else {
        requested
    }
}

/// A surface is never configured empty, and a requested dimension that is
/// not zero is kept as it is.
pub proof fn lemma_surface_extent(requested: u32)
    ensures
        surface_extent(requested) >= 1,
        requested >= 1 ==> surface_extent(requested) == requested,
        requested == 0 ==> surface_extent(requested) == 1,
{
}

/// Resizing to the size a surface already has changes nothing: clamping a
/// clamped dimension gives it back.
pub proof fn lemma_surface_extent_idempotent(requested: u32)
    ensures
        surface_extent(surface_extent(requested)) == surface_extent(requested),
{
}

/// A surface is configured with exactly the size it is asked for, and
/// viewable in exactly the format asked for.
pub proof fn lemma_surface_plan_keeps_size(
    width: u32,
    height: u32,
    view_format: Option<TargetFormat>,
)
    ensures
        surface_plan_for(width, height, view_format).width == width,
        surface_plan_for(width, height, view_format).height == height,
        surface_plan_for(width, height, view_format).view_format == view_format,
        surface_plan_for(width, height, view_format).desired_maximum_frame_latency == 2,
        surface_plan_for(width, height, view_format).usage.render_attachment,
        !surface_plan_for(width, height, view_format).usage.transient,
{
}

/// Surfaces asked for with different sizes get different configurations:
/// no two requested sizes share a plan.
pub proof fn lemma_surface_plan_injective(
    w1: u32,
    h1: u32,
    w2: u32,
    h2: u32,
    view_format: Option<TargetFormat>,
)
    requires
        surface_plan_for(w1, h1, view_format) == surface_plan_for(w2, h2, view_format),
    ensures
        w1 == w2,
        h1 == h2,
{
}

/// A view that a render pass can draw into or resolve into.
#[derive(PartialEq, Eq, Structural, Clone, Copy, Debug)]
pub enum TargetView {
    /// The view of the surface texture acquired for the frame.
    Surface,
    /// The canvas's own multisampled texture.
    Multisample,
}

/// What a render pass does with its colour attachment when it ends.
#[derive(PartialEq, Eq, Structural, Clone, Copy, Debug)]
pub enum StoreAction {
    /// Keep the rendered contents.
    Store,
    /// Discard them (they have been resolved elsewhere).
    Discard,
}

/// The colour attachment of a frame's render pass. The pass always starts
/// by clearing the view to the background colour.
#[derive(PartialEq, Eq, Structural, Clone, Copy, Debug)]
pub struct ColorAttachment {
    /// The view the pass draws into.
    pub view: TargetView,
    /// The view the samples are resolved into at the end of the pass, if any.
    pub resolve_target: Option<TargetView>,
    /// What happens to the drawn view when the pass ends.
    pub store: StoreAction,
}

/// The colour attachment for a canvas with the given sample count: with
/// four samples the pass draws into the multisampled texture, resolves it
/// into the surface and discards it; otherwise it draws straight into the
/// surface and stores the result.
pub open spec fn attachment_for(sample_count: u32) -> ColorAttachment {
    if sample_count == 4 {
        ColorAttachment {
            view: TargetView::Multisample,
            resolve_target: Some(TargetView::Surface),
            store: StoreAction::Discard,
        }
    } else {
        ColorAttachment { view: TargetView::Surface, resolve_target: None, store: StoreAction::Store }
    }
}

/// The description of the multisampled texture a canvas renders into: a
/// two-dimensional, transient render target of the surface's size and view
/// format, one layer, one mip level, four samples.
#[derive(PartialEq, Eq, Structural, Clone, Copy, Debug)]
pub struct MsaaTarget {
    /// Width in pixels, equal to the surface's.
    pub width: u32,
    /// Height in pixels, equal to the surface's.
    pub height: u32,
    /// Number of array layers.
    pub depth_or_array_layers: u32,
    /// Number of mip levels.
    pub mip_level_count: u32,
    /// Samples per pixel.
    pub sample_count: u32,
    /// Texture dimension.
    pub dimension: TargetDimension,
    /// Texture format: the surface's view format.
    pub format: TargetFormat,
    /// Usage: a render attachment whose contents are transient.
    pub usage: TargetUsage,
}

/// The multisampled texture a canvas of the given size and sample count
/// needs: one exactly when it renders with four samples.
pub open spec fn msaa_target_for(width: u32, height: u32, sample_count: u32) -> Option<MsaaTarget> {
    if sample_count == 4 {
        Some(
            MsaaTarget {
                width,
                height,
                depth_or_array_layers: 1,
                mip_level_count: 1,
                sample_count: 4,
                dimension: TargetDimension::D2,
                format: spec_view_format(),
                usage: TargetUsage { render_attachment: true, transient: true },
            },
        )
    } else {
        None
    }
}

/// A canvas with four samples has a multisampled texture of exactly the
/// surface's size, with four samples, in the surface's view format; a
/// canvas with any other sample count has none.
pub proof fn lemma_msaa_target_matches_surface(width: u32, height: u32, sample_count: u32)
    ensures
        sample_count == 4 ==> (msaa_target_for(width, height, sample_count) matches Some(t) && {
            &&& t.width == width
            &&& t.height == height
            &&& t.sample_count == 4
            &&& t.depth_or_array_layers == 1
            &&& t.mip_level_count == 1
            &&& t.dimension == TargetDimension::D2
            &&& t.format == spec_view_format()
            &&& t.usage.render_attachment
            &&& t.usage.transient
        }),
        sample_count != 4 ==> msaa_target_for(width, height, sample_count) is None,
        spec_view_format() == TargetFormat::Rgba8UnormSrgb,
{
}

/// A canvas's multisampled texture and its surface always have the same
/// size, whatever the surface's size: the texture it resolves into never
/// differs from the one it renders.
pub proof fn lemma_msaa_target_same_size_as_plan(width: u32, height: u32)
    ensures
        msaa_target_for(width, height, 4) is Some,
        msaa_target_for(width, height, 4)->0.width == surface_plan_for(
            width,
            height,
            Some(spec_view_format()),
        ).width,
        msaa_target_for(width, height, 4)->0.height == surface_plan_for(
            width,
            height,
            Some(spec_view_format()),
        ).height,
{
}

/// A canvas has a multisampled texture exactly when its passes draw into
/// that texture, and then they resolve it into the surface and discard it;
/// without one, passes draw into the surface, resolve nowhere and store.
pub proof fn lemma_attachment_matches_target(width: u32, height: u32, sample_count: u32)
    ensures
        msaa_target_for(width, height, sample_count) is Some <==> attachment_for(
            sample_count,
        ).view == TargetView::Multisample,
        attachment_for(sample_count).view == TargetView::Multisample <==> attachment_for(
            sample_count,
        ).resolve_target == Some(TargetView::Surface),
        attachment_for(sample_count).resolve_target is Some <==> attachment_for(
            sample_count,
        ).store == StoreAction::Discard,
        attachment_for(sample_count).resolve_target is None ==> attachment_for(sample_count).view
            == TargetView::Surface,
{
}

/// The depth-stencil attachment of a frame's render pass.
#[derive(PartialEq, Eq, Structural, Clone, Copy, Debug)]
pub enum DepthStencil {
    /// The pass has no depth-stencil attachment.
    Absent,
}

/// A frame to render: the attachments of its one render pass, and the
/// commands to run in it, in the order they were queued.
pub struct Frame<F> {
    /// The colour attachment of the frame's render pass.
    pub attachment: ColorAttachment,
    /// The depth-stencil attachment of the frame's render pass.
    pub depth_stencil: DepthStencil,
    /// The queued commands, first queued first.
    pub commands: Vec<Commands<F>>,
}

/// A step of setting up a canvas that can fail.
#[derive(PartialEq, Eq, Structural, Clone, Copy, Debug)]
pub enum SetupStep {
    /// Creating the surface for the window.
    CreateSurface,
    /// Requesting an adapter compatible with the surface.
    RequestAdapter,
    /// Requesting a device from the adapter.
    RequestDevice,
}

/// The error message a canvas's creation fails with when a step fails.
pub open spec fn setup_error_text(step: SetupStep) -> Seq<char> {
    match step {
        SetupStep::CreateSurface => "Can't create a surface"@,
        SetupStep::RequestAdapter => "Can't get adapter"@,
        SetupStep::RequestDevice => "Can't get device"@,
    }
}

/// The error message a canvas's creation fails with when `step` fails.
pub fn setup_error_message(step: SetupStep) -> (message: String)
    ensures
        message@ == setup_error_text(step),
{
    match step {
        SetupStep::CreateSurface => String::from_str("Can't create a surface"),
        SetupStep::RequestAdapter => String::from_str("Can't get adapter"),
        SetupStep::RequestDevice => String::from_str("Can't get device"),
    }
}

/// Which component is being set up; each runs its steps in its own order.
#[derive(PartialEq, Eq, Structural, Clone, Copy, Debug)]
pub enum SetupOrder {
    /// A canvas: surface, then adapter, then device.
    Canvas,
    /// A bare render context: adapter, then device, then surface.
    Context,
}

/// The first step of setting up a component.
pub open spec fn spec_first_step(order: SetupOrder) -> SetupStep {
    match order {
        SetupOrder::Canvas => SetupStep::CreateSurface,
        SetupOrder::Context => SetupStep::RequestAdapter,
    }
}

/// The step that follows `step` when setting up a component, or none after
/// the last one.
pub open spec fn spec_step_after(order: SetupOrder, step: SetupStep) -> Option<SetupStep> {
    match order {
        SetupOrder::Canvas => match step {
            SetupStep::CreateSurface => Some(SetupStep::RequestAdapter),
            SetupStep::RequestAdapter => Some(SetupStep::RequestDevice),
            SetupStep::RequestDevice => None,
        },
        SetupOrder::Context => match step {
            SetupStep::RequestAdapter => Some(SetupStep::RequestDevice),
            SetupStep::RequestDevice => Some(SetupStep::CreateSurface),
            SetupStep::CreateSurface => None,
        },
    }
}

/// The first step of setting up a component.
pub fn first_setup_step(order: SetupOrder) -> (step: SetupStep)
    ensures
        step == spec_first_step(order),
{
    match order {
        SetupOrder::Canvas => SetupStep::CreateSurface,
        SetupOrder::Context => SetupStep::RequestAdapter,
    }
}

/// Decides how setup goes on after `step` succeeded or failed: a failed
/// step ends setup with its error message; a step that succeeded is
/// followed by the next one, or ends setup successfully when it was the
/// last.
pub fn next_setup_step(order: SetupOrder, step: SetupStep, succeeded: bool) -> (next: Result<
    Option<SetupStep>,
    String,
>)
    ensures
        succeeded ==> next == Ok::<Option<SetupStep>, String>(spec_step_after(order, step)),
        !succeeded ==> (next matches Err(message) && message@ == setup_error_text(step)),
{
    if !succeeded {
        return Err(setup_error_message(step));
    }
    match order {
        SetupOrder::Canvas => match step {
            SetupStep::CreateSurface => Ok(Some(SetupStep::RequestAdapter)),
            SetupStep::RequestAdapter => Ok(Some(SetupStep::RequestDevice)),
            SetupStep::RequestDevice => Ok(None),
        },
        SetupOrder::Context => match step {
            SetupStep::RequestAdapter => Ok(Some(SetupStep::RequestDevice)),
            SetupStep::RequestDevice => Ok(Some(SetupStep::CreateSurface)),
            SetupStep::CreateSurface => Ok(None),
        },
    }
}

/// Each component's setup runs its three steps once each, one after the
/// other, starting with its first step and ending after the third.
pub proof fn lemma_setup_runs_every_step_once(order: SetupOrder)
    ensures
        ({
            let first = spec_first_step(order);
            let second = spec_step_after(order, first);
            &&& second is Some
            &&& spec_step_after(order, second->0) is Some
            &&& spec_step_after(order, spec_step_after(order, second->0)->0) is None
            &&& first != second->0
            &&& second->0 != spec_step_after(order, second->0)->0
            &&& first != spec_step_after(order, second->0)->0
        }),
{
}

/// The state of a canvas that its rendering decisions depend on: the
/// configured surface size, the sample count, and the queued commands.
pub struct CanvasState<F> {
    width: u32,
    height: u32,
    multisample_count: u32,
    present_mode: wgpu::PresentMode,
    commands: Vec<Commands<F>>,
}

impl<F> CanvasState<F> {
    /// A canvas's surface is at least one pixel wide and high, and it
    /// renders with one or four samples per pixel.
    #[verifier::type_invariant]
    spec fn well_formed(self) -> bool {
        &&& self.width >= 1
        &&& self.height >= 1
        &&& (self.multisample_count == 1 || self.multisample_count == 4)
    }

    /// Configured surface width.
    pub closed spec fn surface_width(self) -> u32 {
        self.width
    }

    /// Configured surface height.
    pub closed spec fn surface_height(self) -> u32 {
        self.height
    }

    /// Samples per pixel.
    pub closed spec fn sample_count(self) -> u32 {
        self.multisample_count
    }

    /// The presentation mode the surface is configured with.
    pub closed spec fn spec_present_mode(self) -> wgpu::PresentMode {
        self.present_mode
    }

    /// The queued commands, first queued first.
    pub closed spec fn queue(self) -> Seq<Commands<F>> {
        self.commands@
    }

    /// Creates the state of a canvas for `options`, on an adapter whose
    /// texture format feature flags for the surface view format
    /// ([`surface_view_format`]) have the bits `format_feature_bits`.
    /// The surface gets the requested size with each zero dimension raised
    /// to one; the canvas renders with four samples when four were
    /// requested and the format allows them, with one otherwise; no command
    /// is queued.
    pub fn new(options: &Options, format_feature_bits: u32) -> (canvas: Self)
        ensures
            canvas.surface_width() == surface_extent(options.width),
            canvas.surface_height() == surface_extent(options.height),
            canvas.sample_count() == spec_sample_count(
                options.multisample,
                allows_multisample_x4(format_feature_bits),
            ),
            canvas.spec_present_mode() == options.mode,
            canvas.queue() == Seq::<Commands<F>>::empty(),
    {
        let x4_supported = format_allows_multisample_x4(format_feature_bits);
        let count = sample_count_for(options.multisample, x4_supported);
        CanvasState {
            width: clamp_extent(options.width),
            height: clamp_extent(options.height),
            multisample_count: count,
            present_mode: options.mode,
            commands: Vec::new(),
        }
    }

    /// Samples per pixel this canvas renders with: one or four.
    pub fn get_multisample_count(&self) -> (count: &u32)
        ensures
            *count == self.sample_count(),
            *count == 1 || *count == 4,
    {
        proof {
            use_type_invariant(self);
        }
        &self.multisample_count
    }

    /// Configured surface width: at least one.
    pub fn width(&self) -> (width: u32)
        ensures
            width == self.surface_width(),
            width >= 1,
    {
        proof {
            use_type_invariant(self);
        }
        self.width
    }

    /// Configured surface height: at least one.
    pub fn height(&self) -> (height: u32)
        ensures
            height == self.surface_height(),
            height >= 1,
    {
        proof {
            use_type_invariant(self);
        }
        self.height
    }

    /// The presentation mode the surface is configured with: the one the
    /// options asked for.
    pub fn present_mode(&self) -> (mode: wgpu::PresentMode)
        ensures
            mode == self.spec_present_mode(),
    {
        self.present_mode
    }

    /// Number of queued commands.
    pub fn queued_len(&self) -> (len: usize)
        ensures
            len == self.queue().len(),
    {
        self.commands.len()
    }

    /// Resizes the surface to the requested size, each zero dimension
    /// raised to one. The sample count and the queued commands stay.
    pub fn resize(&mut self, width: u32, height: u32)
        ensures
            final(self).surface_width() == surface_extent(width),
            final(self).surface_height() == surface_extent(height),
            final(self).sample_count() == old(self).sample_count(),
            final(self).spec_present_mode() == old(self).spec_present_mode(),
            final(self).queue() == old(self).queue(),
    {
        proof {
            use_type_invariant(&*self);
        }
        self.width = clamp_extent(width);
        self.height = clamp_extent(height);
    }

    /// The multisampled texture this canvas renders into: there is one
    /// exactly when it renders with four samples, and it has the surface's
    /// size.
    pub fn msaa_target(&self) -> (target: Option<MsaaTarget>)
        ensures
            target == msaa_target_for(
                self.surface_width(),
                self.surface_height(),
                self.sample_count(),
            ),
            target is Some <==> self.sample_count() == 4,
            target matches Some(t) ==> {
                &&& t.width == self.surface_width()
                &&& t.height == self.surface_height()
                &&& t.sample_count == self.sample_count()
                &&& t.format == spec_view_format()
            },
    {
        if self.multisample_count == 4 {
            Some(
                MsaaTarget {
                    width: self.width,
                    height: self.height,
                    depth_or_array_layers: 1,
                    mip_level_count: 1,
                    sample_count: 4,
                    dimension: TargetDimension::D2,
                    format: surface_view_format(),
                    usage: TargetUsage { render_attachment: true, transient: true },
                },
            )
        } else {
            None
        }
    }

    /// How this canvas's surface is configured: its size, a render
    /// attachment viewable in the surface view format, two frames of latency.
    pub fn surface_config(&self) -> (plan: SurfacePlan)
        ensures
            plan == surface_plan_for(
                self.surface_width(),
                self.surface_height(),
                Some(spec_view_format()),
            ),
            plan.width == self.surface_width(),
            plan.height == self.surface_height(),
            plan.view_format == Some(spec_view_format()),
            plan.width >= 1,
            plan.height >= 1,
    {
        proof {
            use_type_invariant(self);
        }
        surface_plan(self.width, self.height, Some(surface_view_format()))
    }

    /// The colour attachment of this canvas's render passes.
    pub fn color_attachment(&self) -> (attachment: ColorAttachment)
        ensures
            attachment == attachment_for(self.sample_count()),
    {
        if self.multisample_count == 4 {
            ColorAttachment {
                view: TargetView::Multisample,
                resolve_target: Some(TargetView::Surface),
                store: StoreAction::Discard,
            }
        } else {
            ColorAttachment {
                view: TargetView::Surface,
                resolve_target: None,
                store: StoreAction::Store,
            }
        }
    }

    /// Queues a render feature to run in the next frame, after those
    /// already queued.
    pub fn draw_feature(&mut self, feature: F)
        ensures
            final(self).queue() == old(self).queue().push(Commands::FeatureCommand(feature)),
            final(self).surface_width() == old(self).surface_width(),
            final(self).surface_height() == old(self).surface_height(),
            final(self).sample_count() == old(self).sample_count(),
            final(self).spec_present_mode() == old(self).spec_present_mode(),
    {
        proof {
            use_type_invariant(&*self);
        }
        let mut commands: Vec<Commands<F>> = Vec::new();
        std::mem::swap(&mut commands, &mut self.commands);
        commands.push(Commands::FeatureCommand(feature));
        self.commands = commands;
    }

    /// Starts a frame: hands out the colour attachment of its pass and
    /// every queued command, first queued first, and leaves the queue
    /// empty. Size and sample count stay.
    pub fn render(&mut self) -> (frame: Frame<F>)
        ensures
            frame.attachment == attachment_for(old(self).sample_count()),
            frame.depth_stencil == DepthStencil::Absent,
            frame.commands@ == old(self).queue(),
            final(self).queue() == Seq::<Commands<F>>::empty(),
            final(self).surface_width() == old(self).surface_width(),
            final(self).surface_height() == old(self).surface_height(),
            final(self).sample_count() == old(self).sample_count(),
            final(self).spec_present_mode() == old(self).spec_present_mode(),
    {
        proof {
            use_type_invariant(&*self);
        }
        let attachment = self.color_attachment();
        let mut commands: Vec<Commands<F>> = Vec::new();
        std::mem::swap(&mut commands, &mut self.commands);
        Frame { attachment, depth_stencil: DepthStencil::Absent, commands }
    }
}

} // verus!
