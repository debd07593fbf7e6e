//! Pao: a GPU-accelerated 2D renderer built on wgpu.
//!
//! This crate holds the renderer's decisions: which multisample count a
//! canvas renders with, how big its surface is, which colour attachment a
//! frame draws into, and in which order queued render features run.
mod canvas;
mod commands;
pub mod context;
pub mod features;
mod gpu;
mod multisample;

pub use wgpu;

pub use commands::{
    frame_schedule, lemma_frame_schedule, spec_frame_schedule, Commands, FeatureCall, ScheduledCall,
};
pub use gpu::allows_multisample_x4;
pub use multisample::{lemma_sample_count, sample_count_for, spec_sample_count, Multisample};
pub use canvas::{
    attachment_for, clamp_extent, first_setup_step, lemma_attachment_matches_target, lemma_msaa_target_matches_surface,
    lemma_msaa_target_same_size_as_plan, lemma_surface_plan_injective,
    lemma_surface_plan_keeps_size,
    lemma_setup_runs_every_step_once, lemma_surface_extent, lemma_surface_extent_idempotent,
    msaa_target_for, next_setup_step, setup_error_message, setup_error_text, spec_first_step,
    spec_step_after, spec_view_format, surface_extent, surface_plan, surface_plan_for,
    surface_view_format, CanvasState, ColorAttachment, Frame, MsaaTarget, Options, SetupOrder,
    DepthStencil, SetupStep, StoreAction, SurfaceAlpha, SurfacePlan, TargetDimension, TargetFormat, TargetUsage,
    TargetView,
};
