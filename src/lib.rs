//! Incremental extraction and reconciliation of streamed simulation records.
//!
//! The library holds the logic of a two-phase generation pipeline: a
//! character-driven extractor that recovers complete JSON objects from a
//! partial JSON array, the reconciliation of derived neighborhood metrics, the
//! decisions of the identification and detail phases, and the text of the
//! requests sent to the generation service.

mod text;

pub mod extractor;
pub mod fixed;
pub mod phase_one;
pub mod prompts;
pub mod reconcile;
pub mod registry;
pub mod session;
pub mod sse;
pub mod types;
pub mod wire;

pub use extractor::JsonArrayChunkParser;
pub use fixed::Fixed;
pub use phase_one::{
    check_status, exceeds_soft_cap, phase1_content, plan_detail_phase, strip_code_fence,
    validate_target_names, DetailPlan, Phase1Envelope, SimulationError,
};
pub use prompts::{
    build_minimal_context, build_neighborhoods_context, build_phase1_system_prompt,
    build_phase1_user_prompt, build_phase2_user_prompt, build_system_prompt, default_model,
    is_false, range_guidance,
};
pub use reconcile::complete_interdependent_metrics;
pub use registry::{lookup_neighborhoods_by_names, NeighborhoodDatabase};
pub use session::{progress_chunk, resolve_targets, Phase2Session, Resolution, RunEvent, RunState};
pub use sse::{classify_line, SseLine, SseLineBuffer};
pub use types::{
    Commute, Derived, EducationDistribution, EventNotification, MinimalNeighborhoodContext,
    NeighborhoodMetrics, NeighborhoodProperties, RaceDistribution, SimulationChunk,
    SimulationComplete, SimulationRequest, SimulationUpdate,
};
pub use wire::{
    default_frequency_penalty, default_presence_penalty, default_temperature, default_top_p,
    ChatCompletionRequest, Delta, Message, MessageRole, Phase1Response, PersonaResponse, ResponseFormat, StreamChoice,
    StreamResponse, Usage,
};
