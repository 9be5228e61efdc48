//! Core machinery of an interactive chat bot: paginated "active" messages.
//!
//! A posted chat message can be backed by live server-side state: a cursor
//! over a collection, an owner who may operate the controls, and an expiry
//! deadline. This crate holds that state machine — the pagination cursor,
//! the registry of live messages, the event router, the single-use handoff
//! slot for slowly computed page content, and the idle-timeout sweeper —
//! with the behaviour of each operation stated in its contract.
//!
//! The per-command pieces whose behaviour is plain logic live beside the
//! core: argument parsing, the help menu's command tree, the configuration
//! embed, and the concrete paginated listings.

mod active;
pub mod arguments;
pub mod commands;
pub mod embeds;
mod garbage;
mod handoff;
pub mod impls;
mod numbers;
mod osu;
mod pages;
mod registry;
mod render;
mod router;
mod sweeper;

pub use active::BuildPage;
pub use active::ComponentAction;
pub use active::ComponentEvent;
pub use active::ComponentOutcome;
pub use active::ControlSurface;
pub use active::IActiveMessage;
pub use active::MessageIdentity;
pub use active::ModalEvent;
pub use active::NavButton;
pub use active::Owner;
pub use active::handle_pagination_component;
pub use active::handle_pagination_modal;
pub use active::lemma_render_idempotent;
pub use active::pagination_controls;
pub use active::spec_pagination_controls;
pub use garbage::GarbageCollectMap;
pub use handoff::ArtifactSlot;
pub use handoff::ArtifactState;
pub use handoff::ConsumeOutcome;
pub use handoff::consume;
pub use handoff::lemma_artifact_display_safety;
pub use numbers::parse_usize;
pub use numbers::push_u64;
pub use numbers::spec_dec_digits;
pub use numbers::spec_parse_usize;
pub use numbers::str_equal;
pub use osu::GameMode;
pub use osu::RankStatus;
pub use osu::mapset_cover;
pub use pages::PageChange;
pub use pages::PageError;
pub use pages::Pages;
pub use pages::lemma_last_then_first_and_next_noop;
pub use registry::ActiveMessageEntry;
pub use registry::ActiveMessages;
pub use registry::begin_pagination;
pub use registry::lemma_one_live_entry;
pub use registry::spec_count_id;
pub use render::RenderError;
pub use render::png_of;
pub use render::produce_png;
pub use render::render_png;
pub use router::RouteOutcome;
pub use router::route_component;
pub use router::route_modal;
pub use router::route_render_failure;
pub use sweeper::Sweeper;
pub use sweeper::spec_swept;
pub use sweeper::sweep_at_current_time;
pub use sweeper::unix_now;
