//! A library for building and navigating multi-level, text-prompt-driven
//! menus.
//!
//! A caller assembles a set of menus with a builder, each menu holding
//! selectable items, and then drives the resulting engine one user action at
//! a time. The engine keeps a callstack of menu ids; the tail of the
//! callstack names the current menu, and each resolved action either mutates
//! that callstack (`Back`, `BackToStart`, `Quit`, `Navigate`) or reports a
//! leaf selection back to the caller (`Nothing`).
//!
//! The engine performs no input or output itself: displaying a menu and
//! reading a raw line are the caller's concern.

mod action;
mod builder;
mod digits;
mod engine;
mod error;
mod laws;
mod menu;
mod menu_item;

pub use action::MenuAction;
pub use builder::BuilderState;
pub use builder::MenuBuilder;
pub use builder::builder_keys;
pub use digits::digits_val;
pub use digits::is_digit_char;
pub use digits::key_of_input;
pub use digits::parse_key;
pub use digits::push_digits;
pub use digits::spec_digits;
pub use digits::usize_to_string;
pub use digits::valid_key_input;
pub use engine::EngineState;
pub use engine::MenuGenie;
pub use engine::ResolveOutcome;
pub use engine::has_menu;
pub use engine::lemma_has_menu_iff_found;
pub use engine::outcome_kinds;
pub use engine::spec_find_menu;
pub use engine::spec_resolve;
pub use error::MgError;
pub use error::MgErrorKind;
pub use error::spec_kind_description;
pub use laws::dispatched_action;
pub use laws::lemma_back_balances_navigate;
pub use laws::lemma_back_to_start_idempotent;
pub use laws::lemma_failures_preserve_history;
pub use laws::lemma_leaf_stability;
pub use laws::lemma_missing_menu_surfaces_when_current;
pub use laws::lemma_navigate_is_lazy;
pub use laws::lemma_quit_terminality;
pub use menu::Menu;
pub use menu::lemma_has_key_iff_found;
pub use menu::menu_has_key;
pub use menu::spec_find_item;
pub use menu_item::MenuItem;
