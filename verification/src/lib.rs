//! Bridge layer between a host game engine and an embedded script:
//! typed marshalling of dynamic script values into native parameters,
//! a registry of native functions with arity and type checking, and a
//! deferred asset-loading pipeline built on monotone request identifiers.
use vstd::prelude::*;

mod driver;
mod extract;
mod handle;
mod laws;
mod ledger;
mod params;
mod registry;
mod value;

pub use driver::Driver;
pub use driver::FrameDirective;
pub use driver::ScriptOutcome;
pub use driver::spec_directive;
pub use extract::extract;
pub use extract::extract_ok;
pub use extract::spec_extract_err;
pub use extract::spec_extracted;
pub use handle::AssetHandle;
pub use handle::AssetState;
pub use handle::TextureSlot;
pub use handle::use_step;
pub use laws::lemma_bad_argument_stops_call;
pub use laws::lemma_pending_unresolved_is_noop;
pub use laws::lemma_promotion_at_most_once;
pub use laws::lemma_request_ids_consecutive;
pub use laws::lemma_resolved_use_idempotent;
pub use laws::lemma_wrong_arity_never_reaches_handler;
pub use laws::use_steps;
pub use ledger::AssetLedger;
pub use params::ColorData;
pub use params::DrawParams;
pub use registry::EntryView;
pub use registry::NativeEntry;
pub use registry::Registry;
pub use registry::SigView;
pub use registry::Signature;
pub use value::CallError;
pub use value::Extracted;
pub use value::NativeKind;
pub use value::ParamKind;
pub use value::Value;

verus! {

} // verus!
