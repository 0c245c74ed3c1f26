//! A generic wrapper that keeps a value inside a caller-supplied valid region.
//!
//! A [`RestrictedDyn`] owns one value of an arbitrary type together with a
//! validity check (a predicate over the value) and a sanitizer (a corrective
//! transformation). Every mutation performed through the safe API drives the
//! new value through the sanitize loop — the sanitizer is applied repeatedly
//! until the check accepts the value — so call sites can rely on the wrapped
//! value satisfying the check without testing it themselves. The check and
//! the sanitizer are ordinary runtime values and can be replaced after
//! construction.
//!
//! The [`Restricted`] trait names the minimal capabilities such a wrapper
//! must offer (allowed-check, sanitize, privileged unchecked write) and
//! derives the convenience operations from them.

mod restricted_dynamic_type;
mod restricted_trait;

pub use restricted_dynamic_type::RestrictedDyn;
pub use restricted_trait::Restricted;
