//! Core of an incremental software ray tracer.
//!
//! The crate renders a small fixed scene (a reflective orb, a point-like
//! light sphere and a checkerboard floor) into an RGBA pixel buffer, a
//! bounded slice of work per tick, while the camera eases toward a target.
//! Everything that can be stated over plain integer values — the
//! pseudo-random jitter sequence, the work queue of pending rays, the
//! per-step work budget, the progressive sample counter and the exact
//! integer compositing rule — is verified here.  The floating-point ray
//! geometry itself is carried through opaquely as raw bit words and is
//! evaluated by the caller, which reports each ray's outcome back to the
//! engine.

pub mod engine;
pub mod random_seq;
