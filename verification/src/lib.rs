//! Command dispatch and dual-state synchronization engine for an editable
//! 3D scene.
//!
//! An external agent issues named commands with loosely-typed payloads.
//! Each command is decoded into a typed argument record, referenced assets
//! are resolved against the scene document's catalog, and the equivalent
//! effect is applied to two coexisting representations of the scene:
//!
//! * [`doc::SceneDocument`] — the durable, serializable description that is
//!   shipped to a remote store after every successful mutation;
//! * [`live::LiveScene`] — the render-ready mirror that drives the view.
//!
//! The dispatcher ([`dispatch`]) owns the single-writer discipline: a scene
//! handle must be held exclusively while a command mutates either
//! representation.  External work (GPU object construction, file uploads,
//! network persistence) is returned to the embedding application as data, so
//! everything that decides or computes here is verified.
//!
//! Scalar quantities are carried as fixed-point integers in thousandths
//! (milli-units); see [`geom`].

pub mod geom;
pub mod vecs;
pub mod value;
pub mod doc;
pub mod live;
pub mod args;
pub mod decode;
pub mod ids;
pub mod dispatch;
pub mod codec;
pub mod laws;
