//! Binary codec for the typed object records of a game-asset container.
//!
//! A record's layout is a [`schema::Shape`]: fixed-width little-endian
//! primitives, fixed and length-prefixed arrays, and records whose fields may
//! be optional, counted from a sibling, or a variant selected by a sibling.
//! [`decode`] and [`encode`] are proved to agree with the mathematical
//! decoding and encoding of [`schema`], and [`laws`] proves, for every
//! schema, that the two are inverse to each other and that a truncated buffer
//! is refused. [`layout`] describes each object class's schema, so that the
//! constructors in [`walle`], [`mesh`] and [`fuel`] state exactly what they
//! build. [`refs`] extracts the ordered references of a record,
//! [`adapter`] pairs a header layout with a body layout for each object
//! format, and [`registry`] picks the format of each class tag for a release.
pub mod bytes;
pub mod schema;
pub mod layout;
pub mod decode;
pub mod encode;
pub mod laws;
pub mod refs;
pub mod parts;
pub mod walle;
pub mod mesh;
pub mod fuel;
pub mod adapter;
pub mod registry;
