//! Typed, checked views of firmware protocol interfaces.
//!
//! A protocol is identified by a [`guid::Guid`]; an overlay type claims one GUID
//! through [`capability::Protocol`], and [`acquire::acquire`] asks a boot-services
//! collaborator for the interface on a handle and validates the returned address
//! before any field of it can be read; [`acquire::with_protocol`] also closes
//! the session when the caller's work is done. [`loaded_image::LoadedImage`] is
//! one such overlay.
use vstd::prelude::*;

pub mod guid;
pub mod handle;
pub mod memory_type;
pub mod status;
pub mod capability;
pub mod loaded_image;
pub mod acquire;
