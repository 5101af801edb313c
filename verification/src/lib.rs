//! A sound-control subsystem: a scripted `Sound` controller that attaches a
//! named sound asset, starts and stops playback through an audio backend, and
//! scopes its stop operations to an optional owning display-tree node.
//!
//! The collaborators the controller talks to are modelled at their boundary as
//! plain data: a context resolver and an asset catalog (`assets`), and an
//! audio backend that tracks playback instances (`backend`). The callable
//! method surface a script sees lives in `methods`.

pub mod assets;
pub mod backend;
pub mod controller;
pub mod methods;
pub mod values;
