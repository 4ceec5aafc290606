//! k7s: a terminal viewer of Kubernetes resources.
//!
//! The library holds the logic of the viewer: its panes and their tables,
//! the scrolling of the detail view, the decisions taken on each key, the
//! rows of the resource tables and the text of the "describe" views.
//! Talking to the cluster and drawing on the terminal live in the program
//! around it, which hands the library the objects it fetched as the plain
//! values of `model`.

pub mod app;
pub mod clock;
pub mod containers;
pub mod controllers;
pub mod controls;
pub mod deployments;
pub mod describe;
pub mod model;
pub mod pods;
pub mod resources;
pub mod services;
pub mod storage;
pub mod text;
pub mod ticks;
pub mod views;
