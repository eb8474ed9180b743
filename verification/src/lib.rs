//! Gesture-driven OS control: the verified core of the gesture pipeline.
pub mod text;
pub mod gesture_id;
pub mod command;
pub mod gesture;
pub mod gesture_backend;
pub mod context;
pub mod context_resolver;
pub mod command_mapper;
pub mod gesture_bindings;
pub mod numeric;
pub mod temporal_filter;
pub mod safety_guard;
pub mod session;
pub mod process_frame;
pub mod face_exclusion;
pub mod image;
pub mod skin;
pub mod windows_commands;
pub mod ports;
pub mod adapters;
pub mod camera;
pub mod frames;
pub mod backend_labels;
pub mod settings;
pub mod pipeline;
pub mod view_state;
