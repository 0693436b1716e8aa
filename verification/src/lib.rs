//! A verified recording-session core: the settings model, the encoder
//! catalog with its vendor filtering, the single-instance session manager
//! driving a modeled capture backend (lifecycle gate, settings diffing,
//! bounded stop), and the control-protocol vocabulary with the worker-side
//! dispatch state machine and the controller's teardown decisions.

pub mod adapter;
pub mod audio;
pub mod encoders;
pub mod framerate;
pub mod ipc;
pub mod obs_data;
pub mod rate_control;
pub mod recorder;
pub mod resolution;
pub mod settings;
pub mod text;
pub mod window;
