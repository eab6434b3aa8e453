pub mod clock;
pub mod codex;
pub mod contracts;
pub mod json;
pub mod text;
pub mod app_update;
pub mod window;
pub mod app_settings;
pub mod mascot_window;
pub mod runtime_state;
pub mod table;
pub mod lines;
pub mod numbers;
pub mod order;
pub mod render;
pub mod tray;
pub mod external_link;
pub mod models;
pub mod laws;
pub mod settings_flow;
pub mod param_bridge;
