//! Orchestration core of a desktop shell: backend-process supervision,
//! window registry for the main and companion windows, companion placement,
//! health-status reduction and the in-memory shell state.
pub mod commands;
pub mod health;
pub mod placement;
pub mod shell;
pub mod state;
pub mod supervisor;
pub mod window;
