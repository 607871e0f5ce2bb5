pub mod clock;
pub mod timeout_manager;
