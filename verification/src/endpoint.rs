pub mod service_root;
pub mod session_service;
pub mod systems;
pub mod versions;
