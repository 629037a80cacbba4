pub mod bus;
pub mod layout;
pub mod lock;
pub mod scan;
pub mod session;
