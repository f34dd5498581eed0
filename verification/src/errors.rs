pub mod app;
pub mod xexchange;

pub use app::AppError;
pub use app::TransportError;
pub use xexchange::XExchangeError;
