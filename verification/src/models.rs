pub mod data;
pub mod decimal;
pub mod error;
pub mod message;
pub mod router;
pub mod routing;
pub mod worker;

pub use data::Data;
pub use data::DataView;
pub use error::Error;
pub use error::ErrorView;
pub use message::MessageDisplay;
pub use message::MessageInfo;
pub use message::MessageState;
pub use message::MessageStateView;
pub use message::RoutingInfo;
pub use message::TimingInfo;
pub use router::Manager;
pub use worker::Worker;
pub use worker::WorkerView;
