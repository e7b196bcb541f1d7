//! What is kept about kennels, kennelings and guilds, as rows and as values.

pub mod kennel;
pub mod kenneling;
pub mod server;

pub use kennel::Kennel;
pub use kennel::KennelRow;
pub use kennel::MessageType;
pub use kenneling::Kenneling;
pub use kenneling::KennelingRow;
pub use kenneling::NewKenneling;
pub use kenneling::RowError;
pub use server::Server;
pub use server::ServerRow;
