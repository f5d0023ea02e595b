pub mod fanout;
pub mod manager;
mod channel;
mod clock;
mod entropy;
pub mod msg;
pub mod room;
pub mod user;
pub mod user_con;
mod text;
