//! The HTTP/3 client.

pub mod body;
pub mod connection;
pub mod frame;
pub mod handling;
pub mod headers;
pub mod reading;
pub mod routing;
pub mod run;
pub mod transfer;
pub mod writing;
