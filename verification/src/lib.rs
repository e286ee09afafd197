//! A back-to-back user agent for SIP: the decisions of the service, apart from its input and output.
pub mod config;
pub mod grpc;
pub mod health;
pub mod rabbitmq;
pub mod sip;
pub mod startup;
pub mod text;
