//! Microservice bootstrapping library: a dual-socket application runtime that
//! serves REST and gRPC traffic on one primary socket and health/metrics on a
//! separate management socket, a protocol multiplexer that routes each request
//! by its `Content-Type` header, and a reverse-proxy middleware that
//! conditionally forwards requests to an upstream service.

pub mod builder;
pub mod management;
pub mod metrics;
pub mod multiplex;
pub mod proxy;
