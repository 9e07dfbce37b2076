//! The dual-socket application runtime's configuration: a builder that
//! collects an optional health indicator, bind host, primary port,
//! management port, REST router and gRPC router, and is consumed exactly once
//! into a fully resolved serving plan. The plan fixes the two socket
//! addresses (primary and management) with the compiled-in defaults applied,
//! and carries the routers through to the serving loops that drive both
//! sockets concurrently.

use vstd::prelude::*;

verus! {

/// Relied on for carrying a REST router through the builder: `axum::Router`
/// is held opaquely and handed back to the serving loop unchanged.
#[verifier::external_type_specification]
#[verifier::external_body]
#[verifier::reject_recursive_types(S)]
#[verifier::reject_recursive_types(B)]
pub struct ExAxumRouter<S, B>(axum::Router<S, B>);

/// Relied on for carrying a gRPC router through the builder:
/// `tonic::transport::server::Router` is held opaquely and handed back to
/// the serving loop unchanged.
#[verifier::external_type_specification]
#[verifier::external_body]
#[verifier::reject_recursive_types(L)]
pub struct ExTonicRouter<L>(tonic::transport::server::Router<L>);

/// Relied on only as the default layer parameter of
/// `tonic::transport::server::Router`.
#[verifier::external_type_specification]
#[verifier::external_body]
pub struct ExIdentity(tower::layer::util::Identity);

/// Relied on only as the default body parameter of `axum::Router`.
#[verifier::external_type_specification]
#[verifier::external_body]
pub struct ExBody(hyper::Body);

/// The primary socket's port when none is set.
pub const DEFAULT_PORT: u16 = 8000;

/// The management socket's port when none is set.
pub const DEFAULT_MANAGEMENT_PORT: u16 = 8001;

/// A bind address, held as plain values: the unspecified IPv4 address
/// `0.0.0.0` is the default when none is set.
#[derive(Clone, Copy, PartialEq, Eq, Structural, Debug)]
pub enum HostAddr {
    /// An IPv4 address, one octet per field.
    V4(u8, u8, u8, u8),
    /// An IPv6 address, one 16-bit segment per field.
    V6(u16, u16, u16, u16, u16, u16, u16, u16),
}

impl HostAddr {
    /// The unspecified IPv4 address, `0.0.0.0`.
    pub fn unspecified() -> (h: HostAddr)
        ensures
            h == HostAddr::V4(0u8, 0u8, 0u8, 0u8),
    {
        HostAddr::V4(0, 0, 0, 0)
    }
}

/// The health indicator used when none is supplied: the application is
/// always alive and ready.
#[derive(Clone, Copy, PartialEq, Eq, Structural, Debug)]
pub struct NoHealth;

/// The top-level builder of the dual-socket runtime. Setters overwrite the
/// field they name and leave every other field unchanged; the builder is
/// consumed exactly once into a `ServerPlan`, after which it cannot be
/// reused.
pub struct Application<H> {
    health_indicator: Option<H>,
    host: Option<HostAddr>,
    port: Option<u16>,
    management_port: Option<u16>,
    rest_router: Option<axum::Router>,
    grpc_router: Option<tonic::transport::server::Router>,
}

impl Application<NoHealth> {
    /// A builder with no health indicator; the management socket then serves
    /// a trivial always-alive, always-ready implementation.
    pub fn new_without_health() -> (app: Application<NoHealth>)
        ensures
            app.spec_health_indicator() is None,
            app.spec_host() is None,
            app.spec_port() is None,
            app.spec_management_port() is None,
            app.spec_rest_router() is None,
            app.spec_grpc_router() is None,
    {
        Application::<NoHealth> {
            health_indicator: None,
            host: None,
            port: None,
            management_port: None,
            rest_router: None,
            grpc_router: None,
        }
    }
}

impl<H> Application<H> {
    /// The health indicator, if one was supplied.
    pub closed spec fn spec_health_indicator(&self) -> Option<H> {
        self.health_indicator
    }

    /// The bind host, if one was set.
    pub closed spec fn spec_host(&self) -> Option<HostAddr> {
        self.host
    }

    /// The primary socket's port, if one was set.
    pub closed spec fn spec_port(&self) -> Option<u16> {
        self.port
    }

    /// The management socket's port, if one was set.
    pub closed spec fn spec_management_port(&self) -> Option<u16> {
        self.management_port
    }

    /// The REST router, if one was set.
    pub closed spec fn spec_rest_router(&self) -> Option<axum::Router> {
        self.rest_router
    }

    /// The gRPC router, if one was set.
    pub closed spec fn spec_grpc_router(&self) -> Option<tonic::transport::server::Router> {
        self.grpc_router
    }

    /// A builder with the given health indicator, which the management
    /// socket's health endpoints will consult.
    pub fn new_with_health(health: H) -> (app: Self)
        ensures
            app.spec_health_indicator() == Some(health),
            app.spec_host() is None,
            app.spec_port() is None,
            app.spec_management_port() is None,
            app.spec_rest_router() is None,
            app.spec_grpc_router() is None,
    {
        Self {
            health_indicator: Some(health),
            host: None,
            port: None,
            management_port: None,
            rest_router: None,
            grpc_router: None,
        }
    }

    /// Sets the REST router; a later call overwrites an earlier one.
    pub fn rest_router(self, router: axum::Router) -> (app: Self)
        ensures
            app.spec_rest_router() == Some(router),
            app.spec_health_indicator() == self.spec_health_indicator(),
            app.spec_host() == self.spec_host(),
            app.spec_port() == self.spec_port(),
            app.spec_management_port() == self.spec_management_port(),
            app.spec_grpc_router() == self.spec_grpc_router(),
    {
        Self { rest_router: Some(router), ..self }
    }

    /// Sets the gRPC router; a later call overwrites an earlier one. When a
    /// gRPC router is set, the primary socket multiplexes REST and gRPC by
    /// the `Content-Type` rule; when none is, it serves REST alone.
    pub fn grpc_router(self, router: tonic::transport::server::Router) -> (app: Self)
        ensures
            app.spec_grpc_router() == Some(router),
            app.spec_health_indicator() == self.spec_health_indicator(),
            app.spec_host() == self.spec_host(),
            app.spec_port() == self.spec_port(),
            app.spec_management_port() == self.spec_management_port(),
            app.spec_rest_router() == self.spec_rest_router(),
    {
        Self { grpc_router: Some(router), ..self }
    }

    /// Sets the bind host of both sockets; a later call overwrites an
    /// earlier one.
    pub fn host(self, host: HostAddr) -> (app: Self)
        ensures
            app.spec_host() == Some(host),
            app.spec_health_indicator() == self.spec_health_indicator(),
            app.spec_port() == self.spec_port(),
            app.spec_management_port() == self.spec_management_port(),
            app.spec_rest_router() == self.spec_rest_router(),
            app.spec_grpc_router() == self.spec_grpc_router(),
    {
        Self { host: Some(host), ..self }
    }

    /// Sets the primary socket's port; a later call overwrites an earlier
    /// one.
    pub fn port(self, port: u16) -> (app: Self)
        ensures
            app.spec_port() == Some(port),
            app.spec_health_indicator() == self.spec_health_indicator(),
            app.spec_host() == self.spec_host(),
            app.spec_management_port() == self.spec_management_port(),
            app.spec_rest_router() == self.spec_rest_router(),
            app.spec_grpc_router() == self.spec_grpc_router(),
    {
        Self { port: Some(port), ..self }
    }

    /// Sets the management socket's port; a later call overwrites an earlier
    /// one.
    pub fn management_port(self, management_port: u16) -> (app: Self)
        ensures
            app.spec_management_port() == Some(management_port),
            app.spec_health_indicator() == self.spec_health_indicator(),
            app.spec_host() == self.spec_host(),
            app.spec_port() == self.spec_port(),
            app.spec_rest_router() == self.spec_rest_router(),
            app.spec_grpc_router() == self.spec_grpc_router(),
    {
        Self { management_port: Some(management_port), ..self }
    }

    /// Consumes the builder into the resolved serving plan: every unset
    /// field of the two socket addresses is replaced by its compiled-in
    /// default, and the routers and health indicator pass through unchanged.
    pub fn into_server_plan(self) -> (plan: ServerPlan<H>)
        ensures
            self.spec_host() matches Some(h) ==> plan.host == h,
            self.spec_host() is None ==> plan.host == HostAddr::V4(0u8, 0u8, 0u8, 0u8),
            self.spec_port() matches Some(p) ==> plan.port == p,
            self.spec_port() is None ==> plan.port == DEFAULT_PORT,
            self.spec_management_port() matches Some(p) ==> plan.management_port == p,
            self.spec_management_port() is None ==> plan.management_port
                == DEFAULT_MANAGEMENT_PORT,
            plan.health_indicator == self.spec_health_indicator(),
            plan.rest_router == self.spec_rest_router(),
            plan.grpc_router == self.spec_grpc_router(),
    {
        let host = match self.host {
            Some(h) => h,
            None => HostAddr::unspecified(),
        };
        let port = match self.port {
            Some(p) => p,
            None => DEFAULT_PORT,
        };
        let management_port = match self.management_port {
            Some(p) => p,
            None => DEFAULT_MANAGEMENT_PORT,
        };
        ServerPlan {
            health_indicator: self.health_indicator,
            host,
            port,
            management_port,
            rest_router: self.rest_router,
            grpc_router: self.grpc_router,
        }
    }
}

/// The resolved serving plan: both socket addresses fixed, routers and
/// health indicator ready to be handed to the serving loops. The primary
/// socket serves the REST router — multiplexed with the gRPC router by the
/// `Content-Type` rule when one is present — with graceful shutdown tied to
/// the termination signal; the management socket serves the health and
/// metrics endpoints without graceful shutdown; the two loops are joined
/// fail-fast, so the first error on either side ends the whole run.
pub struct ServerPlan<H> {
    /// The health indicator, `None` for the trivial always-ready one.
    pub health_indicator: Option<H>,
    /// The bind host of both sockets.
    pub host: HostAddr,
    /// The primary socket's port.
    pub port: u16,
    /// The management socket's port.
    pub management_port: u16,
    /// The REST router of the primary socket, if one was configured.
    pub rest_router: Option<axum::Router>,
    /// The gRPC router of the primary socket, if one was configured.
    pub grpc_router: Option<tonic::transport::server::Router>,
}

} // verus!
