use fregate::builder::{
    Application, HostAddr, NoHealth, DEFAULT_MANAGEMENT_PORT, DEFAULT_PORT,
};

#[test]
fn defaults_when_nothing_is_set() {
    let plan = Application::new_without_health().into_server_plan();
    assert_eq!(plan.port, DEFAULT_PORT);
    assert_eq!(plan.port, 8000);
    assert_eq!(plan.management_port, DEFAULT_MANAGEMENT_PORT);
    assert_eq!(plan.management_port, 8001);
    assert_eq!(plan.host, HostAddr::V4(0, 0, 0, 0));
    assert!(plan.health_indicator.is_none());
    assert!(plan.rest_router.is_none());
    assert!(plan.grpc_router.is_none());
}

#[test]
fn later_port_overwrites_earlier() {
    let plan = Application::new_without_health()
        .port(8000u16)
        .port(9090u16)
        .into_server_plan();
    assert_eq!(plan.port, 9090);
}

#[test]
fn later_management_port_overwrites_earlier() {
    let plan = Application::new_without_health()
        .management_port(8001u16)
        .management_port(7070u16)
        .into_server_plan();
    assert_eq!(plan.management_port, 7070);
}

#[test]
fn later_host_overwrites_earlier() {
    let plan = Application::new_without_health()
        .host(HostAddr::V4(10, 0, 0, 1))
        .host(HostAddr::V4(127, 0, 0, 1))
        .into_server_plan();
    assert_eq!(plan.host, HostAddr::V4(127, 0, 0, 1));
}

#[test]
fn ipv6_host_is_carried() {
    let plan = Application::new_without_health()
        .host(HostAddr::V6(0, 0, 0, 0, 0, 0, 0, 1))
        .into_server_plan();
    assert_eq!(plan.host, HostAddr::V6(0, 0, 0, 0, 0, 0, 0, 1));
}

#[test]
fn health_indicator_is_carried() {
    let plan = Application::new_with_health(42u32).into_server_plan();
    assert_eq!(plan.health_indicator, Some(42u32));
}

#[test]
fn no_health_builder_has_none() {
    let app: Application<NoHealth> = Application::new_without_health();
    let plan = app.into_server_plan();
    assert!(plan.health_indicator.is_none());
}

#[test]
fn rest_router_is_carried() {
    let plan = Application::new_without_health()
        .rest_router(axum::Router::new())
        .port(3000u16)
        .into_server_plan();
    assert!(plan.rest_router.is_some());
    assert_eq!(plan.port, 3000);
}

#[test]
fn setters_between_other_setters_keep_last_value() {
    let plan = Application::new_with_health(1u8)
        .port(1u16)
        .management_port(2u16)
        .port(3u16)
        .host(HostAddr::V4(127, 0, 0, 1))
        .management_port(4u16)
        .into_server_plan();
    assert_eq!(plan.port, 3);
    assert_eq!(plan.management_port, 4);
    assert_eq!(plan.host, HostAddr::V4(127, 0, 0, 1));
    assert_eq!(plan.health_indicator, Some(1u8));
}
