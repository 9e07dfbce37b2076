//! Metrics recorder registration and rendering for the management socket's
//! metrics endpoint: a Prometheus recorder is installed once as the global
//! metrics recorder, and its handle renders the currently gathered metrics
//! on demand.

use vstd::prelude::*;

verus! {

/// Relied on as the rendering handle of the installed Prometheus recorder.
#[verifier::external_type_specification]
#[verifier::external_body]
pub struct ExPrometheusHandle(metrics_exporter_prometheus::PrometheusHandle);

/// Relied on as the error of installing the Prometheus recorder.
#[verifier::external_type_specification]
#[verifier::external_body]
pub struct ExBuildError(metrics_exporter_prometheus::BuildError);

/// Why the metrics recorder could not be initialised.
#[derive(Clone, Copy, PartialEq, Eq, Structural, Debug)]
pub enum MetricsError {
    /// The Prometheus recorder could not be built or could not be set as
    /// the global recorder (one was installed already).
    RecorderInstall,
}

/// Relies on `metrics_exporter_prometheus::PrometheusBuilder::install_recorder`:
/// builds a Prometheus recorder, sets it as the process-global metrics
/// recorder, and returns its rendering handle; fails when a global recorder
/// is already set.
#[verifier::external_body]
fn install_prometheus_recorder() -> (r: Result<
    metrics_exporter_prometheus::PrometheusHandle,
    metrics_exporter_prometheus::BuildError,
>) {
    metrics_exporter_prometheus::PrometheusBuilder::new().install_recorder()
}

/// Relies on `metrics_exporter_prometheus::PrometheusHandle::render`:
/// renders whatever the global recorder has gathered so far in the
/// Prometheus exposition format.
#[verifier::external_body]
fn render_handle(handle: &metrics_exporter_prometheus::PrometheusHandle) -> (r: String) {
    handle.render()
}

/// Installs the Prometheus recorder as the process-global metrics recorder
/// and returns the handle that `render_metrics` renders from.
pub fn init_metrics() -> (r: Result<metrics_exporter_prometheus::PrometheusHandle, MetricsError>)
    ensures
        r matches Err(e) ==> e == MetricsError::RecorderInstall,
{
    match install_prometheus_recorder() {
        Ok(handle) => Ok(handle),
        Err(_) => Err(MetricsError::RecorderInstall),
    }
}

/// Renders the currently gathered metrics. The callback, when one is given,
/// runs first — exactly once, before the rendering — so it can record
/// last-moment values that the rendering then includes.
pub fn render_metrics<F: Fn() -> ()>(
    handle: &metrics_exporter_prometheus::PrometheusHandle,
    callback: Option<&F>,
) -> (r: String)
    requires
        callback matches Some(f) ==> call_requires(*f, ()),
    ensures
        callback matches Some(f) ==> call_ensures(*f, (), ()),
{
    if let Some(f) = callback {
        f();
    }
    render_handle(handle)
}

} // verus!
