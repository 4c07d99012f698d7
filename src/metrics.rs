use vstd::prelude::*;

verus! {

/// The kinds of metric that the service can register.
pub enum MetricType {
    COUNTER,
}

/// Registers metrics with Prometheus; it holds no state of its own.
pub struct PrometheusMetricsService {}

impl PrometheusMetricsService {
    pub fn new() -> (r: PrometheusMetricsService)
        ensures
            r == (PrometheusMetricsService {  }),
    {
        PrometheusMetricsService {  }
    }
}

} // verus!
