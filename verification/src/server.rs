//! The composed endpoint: the instrumentation service, the
//! host-introspection service, and the health reporter, assembled in the
//! state a freshly built server is in. Binding the socket and framing the
//! RPCs is the embedder's transport layer, outside this crate.

use vstd::prelude::*;
use crate::aggregator::InboxMessage;
use crate::health::{
    HealthReporter, ServingStatus, instrument_service_name, spec_instrument_name, spec_tauri_name,
    tauri_service_name,
};
use crate::instrument::InstrumentService;
use crate::queue::BoundedQueue;
use crate::tauri::{AppHost, Metrics, TauriService};

verus! {

/// The server that exposes the instrumenting API: three services behind
/// one endpoint.
pub struct Server {
    pub instrument: InstrumentService,
    pub tauri: TauriService,
    pub health: HealthReporter,
}

impl Server {
    /// Builds the composed server: the instrumentation service around the
    /// aggregator's command inbox, the introspection service around the
    /// host handle and metrics, and a health reporter with both services
    /// initially `Serving` and nothing else registered.
    pub fn new(cmd_tx: BoundedQueue<InboxMessage>, app_handle: AppHost, metrics: Metrics) -> (r:
        Server)
        ensures
            r.instrument.tx == cmd_tx,
            r.tauri.app_handle == app_handle,
            r.tauri.metrics == metrics,
            r.health.status_of(spec_instrument_name()) == Some(ServingStatus::Serving),
            r.health.status_of(spec_tauri_name()) == Some(ServingStatus::Serving),
            forall|other: Seq<char>|
                other != spec_instrument_name() && other != spec_tauri_name() ==> r.health.status_of(
                    other,
                ) is None,
    {
        let mut health = HealthReporter::new();
        health.set_service_status(instrument_service_name(), ServingStatus::Serving);
        health.set_service_status(tauri_service_name(), ServingStatus::Serving);
        proof {
            reveal_strlit("rs.devtools.instrument.Instrument");
            reveal_strlit("rs.devtools.tauri.Tauri");
            assert(spec_instrument_name().len() == 33);
            assert(spec_tauri_name().len() == 23);
        }
        Server {
            instrument: InstrumentService { tx: cmd_tx },
            tauri: TauriService { app_handle, metrics },
            health,
        }
    }
}

} // verus!
