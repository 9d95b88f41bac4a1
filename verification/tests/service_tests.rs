use devtools_server::ErrorKind;
use devtools_server::aggregator::{Aggregator, Command, InboxMessage};
use devtools_server::health::{
    HealthReporter, ServingStatus, instrument_service_name, tauri_service_name,
};
use devtools_server::instrument::{InstrumentRequest, InstrumentService};
use devtools_server::queue::BoundedQueue;
use devtools_server::server::Server;
use devtools_server::tauri::{AppHost, Asset, Config, Metrics, TauriService};

fn mock_host() -> AppHost {
    AppHost {
        config: Config { product_name: "X".to_string(), version: Some("1.2.3".to_string()) },
        assets: vec![(
            "/index.html".to_string(),
            Asset { bytes: vec![60, 104, 49, 62], mime: "text/html".to_string() },
        )],
    }
}

#[test]
fn tauri_get_config() {
    let tauri = TauriService { app_handle: mock_host(), metrics: Metrics::default() };

    let cfg = tauri.get_config();

    assert_eq!(cfg, tauri.app_handle.config);
}

#[test]
fn tauri_get_metrics() {
    let mut srv = TauriService { app_handle: mock_host(), metrics: Metrics::default() };

    let metrics = srv.get_metrics();
    assert_eq!(metrics, srv.metrics);

    srv.metrics.initialized_at = Some(1_700_000_000);

    let metrics = srv.get_metrics();
    assert_eq!(metrics, srv.metrics);
}

#[test]
fn metrics_update_is_visible_and_changes_the_snapshot() {
    let mut srv = TauriService { app_handle: mock_host(), metrics: Metrics::default() };

    let m0 = srv.get_metrics();
    srv.metrics.initialized_at = Some(77);
    let m1 = srv.get_metrics();

    assert_eq!(m1.initialized_at, Some(77));
    assert_ne!(m0, m1);
}

#[test]
fn get_asset_finds_a_bundled_asset() {
    let tauri = TauriService { app_handle: mock_host(), metrics: Metrics::default() };

    let asset = tauri.get_asset("/index.html").unwrap();

    assert_eq!(asset.mime, "text/html");
    assert_eq!(asset.bytes, vec![60, 104, 49, 62]);
}

#[test]
fn get_asset_missing_path_is_invalid_argument() {
    let tauri = TauriService { app_handle: mock_host(), metrics: Metrics::default() };

    let err = tauri.get_asset("/does-not-exist").unwrap_err();

    assert_eq!(err, ErrorKind::InvalidArgument);
}

#[test]
fn subscription() {
    let mut health_reporter = HealthReporter::new();
    let cmd_tx = BoundedQueue::new(1);
    let mut srv = InstrumentService { tx: cmd_tx };

    srv.watch_updates(
        &mut health_reporter,
        InstrumentRequest { log_filter: None, span_filter: None },
    )
    .unwrap();

    let cmd = srv.tx.recv().unwrap();

    assert!(matches!(cmd, InboxMessage::Control(Command::Instrument(_))));
}

#[test]
fn watch_on_a_dead_aggregator_is_internal_and_flips_health() {
    let mut health = HealthReporter::new();
    let mut cmd_tx: BoundedQueue<InboxMessage> = BoundedQueue::new(1);
    cmd_tx.close();
    let mut srv = InstrumentService { tx: cmd_tx };

    let err = srv
        .watch_updates(&mut health, InstrumentRequest { log_filter: None, span_filter: None })
        .unwrap_err();

    assert_eq!(err, ErrorKind::Internal);
    assert_eq!(
        health.check(instrument_service_name()),
        Ok(ServingStatus::NotServing)
    );
}

#[test]
fn server_new_reports_both_services_serving() {
    let server = Server::new(BoundedQueue::new(8), mock_host(), Metrics::default());

    assert_eq!(
        server.health.check(instrument_service_name()),
        Ok(ServingStatus::Serving)
    );
    assert_eq!(server.health.check(tauri_service_name()), Ok(ServingStatus::Serving));
    assert_eq!(server.health.check("no.such.Service"), Err(ErrorKind::NotFound));

    let cfg = server.tauri.get_config();
    assert_eq!(cfg.product_name, "X");
}

#[test]
fn health_set_and_check_round_trip() {
    let mut health = HealthReporter::new();
    health.set_service_status("svc.A", ServingStatus::Serving);
    health.set_service_status("svc.B", ServingStatus::Serving);
    health.set_service_status("svc.A", ServingStatus::NotServing);

    assert_eq!(health.check("svc.A"), Ok(ServingStatus::NotServing));
    assert_eq!(health.check("svc.B"), Ok(ServingStatus::Serving));
    assert_eq!(health.check("svc.C"), Err(ErrorKind::NotFound));
}

#[test]
fn aggregator_exit_flips_instrument_health_before_new_watches_fail() {
    let mut health = HealthReporter::new();
    let mut agg = Aggregator::new();
    agg.start(&mut health);
    assert_eq!(
        health.check(instrument_service_name()),
        Ok(ServingStatus::Serving)
    );

    agg.drain(&mut health);

    assert_eq!(
        health.check(instrument_service_name()),
        Ok(ServingStatus::NotServing)
    );

    let mut inbox: BoundedQueue<InboxMessage> = BoundedQueue::new(1);
    inbox.close();
    let mut srv = InstrumentService { tx: inbox };
    let err = srv
        .watch_updates(&mut health, InstrumentRequest { log_filter: None, span_filter: None })
        .unwrap_err();
    assert_eq!(err, ErrorKind::Internal);
    assert_eq!(
        health.check(instrument_service_name()),
        Ok(ServingStatus::NotServing)
    );
}
