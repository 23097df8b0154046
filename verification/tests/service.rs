use aw_bridge::entry::{Java_net_activitywatch_android_RustInterface_startServer, StartError};
use aw_bridge::service::{BindError, Launcher, ServiceConfig, SERVICE_PORT};
use aw_bridge::text::DecodeError;

#[test]
fn fresh_launcher_runs_nothing() {
    assert!(!Launcher::new().is_running());
}

#[test]
fn start_gives_the_fixed_configuration() {
    let mut launcher = Launcher::new();
    let config = launcher.start("/data/assets".to_string(), 7u32).unwrap();
    assert_eq!(
        config,
        ServiceConfig {
            address: "127.0.0.1".to_string(),
            port: 5600,
            asset_path: "/data/assets".to_string(),
            production: true,
            datastore: 7u32,
        }
    );
    assert_eq!(SERVICE_PORT, 5600);
    assert!(launcher.is_running());
}

#[test]
fn second_start_is_a_bind_error_and_the_first_keeps_running() {
    let mut launcher = Launcher::new();
    assert!(launcher.start("/a".to_string(), 1u32).is_ok());
    assert_eq!(launcher.start("/a".to_string(), 1u32), Err(BindError));
    assert!(launcher.is_running());
    assert_eq!(launcher.start("/b".to_string(), 2u32), Err(BindError));
    assert!(launcher.is_running());
}

#[test]
fn service_can_be_started_again_after_it_ended() {
    let mut launcher = Launcher::new();
    assert!(launcher.start("/a".to_string(), 1u32).is_ok());
    launcher.exited();
    assert!(!launcher.is_running());
    assert!(launcher.start("/a".to_string(), 1u32).is_ok());
}

#[test]
fn bind_failure_is_surfaced_and_nothing_runs() {
    let mut launcher = Launcher::new();
    assert!(launcher.start("/a".to_string(), 1u32).is_ok());
    assert_eq!(launcher.bind_failed(), BindError);
    assert!(!launcher.is_running());
}

#[test]
fn start_entry_point_reads_the_asset_path() {
    let mut launcher = Launcher::new();
    let config =
        Java_net_activitywatch_android_RustInterface_startServer(&mut launcher, b"/sdcard/web", 3u32)
            .unwrap();
    assert_eq!(config.asset_path, "/sdcard/web");
    assert_eq!(config.address, "127.0.0.1");
    assert_eq!(config.port, 5600);
    assert!(config.production);
    assert_eq!(config.datastore, 3);
    assert!(launcher.is_running());
}

#[test]
fn start_entry_point_refuses_an_unreadable_path_and_starts_nothing() {
    let mut launcher = Launcher::new();
    assert_eq!(
        Java_net_activitywatch_android_RustInterface_startServer(&mut launcher, &[0x2f, 0xff], 1u32),
        Err(StartError::Decode(DecodeError))
    );
    assert!(!launcher.is_running());
}

#[test]
fn start_entry_point_twice_is_a_bind_error() {
    let mut launcher = Launcher::new();
    assert!(
        Java_net_activitywatch_android_RustInterface_startServer(&mut launcher, b"/web", 1u32)
            .is_ok()
    );
    assert_eq!(
        Java_net_activitywatch_android_RustInterface_startServer(&mut launcher, b"/web", 2u32),
        Err(StartError::Bind(BindError))
    );
    assert!(launcher.is_running());
}

#[test]
fn unreadable_path_is_reported_before_the_running_service() {
    let mut launcher = Launcher::new();
    assert!(launcher.start("/web".to_string(), 1u32).is_ok());
    assert_eq!(
        Java_net_activitywatch_android_RustInterface_startServer(&mut launcher, &[0x80], 2u32),
        Err(StartError::Decode(DecodeError))
    );
    assert!(launcher.is_running());
}
