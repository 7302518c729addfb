use renai_desktop::bootstrap::{startup_steps, StartupStep, STARTUP_GRACE_MILLIS};

#[test]
fn debug_startup_installs_log_sink_first() {
    assert_eq!(
        startup_steps(true),
        vec![
            StartupStep::InstallLogSink,
            StartupStep::StartBackend,
            StartupStep::Wait { millis: 2000 },
            StartupStep::CreateTray,
            StartupStep::InterceptWindowClose,
        ]
    );
}

#[test]
fn release_startup_skips_log_sink() {
    assert_eq!(
        startup_steps(false),
        vec![
            StartupStep::StartBackend,
            StartupStep::Wait { millis: STARTUP_GRACE_MILLIS },
            StartupStep::CreateTray,
            StartupStep::InterceptWindowClose,
        ]
    );
    assert_eq!(STARTUP_GRACE_MILLIS, 2000);
}
