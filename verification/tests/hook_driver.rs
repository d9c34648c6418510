use focus_service::service::hook_driver::DriverAction;
use focus_service::service::hook_driver::DriverEvent;
use focus_service::service::hook_driver::DriverPhase;
use focus_service::service::hook_driver::HookDriver;
use focus_service::service::hook_driver::StartupFatal;

fn started() -> HookDriver {
    let (mut driver, _) = HookDriver::new();
    driver.step(DriverEvent::ClassRegistered { atom: 0xC001, last_error: 0 });
    driver.step(DriverEvent::WindowCreated { window: 0x900, last_error: 0 });
    driver.step(DriverEvent::HookInstalled(0x77));
    driver
}

#[test]
fn driver_starts_by_registering_the_window_class() {
    let (driver, first) = HookDriver::new();
    assert_eq!(first, DriverAction::RegisterWindowClass);
    assert_eq!(driver.phase(), DriverPhase::RegisteringClass);
}

#[test]
fn startup_takes_three_steps_and_then_pumps_messages() {
    let (mut driver, _) = HookDriver::new();
    assert_eq!(
        driver.step(DriverEvent::ClassRegistered { atom: 0xC001, last_error: 0 }),
        DriverAction::CreateMessagingWindow
    );
    assert_eq!(driver.phase(), DriverPhase::CreatingWindow);
    assert_eq!(
        driver.step(DriverEvent::WindowCreated { window: 0x900, last_error: 0 }),
        DriverAction::InstallHook
    );
    assert_eq!(driver.phase(), DriverPhase::InstallingHook { window: 0x900 });
    assert_eq!(driver.step(DriverEvent::HookInstalled(0x77)), DriverAction::RetrieveMessage(0x900));
    assert_eq!(driver.phase(), DriverPhase::Retrieving { hook: 0x77, window: 0x900 });
}

#[test]
fn messages_are_dispatched_one_by_one() {
    let mut driver = started();
    for retrieved in [1, 2, i32::MAX, -2, i32::MIN] {
        assert_eq!(driver.step(DriverEvent::MessageRetrieved(retrieved)), DriverAction::DispatchMessage);
        assert_eq!(driver.phase(), DriverPhase::Dispatching { hook: 0x77, window: 0x900 });
        assert_eq!(driver.step(DriverEvent::MessageDispatched), DriverAction::RetrieveMessage(0x900));
        assert_eq!(driver.phase(), DriverPhase::Retrieving { hook: 0x77, window: 0x900 });
    }
}

#[test]
fn quit_publishes_the_sentinel_then_releases_the_hook() {
    for retrieved in [0, -1] {
        let mut driver = started();
        assert_eq!(driver.step(DriverEvent::MessageRetrieved(retrieved)), DriverAction::PublishSentinel);
        assert_eq!(driver.phase(), DriverPhase::PublishingSentinel { hook: 0x77 });
        assert_eq!(driver.step(DriverEvent::SentinelPublished), DriverAction::ReleaseHook(0x77));
        assert_eq!(driver.phase(), DriverPhase::ReleasingHook);
        assert_eq!(driver.step(DriverEvent::HookReleased), DriverAction::Finish);
        assert_eq!(driver.phase(), DriverPhase::Stopped);
    }
}

#[test]
fn stopped_driver_does_not_start_again() {
    let mut driver = started();
    driver.step(DriverEvent::MessageRetrieved(0));
    driver.step(DriverEvent::SentinelPublished);
    driver.step(DriverEvent::HookReleased);
    for event in [
        DriverEvent::HookInstalled(5),
        DriverEvent::ClassRegistered { atom: 1, last_error: 0 },
        DriverEvent::WindowCreated { window: 1, last_error: 0 },
        DriverEvent::MessageRetrieved(1),
        DriverEvent::MessageDispatched,
        DriverEvent::SentinelPublished,
        DriverEvent::HookReleased,
    ] {
        assert_eq!(driver.step(event), DriverAction::Finish);
        assert_eq!(driver.phase(), DriverPhase::Stopped);
    }
}

#[test]
fn refused_hook_is_fatal() {
    let (mut driver, _) = HookDriver::new();
    driver.step(DriverEvent::ClassRegistered { atom: 9, last_error: 0 });
    driver.step(DriverEvent::WindowCreated { window: 0x900, last_error: 0 });
    assert_eq!(driver.step(DriverEvent::HookInstalled(0)), DriverAction::Abort(StartupFatal::Hook));
    assert_eq!(driver.phase(), DriverPhase::Failed(StartupFatal::Hook));
    assert_eq!(
        driver.step(DriverEvent::HookInstalled(0x77)),
        DriverAction::Abort(StartupFatal::Hook)
    );
    assert_eq!(driver.phase(), DriverPhase::Failed(StartupFatal::Hook));
}

#[test]
fn refused_window_class_is_fatal() {
    let (mut driver, _) = HookDriver::new();
    let fatal = StartupFatal::WindowClass { code: 1410 };
    assert_eq!(
        driver.step(DriverEvent::ClassRegistered { atom: 0, last_error: 1410 }),
        DriverAction::Abort(fatal)
    );
    assert_eq!(driver.phase(), DriverPhase::Failed(fatal));
}

#[test]
fn refused_messaging_window_is_fatal() {
    let (mut driver, _) = HookDriver::new();
    driver.step(DriverEvent::ClassRegistered { atom: 9, last_error: 0 });
    let fatal = StartupFatal::MessagingWindow { code: 1407 };
    assert_eq!(
        driver.step(DriverEvent::WindowCreated { window: 0, last_error: 1407 }),
        DriverAction::Abort(fatal)
    );
    assert_eq!(driver.phase(), DriverPhase::Failed(fatal));
    assert_eq!(driver.step(DriverEvent::MessageRetrieved(1)), DriverAction::Abort(fatal));
}

#[test]
fn report_out_of_turn_is_ignored() {
    let (mut driver, _) = HookDriver::new();
    assert_eq!(driver.step(DriverEvent::MessageRetrieved(0)), DriverAction::Wait);
    assert_eq!(driver.step(DriverEvent::HookInstalled(0x77)), DriverAction::Wait);
    assert_eq!(driver.step(DriverEvent::HookReleased), DriverAction::Wait);
    assert_eq!(driver.phase(), DriverPhase::RegisteringClass);
    let mut driver = started();
    assert_eq!(driver.step(DriverEvent::HookInstalled(0)), DriverAction::Wait);
    assert_eq!(driver.step(DriverEvent::SentinelPublished), DriverAction::Wait);
    assert_eq!(driver.phase(), DriverPhase::Retrieving { hook: 0x77, window: 0x900 });
}

#[test]
fn startup_failures_have_their_messages() {
    assert_eq!(StartupFatal::Hook.message(), "Could not setup WinEventHook");
    assert_eq!(
        StartupFatal::WindowClass { code: 5 }.message(),
        "Error on creating window class for messaging window"
    );
    assert_eq!(
        StartupFatal::MessagingWindow { code: 5 }.message(),
        "Error on creating messaging window"
    );
}
