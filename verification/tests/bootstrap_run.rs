//! Driving the dummy-context bootstrap machine through its runs.

use superbible7::Bootstrap;
use superbible7::BootstrapAction;
use superbible7::BootstrapEvent;
use superbible7::Win32Error;
use superbible7::WglExtFns;
use superbible7::HDC;
use superbible7::HGLRC;
use superbible7::HWND;

fn resolved_fns() -> WglExtFns {
    WglExtFns::from_resolved(Some(0x10), Some(0x20), Some(0x30), Some(0x40))
}

/// Feeds teardown acknowledgements until the machine is done and returns
/// the release actions it asked for, in order.
fn run_teardown(m: &mut Bootstrap) -> Vec<BootstrapAction> {
    let mut actions = Vec::new();
    while !m.is_done() {
        let a = m.current_action();
        assert!(!matches!(a, BootstrapAction::Finish));
        actions.push(a);
        m.step(BootstrapEvent::TornDown);
    }
    actions
}

#[test]
fn successful_run_acquires_and_releases_in_reverse_order() {
    let mut m = Bootstrap::new();
    assert_eq!(BootstrapAction::QueryCurrentContext, m.current_action());
    m.step(BootstrapEvent::CurrentContext(HGLRC(0)));

    assert_eq!(BootstrapAction::RegisterDummyClass, m.current_action());
    m.step(BootstrapEvent::ClassRegistered(41));

    assert_eq!(BootstrapAction::CreateDummyWindow { atom: 41 }, m.current_action());
    m.step(BootstrapEvent::WindowCreated(Ok(HWND(0x100))));

    assert_eq!(BootstrapAction::GetDeviceContextOf { hwnd: HWND(0x100) }, m.current_action());
    m.step(BootstrapEvent::GotDeviceContext(Ok(HDC(0x200))));

    assert_eq!(BootstrapAction::ChooseBasicPixelFormat { hdc: HDC(0x200) }, m.current_action());
    m.step(BootstrapEvent::PixelFormatChosen(Ok(3)));

    assert_eq!(
        BootstrapAction::SetBasicPixelFormat { hdc: HDC(0x200), format: 3 },
        m.current_action()
    );
    m.step(BootstrapEvent::PixelFormatSet(Ok(())));

    assert_eq!(BootstrapAction::CreateLegacyContext { hdc: HDC(0x200) }, m.current_action());
    m.step(BootstrapEvent::ContextCreated(Ok(HGLRC(0x300))));

    assert_eq!(
        BootstrapAction::MakeContextCurrent { hdc: HDC(0x200), hglrc: HGLRC(0x300) },
        m.current_action()
    );
    m.step(BootstrapEvent::MadeCurrent(Ok(())));

    assert_eq!(BootstrapAction::ResolveExtensionFns, m.current_action());
    m.step(BootstrapEvent::FnsResolved(resolved_fns()));

    let teardown = run_teardown(&mut m);
    assert_eq!(
        vec![
            BootstrapAction::MakeNoContextCurrent,
            BootstrapAction::DeleteContext { hglrc: HGLRC(0x300) },
            BootstrapAction::ReleaseDeviceContext { hwnd: HWND(0x100), hdc: HDC(0x200) },
            BootstrapAction::DestroyDummyWindow { hwnd: HWND(0x100) },
            BootstrapAction::UnregisterDummyClass { atom: 41 },
        ],
        teardown
    );

    let fns = m.result().unwrap();
    assert_eq!(Some(0x40), fns.wglChoosePixelFormatARB_p);
}

#[test]
fn failed_pixel_format_choice_still_tears_everything_down() {
    let mut m = Bootstrap::new();
    m.step(BootstrapEvent::CurrentContext(HGLRC(0)));
    m.step(BootstrapEvent::ClassRegistered(7));
    m.step(BootstrapEvent::WindowCreated(Ok(HWND(0x100))));
    m.step(BootstrapEvent::GotDeviceContext(Ok(HDC(0x200))));
    m.step(BootstrapEvent::PixelFormatChosen(Err(Win32Error(2000))));

    // No context exists and none was made current, so teardown releases the
    // device context, the window, and the class — in that order, nothing else.
    let teardown = run_teardown(&mut m);
    assert_eq!(
        vec![
            BootstrapAction::ReleaseDeviceContext { hwnd: HWND(0x100), hdc: HDC(0x200) },
            BootstrapAction::DestroyDummyWindow { hwnd: HWND(0x100) },
            BootstrapAction::UnregisterDummyClass { atom: 7 },
        ],
        teardown
    );

    // Cleanup never masks the primary error.
    assert_eq!(Win32Error(2000), m.result().unwrap_err());
}

#[test]
fn failed_window_creation_with_no_class_ends_without_teardown() {
    let mut m = Bootstrap::new();
    m.step(BootstrapEvent::CurrentContext(HGLRC(0)));
    m.step(BootstrapEvent::ClassRegistered(0));
    m.step(BootstrapEvent::WindowCreated(Err(Win32Error(1407))));
    assert!(m.is_done());
    assert_eq!(Win32Error(1407), m.result().unwrap_err());
}

#[test]
fn make_current_failure_still_tears_down_the_context() {
    let mut m = Bootstrap::new();
    m.step(BootstrapEvent::CurrentContext(HGLRC(0)));
    m.step(BootstrapEvent::ClassRegistered(9));
    m.step(BootstrapEvent::WindowCreated(Ok(HWND(0x100))));
    m.step(BootstrapEvent::GotDeviceContext(Ok(HDC(0x200))));
    m.step(BootstrapEvent::PixelFormatChosen(Ok(1)));
    m.step(BootstrapEvent::PixelFormatSet(Ok(())));
    m.step(BootstrapEvent::ContextCreated(Ok(HGLRC(0x300))));
    m.step(BootstrapEvent::MadeCurrent(Err(Win32Error(6))));

    let teardown = run_teardown(&mut m);
    assert_eq!(
        vec![
            BootstrapAction::DeleteContext { hglrc: HGLRC(0x300) },
            BootstrapAction::ReleaseDeviceContext { hwnd: HWND(0x100), hdc: HDC(0x200) },
            BootstrapAction::DestroyDummyWindow { hwnd: HWND(0x100) },
            BootstrapAction::UnregisterDummyClass { atom: 9 },
        ],
        teardown
    );
    assert_eq!(Win32Error(6), m.result().unwrap_err());
}

#[test]
fn existing_context_is_used_and_never_destroyed() {
    let mut m = Bootstrap::new();
    m.step(BootstrapEvent::CurrentContext(HGLRC(0x900)));

    // Straight to resolution: no class, no window, no device context.
    assert_eq!(BootstrapAction::ResolveExtensionFns, m.current_action());
    m.step(BootstrapEvent::FnsResolved(resolved_fns()));

    // And straight to the end: nothing was acquired, nothing is released.
    assert!(m.is_done());
    assert_eq!(BootstrapAction::Finish, m.current_action());
    let fns = m.result().unwrap();
    assert_eq!(Some(0x10), fns.wglGetExtensionsStringARB_p);
}

#[test]
fn unresolved_entry_points_are_tolerated() {
    let mut m = Bootstrap::new();
    m.step(BootstrapEvent::CurrentContext(HGLRC(0x900)));
    m.step(BootstrapEvent::FnsResolved(WglExtFns::none_resolved()));
    let fns = m.result().unwrap();
    assert_eq!(None, fns.wglChoosePixelFormatARB_p);
}
