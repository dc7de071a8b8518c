use testing_trayicon::error::TrayError;
use testing_trayicon::window::classify_click;
use testing_trayicon::window::cursor_query_outcome;
use testing_trayicon::window::is_recognized_sub_code;
use testing_trayicon::window::loop_should_exit;
use testing_trayicon::window::on_cursor;
use testing_trayicon::window::Button;
use testing_trayicon::window::Click;
use testing_trayicon::window::ClickResponse;
use testing_trayicon::window::Directive;
use testing_trayicon::window::MachineState;
use testing_trayicon::window::TrayEvent;
use testing_trayicon::window::TRAY_CALLBACK_MESSAGE;
use testing_trayicon::window::WM_CREATE;
use testing_trayicon::window::WM_DESTROY;
use testing_trayicon::window::WM_LBUTTONDBLCLK;
use testing_trayicon::window::WM_LBUTTONUP;
use testing_trayicon::window::WM_MBUTTONDBLCLK;
use testing_trayicon::window::WM_MBUTTONUP;
use testing_trayicon::window::WM_MENUCOMMAND;
use testing_trayicon::window::WM_QUIT;
use testing_trayicon::window::WM_RBUTTONDBLCLK;
use testing_trayicon::window::WM_RBUTTONUP;
use testing_trayicon::window::WM_XBUTTONDBLCLK;
use testing_trayicon::window::WM_XBUTTONUP;

#[test]
fn all_eight_mouse_pairs_classify_as_documented() {
    let expected = [
        (WM_LBUTTONUP, Click::Single(Button::Left)),
        (WM_RBUTTONUP, Click::Single(Button::Right)),
        (WM_MBUTTONUP, Click::Single(Button::Middle)),
        (WM_XBUTTONUP, Click::Single(Button::Forward)),
        (WM_LBUTTONDBLCLK, Click::Double(Button::Left)),
        (WM_RBUTTONDBLCLK, Click::Double(Button::Right)),
        (WM_MBUTTONDBLCLK, Click::Double(Button::Middle)),
        (WM_XBUTTONDBLCLK, Click::Double(Button::Forward)),
    ];
    let st = MachineState::new();
    for (sub_code, click) in expected {
        assert!(is_recognized_sub_code(sub_code));
        assert_eq!(classify_click(sub_code), Some(click));
        assert_eq!(
            st.handle_message(TRAY_CALLBACK_MESSAGE, sub_code),
            Directive::QueryCursor
        );
    }
}

#[test]
fn unrecognized_sub_codes_pass_through() {
    let st = MachineState::new();
    // 512 is the mouse-move sub-code; 516 and 0 are no mouse events at all
    for sub_code in [512u32, 516, 0, 513, 526] {
        assert!(!is_recognized_sub_code(sub_code));
        assert_eq!(classify_click(sub_code), None);
        assert_eq!(
            st.handle_message(TRAY_CALLBACK_MESSAGE, sub_code),
            Directive::PassThrough
        );
    }
}

#[test]
fn destroy_message_alone_orders_termination() {
    let mut st = MachineState::new();
    assert_eq!(st.handle_message(WM_DESTROY, 0), Directive::Quit);
    assert_eq!(st.handle_message(WM_CREATE, 0), Directive::RegisterRestart);
    assert_eq!(st.handle_message(WM_MENUCOMMAND, 0), Directive::PassThrough);
    assert_eq!(st.handle_message(77, 0), Directive::PassThrough);
    st.record_restart_message(0xC042);
    assert_eq!(st.handle_message(WM_DESTROY, 0), Directive::Quit);
    assert_eq!(st.handle_message(0xC042, 0), Directive::ReaddIcon);
}

#[test]
fn restart_number_matches_only_after_registration() {
    let mut st = MachineState::new();
    assert_eq!(st.handle_message(0xC042, 0), Directive::PassThrough);
    st.record_restart_message(0xC042);
    assert_eq!(st.handle_message(0xC042, 0), Directive::ReaddIcon);
    assert_eq!(st.handle_message(0xC041, 0), Directive::PassThrough);
}

#[test]
fn repeated_creation_message_re_resolves_idempotently() {
    let mut st = MachineState::new();
    assert_eq!(st.handle_message(WM_CREATE, 0), Directive::RegisterRestart);
    st.record_restart_message(0xC042);
    assert_eq!(st.handle_message(WM_CREATE, 0), Directive::RegisterRestart);
    st.record_restart_message(0xC042);
    assert_eq!(st.restart_message, Some(0xC042));
    assert_eq!(st.handle_message(0xC042, 0), Directive::ReaddIcon);
}

#[test]
fn right_button_release_at_120_340_yields_the_documented_event() {
    let st = MachineState::new();
    assert_eq!(
        st.handle_message(TRAY_CALLBACK_MESSAGE, WM_RBUTTONUP),
        Directive::QueryCursor
    );
    let cursor = cursor_query_outcome(1, 120, 340).ok();
    let response = on_cursor(WM_RBUTTONUP, cursor);
    assert_eq!(
        response,
        ClickResponse::Notify(TrayEvent {
            mouse: Click::Single(Button::Right),
            position: (120, 340),
        })
    );
}

#[test]
fn failed_cursor_query_suppresses_the_event() {
    assert_eq!(
        cursor_query_outcome(0, 7, 9),
        Err(TrayError::CursorQueryFailed)
    );
    let response = on_cursor(WM_LBUTTONUP, cursor_query_outcome(0, 7, 9).ok());
    assert_eq!(response, ClickResponse::Suppress);
}

#[test]
fn message_loop_exits_exactly_on_quit() {
    assert!(loop_should_exit(WM_QUIT));
    assert!(!loop_should_exit(WM_DESTROY));
    assert!(!loop_should_exit(WM_CREATE));
    assert!(!loop_should_exit(0));
}
