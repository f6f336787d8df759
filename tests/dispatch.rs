use embedded_svc::wifi::AuthMethod;
use phone_os::events::{first_hit, AppEvent, ClickableArea, CoreEvent, EventType, PhoneState};
use phone_os::geometry::{Position, Rect};
use phone_os::keyboard::{KeyboardEvent, KeyboardLayout};
use phone_os::phone::{
    classify_wifi, App, NtpAction, Phone, StateError, Tone, WifiState,
};
use phone_os::queue::TouchQueue;
use phone_os::touch::{TouchEvent, TouchPoint};
use phone_os::ui::{content_area, BorderedButton, Widget};
use phone_os::wifi::{AccessPoint, WifiAppState, WifiEvent, WifiRequest};

fn press(x: u16, y: u16) -> TouchPoint {
    TouchPoint { x, y, id: 0, event: Some(TouchEvent::Press) }
}

fn ap(name: &str, auth: Option<AuthMethod>) -> AccessPoint {
    AccessPoint { ssid: name.to_string(), bssid: [1, 2, 3, 4, 5, 6], channel: 11, auth_method: auth }
}

fn wifi_state(p: &Phone) -> WifiAppState {
    match &p.apps[0] {
        App::Wifi(w) => w.state,
    }
}

#[test]
fn first_matching_region_wins() {
    let areas = vec![
        ClickableArea(Rect::new(0, 0, 10, 10), AppEvent::Core(CoreEvent::GoBackToHomepage)),
        ClickableArea(Rect::new(5, 5, 10, 10), AppEvent::Core(CoreEvent::LaunchApp(0))),
    ];
    assert_eq!(first_hit(&areas, Position::new(6, 6)), Some(0));
    assert_eq!(first_hit(&areas, Position::new(12, 12)), Some(1));
    assert_eq!(first_hit(&areas, Position::new(30, 30)), None);
}

#[test]
fn key_region_press_takes_keyboard_path() {
    let mut phone = Phone::new();
    phone.phone_data.display_keyboard(KeyboardLayout::Azerty, false);
    let areas = vec![
        ClickableArea(Rect::new(0, 0, 5, 1), AppEvent::Core(CoreEvent::GoBackToHomepage)),
        ClickableArea(Rect::new(0, 5, 5, 3), AppEvent::Keyboard(KeyboardEvent::Letter('a'))),
    ];
    let r = phone.handle_touch(Position::new(2, 6), &areas);
    assert!(matches!(r, Ok(None)));
    assert_eq!(phone.state, PhoneState::Homepage);
    assert_eq!(phone.phone_data.keyboard.as_ref().unwrap().text, "a");
}

#[test]
fn missed_press_dispatches_nothing() {
    let mut phone = Phone::new();
    let areas = vec![ClickableArea(Rect::new(0, 0, 5, 1), AppEvent::Core(CoreEvent::LaunchApp(0)))];
    let r = phone.handle_touch(Position::new(20, 20), &areas);
    assert!(matches!(r, Ok(None)));
    assert_eq!(phone.state, PhoneState::Homepage);
}

#[test]
fn navigation_launches_goes_back_and_refuses_unknown_screens() {
    let mut phone = Phone::new();
    assert_eq!(phone.navigate(PhoneState::InApp(0)), Ok(()));
    assert_eq!(phone.state, PhoneState::InApp(0));
    assert_eq!(phone.navigate(PhoneState::Homepage), Ok(()));
    assert_eq!(phone.state, PhoneState::Homepage);
    assert_eq!(phone.navigate(PhoneState::InApp(1)), Err(StateError::NoSuchApp(1)));
    assert_eq!(phone.state, PhoneState::Homepage);
    assert_eq!(phone.navigate(PhoneState::InApp(usize::MAX)), Err(StateError::NoSuchApp(usize::MAX)));
}

#[test]
fn format_touches_uses_first_press_only() {
    let phone = Phone::new();
    assert_eq!(phone.format_touches(&vec![]), None);
    let release = TouchPoint { x: 0, y: 0, id: 0, event: Some(TouchEvent::Release) };
    assert_eq!(phone.format_touches(&vec![release, press(0, 0)]), None);
    assert_eq!(phone.format_touches(&vec![press(0, 0), release]), Some(Position::new(39, 31)));
}

#[test]
fn homepage_lists_one_button_per_screen() {
    let phone = Phone::new();
    let r = phone.draw();
    assert_eq!(r.widgets.len(), 1);
    assert_eq!(
        r.widgets[0],
        Widget::Button(Rect::new(1, 2, 38, 3), BorderedButton("WiFi settings".to_string()))
    );
    assert_eq!(
        r.events,
        EventType::List(vec![ClickableArea(
            Rect::new(1, 2, 38, 3),
            AppEvent::Core(CoreEvent::LaunchApp(0))
        )])
    );
    assert_eq!(phone.state_title(), "PhoneOS");
}

#[test]
fn press_on_screen_button_launches_it_and_it_scans_at_once() {
    let mut phone = Phone::new();
    let events = Some(phone.draw().events);
    let mut queue = TouchQueue::with_capacity(3);
    // Raw (180, 290) maps to column 10, row 2: inside the first button.
    assert_eq!(phone.format_touches(&vec![press(180, 290)]), Some(Position::new(10, 2)));
    queue.publish(vec![press(180, 290)]).unwrap();
    let r = phone.tick(&events, &mut queue);
    assert!(matches!(r, Ok(None)));
    assert_eq!(phone.state, PhoneState::InApp(0));
    assert_eq!(phone.state_title(), "WiFi settings");
    assert_eq!(phone.draw().events, EventType::Auto(AppEvent::Wifi(WifiEvent::Scan)));
}

#[test]
fn tick_without_touch_changes_nothing() {
    let mut phone = Phone::new();
    let events = Some(phone.draw().events);
    let mut queue = TouchQueue::with_capacity(3);
    assert!(matches!(phone.tick(&events, &mut queue), Ok(None)));
    assert_eq!(phone.state, PhoneState::Homepage);
    assert!(matches!(phone.tick(&None, &mut queue), Ok(None)));
}

#[test]
fn tick_refuses_launch_of_unknown_screen() {
    let mut phone = Phone::new();
    let events = Some(EventType::List(vec![ClickableArea(
        Rect::new(0, 0, 40, 32),
        AppEvent::Core(CoreEvent::LaunchApp(4)),
    )]));
    let mut queue = TouchQueue::with_capacity(3);
    queue.publish(vec![press(100, 100)]).unwrap();
    assert!(matches!(phone.tick(&events, &mut queue), Err(StateError::NoSuchApp(4))));
    assert_eq!(phone.state, PhoneState::Homepage);
    assert_eq!(queue.len(), 0);
}

#[test]
fn scan_flow_lists_access_points() {
    let mut phone = Phone::new();
    phone.navigate(PhoneState::InApp(0)).unwrap();
    let events = Some(phone.draw().events);
    let mut queue = TouchQueue::with_capacity(3);
    queue.publish(vec![press(0, 0)]).unwrap();
    let r = phone.tick(&events, &mut queue);
    assert!(matches!(r, Ok(Some(WifiRequest::Scan))));
    assert_eq!(queue.len(), 1);
    phone.complete_scan(vec![ap("home", None), ap("office", Some(AuthMethod::WPA3Personal))]);
    assert_eq!(wifi_state(&phone), WifiAppState::DisplayingNetworks);
    let r = phone.draw();
    let area = content_area();
    assert_eq!(area, Rect::new(0, 2, 40, 30));
    assert_eq!(
        r.events,
        EventType::List(vec![
            ClickableArea(Rect::new(0, 2, 40, 1), AppEvent::Core(CoreEvent::GoBackToHomepage)),
            ClickableArea(Rect::new(1, 6, 38, 3), AppEvent::Wifi(WifiEvent::TypePassword(0))),
            ClickableArea(Rect::new(1, 9, 38, 3), AppEvent::Wifi(WifiEvent::TypePassword(1))),
        ])
    );
    assert_eq!(r.widgets[2], Widget::Button(Rect::new(1, 6, 38, 3), BorderedButton("home".to_string())));
    assert_eq!(r.widgets[3], Widget::Button(Rect::new(1, 9, 38, 3), BorderedButton("office".to_string())));
}

#[test]
fn password_flow_connects_and_returns_home() {
    let mut phone = Phone::new();
    phone.phone_data.has_wifi = true;
    phone.navigate(PhoneState::InApp(0)).unwrap();
    phone.complete_scan(vec![ap("home", None)]);
    let d = phone.handle_auto_event(&AppEvent::Wifi(WifiEvent::TypePassword(0)));
    assert!(d.is_none());
    assert_eq!(wifi_state(&phone), WifiAppState::TypingPassword(0));
    let kb = phone.phone_data.keyboard.as_ref().unwrap();
    assert!(kb.hide_enter);
    let r = phone.draw();
    match &r.events {
        EventType::List(v) => {
            assert_eq!(v[0], ClickableArea(Rect::new(0, 2, 40, 1), AppEvent::Wifi(WifiEvent::DisplayNetworks)));
            assert_eq!(v[1], ClickableArea(Rect::new(1, 9, 38, 3), AppEvent::Wifi(WifiEvent::Connect(0))));
            assert!(v.len() > 2);
            assert!(v[2..].iter().all(|a| matches!(a.1, AppEvent::Keyboard(_))));
            assert!(!v.iter().any(|a| a.1 == AppEvent::Keyboard(KeyboardEvent::Enter)));
            assert_eq!(v.len(), 2 + 33);
        }
        EventType::Auto(_) => panic!("typing waits for a touch"),
    }
    for c in ['p', 'w'] {
        phone.handle_touch(Position::new(0, 0), &vec![ClickableArea(
            Rect::new(0, 0, 1, 1),
            AppEvent::Keyboard(KeyboardEvent::Letter(c)),
        )]);
    }
    let d = phone.handle_auto_event(&AppEvent::Wifi(WifiEvent::Connect(0)));
    let known = match d {
        Some(WifiRequest::Connect(k)) => k,
        _ => panic!("a connection is requested"),
    };
    assert_eq!(known.ssid, "home");
    assert_eq!(known.password, "pw");
    assert_eq!(known.bssid, Some([1, 2, 3, 4, 5, 6]));
    assert_eq!(known.channel, Some(11));
    assert_eq!(known.auth_method, AuthMethod::WPA2Personal);
    // Until the connection succeeds the screen and the keyboard stay as they were.
    assert_eq!(wifi_state(&phone), WifiAppState::TypingPassword(0));
    assert_eq!(phone.phone_data.keyboard.as_ref().unwrap().text, "pw");
    match &phone.apps[0] {
        App::Wifi(w) => assert_eq!(w.known_wifis.len(), 1),
    }
    phone.complete_connect(known);
    assert!(phone.phone_data.keyboard.is_none());
    match &phone.apps[0] {
        App::Wifi(w) => {
            assert_eq!(w.known_wifis.len(), 2);
            assert_eq!(w.known_wifis[1].ssid, "home");
            assert_eq!(w.known_wifis[1].password, "pw");
        }
    }
    assert_eq!(phone.state, PhoneState::Homepage);
    assert_eq!(wifi_state(&phone), WifiAppState::Scanning);
}

#[test]
fn connect_without_radio_only_hides_keyboard() {
    let mut phone = Phone::new();
    phone.navigate(PhoneState::InApp(0)).unwrap();
    phone.complete_scan(vec![ap("home", Some(AuthMethod::WEP))]);
    phone.handle_auto_event(&AppEvent::Wifi(WifiEvent::TypePassword(0)));
    let d = phone.handle_auto_event(&AppEvent::Wifi(WifiEvent::Connect(0)));
    assert!(d.is_none());
    assert!(phone.phone_data.keyboard.is_none());
    assert_eq!(wifi_state(&phone), WifiAppState::TypingPassword(0));
}

#[test]
fn events_of_other_kinds_are_ignored_by_screens() {
    let mut phone = Phone::new();
    phone.navigate(PhoneState::InApp(0)).unwrap();
    let d = phone.handle_auto_event(&AppEvent::Keyboard(KeyboardEvent::Letter('x')));
    assert!(d.is_none());
    assert_eq!(wifi_state(&phone), WifiAppState::Scanning);
    let mut home = Phone::new();
    let d = home.handle_auto_event(&AppEvent::Wifi(WifiEvent::Scan));
    assert!(d.is_none());
}

#[test]
fn out_of_range_password_index_is_ignored() {
    let mut phone = Phone::new();
    phone.navigate(PhoneState::InApp(0)).unwrap();
    phone.complete_scan(vec![ap("home", None)]);
    phone.handle_auto_event(&AppEvent::Wifi(WifiEvent::TypePassword(3)));
    assert_eq!(wifi_state(&phone), WifiAppState::DisplayingNetworks);
    assert!(phone.phone_data.keyboard.is_none());
}

#[test]
fn known_networks_are_joined_in_scan_order() {
    let mut phone = Phone::new();
    phone.navigate(PhoneState::InApp(0)).unwrap();
    phone.complete_scan(vec![ap("x", None), ap("Wokwi-GUEST", None), ap("y", None)]);
    match &phone.apps[0] {
        App::Wifi(w) => assert_eq!(w.known_to_join(), vec![0]),
    }
}

#[test]
fn wifi_state_is_classified_from_the_radio() {
    assert!(classify_wifi(false, None, None) == WifiState::NotInitialized);
    assert!(classify_wifi(true, None, Some(true)) == WifiState::NotConnected);
    assert!(classify_wifi(true, Some(String::new()), Some(true)) == WifiState::NotConnected);
    assert!(classify_wifi(true, Some("net".to_string()), None) == WifiState::NotConnected);
    assert!(classify_wifi(true, Some("net".to_string()), Some(false)) == WifiState::Connecting);
    assert!(classify_wifi(true, Some("net".to_string()), Some(true)) == WifiState::Connected("net".to_string()));
    assert_eq!(WifiState::Connected("net".to_string()).label(), "net");
    assert_eq!(WifiState::NotInitialized.label(), "Not initialized");
    assert_eq!(WifiState::Connecting.tone(), Tone::Pending);
}

#[test]
fn clock_starts_on_connection_and_stops_otherwise() {
    let mut phone = Phone::new();
    let up = WifiState::Connected("net".to_string());
    assert_eq!(phone.observe_wifi(&WifiState::NotInitialized), NtpAction::Keep);
    assert_eq!(phone.observe_wifi(&up), NtpAction::Start);
    phone.apply_wifi_state(up.clone(), NtpAction::Start);
    assert!(phone.phone_data.has_ntp);
    assert_eq!(phone.observe_wifi(&up), NtpAction::Keep);
    assert_eq!(phone.observe_wifi(&WifiState::Connected("other".to_string())), NtpAction::Stop);
    assert_eq!(phone.observe_wifi(&WifiState::Connecting), NtpAction::Stop);
    phone.apply_wifi_state(WifiState::Connecting, NtpAction::Stop);
    assert!(!phone.phone_data.has_ntp);
}

#[test]
fn known_network_copies_keep_every_field() {
    let w = phone_os::wifi::WifiApp::new();
    let copy = w.known_wifis[0].clone();
    assert_eq!(copy.ssid, "Wokwi-GUEST");
    assert_eq!(copy.password, "");
    assert_eq!(copy.bssid, Some([66, 19, 55, 85, 170, 1]));
    assert_eq!(copy.auth_method, AuthMethod::None);
    assert_eq!(copy.channel, Some(6));
    assert_eq!(w.app_name(), "WiFi settings");
    assert_eq!(w.state, WifiAppState::Scanning);
}

#[test]
fn press_on_unknown_launch_is_refused_at_once() {
    let mut phone = Phone::new();
    let areas = vec![ClickableArea(Rect::new(0, 0, 40, 32), AppEvent::Core(CoreEvent::LaunchApp(1)))];
    let r = phone.handle_touch(Position::new(3, 3), &areas);
    assert!(matches!(r, Err(StateError::NoSuchApp(1))));
    assert_eq!(phone.state, PhoneState::Homepage);
    let areas = vec![ClickableArea(Rect::new(0, 0, 40, 32), AppEvent::Core(CoreEvent::LaunchApp(0)))];
    assert!(matches!(phone.handle_touch(Position::new(3, 3), &areas), Ok(None)));
    assert_eq!(phone.state, PhoneState::InApp(0));
}

#[test]
fn clock_digits_wrap_hours_and_minutes() {
    assert_eq!(phone_os::ui::clock_digits(0), (0, 0));
    assert_eq!(phone_os::ui::clock_digits(3 * 3600 + 25 * 60 + 59), (3, 25));
    assert_eq!(phone_os::ui::clock_digits(86400 + 3600 + 60), (1, 1));
}
