//! The device: its screens, shared data, navigation and dispatch.

use vstd::prelude::*;
use crate::events::{
    events_match, first_hit, hit_of, is_first_hit, lemma_first_hit_unique, lists, AppEvent,
    ClickableArea, CoreEvent, EventType, PhoneState,
};
use crate::geometry::{logical_x, logical_y, map_to_grid, Position, Rect};
use crate::keyboard::{
    keyboard_regions, pressed, Keyboard, KeyboardEvent, KeyboardLayout, KeyboardTables,
};
use crate::queue::{queue_bound, queued_batches, TouchQueue};
use crate::touch::{TouchEvent, TouchPoint};
use crate::ui::{
    area_ok, content_area, entry_rect, spec_content_area, stacked_entries, BorderedButton, Rendered,
    Widget,
};
use crate::wifi::{
    handled, AccessPoint, KnownWifi, WifiApp, WifiAppState, WifiEvent, WifiRequest, WIFI_APP_NAME,
};

verus! {

/// State of the network connection, as shown in the status bar.
#[derive(Debug, Clone)]
pub enum WifiState {
    NotInitialized,
    NotConnected,
    Connecting,
    Connected(String),
}

impl WifiState {
    /// The same network state; a connection is told apart by its network's
    /// name.
    pub open spec fn same(self, other: WifiState) -> bool {
        match (self, other) {
            (WifiState::NotInitialized, WifiState::NotInitialized) => true,
            (WifiState::NotConnected, WifiState::NotConnected) => true,
            (WifiState::Connecting, WifiState::Connecting) => true,
            (WifiState::Connected(a), WifiState::Connected(b)) => a@ == b@,
            _ => false,
        }
    }

    /// The text of the status bar.
    pub fn label(&self) -> (s: String)
        ensures
            self matches WifiState::Connected(name) ==> s@ == name@,
            *self == WifiState::NotInitialized ==> s@ == "Not initialized"@,
            *self == WifiState::NotConnected ==> s@ == "Not connected"@,
            *self == WifiState::Connecting ==> s@ == "Connecting"@,
    {
        match self {
            WifiState::NotInitialized => "Not initialized".to_owned(),
            WifiState::NotConnected => "Not connected".to_owned(),
            WifiState::Connecting => "Connecting".to_owned(),
            WifiState::Connected(name) => name.clone(),
        }
    }

    /// The colour of the status bar's network text.
    pub fn tone(&self) -> (t: Tone)
        ensures
            t == match *self {
                WifiState::Connected(_) => Tone::Good,
                WifiState::Connecting => Tone::Pending,
                _ => Tone::Alert,
            },
    {
        match self {
            WifiState::Connected(_) => Tone::Good,
            WifiState::Connecting => Tone::Pending,
            _ => Tone::Alert,
        }
    }
}

impl PartialEq for WifiState {
    fn eq(&self, other: &WifiState) -> (r: bool) {
        match (self, other) {
            (WifiState::NotInitialized, WifiState::NotInitialized) => true,
            (WifiState::NotConnected, WifiState::NotConnected) => true,
            (WifiState::Connecting, WifiState::Connecting) => true,
            (WifiState::Connected(a), WifiState::Connected(b)) => a.eq(b),
            _ => false,
        }
    }
}

impl vstd::std_specs::cmp::PartialEqSpecImpl for WifiState {
    open spec fn obeys_eq_spec() -> bool {
        true
    }

    open spec fn eq_spec(&self, other: &WifiState) -> bool {
        self.same(*other)
    }
}

/// Colour class of a status text.
#[derive(Debug, Clone, Copy, PartialEq, Eq, Structural)]
pub enum Tone {
    Alert,
    Pending,
    Good,
}

/// The network state read from the radio: none without a radio; not
/// connected without a client configuration naming a network, or when the
/// link cannot be queried; otherwise connected to that network or still
/// connecting.
pub fn classify_wifi(has_wifi: bool, client_ssid: Option<String>, connected: Option<bool>) -> (w: WifiState)
    ensures
        !has_wifi ==> w == WifiState::NotInitialized,
        has_wifi ==> match client_ssid {
            None => w == WifiState::NotConnected,
            Some(s) => if s@.len() == 0 {
                w == WifiState::NotConnected
            } else {
                match connected {
                    None => w == WifiState::NotConnected,
                    Some(false) => w == WifiState::Connecting,
                    Some(true) => w matches WifiState::Connected(n) && n@ == s@,
                }
            },
        },
{
    if !has_wifi {
        return WifiState::NotInitialized;
    }
    match client_ssid {
        None => WifiState::NotConnected,
        Some(ssid) => {
            if ssid.as_str().is_empty() {
                WifiState::NotConnected
            } else {
                match connected {
                    None => WifiState::NotConnected,
                    Some(true) => WifiState::Connected(ssid),
                    Some(false) => WifiState::Connecting,
                }
            }
        },
    }
}

/// What to do with the clock service when the network state changes.
#[derive(Debug, Clone, Copy, PartialEq, Eq, Structural)]
pub enum NtpAction {
    /// The state did not change.
    Keep,
    /// A connection came up and no clock runs: start and sync one.
    Start,
    /// Any other change: stop the clock.
    Stop,
}

/// Data shared by the screens: whether the network and clock services are
/// up, the network state, and the keyboard if one is shown.
#[derive(Debug, Clone)]
pub struct PhoneData {
    pub has_wifi: bool,
    pub wifi_state: WifiState,
    pub has_ntp: bool,
    pub keyboard: Option<Keyboard>,
}

impl PhoneData {
    /// Shows an empty keyboard.
    pub fn display_keyboard(&mut self, layout: KeyboardLayout, hide_enter: bool)
        ensures
            final(self).keyboard matches Some(k) && k.is_fresh(layout, hide_enter),
            final(self).has_wifi == old(self).has_wifi,
            final(self).wifi_state == old(self).wifi_state,
            final(self).has_ntp == old(self).has_ntp,
    {
        self.keyboard = Some(Keyboard::new(layout, hide_enter));
    }

    /// Dismisses the keyboard.
    pub fn hide_keyboard(&mut self)
        ensures
            final(self).keyboard.is_none(),
            final(self).has_wifi == old(self).has_wifi,
            final(self).wifi_state == old(self).wifi_state,
            final(self).has_ntp == old(self).has_ntp,
    {
        self.keyboard = None;
    }
}

/// A registered screen.
#[derive(Debug, Clone)]
pub enum App {
    Wifi(WifiApp),
}

/// What handling `event` does to a screen and the shared data: a screen
/// takes only events of its own kind and ignores every other one.
pub open spec fn app_handled(
    before: App,
    after: App,
    data_before: PhoneData,
    data_after: PhoneData,
    event: AppEvent,
    r: Option<WifiRequest>,
) -> bool {
    match before {
        App::Wifi(w) => match event {
            AppEvent::Wifi(e) => after matches App::Wifi(w2) && handled(
                w,
                w2,
                data_before,
                data_after,
                e,
                r,
            ),
            _ => after == before && data_after == data_before && r.is_none(),
        },
    }
}

impl App {
    pub open spec fn wf(self) -> bool {
        match self {
            App::Wifi(w) => w.wf(),
        }
    }

    pub open spec fn spec_name(self) -> Seq<char> {
        match self {
            App::Wifi(_) => WIFI_APP_NAME@,
        }
    }

    /// The event that the screen asks to receive at once, if any.
    pub open spec fn spec_auto(self) -> Option<AppEvent> {
        match self {
            App::Wifi(w) => if w.state == WifiAppState::Scanning {
                Some(AppEvent::Wifi(WifiEvent::Scan))
            } else {
                None
            },
        }
    }

    /// The regions that the screen waits on otherwise.
    pub open spec fn spec_regions(self, area: Rect) -> Seq<ClickableArea> {
        match self {
            App::Wifi(w) => w.spec_regions(area),
        }
    }

    /// What the screen draws in `area`.
    pub open spec fn spec_widgets(self, keyboard: Option<Keyboard>, area: Rect, widgets: Seq<Widget>) -> bool {
        match self {
            App::Wifi(w) => w.spec_widgets(keyboard, area, widgets),
        }
    }

    pub fn app_name(&self) -> (name: &'static str)
        ensures
            name@ == self.spec_name(),
    {
        match self {
            App::Wifi(w) => w.app_name(),
        }
    }

    pub fn render(&self, keyboard: &Option<Keyboard>, area: Rect) -> (r: Rendered)
        requires
            self.wf(),
            area_ok(area),
        ensures
            events_match(r.events, self.spec_auto(), self.spec_regions(area)),
            self.spec_widgets(*keyboard, area, r.widgets@),
    {
        match self {
            App::Wifi(w) => w.render(keyboard, area),
        }
    }

    /// Hands the event to the screen if it is of the screen's kind, and
    /// ignores it otherwise.
    pub fn handle_event(&mut self, phone_data: &mut PhoneData, event: &AppEvent) -> (r: Option<
        WifiRequest,
    >)
        requires
            old(self).wf(),
        ensures
            final(self).wf(),
            app_handled(*old(self), *final(self), *old(phone_data), *final(phone_data), *event, r),
    {
        match self {
            App::Wifi(w) => match event {
                AppEvent::Wifi(e) => w.handle_event(phone_data, e),
                _ => None,
            },
        }
    }
}

/// A requested screen that is not registered.
#[derive(Debug, Clone, Copy, PartialEq, Eq, Structural)]
pub enum StateError {
    NoSuchApp(usize),
}

/// The state that a navigation event leads to.
pub open spec fn core_target(e: CoreEvent) -> PhoneState {
    match e {
        CoreEvent::GoBackToHomepage => PhoneState::Homepage,
        CoreEvent::LaunchApp(i) => PhoneState::InApp(i),
    }
}

/// The state after navigating to `target` among `n` screens: a screen
/// that is not registered is refused.
pub open spec fn navigated(state: PhoneState, target: PhoneState, n: nat) -> Result<PhoneState, StateError> {
    match target {
        PhoneState::InApp(k) => if k < n {
            Ok(target)
        } else {
            Err(StateError::NoSuchApp(k))
        },
        PhoneState::Homepage => Ok(target),
    }
}

/// The buttons of the home page in `area`: one per screen, which launches
/// it.
pub open spec fn app_list_regions(area: Rect, n: nat) -> Seq<ClickableArea> {
    Seq::new(
        n,
        |i: int| ClickableArea(entry_rect(area, 0, i), AppEvent::Core(CoreEvent::LaunchApp(i as usize))),
    )
}

/// The cell that a batch of touches designates: its first point, mapped to
/// the grid, if that point is a press.
pub open spec fn touch_cell(touches: Seq<TouchPoint>) -> Option<Position> {
    if touches.len() > 0 && touches[0].event == Some(TouchEvent::Press) {
        Some(Position { x: logical_x(touches[0].x) as u16, y: logical_y(touches[0].y) as u16 })
    } else {
        None
    }
}

/// The device: navigation state, shared data, registered screens and the
/// keyboard tables.
#[derive(Debug, Clone)]
pub struct Phone {
    pub state: PhoneState,
    pub should_wait_touch: bool,
    pub phone_data: PhoneData,
    pub apps: Vec<App>,
    pub keyboard_tables: KeyboardTables,
}

/// What routing `event` to the active screen does: on the home page
/// nothing; in a screen, that screen handles it and nothing else changes.
pub open spec fn routed(before: Phone, after: Phone, event: AppEvent, request: Option<WifiRequest>) -> bool {
    match before.state {
        PhoneState::InApp(k) => {
            &&& after.state == before.state
            &&& after.should_wait_touch == before.should_wait_touch
            &&& after.keyboard_tables == before.keyboard_tables
            &&& after.apps@.len() == before.apps@.len()
            &&& after.apps@ == before.apps@.update(k as int, after.apps@[k as int])
            &&& app_handled(
                before.apps@[k as int],
                after.apps@[k as int],
                before.phone_data,
                after.phone_data,
                event,
                request,
            )
        },
        PhoneState::Homepage => after == before && request.is_none(),
    }
}

/// `after` is `before` in state `s`.
pub open spec fn moved_to(before: Phone, after: Phone, s: PhoneState) -> bool {
    &&& after.state == s
    &&& after.apps == before.apps
    &&& after.phone_data == before.phone_data
    &&& after.keyboard_tables == before.keyboard_tables
    &&& after.should_wait_touch == before.should_wait_touch
}

/// What a press on the cell `p` does, given the regions of the frame: the
/// first region containing it decides. A navigation event moves to its
/// state, or is refused with the state kept when it names no registered
/// screen; a key goes to the keyboard only; any other event goes to the
/// active screen, and the work it asks of the host is returned.
pub open spec fn touched(
    before: Phone,
    after: Phone,
    p: Position,
    areas: Seq<ClickableArea>,
    r: Result<Option<WifiRequest>, StateError>,
) -> bool {
    match hit_of(areas, p) {
        None => after == before && r == Ok::<Option<WifiRequest>, StateError>(None),
        Some(i) => match areas[i as int].1 {
            AppEvent::Core(c) => match navigated(before.state, core_target(c), before.apps@.len()) {
                Ok(s) => moved_to(before, after, s) && r == Ok::<Option<WifiRequest>, StateError>(
                    None,
                ),
                Err(e) => after == before && r == Err::<Option<WifiRequest>, StateError>(e),
            },
            AppEvent::Keyboard(k) => {
                &&& r == Ok::<Option<WifiRequest>, StateError>(None)
                &&& after.state == before.state
                &&& after.should_wait_touch == before.should_wait_touch
                &&& after.apps == before.apps
                &&& after.keyboard_tables == before.keyboard_tables
                &&& after.phone_data.has_wifi == before.phone_data.has_wifi
                &&& after.phone_data.wifi_state == before.phone_data.wifi_state
                &&& after.phone_data.has_ntp == before.phone_data.has_ntp
                &&& match before.phone_data.keyboard {
                    Some(kb) => after.phone_data.keyboard matches Some(kb2) && pressed(kb, kb2, k),
                    None => after.phone_data.keyboard.is_none(),
                }
            },
            AppEvent::Wifi(_) => r matches Ok(q) && routed(before, after, areas[i as int].1, q),
        },
    }
}

impl Phone {
    pub open spec fn wf(self) -> bool {
        &&& self.state matches PhoneState::InApp(k) ==> k < self.apps@.len()
        &&& forall|i: int| 0 <= i < self.apps@.len() ==> (#[trigger] self.apps@[i]).wf()
        &&& self.keyboard_tables.wf()
    }

    /// The event that the next tick dispatches at once, if any.
    pub open spec fn spec_auto(self) -> Option<AppEvent> {
        match self.state {
            PhoneState::Homepage => None,
            PhoneState::InApp(k) => self.apps@[k as int].spec_auto(),
        }
    }

    /// The regions that the next tick waits on otherwise: those of the home
    /// page or the active screen, then those of the keyboard if one is shown.
    pub open spec fn spec_regions(self) -> Seq<ClickableArea> {
        let base = match self.state {
            PhoneState::Homepage => app_list_regions(spec_content_area(), self.apps@.len()),
            PhoneState::InApp(k) => self.apps@[k as int].spec_regions(spec_content_area()),
        };
        match self.phone_data.keyboard {
            Some(kb) => base + keyboard_regions(kb, self.keyboard_tables),
            None => base,
        }
    }

    /// The device on its home page, with the network-settings screen
    /// registered, no network, no clock and no keyboard.
    pub fn new() -> (p: Phone)
        ensures
            p.wf(),
            p.state == PhoneState::Homepage,
            p.should_wait_touch,
            p.apps@.len() == 1,
            p.apps@[0] matches App::Wifi(w) && w.state == WifiAppState::Scanning,
            !p.phone_data.has_wifi,
            p.phone_data.wifi_state == WifiState::NotInitialized,
            !p.phone_data.has_ntp,
            p.phone_data.keyboard.is_none(),
    {
        Phone {
            state: PhoneState::Homepage,
            should_wait_touch: true,
            phone_data: PhoneData {
                has_wifi: false,
                wifi_state: WifiState::NotInitialized,
                has_ntp: false,
                keyboard: None,
            },
            apps: vec![App::Wifi(WifiApp::new())],
            keyboard_tables: KeyboardTables::new(),
        }
    }

    /// Moves to `target`; a screen that is not registered is refused and the
    /// state is kept.
    pub fn navigate(&mut self, target: PhoneState) -> (r: Result<(), StateError>)
        requires
            old(self).wf(),
        ensures
            final(self).wf(),
            final(self).apps == old(self).apps,
            final(self).phone_data == old(self).phone_data,
            final(self).keyboard_tables == old(self).keyboard_tables,
            final(self).should_wait_touch == old(self).should_wait_touch,
            match navigated(old(self).state, target, old(self).apps@.len()) {
                Ok(s) => r is Ok && final(self).state == s,
                Err(e) => r == Err::<(), StateError>(e) && final(self).state == old(self).state,
            },
    {
        match target {
            PhoneState::InApp(k) => {
                if k >= self.apps.len() {
                    return Err(StateError::NoSuchApp(k));
                }
            },
            PhoneState::Homepage => {},
        }
        self.state = target;
        Ok(())
    }

    /// The cell that a batch of touches designates, if its first point is a
    /// press.
    pub fn format_touches(&self, touches: &Vec<TouchPoint>) -> (r: Option<Position>)
        ensures
            r == touch_cell(touches@),
    {
        if touches.len() == 0 {
            return None;
        }
        let touch = touches[0];
        match touch.event {
            Some(TouchEvent::Press) => Some(map_to_grid(touch.x, touch.y)),
            _ => None,
        }
    }

    /// The home page: one button per registered screen, labelled with its
    /// name, launching it.
    pub fn render_app_list(&self, area: Rect) -> (r: Rendered)
        requires
            area_ok(area),
        ensures
            lists(r.events, app_list_regions(area, self.apps@.len())),
            r.widgets@.len() == self.apps@.len(),
            forall|i: int|
                0 <= i < self.apps@.len() ==> (#[trigger] r.widgets@[i] matches Widget::Button(
                    rect,
                    BorderedButton(label),
                ) && rect == entry_rect(area, 0, i) && label@ == self.apps@[i].spec_name()),
    {
        let n = self.apps.len();
        let rects = stacked_entries(area, 0, n);
        let mut widgets: Vec<Widget> = Vec::new();
        let mut events: Vec<ClickableArea> = Vec::new();
        let mut i: usize = 0;
        while i < n
            invariant
                n == self.apps@.len(),
                rects@.len() == n,
                forall|j: int| 0 <= j < n ==> #[trigger] rects@[j] == entry_rect(area, 0, j),
                i <= n,
                events@.len() == i,
                widgets@.len() == i,
                forall|j: int|
                    0 <= j < i ==> #[trigger] events@[j] == app_list_regions(area, n as nat)[j],
                forall|j: int|
                    0 <= j < i ==> (#[trigger] widgets@[j] matches Widget::Button(
                        rect,
                        BorderedButton(label),
                    ) && rect == entry_rect(area, 0, j) && label@ == self.apps@[j].spec_name()),
            decreases n - i,
        {
            let rect = rects[i];
            let name = self.apps[i].app_name();
            widgets.push(Widget::Button(rect, BorderedButton(name.to_owned())));
            events.push(ClickableArea(rect, AppEvent::Core(CoreEvent::LaunchApp(i))));
            i = i + 1;
        }
        assert(events@ =~= app_list_regions(area, n as nat));
        Rendered { widgets, events: EventType::List(events) }
    }

    /// The content of the next frame and what the next tick waits on: the
    /// home page or the active screen, with the keyboard's regions appended
    /// when one is shown and the frame waits for a touch.
    pub fn draw(&self) -> (r: Rendered)
        requires
            self.wf(),
        ensures
            events_match(r.events, self.spec_auto(), self.spec_regions()),
            self.state == PhoneState::Homepage ==> {
                &&& r.widgets@.len() == self.apps@.len()
                &&& forall|i: int|
                    0 <= i < self.apps@.len() ==> (#[trigger] r.widgets@[i] matches Widget::Button(
                        rect,
                        BorderedButton(label),
                    ) && rect == entry_rect(spec_content_area(), 0, i) && label@
                        == self.apps@[i].spec_name())
            },
            self.state matches PhoneState::InApp(k) ==> self.apps@[k as int].spec_widgets(
                self.phone_data.keyboard,
                spec_content_area(),
                r.widgets@,
            ),
    {
        let area = content_area();
        let rendered = match self.state {
            PhoneState::Homepage => self.render_app_list(area),
            PhoneState::InApp(k) => self.apps[k].render(&self.phone_data.keyboard, area),
        };
        match &self.phone_data.keyboard {
            Some(kb) => match rendered.events {
                EventType::List(mut events) => {
                    let mut keys = kb.render(&self.keyboard_tables);
                    events.append(&mut keys);
                    Rendered { widgets: rendered.widgets, events: EventType::List(events) }
                },
                EventType::Auto(e) => Rendered { widgets: rendered.widgets, events: EventType::Auto(e) },
            },
            None => rendered,
        }
    }

    /// Hands `event` to the active screen; on the home page nothing happens.
    fn route_to_active(&mut self, event: &AppEvent) -> (request: Option<WifiRequest>)
        requires
            old(self).wf(),
        ensures
            final(self).wf(),
            routed(*old(self), *final(self), *event, request),
    {
        match self.state {
            PhoneState::InApp(k) => self.apps[k].handle_event(&mut self.phone_data, event),
            PhoneState::Homepage => None,
        }
    }

    /// Dispatches a press on cell `touch` against the regions of the frame,
    /// and returns the work asked of the host.
    pub fn handle_touch(&mut self, touch: Position, clickable_areas: &Vec<ClickableArea>) -> (r:
        Result<Option<WifiRequest>, StateError>)
        requires
            old(self).wf(),
        ensures
            final(self).wf(),
            touched(*old(self), *final(self), touch, clickable_areas@, r),
    {
        match first_hit(clickable_areas, touch) {
            None => Ok(None),
            Some(i) => {
                let event = clickable_areas[i].1;
                match event {
                    AppEvent::Core(c) => {
                        let target = match c {
                            CoreEvent::GoBackToHomepage => PhoneState::Homepage,
                            CoreEvent::LaunchApp(k) => PhoneState::InApp(k),
                        };
                        match self.navigate(target) {
                            Ok(()) => Ok(None),
                            Err(e) => Err(e),
                        }
                    },
                    AppEvent::Keyboard(k) => {
                        match &mut self.phone_data.keyboard {
                            Some(kb) => kb.handle_event(&k),
                            None => {},
                        }
                        Ok(None)
                    },
                    AppEvent::Wifi(_) => Ok(self.route_to_active(&event)),
                }
            },
        }
    }

    /// Dispatches an event that the active screen asked for at once, and
    /// returns the work asked of the host.
    pub fn handle_auto_event(&mut self, event: &AppEvent) -> (request: Option<WifiRequest>)
        requires
            old(self).wf(),
        ensures
            final(self).wf(),
            routed(*old(self), *final(self), *event, request),
    {
        self.route_to_active(event)
    }

    /// One tick of the main loop. With no event set nothing happens. An
    /// automatic event is dispatched at once and the queue is left alone.
    /// Otherwise one batch is drained without waiting; if its first point is
    /// a press, it is dispatched against the regions. The work asked of the
    /// host is returned; a launch of an unregistered screen is refused.
    pub fn tick(&mut self, events: &Option<EventType>, queue: &mut TouchQueue) -> (r: Result<
        Option<WifiRequest>,
        StateError,
    >)
        requires
            old(self).wf(),
        ensures
            final(self).wf(),
            queue_bound(*final(queue)) == queue_bound(*old(queue)),
            match *events {
                None => *final(self) == *old(self) && queued_batches(*final(queue)) == queued_batches(
                    *old(queue),
                ) && r == Ok::<Option<WifiRequest>, StateError>(None),
                Some(EventType::Auto(e)) => {
                    &&& queued_batches(*final(queue)) == queued_batches(*old(queue))
                    &&& r matches Ok(q) && routed(*old(self), *final(self), e, q)
                },
                Some(EventType::List(areas)) => {
                    let pending = queued_batches(*old(queue));
                    &&& pending.len() == 0 ==> queued_batches(*final(queue)) == pending
                        && *final(self) == *old(self) && r == Ok::<
                        Option<WifiRequest>,
                        StateError,
                    >(None)
                    &&& pending.len() > 0 ==> queued_batches(*final(queue)) == pending.drop_first()
                    &&& pending.len() > 0 && touch_cell(pending[0]).is_none() ==> *final(self)
                        == *old(self) && r == Ok::<Option<WifiRequest>, StateError>(None)
                    &&& pending.len() > 0 && touch_cell(pending[0]) is Some ==> touched(
                        *old(self),
                        *final(self),
                        touch_cell(pending[0])->0,
                        areas@,
                        r,
                    )
                },
            },
    {
        match events {
            None => Ok(None),
            Some(EventType::Auto(e)) => Ok(self.handle_auto_event(e)),
            Some(EventType::List(areas)) => match queue.drain() {
                None => Ok(None),
                Some(touches) => match self.format_touches(&touches) {
                    None => Ok(None),
                    Some(p) => self.handle_touch(p, areas),
                },
            },
        }
    }

    /// Hands the access points of a finished scan to the active screen.
    pub fn complete_scan(&mut self, access_points: Vec<AccessPoint>)
        requires
            old(self).wf(),
        ensures
            final(self).wf(),
            final(self).state == old(self).state,
            final(self).phone_data == old(self).phone_data,
            final(self).apps@.len() == old(self).apps@.len(),
            old(self).state matches PhoneState::InApp(k) ==> {
                &&& final(self).apps@ == old(self).apps@.update(k as int, final(self).apps@[k as int])
                &&& old(self).apps@[k as int] matches App::Wifi(w) ==> (final(self).apps@[k as int] matches App::Wifi(w2)
                    && w2.state == WifiAppState::DisplayingNetworks
                    && w2.access_points == access_points && w2.known_wifis == w.known_wifis)
            },
            old(self).state == PhoneState::Homepage ==> final(self).apps == old(self).apps,
    {
        match self.state {
            PhoneState::InApp(k) => match &mut self.apps[k] {
                App::Wifi(w) => w.scan_finished(access_points),
            },
            PhoneState::Homepage => {},
        }
    }

    /// After a successful connection with `joined`, the active screen keeps
    /// the credentials and starts over, and the device returns to the home
    /// page.
    pub fn complete_connect(&mut self, joined: KnownWifi)
        requires
            old(self).wf(),
        ensures
            final(self).wf(),
            final(self).apps@.len() == old(self).apps@.len(),
            final(self).phone_data.has_wifi == old(self).phone_data.has_wifi,
            final(self).phone_data.wifi_state == old(self).phone_data.wifi_state,
            final(self).phone_data.has_ntp == old(self).phone_data.has_ntp,
            old(self).state matches PhoneState::InApp(k) ==> {
                &&& final(self).state == PhoneState::Homepage
                &&& final(self).phone_data.keyboard.is_none()
                &&& final(self).apps@ == old(self).apps@.update(k as int, final(self).apps@[k as int])
                &&& old(self).apps@[k as int] matches App::Wifi(w) ==> (final(self).apps@[k as int] matches App::Wifi(w2)
                    && w2.state == WifiAppState::Scanning
                    && w2.access_points@.len() == 0 && w2.known_wifis@ == w.known_wifis@.push(joined))
            },
            old(self).state == PhoneState::Homepage ==> *final(self) == *old(self),
    {
        match self.state {
            PhoneState::InApp(k) => {
                match &mut self.apps[k] {
                    App::Wifi(w) => {
                        w.connect_finished(&mut self.phone_data, joined);
                    },
                }
                self.state = PhoneState::Homepage;
            },
            PhoneState::Homepage => {},
        }
    }

    /// What the clock service needs when the network state read from the
    /// radio is `observed`: nothing if it did not change; to start if a
    /// connection came up and no clock runs; to stop otherwise.
    pub fn observe_wifi(&self, observed: &WifiState) -> (a: NtpAction)
        ensures
            self.phone_data.wifi_state.same(*observed) ==> a == NtpAction::Keep,
            !self.phone_data.wifi_state.same(*observed) ==> a == if observed is Connected
                && !self.phone_data.has_ntp {
                NtpAction::Start
            } else {
                NtpAction::Stop
            },
    {
        if self.phone_data.wifi_state == *observed {
            return NtpAction::Keep;
        }
        match observed {
            WifiState::Connected(_) => if self.phone_data.has_ntp {
                NtpAction::Stop
            } else {
                NtpAction::Start
            },
            _ => NtpAction::Stop,
        }
    }

    /// Records the network state, once the clock action was carried out.
    pub fn apply_wifi_state(&mut self, observed: WifiState, action: NtpAction)
        ensures
            final(self).phone_data.wifi_state == observed,
            final(self).phone_data.has_ntp == match action {
                NtpAction::Keep => old(self).phone_data.has_ntp,
                NtpAction::Start => true,
                NtpAction::Stop => false,
            },
            final(self).phone_data.has_wifi == old(self).phone_data.has_wifi,
            final(self).phone_data.keyboard == old(self).phone_data.keyboard,
            final(self).state == old(self).state,
            final(self).apps == old(self).apps,
            final(self).keyboard_tables == old(self).keyboard_tables,
            final(self).should_wait_touch == old(self).should_wait_touch,
    {
        match action {
            NtpAction::Keep => {},
            NtpAction::Start => self.phone_data.has_ntp = true,
            NtpAction::Stop => self.phone_data.has_ntp = false,
        }
        self.phone_data.wifi_state = observed;
    }

    /// The title of the status bar: the device's name on the home page, the
    /// active screen's name otherwise.
    pub fn state_title(&self) -> (t: &'static str)
        requires
            self.wf(),
        ensures
            self.state == PhoneState::Homepage ==> t@ == "PhoneOS"@,
            self.state matches PhoneState::InApp(k) ==> t@ == self.apps@[k as int].spec_name(),
    {
        match self.state {
            PhoneState::Homepage => "PhoneOS",
            PhoneState::InApp(k) => self.apps[k].app_name(),
        }
    }
}

/// With a go-back region first and a key region second, a press inside
/// the key's region only takes the keyboard path: no work for the host,
/// the state kept, and the letter appended to the text.
pub proof fn lemma_key_press_path(
    r1: Rect,
    r2: Rect,
    p: Position,
    before: Phone,
    after: Phone,
    r: Result<Option<WifiRequest>, StateError>,
)
    requires
        !r1.spec_contains(p),
        r2.spec_contains(p),
        before.phone_data.keyboard is Some,
        touched(
            before,
            after,
            p,
            seq![
                ClickableArea(r1, AppEvent::Core(CoreEvent::GoBackToHomepage)),
                ClickableArea(r2, AppEvent::Keyboard(KeyboardEvent::Letter('a'))),
            ],
            r,
        ),
    ensures
        r == Ok::<Option<WifiRequest>, StateError>(None),
        after.state == before.state,
        after.phone_data.keyboard matches Some(k) && k.text@
            == before.phone_data.keyboard->0.text@.push('a'),
{
    let areas = seq![
        ClickableArea(r1, AppEvent::Core(CoreEvent::GoBackToHomepage)),
        ClickableArea(r2, AppEvent::Keyboard(KeyboardEvent::Letter('a'))),
    ];
    assert(is_first_hit(areas, p, Some(1usize)));
    lemma_first_hit_unique(areas, p, Some(1usize));
}

/// From the home page, launching screen 0 leads into it when one is
/// registered; going back leads to the home page from any state; a
/// screen index outside the registry is refused, never clamped.
pub proof fn lemma_navigation(state: PhoneState, n: nat, k: usize)
    ensures
        n > 0 ==> navigated(
            PhoneState::Homepage,
            core_target(CoreEvent::LaunchApp(0)),
            n,
        ) == Ok::<PhoneState, StateError>(PhoneState::InApp(0)),
        navigated(state, core_target(CoreEvent::GoBackToHomepage), n) == Ok::<
            PhoneState,
            StateError,
        >(PhoneState::Homepage),
        k >= n ==> navigated(state, PhoneState::InApp(k), n) == Err::<PhoneState, StateError>(
            StateError::NoSuchApp(k),
        ),
{
}

/// A press whose first region launches a screen outside the registry is
/// refused at once: the dispatch fails with that index and nothing changes.
pub proof fn lemma_unknown_launch_refused(
    before: Phone,
    after: Phone,
    p: Position,
    areas: Seq<ClickableArea>,
    i: usize,
    k: usize,
    r: Result<Option<WifiRequest>, StateError>,
)
    requires
        is_first_hit(areas, p, Some(i)),
        areas[i as int].1 == AppEvent::Core(CoreEvent::LaunchApp(k)),
        k >= before.apps@.len(),
        touched(before, after, p, areas, r),
    ensures
        r == Err::<Option<WifiRequest>, StateError>(StateError::NoSuchApp(k)),
        after == before,
{
    lemma_first_hit_unique(areas, p, Some(i));
}

/// On the home page, a press inside the button of a network-settings
/// screen that is about to scan moves into that screen, and the next frame
/// dispatches a scan at once instead of waiting for a touch.
pub proof fn lemma_launch_then_scan(
    before: Phone,
    after: Phone,
    p: Position,
    i: usize,
    r: Result<Option<WifiRequest>, StateError>,
)
    requires
        before.wf(),
        before.state == PhoneState::Homepage,
        i < before.apps@.len(),
        3 * before.apps@.len() + 2 <= u16::MAX,
        entry_rect(spec_content_area(), 0, i as int).spec_contains(p),
        before.apps@[i as int] matches App::Wifi(w) && w.state == WifiAppState::Scanning,
        touched(before, after, p, before.spec_regions(), r),
    ensures
        after.state == PhoneState::InApp(i),
        r == Ok::<Option<WifiRequest>, StateError>(None),
        after.spec_auto() == Some(AppEvent::Wifi(WifiEvent::Scan)),
{
    let n = before.apps@.len();
    let buttons = app_list_regions(spec_content_area(), n);
    let areas = before.spec_regions();
    assert forall|j: int| 0 <= j < i implies !(#[trigger] areas[j].0.spec_contains(p)) by {
        assert(areas[j] == buttons[j]);
    }
    assert(areas[i as int] == buttons[i as int]);
    assert(is_first_hit(areas, p, Some(i)));
    lemma_first_hit_unique(areas, p, Some(i));
}

} // verus!
