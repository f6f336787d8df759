//! The network-settings screen: scanning, choosing an access point, typing
//! its password and connecting.

use vstd::prelude::*;
use embedded_svc::wifi::AuthMethod;
use crate::events::{lists, AppEvent, ClickableArea, CoreEvent, EventType, PhoneState};
use crate::geometry::Rect;
use crate::keyboard::{Keyboard, KeyboardLayout};
use crate::phone::PhoneData;
use crate::ui::{
    area_ok, entry_rect, inner_row, make_inner_row, stacked_entries, BorderedButton, Rendered,
    Widget,
};

verus! {

#[verifier::external_type_specification]
pub struct ExAuthMethod(embedded_svc::wifi::AuthMethod);

/// Relies on the `Clone` impl that enumset's `EnumSetType` derive writes for
/// `AuthMethod`, which copies the value.
pub assume_specification[ <embedded_svc::wifi::AuthMethod as Clone>::clone ](
    a: &embedded_svc::wifi::AuthMethod,
) -> (r: embedded_svc::wifi::AuthMethod)
    ensures
        r == *a,
;

/// Relies on `Option::unwrap_or_default` and on `AuthMethod`'s `Default`,
/// which is `WPA2Personal`.
#[verifier::external_body]
fn auth_or_default(a: Option<AuthMethod>) -> (r: AuthMethod)
    ensures
        r == match a {
            Some(m) => m,
            None => AuthMethod::WPA2Personal,
        },
{
    a.unwrap_or_default()
}

/// Title of the screen on the home page and in the status bar.
pub const WIFI_APP_NAME: &'static str = "WiFi settings";

#[derive(Debug, Clone, Copy, PartialEq, Eq, Structural)]
pub enum WifiAppState {
    Scanning,
    DisplayingNetworks,
    TypingPassword(usize),
}

/// Events of the network-settings screen.
#[derive(Debug, Clone, Copy, PartialEq, Eq, Structural)]
pub enum WifiEvent {
    Scan,
    DisplayNetworks,
    TypePassword(usize),
    Connect(usize),
}

/// An access point found by a scan.
#[derive(Debug, Clone)]
pub struct AccessPoint {
    pub ssid: String,
    pub bssid: [u8; 6],
    pub channel: u8,
    pub auth_method: Option<AuthMethod>,
}

/// The credentials of a network to join.
#[derive(Debug, Clone)]
pub struct KnownWifi {
    pub ssid: String,
    pub password: String,
    pub bssid: Option<[u8; 6]>,
    pub auth_method: AuthMethod,
    pub channel: Option<u8>,
}

/// Network work that the screen asks of its host.
#[derive(Debug, Clone)]
pub enum WifiRequest {
    /// Scan for access points, then report them with `scan_finished`.
    Scan,
    /// Configure this network and connect, then report success with
    /// `connect_finished`.
    Connect(KnownWifi),
}

/// The credentials for joining access point `ap` with `password`.
pub open spec fn credential_for(k: KnownWifi, ap: AccessPoint, password: Seq<char>) -> bool {
    &&& k.ssid@ == ap.ssid@
    &&& k.password@ == password
    &&& k.bssid == Some(ap.bssid)
    &&& k.channel == Some(ap.channel)
    &&& k.auth_method == match ap.auth_method {
        Some(m) => m,
        None => AuthMethod::WPA2Personal,
    }
}

/// The text typed on the keyboard, empty when none is shown.
pub open spec fn typed_text(k: Option<Keyboard>) -> Seq<char> {
    match k {
        Some(kb) => kb.text@,
        None => Seq::empty(),
    }
}

/// The row holding the link back.
pub open spec fn go_back_rect(area: Rect) -> Rect {
    Rect { x: area.x, y: area.y, width: area.width, height: 1 }
}

/// The pairs (access point, known network) whose names agree, access point
/// by access point and then in the order of the known networks; each is given
/// by the known network's index.
pub open spec fn joins(aps: Seq<Seq<char>>, known: Seq<Seq<char>>) -> Seq<usize>
    decreases aps.len(),
{
    if aps.len() == 0 {
        Seq::empty()
    } else {
        joins(aps.drop_last(), known) + matching(aps.last(), known)
    }
}

/// The indices of the known networks named `ssid`, in order.
pub open spec fn matching(ssid: Seq<char>, known: Seq<Seq<char>>) -> Seq<usize>
    decreases known.len(),
{
    if known.len() == 0 {
        Seq::empty()
    } else if known.last() == ssid {
        matching(ssid, known.drop_last()).push((known.len() - 1) as usize)
    } else {
        matching(ssid, known.drop_last())
    }
}

/// The names of a list of access points.
pub open spec fn ap_names(aps: Seq<AccessPoint>) -> Seq<Seq<char>> {
    aps.map_values(|a: AccessPoint| a.ssid@)
}

/// The names of a list of known networks.
pub open spec fn known_names(known: Seq<KnownWifi>) -> Seq<Seq<char>> {
    known.map_values(|k: KnownWifi| k.ssid@)
}

/// What handling `event` does to the screen and the shared data, and what
/// it asks of the host.
pub open spec fn handled(
    before: WifiApp,
    after: WifiApp,
    data_before: PhoneData,
    data_after: PhoneData,
    event: WifiEvent,
    r: Option<WifiRequest>,
) -> bool {
    &&& after.wf()
    &&& data_after.has_wifi == data_before.has_wifi
    &&& data_after.wifi_state == data_before.wifi_state
    &&& data_after.has_ntp == data_before.has_ntp
    &&& after.access_points == before.access_points
    &&& event == WifiEvent::Scan ==> (r matches Some(WifiRequest::Scan) && after == before && data_after.keyboard == data_before.keyboard)
    &&& event == WifiEvent::DisplayNetworks ==> {
        &&& r.is_none()
        &&& after.state == WifiAppState::DisplayingNetworks
        &&& after.known_wifis == before.known_wifis
        &&& data_after.keyboard.is_none()
    }
    &&& event matches WifiEvent::TypePassword(i) ==> {
        &&& r.is_none()
        &&& after.known_wifis == before.known_wifis
        &&& i < before.access_points@.len() ==> (data_after.keyboard matches Some(k)
            && k.is_fresh(KeyboardLayout::Azerty, true) && after.state
            == WifiAppState::TypingPassword(i))
        &&& i >= before.access_points@.len() ==> after.state == before.state
            && data_after.keyboard == data_before.keyboard
    }
    &&& event matches WifiEvent::Connect(i) ==> {
        &&& after == before
        &&& data_before.has_wifi && i < before.access_points@.len() ==> {
            &&& r matches Some(WifiRequest::Connect(k)) && credential_for(
                k,
                before.access_points@[i as int],
                typed_text(data_before.keyboard),
            )
            &&& data_after.keyboard == data_before.keyboard
        }
        &&& !(data_before.has_wifi && i < before.access_points@.len()) ==> r.is_none()
            && data_after.keyboard.is_none()
    }
}

/// The network-settings screen.
#[derive(Debug, Clone)]
pub struct WifiApp {
    pub state: WifiAppState,
    pub access_points: Vec<AccessPoint>,
    pub known_wifis: Vec<KnownWifi>,
}

impl WifiApp {
    /// A password is typed only for an access point of the last scan.
    pub open spec fn wf(self) -> bool {
        self.state matches WifiAppState::TypingPassword(i) ==> i < self.access_points@.len()
    }

    /// The regions of the screen in its current state, scanning aside.
    pub open spec fn spec_regions(self, area: Rect) -> Seq<ClickableArea> {
        match self.state {
            WifiAppState::Scanning => Seq::empty(),
            WifiAppState::DisplayingNetworks => seq![
                ClickableArea(go_back_rect(area), AppEvent::Core(CoreEvent::GoBackToHomepage)),
            ] + Seq::new(
                self.access_points@.len(),
                |i: int|
                    ClickableArea(
                        entry_rect(area, 4, i),
                        AppEvent::Wifi(WifiEvent::TypePassword(i as usize)),
                    ),
            ),
            WifiAppState::TypingPassword(i) => seq![
                ClickableArea(go_back_rect(area), AppEvent::Wifi(WifiEvent::DisplayNetworks)),
                ClickableArea(inner_row(area, 7, 3), AppEvent::Wifi(WifiEvent::Connect(i))),
            ],
        }
    }

    /// What the screen draws in `area`: a note while scanning; the link
    /// back, a title and one button per access point while listing; the link
    /// back, the network's name, the typed password and a connect button
    /// while typing.
    pub open spec fn spec_widgets(self, keyboard: Option<Keyboard>, area: Rect, widgets: Seq<Widget>) -> bool {
        &&& self.state == WifiAppState::Scanning ==> widgets.len() == 1 && (widgets[0] matches Widget::Note(
            rect,
            text,
        ) && rect == inner_row(area, 2, 1) && text@ == "Scanning..."@)
        &&& self.state matches WifiAppState::TypingPassword(i) ==> {
            &&& widgets.len() == 4
            &&& widgets[0] == Widget::Back(go_back_rect(area))
            &&& widgets[1] matches Widget::Title(rect, text) && rect == inner_row(area, 2, 1)
                && text@ == self.access_points@[i as int].ssid@
            &&& widgets[2] matches Widget::Field(rect, text) && rect == inner_row(area, 4, 3)
                && text@ == typed_text(keyboard)
            &&& widgets[3] matches Widget::Button(rect, BorderedButton(label)) && rect
                == inner_row(area, 7, 3) && label@ == "Connect"@
        }
        &&& self.state == WifiAppState::DisplayingNetworks ==> {
            &&& widgets.len() == 2 + self.access_points@.len()
            &&& widgets[0] == Widget::Back(go_back_rect(area))
            &&& widgets[1] matches Widget::Title(rect, text) && rect == inner_row(area, 2, 1)
                && text@ == "Access points"@
            &&& forall|i: int|
                0 <= i < self.access_points@.len() ==> (#[trigger] widgets[2 + i] matches Widget::Button(
                    rect,
                    BorderedButton(label),
                ) && rect == entry_rect(area, 4, i) && label@ == self.access_points@[i].ssid@)
        }
    }

    /// A screen that scans first and knows the public gateway of the
    /// simulator.
    pub fn new() -> (w: WifiApp)
        ensures
            w.wf(),
            w.state == WifiAppState::Scanning,
            w.access_points@.len() == 0,
            w.known_wifis@.len() == 1,
            w.known_wifis@[0].ssid@ == "Wokwi-GUEST"@,
            w.known_wifis@[0].password@.len() == 0,
            w.known_wifis@[0].bssid == Some([66u8, 19u8, 55u8, 85u8, 170u8, 1u8]),
            w.known_wifis@[0].auth_method == AuthMethod::None,
            w.known_wifis@[0].channel == Some(6u8),
    {
        let gateway = KnownWifi {
            ssid: "Wokwi-GUEST".to_owned(),
            password: String::new(),
            bssid: Some([66u8, 19u8, 55u8, 85u8, 170u8, 1u8]),
            auth_method: AuthMethod::None,
            channel: Some(6u8),
        };
        WifiApp { state: WifiAppState::Scanning, access_points: Vec::new(), known_wifis: vec![gateway] }
    }

    pub fn app_name(&self) -> (name: &'static str)
        ensures
            name@ == WIFI_APP_NAME@,
    {
        WIFI_APP_NAME
    }

    /// What to draw in `area` and the regions to wait on; while scanning,
    /// the screen asks for a scan at once instead of waiting for a touch.
    pub fn render(&self, keyboard: &Option<Keyboard>, area: Rect) -> (r: Rendered)
        requires
            self.wf(),
            area_ok(area),
        ensures
            self.state == WifiAppState::Scanning ==> r.events == EventType::Auto(
                AppEvent::Wifi(WifiEvent::Scan),
            ),
            self.state != WifiAppState::Scanning ==> lists(r.events, self.spec_regions(area)),
            self.spec_widgets(*keyboard, area, r.widgets@),
    {
        let go_back = Rect { x: area.x, y: area.y, width: area.width, height: 1 };
        match self.state {
            WifiAppState::Scanning => {
                let widgets = vec![Widget::Note(make_inner_row(area, 2, 1), "Scanning...".to_owned())];
                Rendered { widgets, events: EventType::Auto(AppEvent::Wifi(WifiEvent::Scan)) }
            },
            WifiAppState::DisplayingNetworks => {
                let mut widgets = vec![
                    Widget::Back(go_back),
                    Widget::Title(make_inner_row(area, 2, 1), "Access points".to_owned()),
                ];
                let mut events = vec![
                    ClickableArea(go_back, AppEvent::Core(CoreEvent::GoBackToHomepage)),
                ];
                let n = self.access_points.len();
                let rects = stacked_entries(area, 4, n);
                let ghost expected = self.spec_regions(area);
                let mut i: usize = 0;
                while i < n
                    invariant
                        n == self.access_points@.len(),
                        rects@.len() == n,
                        forall|j: int| 0 <= j < n ==> #[trigger] rects@[j] == entry_rect(area, 4, j),
                        self.state == WifiAppState::DisplayingNetworks,
                        expected == self.spec_regions(area),
                        i <= n,
                        events@.len() == 1 + i,
                        widgets@.len() == 2 + i,
                        widgets@[0] == Widget::Back(go_back_rect(area)),
                        widgets@[1] matches Widget::Title(rect, text) && rect == inner_row(area, 2, 1)
                            && text@ == "Access points"@,
                        forall|j: int| 0 <= j < 1 + i ==> #[trigger] events@[j] == expected[j],
                        forall|j: int|
                            0 <= j < i ==> (#[trigger] widgets@[2 + j] matches Widget::Button(
                                rect,
                                BorderedButton(label),
                            ) && rect == entry_rect(area, 4, j) && label@
                                == self.access_points@[j].ssid@),
                    decreases n - i,
                {
                    let rect = rects[i];
                    widgets.push(
                        Widget::Button(rect, BorderedButton(self.access_points[i].ssid.clone())),
                    );
                    events.push(ClickableArea(rect, AppEvent::Wifi(WifiEvent::TypePassword(i))));
                    i = i + 1;
                }
                assert(events@ =~= expected);
                Rendered { widgets, events: EventType::List(events) }
            },
            WifiAppState::TypingPassword(index) => {
                let text = match keyboard {
                    Some(k) => k.text.clone(),
                    None => String::new(),
                };
                let connect = make_inner_row(area, 7, 3);
                let widgets = vec![
                    Widget::Back(go_back),
                    Widget::Title(make_inner_row(area, 2, 1), self.access_points[index].ssid.clone()),
                    Widget::Field(make_inner_row(area, 4, 3), text),
                    Widget::Button(connect, BorderedButton("Connect".to_owned())),
                ];
                let events = vec![
                    ClickableArea(go_back, AppEvent::Wifi(WifiEvent::DisplayNetworks)),
                    ClickableArea(connect, AppEvent::Wifi(WifiEvent::Connect(index))),
                ];
                assert(events@ =~= self.spec_regions(area));
                Rendered { widgets, events: EventType::List(events) }
            },
        }
    }

    /// Handles an event of the screen. Scanning and connecting are asked of
    /// the host, which reports back with `scan_finished` and
    /// `connect_finished`; until then the screen is unchanged. An index
    /// outside the last scan is ignored.
    pub fn handle_event(&mut self, phone_data: &mut PhoneData, event: &WifiEvent) -> (r: Option<
        WifiRequest,
    >)
        requires
            old(self).wf(),
        ensures
            handled(*old(self), *final(self), *old(phone_data), *final(phone_data), *event, r),
    {
        match event {
            WifiEvent::Scan => Some(WifiRequest::Scan),
            WifiEvent::DisplayNetworks => {
                self.state = WifiAppState::DisplayingNetworks;
                phone_data.hide_keyboard();
                None
            },
            WifiEvent::TypePassword(index) => {
                if *index < self.access_points.len() {
                    self.state = WifiAppState::TypingPassword(*index);
                    phone_data.display_keyboard(KeyboardLayout::Azerty, true);
                }
                None
            },
            WifiEvent::Connect(index) => {
                if phone_data.has_wifi && *index < self.access_points.len() {
                    let password = match &phone_data.keyboard {
                        Some(k) => k.text.clone(),
                        None => String::new(),
                    };
                    Some(WifiRequest::Connect(credential(&self.access_points[*index], &password)))
                } else {
                    phone_data.hide_keyboard();
                    None
                }
            },
        }
    }

    /// Takes the access points that a scan found and lists them.
    pub fn scan_finished(&mut self, access_points: Vec<AccessPoint>)
        ensures
            final(self).wf(),
            final(self).state == WifiAppState::DisplayingNetworks,
            final(self).access_points == access_points,
            final(self).known_wifis == old(self).known_wifis,
    {
        self.access_points = access_points;
        self.state = WifiAppState::DisplayingNetworks;
    }

    /// After a successful connection with `joined`, the credentials are
    /// kept, the keyboard is dismissed, the screen starts over with a scan
    /// and the device returns to the home page.
    pub fn connect_finished(&mut self, phone_data: &mut PhoneData, joined: KnownWifi) -> (r: Option<
        PhoneState,
    >)
        ensures
            final(self).wf(),
            final(self).state == WifiAppState::Scanning,
            final(self).access_points@.len() == 0,
            final(self).known_wifis@ == old(self).known_wifis@.push(joined),
            final(phone_data).keyboard.is_none(),
            final(phone_data).has_wifi == old(phone_data).has_wifi,
            final(phone_data).wifi_state == old(phone_data).wifi_state,
            final(phone_data).has_ntp == old(phone_data).has_ntp,
            r == Some(PhoneState::Homepage),
    {
        self.known_wifis.push(joined);
        phone_data.hide_keyboard();
        self.state = WifiAppState::Scanning;
        self.access_points = Vec::new();
        Some(PhoneState::Homepage)
    }

    /// The known networks to join after a scan, as indices into
    /// `known_wifis`: for each access point in turn, each known network of
    /// the same name.
    pub fn known_to_join(&self) -> (r: Vec<usize>)
        ensures
            r@ == joins(ap_names(self.access_points@), known_names(self.known_wifis@)),
    {
        let ghost aps = ap_names(self.access_points@);
        let ghost known = known_names(self.known_wifis@);
        let mut r: Vec<usize> = Vec::new();
        let mut i: usize = 0;
        while i < self.access_points.len()
            invariant
                aps == ap_names(self.access_points@),
                known == known_names(self.known_wifis@),
                i <= self.access_points@.len(),
                r@ == joins(aps.take(i as int), known),
            decreases self.access_points.len() - i,
        {
            let ssid = &self.access_points[i].ssid;
            let ghost before = r@;
            let mut j: usize = 0;
            while j < self.known_wifis.len()
                invariant
                    aps == ap_names(self.access_points@),
                    known == known_names(self.known_wifis@),
                    i < self.access_points@.len(),
                    *ssid == self.access_points@[i as int].ssid,
                    j <= self.known_wifis@.len(),
                    before == joins(aps.take(i as int), known),
                    r@ == before + matching(ssid@, known.take(j as int)),
                decreases self.known_wifis.len() - j,
            {
                assert(known.take(j + 1).drop_last() =~= known.take(j as int));
                if *ssid == self.known_wifis[j].ssid {
                    r.push(j);
                    assert(r@ =~= before + matching(ssid@, known.take(j + 1)));
                }
                j = j + 1;
            }
            assert(known.take(self.known_wifis@.len() as int) =~= known);
            assert(aps.take(i + 1).drop_last() =~= aps.take(i as int));
            assert(r@ =~= joins(aps.take(i + 1), known));
            i = i + 1;
        }
        assert(aps.take(self.access_points@.len() as int) =~= aps);
        r
    }
}

/// The credentials for joining `ap` with `password`.
fn credential(ap: &AccessPoint, password: &String) -> (k: KnownWifi)
    ensures
        credential_for(k, *ap, password@),
{
    KnownWifi {
        ssid: ap.ssid.clone(),
        password: password.clone(),
        bssid: Some(ap.bssid),
        auth_method: auth_or_default(ap.auth_method),
        channel: Some(ap.channel),
    }
}

} // verus!
