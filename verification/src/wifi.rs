//! WiFi connection management: the connect / reconnect state machine, the
//! IP-readiness monitor, and what happens when credentials are stored.
use crate::display;
use crate::display::{DisplayState, WifiStatus};
use crate::text;
use crate::wifi_config;
use crate::wifi_config::{RadioMode, WifiCredentials};
use vstd::prelude::*;
use vstd::utf8::*;

verus! {

/// Default credentials of a build.
#[derive(Debug, Clone, Copy)]
pub struct WifiDefaults {
    pub ssid: &'static str,
    pub password: &'static str,
}

/// The default SSID of a build (for display init, etc.).
pub fn default_ssid(defaults: &WifiDefaults) -> (r: &'static str)
    ensures
        r == defaults.ssid,
{
    defaults.ssid
}

/// Model of credentials: SSID and password.
pub type Login = (Seq<char>, Seq<char>);

/// `s` where its bytes fit into `max`, the empty text otherwise.
pub open spec fn fitting(s: Seq<char>, max: int) -> Seq<char> {
    if encode_utf8(s).len() <= max {
        s
    } else {
        Seq::empty()
    }
}

/// The credentials used where none are stored.
pub open spec fn default_login(d: WifiDefaults) -> Login {
    (
        fitting(d.ssid@, wifi_config::MAX_SSID_LEN as int),
        fitting(d.password@, wifi_config::MAX_PASSWORD_LEN as int),
    )
}

// -- Connection --------------------------------------------------------------

/// Where the connection task stands.
#[derive(Debug, Clone, Copy, PartialEq, Eq, Structural)]
pub enum LinkStep {
    /// Stored credentials may still arrive.
    AwaitStored,
    /// Top of the loop: look for new credentials.
    Poll,
    /// New credentials: is there a connection to give up?
    SwitchQuery,
    /// Give up the connection. `again` says whether the station is looked at
    /// once more afterwards.
    SwitchDisconnect { again: bool },
    /// Let the disconnect settle.
    SwitchDisconnected { again: bool },
    /// Is the radio running?
    SwitchStarted { again: bool },
    /// Stop it for reconfiguration.
    SwitchStop { again: bool },
    /// Let the stop settle.
    SwitchStopped { again: bool },
    /// Is there a connection?
    Query,
    /// Connected: wait until the link is lost or new credentials come.
    AwaitChange,
    /// The link is lost: wait before reconnecting.
    Lost,
    /// Is the radio running?
    CheckStarted,
    /// Configure the radio.
    Configure,
    /// Start the radio.
    Start,
    /// Begin to connect.
    Connect,
    /// A connection attempt is under way.
    Connecting,
    /// Have new credentials come during the attempt?
    CheckPending,
    /// The attempt has failed: wait before the next one.
    Failed,
}

/// What the connection task asks for next.
#[derive(Debug)]
pub enum LinkAction {
    /// Wait for credentials, no longer than `ms`.
    AwaitCredentials { ms: u32 },
    /// Take the credentials that have been signalled, if any.
    PollCredentials,
    /// Say whether the station is connected.
    QueryConnected,
    /// Say whether the radio is known to be started.
    QueryStarted,
    Disconnect,
    Stop,
    Sleep { ms: u32 },
    /// Wait until the link is lost or credentials are signalled.
    AwaitChange,
    Configure { ssid: String, password: String },
    Start,
    /// Begin a connection attempt and wait for it, no longer than `ms`.
    Connect { ms: u32 },
    /// Go on waiting for the attempt, no longer than `ms`.
    KeepConnecting { ms: u32 },
    /// Say whether credentials have been signalled. When they have, the attempt
    /// is dropped.
    CheckPending,
}

/// What came of a [`LinkAction`].
#[derive(Debug)]
pub enum LinkEvent {
    Credentials(WifiCredentials),
    NoCredentials,
    Elapsed,
    /// Answer to a question.
    Answer(bool),
    /// The action has been carried out.
    Done,
    LinkLost,
    ConnectOk,
    ConnectFailed,
}

/// Model of a [`LinkEvent`].
pub enum LinkEventView {
    Credentials(Login),
    NoCredentials,
    Elapsed,
    Answer(bool),
    Done,
    LinkLost,
    ConnectOk,
    ConnectFailed,
}

impl View for LinkEvent {
    type V = LinkEventView;

    open spec fn view(&self) -> LinkEventView {
        match self {
            LinkEvent::Credentials(c) => LinkEventView::Credentials(c@),
            LinkEvent::NoCredentials => LinkEventView::NoCredentials,
            LinkEvent::Elapsed => LinkEventView::Elapsed,
            LinkEvent::Answer(b) => LinkEventView::Answer(*b),
            LinkEvent::Done => LinkEventView::Done,
            LinkEvent::LinkLost => LinkEventView::LinkLost,
            LinkEvent::ConnectOk => LinkEventView::ConnectOk,
            LinkEvent::ConnectFailed => LinkEventView::ConnectFailed,
        }
    }
}

/// Model of [`WifiLink`].
pub struct LinkView {
    pub step: LinkStep,
    /// Credentials to use.
    pub login: Login,
    /// Credentials that the radio was last configured with.
    pub configured: Option<Login>,
    /// Whether the radio has to be configured before the next attempt.
    pub needs_reconfigure: bool,
    /// Progress dots.
    pub dots: u8,
}

impl LinkView {
    pub open spec fn at(self, step: LinkStep) -> LinkView {
        LinkView { step, ..self }
    }

    /// New credentials are taken over at `step`.
    pub open spec fn switched(self, login: Login, step: LinkStep) -> LinkView {
        LinkView { step, login, needs_reconfigure: true, ..self }
    }

    /// The radio is made ready: configured where that is due, started where it
    /// is not running.
    pub open spec fn readied(self) -> LinkView {
        if self.needs_reconfigure {
            self.at(LinkStep::Configure)
        } else {
            self.at(LinkStep::CheckStarted)
        }
    }

    /// The switch to other credentials is through.
    pub open spec fn resumed(self, again: bool) -> LinkView {
        if again {
            self.at(LinkStep::Query)
        } else {
            self.readied()
        }
    }

    /// Where `event` leads. An event that does not answer the pending action
    /// changes nothing.
    pub open spec fn after(self, event: LinkEventView) -> LinkView {
        match (self.step, event) {
            (LinkStep::AwaitStored, LinkEventView::Credentials(login)) => LinkView {
                step: LinkStep::Poll,
                login,
                ..self
            },
            (LinkStep::AwaitStored, LinkEventView::Elapsed) => self.at(LinkStep::Poll),
            (LinkStep::Poll, LinkEventView::Credentials(login)) => if login != self.login {
                self.switched(login, LinkStep::SwitchQuery)
            } else {
                self.at(LinkStep::Query)
            },
            (LinkStep::Poll, LinkEventView::NoCredentials) => self.at(LinkStep::Query),
            (LinkStep::SwitchQuery, LinkEventView::Answer(connected)) => if connected {
                self.at(LinkStep::SwitchDisconnect { again: true })
            } else {
                self.at(LinkStep::SwitchStarted { again: true })
            },
            (LinkStep::SwitchDisconnect { again }, LinkEventView::Done) => self.at(
                LinkStep::SwitchDisconnected { again },
            ),
            (LinkStep::SwitchDisconnected { again }, LinkEventView::Elapsed) => self.at(
                LinkStep::SwitchStarted { again },
            ),
            (LinkStep::SwitchStarted { again }, LinkEventView::Answer(started)) => if started {
                self.at(LinkStep::SwitchStop { again })
            } else {
                self.resumed(again)
            },
            (LinkStep::SwitchStop { again }, LinkEventView::Done) => self.at(
                LinkStep::SwitchStopped { again },
            ),
            (LinkStep::SwitchStopped { again }, LinkEventView::Elapsed) => self.resumed(again),
            (LinkStep::Query, LinkEventView::Answer(connected)) => if connected {
                self.at(LinkStep::AwaitChange)
            } else {
                self.readied()
            },
            (LinkStep::AwaitChange, LinkEventView::LinkLost) => self.at(LinkStep::Lost),
            (LinkStep::AwaitChange, LinkEventView::Credentials(login)) => if login != self.login {
                self.switched(login, LinkStep::SwitchDisconnect { again: false })
            } else {
                self.readied()
            },
            (LinkStep::Lost, LinkEventView::Elapsed) => self.readied(),
            (LinkStep::CheckStarted, LinkEventView::Answer(started)) => if started {
                self.at(LinkStep::Connect)
            } else {
                self.at(LinkStep::Configure)
            },
            (LinkStep::Configure, LinkEventView::Done) => LinkView {
                step: LinkStep::Start,
                configured: Some(self.login),
                needs_reconfigure: false,
                ..self
            },
            (LinkStep::Start, LinkEventView::Done) => self.at(LinkStep::Connect),
            (LinkStep::Connect, LinkEventView::ConnectOk) => self.at(LinkStep::Poll),
            (LinkStep::Connect, LinkEventView::ConnectFailed) => self.at(LinkStep::Failed),
            (LinkStep::Connect, LinkEventView::Elapsed) => LinkView {
                step: LinkStep::CheckPending,
                dots: 0,
                ..self
            },
            (LinkStep::Connecting, LinkEventView::ConnectOk) => self.at(LinkStep::Poll),
            (LinkStep::Connecting, LinkEventView::ConnectFailed) => self.at(LinkStep::Failed),
            (LinkStep::Connecting, LinkEventView::Elapsed) => self.at(LinkStep::CheckPending),
            (LinkStep::CheckPending, LinkEventView::Answer(pending)) => if pending {
                self.at(LinkStep::Poll)
            } else {
                LinkView {
                    step: LinkStep::Connecting,
                    dots: ((self.dots + 1) % 4) as u8,
                    ..self
                }
            },
            (LinkStep::Failed, LinkEventView::Elapsed) => self.at(LinkStep::Poll),
            _ => self,
        }
    }

    /// Whether `event` makes the progress dots move on.
    pub open spec fn shows_progress(self, event: LinkEventView) -> bool {
        self.step == LinkStep::CheckPending && event == LinkEventView::Answer(false)
    }

    /// Whether `action` is what is to be done now.
    pub open spec fn asks_for(self, action: LinkAction) -> bool {
        match self.step {
            LinkStep::AwaitStored => action == (LinkAction::AwaitCredentials { ms: 500 }),
            LinkStep::Poll => action is PollCredentials,
            LinkStep::SwitchQuery => action is QueryConnected,
            LinkStep::SwitchDisconnect { .. } => action is Disconnect,
            LinkStep::SwitchDisconnected { .. } => action == (LinkAction::Sleep { ms: 1000 }),
            LinkStep::SwitchStarted { .. } => action is QueryStarted,
            LinkStep::SwitchStop { .. } => action is Stop,
            LinkStep::SwitchStopped { .. } => action == (LinkAction::Sleep { ms: 500 }),
            LinkStep::Query => action is QueryConnected,
            LinkStep::AwaitChange => action is AwaitChange,
            LinkStep::Lost => action == (LinkAction::Sleep { ms: 5000 }),
            LinkStep::CheckStarted => action is QueryStarted,
            LinkStep::Configure => action matches LinkAction::Configure { ssid, password } && (
                ssid@,
                password@,
            ) == self.login,
            LinkStep::Start => action is Start,
            LinkStep::Connect => action == (LinkAction::Connect { ms: 1000 }),
            LinkStep::Connecting => action == (LinkAction::KeepConnecting { ms: 1000 }),
            LinkStep::CheckPending => action is CheckPending,
            LinkStep::Failed => action == (LinkAction::Sleep { ms: 5000 }),
        }
    }

    /// What holds of the connection task at all times: unless the radio has to
    /// be reconfigured it is configured with the current credentials, it is
    /// never asked to connect while it has to be reconfigured, and there are
    /// never more than three dots.
    pub open spec fn inv(self) -> bool {
        &&& self.step == LinkStep::AwaitStored ==> self.needs_reconfigure
        &&& !self.needs_reconfigure ==> self.configured == Some(self.login)
        &&& self.step == LinkStep::CheckStarted || self.step == LinkStep::Start || self.step
            == LinkStep::Connect || self.step == LinkStep::Connecting || self.step
            == LinkStep::CheckPending ==> !self.needs_reconfigure
        &&& self.dots < 4
    }
}

/// The connect / reconnect state machine. It starts with the default
/// credentials, listens for credential changes, and handles disconnect and
/// reconfiguration.
pub struct WifiLink {
    step: LinkStep,
    current: WifiCredentials,
    needs_reconfigure: bool,
    dots: u8,
    configured: Ghost<Option<Login>>,
}

impl View for WifiLink {
    type V = LinkView;

    closed spec fn view(&self) -> LinkView {
        LinkView {
            step: self.step,
            login: self.current@,
            configured: self.configured@,
            needs_reconfigure: self.needs_reconfigure,
            dots: self.dots,
        }
    }
}

fn same_login(a: &WifiCredentials, b: &WifiCredentials) -> (r: bool)
    ensures
        r == (a@ == b@),
{
    text::same(a.ssid_str(), b.ssid_str()) && text::same(a.password_str(), b.password_str())
}

impl WifiLink {
    /// Start with the default credentials of the build.
    pub fn new(defaults: &WifiDefaults) -> (r: WifiLink)
        ensures
            r@ == (LinkView {
                step: LinkStep::AwaitStored,
                login: default_login(*defaults),
                configured: None,
                needs_reconfigure: true,
                dots: 0,
            }),
            r@.inv(),
    {
        let ssid = match wifi_config::ssid_from(defaults.ssid) {
            Some(s) => s,
            None => wifi_config::ssid_empty(),
        };
        let password = match wifi_config::password_from(defaults.password) {
            Some(p) => p,
            None => wifi_config::password_empty(),
        };
        WifiLink {
            step: LinkStep::AwaitStored,
            current: WifiCredentials { ssid, password },
            needs_reconfigure: true,
            dots: 0,
            configured: Ghost(None),
        }
    }

    /// The pending action.
    pub fn action(&self) -> (r: LinkAction)
        ensures
            self@.asks_for(r),
    {
        match self.step {
            LinkStep::AwaitStored => LinkAction::AwaitCredentials { ms: 500 },
            LinkStep::Poll => LinkAction::PollCredentials,
            LinkStep::SwitchQuery => LinkAction::QueryConnected,
            LinkStep::SwitchDisconnect { .. } => LinkAction::Disconnect,
            LinkStep::SwitchDisconnected { .. } => LinkAction::Sleep { ms: 1000 },
            LinkStep::SwitchStarted { .. } => LinkAction::QueryStarted,
            LinkStep::SwitchStop { .. } => LinkAction::Stop,
            LinkStep::SwitchStopped { .. } => LinkAction::Sleep { ms: 500 },
            LinkStep::Query => LinkAction::QueryConnected,
            LinkStep::AwaitChange => LinkAction::AwaitChange,
            LinkStep::Lost => LinkAction::Sleep { ms: 5000 },
            LinkStep::CheckStarted => LinkAction::QueryStarted,
            LinkStep::Configure => LinkAction::Configure {
                ssid: self.current.ssid_str().to_owned(),
                password: self.current.password_str().to_owned(),
            },
            LinkStep::Start => LinkAction::Start,
            LinkStep::Connect => LinkAction::Connect { ms: 1000 },
            LinkStep::Connecting => LinkAction::KeepConnecting { ms: 1000 },
            LinkStep::CheckPending => LinkAction::CheckPending,
            LinkStep::Failed => LinkAction::Sleep { ms: 5000 },
        }
    }

    /// Where the radio is made ready.
    fn ready_step(&self) -> (r: LinkStep)
        ensures
            r == self@.readied().step,
    {
        if self.needs_reconfigure {
            LinkStep::Configure
        } else {
            LinkStep::CheckStarted
        }
    }

    fn resume_step(&self, again: bool) -> (r: LinkStep)
        ensures
            r == self@.resumed(again).step,
    {
        if again {
            LinkStep::Query
        } else {
            self.ready_step()
        }
    }

    /// Report what came of the pending action, and get the next one.
    pub fn next(&mut self, event: LinkEvent, shown: &mut Option<DisplayState>) -> (r: LinkAction)
        requires
            old(self)@.inv(),
        ensures
            final(self)@ == old(self)@.after(event@),
            final(self)@.inv(),
            final(self)@.asks_for(r),
            match *old(shown) {
                None => *final(shown) is None,
                Some(s) => *final(shown) == Some(
                    if old(self)@.shows_progress(event@) {
                        DisplayState { dots: old(self)@.after(event@).dots, ..s }
                    } else {
                        s
                    },
                ),
            },
    {
        match (self.step, event) {
            (LinkStep::AwaitStored, LinkEvent::Credentials(c)) => {
                self.current = c;
                self.step = LinkStep::Poll;
            },
            (LinkStep::AwaitStored, LinkEvent::Elapsed) => {
                self.step = LinkStep::Poll;
            },
            (LinkStep::Poll, LinkEvent::Credentials(c)) => {
                if !same_login(&c, &self.current) {
                    self.current = c;
                    self.needs_reconfigure = true;
                    self.step = LinkStep::SwitchQuery;
                } else {
                    self.step = LinkStep::Query;
                }
            },
            (LinkStep::Poll, LinkEvent::NoCredentials) => {
                self.step = LinkStep::Query;
            },
            (LinkStep::SwitchQuery, LinkEvent::Answer(connected)) => {
                self.step = if connected {
                    LinkStep::SwitchDisconnect { again: true }
                } else {
                    LinkStep::SwitchStarted { again: true }
                };
            },
            (LinkStep::SwitchDisconnect { again }, LinkEvent::Done) => {
                self.step = LinkStep::SwitchDisconnected { again };
            },
            (LinkStep::SwitchDisconnected { again }, LinkEvent::Elapsed) => {
                self.step = LinkStep::SwitchStarted { again };
            },
            (LinkStep::SwitchStarted { again }, LinkEvent::Answer(started)) => {
                self.step = if started {
                    LinkStep::SwitchStop { again }
                } else {
                    self.resume_step(again)
                };
            },
            (LinkStep::SwitchStop { again }, LinkEvent::Done) => {
                self.step = LinkStep::SwitchStopped { again };
            },
            (LinkStep::SwitchStopped { again }, LinkEvent::Elapsed) => {
                self.step = self.resume_step(again);
            },
            (LinkStep::Query, LinkEvent::Answer(connected)) => {
                self.step = if connected {
                    LinkStep::AwaitChange
                } else {
                    self.ready_step()
                };
            },
            (LinkStep::AwaitChange, LinkEvent::LinkLost) => {
                self.step = LinkStep::Lost;
            },
            (LinkStep::AwaitChange, LinkEvent::Credentials(c)) => {
                if !same_login(&c, &self.current) {
                    self.current = c;
                    self.needs_reconfigure = true;
                    self.step = LinkStep::SwitchDisconnect { again: false };
                } else {
                    self.step = self.ready_step();
                }
            },
            (LinkStep::Lost, LinkEvent::Elapsed) => {
                self.step = self.ready_step();
            },
            (LinkStep::CheckStarted, LinkEvent::Answer(started)) => {
                self.step = if started {
                    LinkStep::Connect
                } else {
                    LinkStep::Configure
                };
            },
            (LinkStep::Configure, LinkEvent::Done) => {
                self.needs_reconfigure = false;
                self.configured = Ghost(Some(self.current@));
                self.step = LinkStep::Start;
            },
            (LinkStep::Start, LinkEvent::Done) => {
                self.step = LinkStep::Connect;
            },
            (LinkStep::Connect, LinkEvent::ConnectOk) => {
                self.step = LinkStep::Poll;
            },
            (LinkStep::Connect, LinkEvent::ConnectFailed) => {
                self.step = LinkStep::Failed;
            },
            (LinkStep::Connect, LinkEvent::Elapsed) => {
                self.dots = 0;
                self.step = LinkStep::CheckPending;
            },
            (LinkStep::Connecting, LinkEvent::ConnectOk) => {
                self.step = LinkStep::Poll;
            },
            (LinkStep::Connecting, LinkEvent::ConnectFailed) => {
                self.step = LinkStep::Failed;
            },
            (LinkStep::Connecting, LinkEvent::Elapsed) => {
                self.step = LinkStep::CheckPending;
            },
            (LinkStep::CheckPending, LinkEvent::Answer(pending)) => {
                if pending {
                    self.step = LinkStep::Poll;
                } else {
                    self.dots = (self.dots + 1) % 4;
                    display::update_dots(shown, self.dots);
                    self.step = LinkStep::Connecting;
                }
            },
            (LinkStep::Failed, LinkEvent::Elapsed) => {
                self.step = LinkStep::Poll;
            },
            _ => {},
        }
        self.action()
    }
}

/// What [`LinkView::inv`] says holds from the start and whatever happens.
pub proof fn law_link_invariant(defaults: WifiDefaults, v: LinkView, event: LinkEventView)
    requires
        v.inv(),
    ensures
        (LinkView {
            step: LinkStep::AwaitStored,
            login: default_login(defaults),
            configured: None,
            needs_reconfigure: true,
            dots: 0,
        }).inv(),
        v.after(event).inv(),
{
}

/// A connection attempt is only ever made with the newest credentials: the
/// radio has been configured with them.
pub proof fn law_attempts_use_the_newest_credentials(v: LinkView, action: LinkAction)
    requires
        v.inv(),
        v.asks_for(action),
        action is Connect || action is KeepConnecting,
    ensures
        v.configured == Some(v.login),
{
}

/// Credentials change only to credentials that have been received, and then
/// the radio is reconfigured before the next attempt.
pub proof fn law_only_received_credentials_are_used(v: LinkView, event: LinkEventView)
    requires
        v.inv(),
    ensures
        v.after(event).login != v.login ==> event == LinkEventView::Credentials(
            v.after(event).login,
        ),
        v.after(event).login != v.login ==> v.after(event).needs_reconfigure,
{
}

// -- Readiness ---------------------------------------------------------------

/// Seconds without an address after which BLE starts as a fallback.
pub const FALLBACK_SECONDS: u8 = 10;

/// What the readiness monitor waits for.
#[derive(Debug, Clone, Copy, PartialEq, Eq, Structural)]
pub enum ReadyStage {
    Link,
    Address,
    Ready,
}

/// Waits for WiFi link and DHCP; is asked once a second.
#[derive(Debug, Clone, Copy, PartialEq, Eq, Structural)]
pub struct WifiReady {
    pub stage: ReadyStage,
    /// Progress dots.
    pub dots: u8,
    /// Seconds waited, up to one more than [`FALLBACK_SECONDS`].
    pub waited: u8,
}

/// What the readiness monitor has decided.
#[derive(Debug, Clone, Copy, PartialEq, Eq, Structural)]
pub struct ReadyStep {
    /// There is an address: start the HTTP server. Otherwise ask again in a
    /// second.
    pub serve: bool,
    /// Start BLE for the rest of this boot.
    pub start_ble: bool,
}

impl WifiReady {
    pub open spec fn wf(self) -> bool {
        self.dots < 4 && self.waited <= FALLBACK_SECONDS + 1
    }

    /// Where one look at the network leads.
    pub open spec fn after(self, link_up: bool, ip: Option<[u8; 4]>) -> WifiReady {
        let stage = if self.stage == ReadyStage::Link && link_up {
            ReadyStage::Address
        } else {
            self.stage
        };
        let dots = if stage != self.stage { 0 } else { self.dots };
        let waited = if self.waited <= FALLBACK_SECONDS { self.waited + 1 } else { self.waited as int };
        if stage == ReadyStage::Ready || stage == ReadyStage::Address && ip is Some {
            WifiReady { stage: ReadyStage::Ready, dots, waited: self.waited }
        } else {
            WifiReady { stage, dots: ((dots + 1) % 4) as u8, waited: waited as u8 }
        }
    }

    /// What is shown after one look at the network.
    pub open spec fn shown_after(
        self,
        link_up: bool,
        ip: Option<[u8; 4]>,
        s: DisplayState,
    ) -> DisplayState {
        let status = if self.stage == ReadyStage::Link && link_up {
            WifiStatus::GettingIP
        } else {
            s.status
        };
        if self.stage == ReadyStage::Ready {
            s
        } else if self.after(link_up, ip).stage == ReadyStage::Ready {
            DisplayState { ip: ip.unwrap(), status: WifiStatus::Connected, ..s }
        } else {
            DisplayState { status, dots: self.after(link_up, ip).dots, ..s }
        }
    }

    pub fn new() -> (r: WifiReady)
        ensures
            r.wf(),
            r == (WifiReady { stage: ReadyStage::Link, dots: 0, waited: 0 }),
    {
        WifiReady { stage: ReadyStage::Link, dots: 0, waited: 0 }
    }

    /// Look at the network: is the link up, and is there an address? BLE starts
    /// as a fallback at the first look after [`FALLBACK_SECONDS`] without one.
    pub fn poll(
        &mut self,
        link_up: bool,
        ip: Option<[u8; 4]>,
        shown: &mut Option<DisplayState>,
    ) -> (r: ReadyStep)
        requires
            old(self).wf(),
        ensures
            final(self).wf(),
            *final(self) == old(self).after(link_up, ip),
            r.serve == (final(self).stage == ReadyStage::Ready),
            r.start_ble == (!r.serve && old(self).waited == FALLBACK_SECONDS),
            match *old(shown) {
                None => *final(shown) is None,
                Some(s) => *final(shown) == Some(old(self).shown_after(link_up, ip, s)),
            },
    {
        if self.stage == ReadyStage::Link && link_up {
            display::update_status(shown, WifiStatus::GettingIP);
            self.stage = ReadyStage::Address;
            self.dots = 0;
        }
        if self.stage == ReadyStage::Ready {
            return ReadyStep { serve: true, start_ble: false };
        }
        if self.stage == ReadyStage::Address {
            if let Some(address) = ip {
                display::update_ip(shown, address);
                self.stage = ReadyStage::Ready;
                return ReadyStep { serve: true, start_ble: false };
            }
        }
        self.dots = (self.dots + 1) % 4;
        display::update_dots(shown, self.dots);
        let start_ble: bool = self.waited == FALLBACK_SECONDS;
        if self.waited <= FALLBACK_SECONDS {
            self.waited = self.waited + 1;
        }
        ReadyStep { serve: false, start_ble }
    }
}

/// The monitor after `n` looks at a network without an address.
pub open spec fn without_address(v: WifiReady, link: spec_fn(nat) -> bool, n: nat) -> WifiReady
    decreases n,
{
    if n == 0 {
        v
    } else {
        without_address(v, link, (n - 1) as nat).after(link((n - 1) as nat), None)
    }
}

/// Without an address BLE starts exactly once, ten seconds after the first
/// look, whatever the link does.
pub proof fn law_fallback_starts_once(link: spec_fn(nat) -> bool, n: nat)
    ensures
        ({
            let start = WifiReady { stage: ReadyStage::Link, dots: 0, waited: 0 };
            let v = without_address(start, link, n);
            &&& v.stage != ReadyStage::Ready
            &&& v.waited == FALLBACK_SECONDS <==> n == FALLBACK_SECONDS
            &&& v.waited == (if n <= FALLBACK_SECONDS { n as int } else { FALLBACK_SECONDS + 1 })
        }),
    decreases n,
{
    if n > 0 {
        law_fallback_starts_once(link, (n - 1) as nat);
    }
}

// -- Boot and provisioning ---------------------------------------------------

/// Whether BLE is started at boot.
pub fn boots_ble(mode: RadioMode) -> (r: bool)
    ensures
        r == (mode == RadioMode::Ble),
{
    mode == RadioMode::Ble
}

/// Credentials found in flash at boot: the network name is shown.
pub fn show_stored_credentials(creds: &WifiCredentials, shown: &mut Option<DisplayState>)
    requires
        *old(shown) matches Some(s) ==> s.wf(),
    ensures
        match *old(shown) {
            None => *final(shown) is None,
            Some(s) => *final(shown) matches Some(t) && t.wf() && t.ssid_bytes()
                == display::at_most(encode_utf8(creds@.0), 32) && t.ssid@.skip(t.ssid_len as int)
                == s.ssid@.skip(t.ssid_len as int) && t == (DisplayState {
                ssid: t.ssid,
                ssid_len: t.ssid_len,
                ..s
            }),
        },
{
    display::update_ssid(shown, creds.ssid_str());
}

/// Received credentials have been stored, or storing them has failed. Says
/// whether the connection task has to be told, and shows what came of it.
pub fn credentials_stored(
    creds: &WifiCredentials,
    outcome: Result<(), &'static str>,
    shown: &mut Option<DisplayState>,
) -> (reconnect: bool)
    requires
        *old(shown) matches Some(s) ==> s.wf(),
    ensures
        reconnect == (outcome is Ok),
        match *old(shown) {
            None => *final(shown) is None,
            Some(s) => *final(shown) matches Some(t) && t.wf() && t.override_bytes()
                == display::at_most(
                encode_utf8(if outcome is Ok { "WiFi Saved!"@ } else { "Save Failed!"@ }),
                21,
            ) && t.line1_override@.skip(t.line1_override_len as int) == s.line1_override@.skip(
                t.line1_override_len as int,
            ) && (if outcome is Ok {
                t.ssid_bytes() == display::at_most(encode_utf8(creds@.0), 32) && t.ssid@.skip(
                    t.ssid_len as int,
                ) == s.ssid@.skip(t.ssid_len as int)
            } else {
                t.ssid == s.ssid && t.ssid_len == s.ssid_len
            }) && t == (DisplayState {
                ssid: t.ssid,
                ssid_len: t.ssid_len,
                line1_override: t.line1_override,
                line1_override_len: t.line1_override_len,
                line1_ticks: display::MESSAGE_TICKS,
                ..s
            }),
        },
{
    match outcome {
        Ok(_) => {
            display::update_ssid(shown, creds.ssid_str());
            display::set_line1_override(shown, "WiFi Saved!");
            true
        },
        Err(_) => {
            display::set_line1_override(shown, "Save Failed!");
            false
        },
    }
}

} // verus!
