//! What the connection task does from one request to the next, and what the
//! flash sectors hold byte by byte.
use crate::display::{DisplayState, WifiStatus};
use crate::wifi;
use crate::wifi::{
    LinkAction, LinkEventView, LinkStep, LinkView, Login, ReadyStage, WifiDefaults, WifiReady,
};
use crate::wifi_config;
use crate::wifi_config::RadioMode;
use vstd::prelude::*;
use vstd::utf8::*;

verus! {

// -- Connection attempts -----------------------------------------------------

/// Whether a connection attempt is under way.
pub open spec fn attempting(v: LinkView) -> bool {
    exists|ms: u32|
        v.asks_for(#[trigger] connect_for(ms)) || v.asks_for(#[trigger] keep_connecting_for(ms))
}

pub open spec fn connect_for(ms: u32) -> LinkAction {
    LinkAction::Connect { ms }
}

pub open spec fn keep_connecting_for(ms: u32) -> LinkAction {
    LinkAction::KeepConnecting { ms }
}

/// Whether all that `v` asks for is to pause for `ms`.
pub open spec fn pauses(v: LinkView, ms: u32) -> bool {
    forall|a: LinkAction| #[trigger] v.asks_for(a) <==> a == (LinkAction::Sleep { ms })
}

/// Whether all that `v` asks for is to configure the radio with its login.
pub open spec fn configures(v: LinkView, login: Login) -> bool {
    forall|a: LinkAction| #[trigger]
        v.asks_for(a) <==> (a matches LinkAction::Configure { ssid, password } && ssid@ == login.0
            && password@ == login.1)
}

/// Whether all that `v` asks for is `a`.
pub open spec fn asks_only(v: LinkView, a: LinkAction) -> bool {
    forall|b: LinkAction| #[trigger] v.asks_for(b) <==> b == a
}

/// Whatever step an attempt has reached, its failure leads to a pause of five
/// seconds and then back to the top of the loop, with the same credentials and
/// the radio left as it is.
pub proof fn law_failed_attempts_are_repeated(v: LinkView)
    requires
        attempting(v),
        v.inv(),
    ensures
        ({
            let paused = v.after(LinkEventView::ConnectFailed);
            let top = paused.after(LinkEventView::Elapsed);
            let queried = top.after(LinkEventView::NoCredentials);
            let checked = queried.after(LinkEventView::Answer(false));
            let again = checked.after(LinkEventView::Answer(true));
            &&& pauses(paused, 5000)
            &&& asks_only(top, LinkAction::PollCredentials)
            &&& asks_only(queried, LinkAction::QueryConnected)
            &&& asks_only(checked, LinkAction::QueryStarted)
            &&& asks_only(again, LinkAction::Connect { ms: 1000 })
            &&& again.login == v.login && again.configured == v.configured
        }),
{
    let a = LinkAction::Sleep { ms: 5000 };
    assert(v.after(LinkEventView::ConnectFailed).asks_for(a));
}

/// A successful attempt leads back to the top of the loop, and from there, once
/// the station says that it is connected, to the wait for a change.
pub proof fn law_successful_attempts_are_kept(v: LinkView)
    requires
        attempting(v),
    ensures
        ({
            let top = v.after(LinkEventView::ConnectOk);
            let queried = top.after(LinkEventView::NoCredentials);
            let waiting = queried.after(LinkEventView::Answer(true));
            &&& asks_only(top, LinkAction::PollCredentials)
            &&& asks_only(queried, LinkAction::QueryConnected)
            &&& asks_only(waiting, LinkAction::AwaitChange)
            &&& waiting.login == v.login
        }),
{
}

/// The wait for a lost link is entered only after the station has answered that
/// it is connected.
pub proof fn law_waits_only_while_connected(v: LinkView, event: LinkEventView, asked: LinkAction)
    requires
        v.asks_for(asked),
        !v.asks_for(LinkAction::AwaitChange),
        v.after(event).asks_for(LinkAction::AwaitChange),
    ensures
        asked == LinkAction::QueryConnected,
        event == LinkEventView::Answer(true),
{
}

/// An attempt begins only with a radio that runs: it has answered so, or it has
/// just been started, which in turn only follows its configuration.
pub proof fn law_attempts_need_a_running_radio(v: LinkView, event: LinkEventView, asked: LinkAction)
    requires
        v.asks_for(asked),
    ensures
        attempting(v.after(event)) && !attempting(v) ==> asked == LinkAction::QueryStarted && event
            == LinkEventView::Answer(true) || asked == LinkAction::Start && event
            == LinkEventView::Done || asked == LinkAction::CheckPending && event
            == LinkEventView::Answer(false),
        v.after(event).asks_for(LinkAction::Start) && !v.asks_for(LinkAction::Start) ==> asked is Configure
            && event == LinkEventView::Done,
{
    if attempting(v.after(event)) && !attempting(v) {
        assert(!v.asks_for(connect_for(1000)));
        assert(!v.asks_for(keep_connecting_for(1000)));
    }
}

/// After the radio has been configured it is started, and then asked to
/// connect.
pub proof fn law_configured_radio_is_started(v: LinkView, ssid: String, password: String)
    requires
        v.asks_for(LinkAction::Configure { ssid, password }),
    ensures
        ssid@ == v.login.0 && password@ == v.login.1,
        v.after(LinkEventView::Done).configured == Some(v.login),
        !v.after(LinkEventView::Done).needs_reconfigure,
        asks_only(v.after(LinkEventView::Done), LinkAction::Start),
        asks_only(
            v.after(LinkEventView::Done).after(LinkEventView::Done),
            LinkAction::Connect { ms: 1000 },
        ),
{
}

/// A radio that is down is configured again before the next attempt.
pub proof fn law_stopped_radio_is_configured(v: LinkView)
    requires
        attempting(v),
        v.inv(),
    ensures
        configures(
            v.after(LinkEventView::ConnectFailed).after(LinkEventView::Elapsed).after(
                LinkEventView::NoCredentials,
            ).after(LinkEventView::Answer(false)).after(LinkEventView::Answer(false)),
            v.login,
        ),
{
}

/// A second into an attempt, and every second from then on, the task looks for
/// new credentials: with them the attempt is dropped, without them it goes on
/// and one more dot of three is shown.
pub proof fn law_attempts_look_for_credentials(v: LinkView)
    requires
        attempting(v),
    ensures
        ({
            let look = v.after(LinkEventView::Elapsed);
            let on = look.after(LinkEventView::Answer(false));
            &&& asks_only(look, LinkAction::CheckPending)
            &&& asks_only(look.after(LinkEventView::Answer(true)), LinkAction::PollCredentials)
            &&& asks_only(on, LinkAction::KeepConnecting { ms: 1000 })
            &&& attempting(on)
            &&& on.login == v.login && on.configured == v.configured
            &&& look.shows_progress(LinkEventView::Answer(false))
            &&& !look.shows_progress(LinkEventView::Answer(true))
            &&& v.asks_for(LinkAction::Connect { ms: 1000 }) ==> on.dots == 1
            &&& v.asks_for(LinkAction::KeepConnecting { ms: 1000 }) && v.dots < 4 ==> on.dots == (
            if v.dots == 3 {
                0
            } else {
                v.dots + 1
            })
        }),
{
    let on = v.after(LinkEventView::Elapsed).after(LinkEventView::Answer(false));
    assert(on.asks_for(keep_connecting_for(1000)));
}

/// Nothing but a look for credentials that finds none moves the dots on the
/// display.
pub proof fn law_dots_move_during_attempts_only(
    v: LinkView,
    event: LinkEventView,
    asked: LinkAction,
)
    requires
        v.asks_for(asked),
        v.shows_progress(event),
    ensures
        asked == LinkAction::CheckPending,
        event == LinkEventView::Answer(false),
{
}

// -- Credentials -------------------------------------------------------------

/// The task begins with the default credentials, and half a second for stored
/// ones to come: these are used where they do.
pub proof fn law_stored_credentials_come_first(defaults: WifiDefaults, login: Login)
    ensures
        ({
            let v = LinkView {
                step: LinkStep::AwaitStored,
                login: wifi::default_login(defaults),
                configured: None,
                needs_reconfigure: true,
                dots: 0,
            };
            let stored = v.after(LinkEventView::Credentials(login));
            let none = v.after(LinkEventView::Elapsed);
            let first = stored.after(LinkEventView::NoCredentials).after(
                LinkEventView::Answer(false),
            );
            let second = none.after(LinkEventView::NoCredentials).after(
                LinkEventView::Answer(false),
            );
            &&& asks_only(v, LinkAction::AwaitCredentials { ms: 500 })
            &&& asks_only(stored, LinkAction::PollCredentials)
            &&& asks_only(none, LinkAction::PollCredentials)
            &&& configures(first, login)
            &&& configures(second, wifi::default_login(defaults))
        }),
{
}

/// Default credentials are used as they are where they fit into 32 and 64
/// bytes; one that does not fit is left empty.
pub proof fn law_default_credentials(d: WifiDefaults)
    ensures
        wifi::default_login(d).0 == (if encode_utf8(d.ssid@).len() <= 32 {
            d.ssid@
        } else {
            Seq::empty()
        }),
        wifi::default_login(d).1 == (if encode_utf8(d.password@).len() <= 64 {
            d.password@
        } else {
            Seq::empty()
        }),
{
}

/// Other credentials that come while connected: the link is given up, the
/// radio is stopped where it runs, each with its pause, and configured with
/// the new ones.
pub proof fn law_switch_while_connected(v: LinkView, login: Login)
    requires
        v.asks_for(LinkAction::AwaitChange),
        login != v.login,
    ensures
        ({
            let drop = v.after(LinkEventView::Credentials(login));
            let dropped = drop.after(LinkEventView::Done);
            let query = dropped.after(LinkEventView::Elapsed);
            let stop = query.after(LinkEventView::Answer(true));
            let stopped = stop.after(LinkEventView::Done);
            &&& asks_only(drop, LinkAction::Disconnect)
            &&& pauses(dropped, 1000)
            &&& asks_only(query, LinkAction::QueryStarted)
            &&& asks_only(stop, LinkAction::Stop)
            &&& pauses(stopped, 500)
            &&& configures(stopped.after(LinkEventView::Elapsed), login)
            &&& configures(query.after(LinkEventView::Answer(false)), login)
        }),
{
}

/// Other credentials that are found at the top of the loop: a link is given up
/// first, the radio is stopped where it runs, and the station is looked at
/// once more before the radio is configured with the new ones.
pub proof fn law_switch_at_the_top(v: LinkView, login: Login)
    requires
        v.asks_for(LinkAction::PollCredentials),
        login != v.login,
    ensures
        ({
            let query = v.after(LinkEventView::Credentials(login));
            let drop = query.after(LinkEventView::Answer(true));
            let dropped = drop.after(LinkEventView::Done);
            let started = dropped.after(LinkEventView::Elapsed);
            let direct = query.after(LinkEventView::Answer(false));
            let stop = direct.after(LinkEventView::Answer(true));
            let stopped = stop.after(LinkEventView::Done);
            let look = stopped.after(LinkEventView::Elapsed);
            &&& asks_only(query, LinkAction::QueryConnected)
            &&& asks_only(drop, LinkAction::Disconnect)
            &&& pauses(dropped, 1000)
            &&& asks_only(started, LinkAction::QueryStarted)
            &&& started == direct
            &&& asks_only(stop, LinkAction::Stop)
            &&& pauses(stopped, 500)
            &&& asks_only(look, LinkAction::QueryConnected)
            &&& look == direct.after(LinkEventView::Answer(false))
            &&& configures(look.after(LinkEventView::Answer(false)), login)
            &&& asks_only(look.after(LinkEventView::Answer(true)), LinkAction::AwaitChange)
        }),
{
}

/// The same credentials once more change nothing: at the top of the loop the
/// task goes on as if none had come; while connected it makes sure that the
/// radio runs.
pub proof fn law_same_credentials_change_nothing(v: LinkView)
    requires
        v.inv(),
    ensures
        v.asks_for(LinkAction::PollCredentials) ==> v.after(LinkEventView::Credentials(v.login))
            == v.after(LinkEventView::NoCredentials),
        v.asks_for(LinkAction::AwaitChange) && !v.needs_reconfigure ==> asks_only(
            v.after(LinkEventView::Credentials(v.login)),
            LinkAction::QueryStarted,
        ) && v.after(LinkEventView::Credentials(v.login)).login == v.login,
        v.asks_for(LinkAction::AwaitChange) && v.needs_reconfigure ==> configures(
            v.after(LinkEventView::Credentials(v.login)),
            v.login,
        ),
{
}

/// A lost link is followed by a pause of five seconds, and then the radio is
/// made ready for the next attempt with the same credentials.
pub proof fn law_lost_links_are_reconnected(v: LinkView)
    requires
        v.asks_for(LinkAction::AwaitChange),
    ensures
        ({
            let paused = v.after(LinkEventView::LinkLost);
            let ready = paused.after(LinkEventView::Elapsed);
            &&& pauses(paused, 5000)
            &&& v.needs_reconfigure ==> configures(ready, v.login)
            &&& !v.needs_reconfigure ==> asks_only(ready, LinkAction::QueryStarted)
            &&& !v.needs_reconfigure ==> asks_only(
                ready.after(LinkEventView::Answer(true)),
                LinkAction::Connect { ms: 1000 },
            )
            &&& !v.needs_reconfigure ==> configures(
                ready.after(LinkEventView::Answer(false)),
                v.login,
            )
        }),
{
}

/// Whether `event` is an answer to `asked`.
pub open spec fn answers(asked: LinkAction, event: LinkEventView) -> bool {
    match asked {
        LinkAction::AwaitCredentials { .. } => event is Credentials || event is Elapsed,
        LinkAction::PollCredentials => event is Credentials || event is NoCredentials,
        LinkAction::QueryConnected => event is Answer,
        LinkAction::QueryStarted => event is Answer,
        LinkAction::Disconnect => event is Done,
        LinkAction::Stop => event is Done,
        LinkAction::Sleep { .. } => event is Elapsed,
        LinkAction::AwaitChange => event is LinkLost || event is Credentials,
        LinkAction::Configure { .. } => event is Done,
        LinkAction::Start => event is Done,
        LinkAction::Connect { .. } => event is ConnectOk || event is ConnectFailed || event is Elapsed,
        LinkAction::KeepConnecting { .. } => event is ConnectOk || event is ConnectFailed
            || event is Elapsed,
        LinkAction::CheckPending => event is Answer,
    }
}

/// An event that does not answer what was asked for changes nothing, and no
/// event changes the dots but during an attempt.
pub proof fn law_stray_link_events_change_nothing(
    v: LinkView,
    event: LinkEventView,
    asked: LinkAction,
)
    requires
        v.asks_for(asked),
    ensures
        !answers(asked, event) ==> v.after(event) == v,
        !(asked is Connect || asked is CheckPending) ==> v.after(event).dots == v.dots,
{
}

// -- Readiness ---------------------------------------------------------------

/// The monitor waits for the link first and for an address then; the server
/// starts with the first address that is seen over a link. Until then the dots
/// go round, and the seconds are counted.
pub proof fn law_readiness(v: WifiReady, link_up: bool, ip: Option<[u8; 4]>, s: DisplayState)
    requires
        v.wf(),
    ensures
        ({
            let w = v.after(link_up, ip);
            let t = v.shown_after(link_up, ip, s);
            let linked = v.stage == ReadyStage::Address || v.stage == ReadyStage::Link && link_up;
            let dots = if v.stage == ReadyStage::Link && link_up { 0 } else { v.dots as int };
            &&& w.stage == ReadyStage::Ready <==> v.stage == ReadyStage::Ready || linked
                && ip is Some
            &&& w.stage == ReadyStage::Link <==> v.stage == ReadyStage::Link && !link_up
            &&& w.stage != ReadyStage::Ready ==> w.dots == (if dots == 3 { 0 } else { dots + 1 })
            &&& w.stage != ReadyStage::Ready && v.waited <= 10 ==> w.waited == v.waited + 1
            &&& w.stage != ReadyStage::Ready && v.waited == 11 ==> w.waited == 11
            &&& v.stage == ReadyStage::Ready ==> t == s
            &&& v.stage != ReadyStage::Ready && w.stage == ReadyStage::Ready ==> t == (DisplayState {
                ip: ip.unwrap(),
                status: WifiStatus::Connected,
                ..s
            })
            &&& w.stage != ReadyStage::Ready ==> t == (DisplayState {
                dots: w.dots,
                status: if v.stage == ReadyStage::Link && link_up {
                    WifiStatus::GettingIP
                } else {
                    s.status
                },
                ..s
            })
        }),
{
}

// -- Flash -------------------------------------------------------------------

/// Where everything stands in the sector of the credentials: four magic bytes,
/// the length of the SSID and 32 bytes for it, the length of the password and
/// the password. What is not used stays erased.
pub proof fn law_credential_sector_layout(ssid: Seq<u8>, password: Seq<u8>, i: int)
    requires
        ssid.len() <= 32,
        password.len() <= 64,
        0 <= i < 4096,
    ensures
        ({
            let r = wifi_config::credential_record(ssid, password);
            &&& r.len() == 4096
            &&& r[0] == 0xCA && r[1] == 0xFE && r[2] == 0xBE && r[3] == 0xEF
            &&& r[4] == ssid.len()
            &&& r[37] == password.len()
            &&& 5 <= i < 37 ==> r[i] == (if i - 5 < ssid.len() { ssid[i - 5] } else { 0xFF })
            &&& 38 <= i ==> r[i] == (if i - 38 < password.len() { password[i - 38] } else { 0xFF })
        }),
{
}

/// Credentials are found in a sector exactly where its magic bytes are right,
/// the SSID has 1 to 32 bytes, the password at most 64, and both are UTF-8.
/// They are then the texts of these bytes.
pub proof fn law_stored_credentials_are_what_the_sector_holds(b: Seq<u8>)
    requires
        b.len() == 128,
    ensures
        ({
            let found = wifi_config::stored_credentials(b);
            let ssid = b.subrange(5, 5 + b[4]);
            let password = b.subrange(38, 38 + b[37]);
            &&& found is Some <==> b[0] == 0xCA && b[1] == 0xFE && b[2] == 0xBE && b[3] == 0xEF && 1
                <= b[4] <= 32 && b[37] <= 64 && valid_utf8(ssid) && valid_utf8(password)
            &&& found is Some ==> encode_utf8(found.unwrap().0) == ssid && encode_utf8(
                found.unwrap().1,
            ) == password
        }),
{
    broadcast use decode_utf8_encode_utf8;

    let m = b.take(4);
    assert(m[0] == b[0] && m[1] == b[1] && m[2] == b[2] && m[3] == b[3]);
    if b[0] == 0xCA && b[1] == 0xFE && b[2] == 0xBE && b[3] == 0xEF {
        assert(m =~= wifi_config::magic());
    }
}

/// A sector boots into WiFi only where it says so, and what is stored is kept
/// apart by a single byte.
pub proof fn law_radio_sector(b: Seq<u8>, i: int)
    requires
        b.len() >= 5,
        5 <= i < 4096,
    ensures
        wifi_config::stored_radio_mode(b) == RadioMode::Wifi <==> b[0] == 0x52 && b[1] == 0x4D
            && b[2] == 0x4F && b[3] == 0x44 && b[4] == 2,
        wifi_config::radio_header(RadioMode::Wifi) == seq![0x52u8, 0x4Du8, 0x4Fu8, 0x44u8, 2u8],
        wifi_config::radio_header(RadioMode::Ble) == seq![0x52u8, 0x4Du8, 0x4Fu8, 0x44u8, 1u8],
        wifi_config::padded(wifi_config::radio_header(RadioMode::Ble), 4096)[i] == 0xFF,
        wifi_config::padded(wifi_config::radio_header(RadioMode::Wifi), 4096)[i] == 0xFF,
{
    let h = wifi_config::radio_header(RadioMode::Wifi);
    let f = b.take(5);
    assert(f[0] == b[0] && f[1] == b[1] && f[2] == b[2] && f[3] == b[3] && f[4] == b[4]);
    if b[0] == 0x52 && b[1] == 0x4D && b[2] == 0x4F && b[3] == 0x44 && b[4] == 2 {
        assert(f =~= h);
    }
}

} // verus!
