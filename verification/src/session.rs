//! The session manager's decisions: what the settings ask for, whether they
//! can be dialled at all, and the one-time hand-over of the session.
//!
//! Everything here happens before, or beside, the network. A plan is made
//! from the settings alone; where the settings cannot be dialled the answer is
//! a configuration error and nothing has been started.

use vstd::prelude::*;
use vstd::string::*;
use crate::error::BridgeError;
use crate::text::{optional_text, text_eq};

verus! {

/// The name of the option that holds the URL to dial.
pub open spec fn url_option() -> Seq<char> {
    "url"@
}

/// The name of the option that holds the broadcast path.
pub open spec fn broadcast_option() -> Seq<char> {
    "broadcast"@
}

/// The name of the option that switches certificate checks off.
pub open spec fn tls_option() -> Seq<char> {
    "tls-disable-verify"@
}

/// What the element was configured with.
#[derive(Clone, Debug, PartialEq, Eq)]
pub struct Settings {
    /// The remote endpoint to dial.
    pub url: Option<String>,
    /// The path of the broadcast; empty where the URL's own path names it.
    pub broadcast: String,
    /// Skip certificate validation. For development only.
    pub tls_disable_verify: bool,
}

/// What settings hold.
pub struct SettingsView {
    pub url: Option<Seq<char>>,
    pub broadcast: Seq<char>,
    pub tls_disable_verify: bool,
}

impl View for Settings {
    type V = SettingsView;

    open spec fn view(&self) -> SettingsView {
        SettingsView {
            url: optional_text(self.url),
            broadcast: self.broadcast@,
            tls_disable_verify: self.tls_disable_verify,
        }
    }
}

/// The value of one option.
#[derive(Clone, Debug, PartialEq, Eq)]
pub enum PropertyValue {
    /// A text, or no text at all.
    Text(Option<String>),
    /// A switch.
    Flag(bool),
}

/// What an option value holds.
pub enum PropertyView {
    Text(Option<Seq<char>>),
    Flag(bool),
}

impl View for PropertyValue {
    type V = PropertyView;

    open spec fn view(&self) -> PropertyView {
        match self {
            PropertyValue::Text(text) => PropertyView::Text(optional_text(*text)),
            PropertyValue::Flag(flag) => PropertyView::Flag(*flag),
        }
    }
}

/// The settings after the option `name` is given `value`; a name that is not
/// an option, or a value of the wrong sort for it, is a configuration error.
pub open spec fn with_property(
    settings: SettingsView,
    name: Seq<char>,
    value: PropertyView,
) -> Result<SettingsView, BridgeError> {
    if name == url_option() {
        match value {
            PropertyView::Text(url) => Ok(SettingsView { url, ..settings }),
            _ => Err(BridgeError::Config),
        }
    } else if name == broadcast_option() {
        match value {
            PropertyView::Text(Some(broadcast)) => Ok(SettingsView { broadcast, ..settings }),
            _ => Err(BridgeError::Config),
        }
    } else if name == tls_option() {
        match value {
            PropertyView::Flag(tls_disable_verify) => Ok(
                SettingsView { tls_disable_verify, ..settings },
            ),
            _ => Err(BridgeError::Config),
        }
    } else {
        Err(BridgeError::Config)
    }
}

/// The value of the option `name`, where it is an option.
pub open spec fn property_of(settings: SettingsView, name: Seq<char>) -> Option<PropertyView> {
    if name == url_option() {
        Some(PropertyView::Text(settings.url))
    } else if name == broadcast_option() {
        Some(PropertyView::Text(Some(settings.broadcast)))
    } else if name == tls_option() {
        Some(PropertyView::Flag(settings.tls_disable_verify))
    } else {
        None
    }
}

impl Settings {
    /// Settings of a subscriber with nothing configured: the URL is the empty
    /// text and reads back as such, there is no path, and certificates are
    /// checked.
    pub fn for_source() -> (settings: Settings)
        ensures
            settings@ == (SettingsView {
                url: Some(Seq::<char>::empty()),
                broadcast: Seq::<char>::empty(),
                tls_disable_verify: false,
            }),
            property_of(settings@, url_option()) == Some(
                PropertyView::Text(Some(Seq::<char>::empty())),
            ),
            property_of(settings@, tls_option()) == Some(PropertyView::Flag(false)),
    {
        proof {
            reveal_strlit("url");
            reveal_strlit("broadcast");
            reveal_strlit("tls-disable-verify");
            assert(url_option().len() == 3 && broadcast_option().len() == 9 && tls_option().len()
                == 18);
        }
        Settings { url: Some(String::new()), broadcast: String::new(), tls_disable_verify: false }
    }

    /// Settings of a publisher with nothing configured: no URL, no path,
    /// certificates checked.
    pub fn new() -> (settings: Settings)
        ensures
            settings@ == (SettingsView {
                url: None,
                broadcast: Seq::<char>::empty(),
                tls_disable_verify: false,
            }),
    {
        Settings { url: None, broadcast: String::new(), tls_disable_verify: false }
    }

    /// Gives the option `name` the value `value`. On an error nothing changes.
    pub fn set_property(&mut self, name: &str, value: PropertyValue) -> (out: Result<
        (),
        BridgeError,
    >)
        ensures
            match out {
                Ok(()) => with_property(old(self)@, name@, value@) == Ok::<
                    SettingsView,
                    BridgeError,
                >(final(self)@),
                Err(e) => with_property(old(self)@, name@, value@) == Err::<
                    SettingsView,
                    BridgeError,
                >(e) && final(self)@ == old(self)@,
            },
    {
        if text_eq(name, "url") {
            match value {
                PropertyValue::Text(url) => {
                    self.url = url;
                    Ok(())
                },
                _ => Err(BridgeError::Config),
            }
        } else if text_eq(name, "broadcast") {
            match value {
                PropertyValue::Text(Some(broadcast)) => {
                    self.broadcast = broadcast;
                    Ok(())
                },
                _ => Err(BridgeError::Config),
            }
        } else if text_eq(name, "tls-disable-verify") {
            match value {
                PropertyValue::Flag(flag) => {
                    self.tls_disable_verify = flag;
                    Ok(())
                },
                _ => Err(BridgeError::Config),
            }
        } else {
            Err(BridgeError::Config)
        }
    }

    /// The value of the option `name`; `None` where it is not an option.
    pub fn property(&self, name: &str) -> (out: Option<PropertyValue>)
        ensures
            match out {
                Some(value) => property_of(self@, name@) == Some(value@),
                None => property_of(self@, name@) is None,
            },
    {
        if text_eq(name, "url") {
            let url = match &self.url {
                Some(text) => Some(text.clone()),
                None => None,
            };
            Some(PropertyValue::Text(url))
        } else if text_eq(name, "broadcast") {
            Some(PropertyValue::Text(Some(self.broadcast.clone())))
        } else if text_eq(name, "tls-disable-verify") {
            Some(PropertyValue::Flag(self.tls_disable_verify))
        } else {
            None
        }
    }
}

/// An option that was set reads back as the value it was given, and the
/// other options read as before.
pub proof fn lemma_property_set_then_get(
    settings: SettingsView,
    name: Seq<char>,
    value: PropertyView,
    other: Seq<char>,
)
    ensures
        with_property(settings, name, value) matches Ok(after) ==> {
            &&& property_of(after, name) == Some(value)
            &&& other != name ==> property_of(after, other) == property_of(settings, other)
        },
{
    reveal_strlit("url");
    reveal_strlit("broadcast");
    reveal_strlit("tls-disable-verify");
}

/// What to dial, and how.
#[derive(Clone, Debug, PartialEq, Eq)]
pub struct ConnectPlan {
    /// The URL to dial, as configured.
    pub url: String,
    /// The path of the broadcast within the remote namespace.
    pub path: String,
    /// Whether the peer's certificate is to be validated.
    pub tls_verify: bool,
}

/// What a plan holds.
pub struct PlanView {
    pub url: Seq<char>,
    pub path: Seq<char>,
    pub tls_verify: bool,
}

impl View for ConnectPlan {
    type V = PlanView;

    open spec fn view(&self) -> PlanView {
        PlanView { url: self.url@, path: self.path@, tls_verify: self.tls_verify }
    }
}

/// What the result of making a plan holds.
pub open spec fn plan_result(out: Result<ConnectPlan, BridgeError>) -> Result<
    PlanView,
    BridgeError,
> {
    match out {
        Ok(plan) => Ok(plan@),
        Err(e) => Err(e),
    }
}

/// What `url::Url::parse` makes of a text: the path of the URL it returns,
/// or `None` where it returns an error.
pub uninterp spec fn url_path(text: Seq<char>) -> Option<Seq<char>>;

/// Calls `url::Url::parse` on `text` and, where that gives a URL, `Url::path`
/// on it. The result is the path as an owned text, or `None` where the parser
/// refused the text. The parser reads nothing but its argument, so the same
/// text always gives the same answer; `url_path` is the name of that answer.
#[verifier::external_body]
fn parse_url_path(text: &str) -> (path: Option<String>)
    ensures
        optional_text(path) == url_path(text@),
{
    match url::Url::parse(text) {
        Ok(parsed) => Some(parsed.path().to_string()),
        Err(_) => None,
    }
}

/// The broadcast path: the configured one where there is one, otherwise the
/// URL's path without its leading slash. Where neither names anything, the
/// path is missing.
pub open spec fn broadcast_path_of(broadcast: Seq<char>, path: Seq<char>) -> Result<
    Seq<char>,
    BridgeError,
> {
    if broadcast.len() > 0 {
        Ok(broadcast)
    } else if path.len() > 1 && path[0] == '/' {
        Ok(path.subrange(1, path.len() as int))
    } else {
        Err(BridgeError::Config)
    }
}

/// The plan for the settings, given what the URL parser made of the URL.
pub open spec fn planned(settings: SettingsView, parsed: Option<Seq<char>>) -> Result<
    PlanView,
    BridgeError,
> {
    match (settings.url, parsed) {
        (Some(url), Some(path)) => match broadcast_path_of(settings.broadcast, path) {
            Ok(path) => Ok(PlanView { url, path, tls_verify: !settings.tls_disable_verify }),
            Err(e) => Err(e),
        },
        _ => Err(BridgeError::Config),
    }
}

/// What the URL parser makes of the configured URL; nothing where none is
/// configured.
pub open spec fn parsed_url_of(settings: SettingsView) -> Option<Seq<char>> {
    match settings.url {
        Some(url) => url_path(url),
        None => None,
    }
}

/// The broadcast path for a configured path and the path of the URL.
pub fn broadcast_path(broadcast: &str, path: &str) -> (out: Result<String, BridgeError>)
    ensures
        match out {
            Ok(found) => broadcast_path_of(broadcast@, path@) == Ok::<Seq<char>, BridgeError>(
                found@,
            ),
            Err(e) => broadcast_path_of(broadcast@, path@) == Err::<Seq<char>, BridgeError>(e),
        },
{
    if broadcast.unicode_len() > 0 {
        return Ok(broadcast.to_owned());
    }
    let n = path.unicode_len();
    if n > 1 && path.get_char(0) == '/' {
        Ok(path.substring_char(1, n).to_owned())
    } else {
        Err(BridgeError::Config)
    }
}

/// Makes the plan from the settings and from what the URL parser made of the
/// URL. A missing URL, a URL the parser refused, or a missing path is a
/// configuration error.
pub fn plan_with(settings: &Settings, parsed: &Option<String>) -> (out: Result<
    ConnectPlan,
    BridgeError,
>)
    ensures
        plan_result(out) == planned(settings@, optional_text(*parsed)),
{
    match (&settings.url, parsed) {
        (Some(url), Some(path)) => {
            match broadcast_path(settings.broadcast.as_str(), path.as_str()) {
                Ok(path) => Ok(
                    ConnectPlan {
                        url: url.clone(),
                        path,
                        tls_verify: !settings.tls_disable_verify,
                    },
                ),
                Err(e) => Err(e),
            }
        },
        _ => Err(BridgeError::Config),
    }
}

/// Makes the plan from the settings: parses the URL and decides the path.
/// Without a URL the answer is a configuration error and the parser is not
/// even asked.
pub fn plan(settings: &Settings) -> (out: Result<ConnectPlan, BridgeError>)
    ensures
        plan_result(out) == planned(settings@, parsed_url_of(settings@)),
        settings.url is None ==> out == Err::<ConnectPlan, BridgeError>(BridgeError::Config),
{
    let parsed = match &settings.url {
        Some(url) => parse_url_path(url.as_str()),
        None => None,
    };
    plan_with(settings, &parsed)
}

/// Whether a session is there yet.
#[derive(Clone, Copy, Debug, PartialEq, Eq, Structural)]
pub enum SessionStatus {
    /// Nobody has reported on the connection yet.
    NotConnected,
    /// The session is established.
    Connected,
    /// The connection was tried and failed.
    Failed,
}

/// The place where the session is handed over, once.
///
/// The first report decides: later ones are turned away and change nothing,
/// so every reader sees one and the same outcome.
#[derive(Clone, Copy, Debug, PartialEq, Eq, Structural)]
pub struct SessionSlot {
    pub status: SessionStatus,
}

/// The status that a report leaves: the report itself on an empty slot, the
/// status as it was on any other.
pub open spec fn resolved(status: SessionStatus, connected: bool) -> SessionStatus {
    match status {
        SessionStatus::NotConnected => if connected {
            SessionStatus::Connected
        } else {
            SessionStatus::Failed
        },
        _ => status,
    }
}

/// The status after a run of reports, taken in order.
pub open spec fn resolved_all(status: SessionStatus, reports: Seq<bool>) -> SessionStatus
    decreases reports.len(),
{
    if reports.len() == 0 {
        status
    } else {
        resolved_all(resolved(status, reports[0]), reports.drop_first())
    }
}

impl SessionSlot {
    /// An empty slot.
    pub fn new() -> (slot: SessionSlot)
        ensures
            slot.status == SessionStatus::NotConnected,
    {
        SessionSlot { status: SessionStatus::NotConnected }
    }

    /// Reports the outcome of the connection. Returns whether this report
    /// was the first, and so the one that counts.
    pub fn resolve(&mut self, connected: bool) -> (first: bool)
        ensures
            first == (old(self).status == SessionStatus::NotConnected),
            final(self).status == resolved(old(self).status, connected),
    {
        match self.status {
            SessionStatus::NotConnected => {
                self.status = if connected {
                    SessionStatus::Connected
                } else {
                    SessionStatus::Failed
                };
                true
            },
            _ => false,
        }
    }

    /// What a reader of the slot is to do: wait, go on, or give up.
    pub fn observe(&self) -> (out: Result<bool, BridgeError>)
        ensures
            out == (match self.status {
                SessionStatus::NotConnected => Ok::<bool, BridgeError>(false),
                SessionStatus::Connected => Ok::<bool, BridgeError>(true),
                SessionStatus::Failed => Err::<bool, BridgeError>(BridgeError::Connect),
            }),
    {
        match self.status {
            SessionStatus::NotConnected => Ok(false),
            SessionStatus::Connected => Ok(true),
            SessionStatus::Failed => Err(BridgeError::Connect),
        }
    }
}

/// However many reports follow, an empty slot ends up holding the first one,
/// and a slot that was decided keeps its status.
pub proof fn lemma_first_report_decides(status: SessionStatus, reports: Seq<bool>)
    ensures
        status != SessionStatus::NotConnected ==> resolved_all(status, reports) == status,
        status == SessionStatus::NotConnected && reports.len() > 0 ==> resolved_all(status, reports)
            == resolved(status, reports[0]),
    decreases reports.len(),
{
    if reports.len() > 0 {
        lemma_first_report_decides(resolved(status, reports[0]), reports.drop_first());
    }
}

} // verus!
