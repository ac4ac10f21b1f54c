//! A whole run, from the look for the configuration file to the last
//! acknowledgment.
//!
//! A [`Session`] decides; its driver acts. The driver performs the action
//! that is pending, hands the session the event that tells how it went,
//! prints the lines that come back, and goes on until the pending action is
//! to exit.

use crate::config::{
    instructions, instructions_text, template, template_text, Config, ConfigView, Variant,
    FOUND_LINE,
};
use crate::decimal::{decimal, decimal_string};
use crate::lister::{Lister, ListerView};
use crate::page::{error_text, PageError};
use crate::request::{Request, RequestView};
use crate::subscriber::{
    lemma_batch_stays_sound, Batch, BatchAction, BatchActionView, BatchView,
};
use vstd::prelude::*;
use vstd::string::*;

verus! {

/// What the driver of a session has to do next.
#[derive(Clone, Debug, PartialEq, Eq)]
pub enum Action {
    /// Look whether the configuration file is there.
    CheckConfig,
    /// Write the configuration file with this content.
    WriteTemplate(String),
    /// Read the configuration file.
    LoadConfig,
    /// Send this request: for a `GET` hand back the body of the response,
    /// for a `POST` its status, for either that no response came.
    Send(Request),
    /// Wait until the operator has acknowledged what was printed.
    Pause,
    /// End the run.
    Exit,
}

/// An [`Action`], with its texts as plain characters.
pub enum ActionView {
    CheckConfig,
    WriteTemplate(Seq<char>),
    LoadConfig,
    Send(RequestView),
    Pause,
    Exit,
}

impl View for Action {
    type V = ActionView;

    open spec fn view(&self) -> ActionView {
        match self {
            Action::CheckConfig => ActionView::CheckConfig,
            Action::WriteTemplate(text) => ActionView::WriteTemplate(text@),
            Action::LoadConfig => ActionView::LoadConfig,
            Action::Send(request) => ActionView::Send(request@),
            Action::Pause => ActionView::Pause,
            Action::Exit => ActionView::Exit,
        }
    }
}

/// How the action of a session went.
#[derive(Clone, Debug, PartialEq, Eq)]
pub enum Event {
    /// The configuration file is there.
    ConfigFound,
    /// The configuration file is not there.
    ConfigMissing,
    /// The configuration file has been written.
    TemplateWritten,
    /// The configuration file holds this configuration.
    ConfigLoaded(Config),
    /// The configuration file cannot be read.
    ConfigUnreadable,
    /// The configuration file does not hold a configuration.
    ConfigMalformed,
    /// No response came to the request.
    TransportFailed,
    /// The response to the request for a page has this body.
    PageFetched(String),
    /// The response to the request for an item has this status.
    Responded(u16),
    /// The operator has acknowledged.
    Resumed,
}

/// An [`Event`], with its texts as plain characters.
pub enum EventView {
    ConfigFound,
    ConfigMissing,
    TemplateWritten,
    ConfigLoaded(ConfigView),
    ConfigUnreadable,
    ConfigMalformed,
    TransportFailed,
    PageFetched(Seq<char>),
    Responded(u16),
    Resumed,
}

impl View for Event {
    type V = EventView;

    open spec fn view(&self) -> EventView {
        match self {
            Event::ConfigFound => EventView::ConfigFound,
            Event::ConfigMissing => EventView::ConfigMissing,
            Event::TemplateWritten => EventView::TemplateWritten,
            Event::ConfigLoaded(config) => EventView::ConfigLoaded(config@),
            Event::ConfigUnreadable => EventView::ConfigUnreadable,
            Event::ConfigMalformed => EventView::ConfigMalformed,
            Event::TransportFailed => EventView::TransportFailed,
            Event::PageFetched(html) => EventView::PageFetched(html@),
            Event::Responded(status) => EventView::Responded(*status),
            Event::Resumed => EventView::Resumed,
        }
    }
}

/// What the operator is told when the configuration file cannot be read.
pub const UNREADABLE_LINE: &'static str = "Reading file error! Aborting";

/// What the operator is told when the configuration file does not hold a
/// configuration.
pub const MALFORMED_LINE: &'static str = "Parsing json error! Aborting";

/// What the operator is told when no response came to the request for a
/// page of the listing.
pub const TRANSPORT_LINE: &'static str = "Sending request error! Aborting";

/// The line that tells of a listing page whose item ids cannot be read.
pub open spec fn page_error_line(page: nat, error: PageError) -> Seq<char> {
    "Error reading page "@ + decimal(page) + ": "@ + error_text(error)
}

/// A run and how far it has come.
#[derive(Debug)]
pub enum Session {
    /// Nothing has been done yet.
    Start(Variant),
    /// The configuration file is missing and has to be written.
    Missing(Variant),
    /// The run cannot go on; the operator has to acknowledge why.
    Aborting,
    /// The configuration file is there and has to be read.
    Loading,
    /// The subscription listing is being read, page by page.
    Listing { lister: Lister, api_key: String },
    /// The items are being subscribed to, one by one.
    Subscribing(Batch),
    /// All is done; the operator has to acknowledge it.
    Closing,
    /// The run is over.
    Ended,
}

/// A [`Session`], with its parts as plain values.
pub enum SessionView {
    Start(Variant),
    Missing(Variant),
    Aborting,
    Loading,
    Listing { lister: ListerView, api_key: Seq<char> },
    Subscribing(BatchView),
    Closing,
    Ended,
}

impl View for Session {
    type V = SessionView;

    open spec fn view(&self) -> SessionView {
        match self {
            Session::Start(variant) => SessionView::Start(*variant),
            Session::Missing(variant) => SessionView::Missing(*variant),
            Session::Aborting => SessionView::Aborting,
            Session::Loading => SessionView::Loading,
            Session::Listing { lister, api_key } => SessionView::Listing {
                lister: lister@,
                api_key: api_key@,
            },
            Session::Subscribing(batch) => SessionView::Subscribing(batch@),
            Session::Closing => SessionView::Closing,
            Session::Ended => SessionView::Ended,
        }
    }
}

/// Where a batch stands within a session: one with nothing left to do gives
/// way to the closing line, which tells its counts, and to the last
/// acknowledgment.
pub open spec fn settle(batch: BatchView, lines: Seq<Seq<char>>) -> (SessionView, Seq<Seq<char>>) {
    if batch.finished() {
        (SessionView::Closing, lines.push(batch.closing()))
    } else {
        (SessionView::Subscribing(batch), lines)
    }
}

/// No line or one.
pub open spec fn lines_of(line: Option<Seq<char>>) -> Seq<Seq<char>> {
    match line {
        Some(text) => seq![text],
        None => Seq::empty(),
    }
}

impl SessionView {
    /// What the driver has to do next.
    pub open spec fn pending(self) -> ActionView {
        match self {
            SessionView::Start(_) => ActionView::CheckConfig,
            SessionView::Missing(variant) => ActionView::WriteTemplate(template(variant)),
            SessionView::Aborting => ActionView::Pause,
            SessionView::Loading => ActionView::LoadConfig,
            SessionView::Listing { lister, api_key } => match lister.request() {
                Some(request) => ActionView::Send(request),
                None => ActionView::Exit,
            },
            SessionView::Subscribing(batch) => match batch.pending() {
                BatchActionView::Subscribe(request) => ActionView::Send(request),
                BatchActionView::Pause => ActionView::Pause,
                BatchActionView::Finish => ActionView::Exit,
            },
            SessionView::Closing => ActionView::Pause,
            SessionView::Ended => ActionView::Exit,
        }
    }

    /// The session after `event`, and the lines to print for it. An event
    /// that does not tell of the pending action changes nothing.
    pub open spec fn advance(self, event: EventView) -> (SessionView, Seq<Seq<char>>) {
        match (self, event) {
            (SessionView::Start(_), EventView::ConfigFound) => (
                SessionView::Loading,
                seq![FOUND_LINE@],
            ),
            (SessionView::Start(variant), EventView::ConfigMissing) => (
                SessionView::Missing(variant),
                Seq::empty(),
            ),
            (SessionView::Missing(variant), EventView::TemplateWritten) => (
                SessionView::Aborting,
                seq![instructions(variant)],
            ),
            (SessionView::Aborting, EventView::Resumed) => (SessionView::Ended, Seq::empty()),
            (SessionView::Closing, EventView::Resumed) => (SessionView::Ended, Seq::empty()),
            (SessionView::Loading, EventView::ConfigLoaded(ConfigView::Scrape(data))) => (
                SessionView::Listing {
                    lister: ListerView::start(data.username, data.game_appid, data.cookie),
                    api_key: data.web_apikey,
                },
                Seq::empty(),
            ),
            (SessionView::Loading, EventView::ConfigLoaded(ConfigView::Listed(list))) => settle(
                BatchView::start(list.web_apikey, list.file_ids),
                Seq::empty(),
            ),
            (SessionView::Loading, EventView::ConfigUnreadable) => (
                SessionView::Aborting,
                seq![UNREADABLE_LINE@],
            ),
            (SessionView::Loading, EventView::ConfigMalformed) => (
                SessionView::Aborting,
                seq![MALFORMED_LINE@],
            ),
            (SessionView::Listing { lister, api_key }, EventView::TransportFailed) => if lister.done {
                (self, Seq::empty())
            } else {
                (SessionView::Aborting, seq![TRANSPORT_LINE@])
            },
            (SessionView::Subscribing(batch), EventView::TransportFailed) => settle(
                batch.record_lost(),
                batch.report_lost(),
            ),
            (SessionView::Listing { lister, api_key }, EventView::PageFetched(html)) => {
                match lister.accept_page(html) {
                    Err(error) => (
                        SessionView::Aborting,
                        seq![page_error_line(lister.page, error)],
                    ),
                    Ok((next, line)) => if next.done {
                        settle(BatchView::start(api_key, next.ids), lines_of(line))
                    } else {
                        (SessionView::Listing { lister: next, api_key }, lines_of(line))
                    },
                }
            },
            (SessionView::Subscribing(batch), EventView::Responded(status)) => settle(
                batch.record(status),
                batch.report(status),
            ),
            (SessionView::Subscribing(batch), EventView::Resumed) => settle(
                batch.resume(),
                Seq::empty(),
            ),
            _ => (self, Seq::empty()),
        }
    }

    /// The session after `events`, taken in order.
    pub open spec fn run(self, events: Seq<EventView>) -> SessionView
        decreases events.len(),
    {
        if events.len() == 0 {
            self
        } else {
            self.run(events.drop_last()).advance(events.last()).0
        }
    }

    /// Whether the session is past sending requests, whatever event comes.
    pub open spec fn offline(self) -> bool {
        self is Missing || self is Aborting || self is Closing || self is Ended
    }

    /// What holds of every session that a run comes to: a listing within it
    /// is not done, and a batch within it has something left to do.
    pub open spec fn wf(self) -> bool {
        match self {
            SessionView::Listing { lister, api_key } => !lister.done,
            SessionView::Subscribing(batch) => batch.wf() && !batch.finished(),
            _ => true,
        }
    }
}

/// Places a batch within a session, after the lines printed so far.
fn settle_batch(batch: Batch, lines: Vec<String>) -> (next: (Session, Vec<String>))
    ensures
        (next.0@, next.1.deep_view()) == settle(batch@, lines.deep_view()),
{
    if batch.is_finished() {
        let mut lines = lines;
        lines.push(batch.closing());
        (Session::Closing, lines)
    } else {
        (Session::Subscribing(batch), lines)
    }
}

/// No line or one, as a list.
fn list_of(line: Option<String>) -> (lines: Vec<String>)
    ensures
        lines.deep_view() == lines_of(line.deep_view()),
{
    let mut lines: Vec<String> = Vec::new();
    match line {
        Some(text) => {
            lines.push(text);
        },
        None => {},
    }
    lines
}

/// One line, as a list.
fn only(line: String) -> (lines: Vec<String>)
    ensures
        lines.deep_view() == seq![line@],
{
    let mut lines: Vec<String> = Vec::new();
    lines.push(line);
    lines
}

/// No lines.
fn nothing() -> (lines: Vec<String>)
    ensures
        lines.deep_view() == Seq::<Seq<char>>::empty(),
{
    let lines: Vec<String> = Vec::new();
    lines
}

impl Session {
    /// The session of a run of which nothing has been done yet.
    pub fn new(variant: Variant) -> (session: Session)
        ensures
            session@ == SessionView::Start(variant),
    {
        Session::Start(variant)
    }

    /// What the driver has to do next.
    pub fn pending(&self) -> (action: Action)
        ensures
            action@ == self@.pending(),
    {
        match self {
            Session::Start(_) => Action::CheckConfig,
            Session::Missing(variant) => Action::WriteTemplate(template_text(*variant)),
            Session::Aborting => Action::Pause,
            Session::Loading => Action::LoadConfig,
            Session::Listing { lister, api_key: _ } => match lister.request() {
                Some(request) => Action::Send(request),
                None => Action::Exit,
            },
            Session::Subscribing(batch) => match batch.pending() {
                BatchAction::Subscribe(request) => Action::Send(request),
                BatchAction::Pause => Action::Pause,
                BatchAction::Finish => Action::Exit,
            },
            Session::Closing => Action::Pause,
            Session::Ended => Action::Exit,
        }
    }

    /// Whether the run is over.
    pub fn is_over(&self) -> (over: bool)
        ensures
            over == (self@ is Ended),
    {
        match self {
            Session::Ended => true,
            _ => false,
        }
    }

    /// Takes the event that tells how the pending action went. Returns the
    /// session after it and the lines to print.
    pub fn advance(self, event: Event) -> (next: (Session, Vec<String>))
        ensures
            next.0@ == self@.advance(event@).0,
            next.1.deep_view() == self@.advance(event@).1,
    {
        match (self, event) {
            (Session::Start(_), Event::ConfigFound) => (
                Session::Loading,
                only(String::from_str(FOUND_LINE)),
            ),
            (Session::Start(variant), Event::ConfigMissing) => (
                Session::Missing(variant),
                nothing(),
            ),
            (Session::Missing(variant), Event::TemplateWritten) => (
                Session::Aborting,
                only(instructions_text(variant)),
            ),
            (Session::Aborting, Event::Resumed) => (Session::Ended, nothing()),
            (Session::Closing, Event::Resumed) => (Session::Ended, nothing()),
            (Session::Loading, Event::ConfigLoaded(Config::Scrape(data))) => (
                Session::Listing {
                    lister: Lister::new(data.username, data.game_appid, data.cookie),
                    api_key: data.web_apikey,
                },
                nothing(),
            ),
            (Session::Loading, Event::ConfigLoaded(Config::Listed(list))) => settle_batch(
                Batch::new(list.web_apikey, list.file_ids),
                nothing(),
            ),
            (Session::Loading, Event::ConfigUnreadable) => (
                Session::Aborting,
                only(String::from_str(UNREADABLE_LINE)),
            ),
            (Session::Loading, Event::ConfigMalformed) => (
                Session::Aborting,
                only(String::from_str(MALFORMED_LINE)),
            ),
            (Session::Listing { lister, api_key }, Event::TransportFailed) => {
                if lister.is_done() {
                    (Session::Listing { lister, api_key }, nothing())
                } else {
                    (Session::Aborting, only(String::from_str(TRANSPORT_LINE)))
                }
            },
            (Session::Subscribing(batch), Event::TransportFailed) => {
                let (batch, lines) = batch.record_lost();
                settle_batch(batch, lines)
            },
            (Session::Listing { lister, api_key }, Event::PageFetched(html)) => {
                let page = lister.page();
                match lister.accept_page(html.as_str()) {
                    Err(error) => {
                        let mut line = String::from_str("Error reading page ");
                        line.append(decimal_string(page).as_str());
                        line.append(": ");
                        line.append(error.message());
                        (Session::Aborting, only(line))
                    },
                    Ok((next, line)) => {
                        let lines = list_of(line);
                        if next.is_done() {
                            settle_batch(Batch::new(api_key, next.into_ids()), lines)
                        } else {
                            (Session::Listing { lister: next, api_key }, lines)
                        }
                    },
                }
            },
            (Session::Subscribing(batch), Event::Responded(status)) => {
                let (batch, lines) = batch.record(status);
                settle_batch(batch, lines)
            },
            (Session::Subscribing(batch), Event::Resumed) => settle_batch(
                batch.resume(),
                nothing(),
            ),
            (session, _) => (session, nothing()),
        }
    }
}

/// No event breaks what holds of every session that a run comes to.
pub proof fn lemma_session_stays_sound(session: SessionView, event: EventView)
    requires
        session.wf(),
    ensures
        session.advance(event).0.wf(),
{
    match (session, event) {
        (SessionView::Subscribing(batch), EventView::Responded(status)) => {
            lemma_batch_stays_sound(batch, Some(status));
        },
        (SessionView::Subscribing(batch), EventView::TransportFailed) => {
            lemma_batch_stays_sound(batch, None);
        },
        (SessionView::Subscribing(batch), EventView::Resumed) => {
            lemma_batch_stays_sound(batch, None);
        },
        _ => {},
    }
}

/// A run ends only on the operator's acknowledgment: the session that comes
/// to its end was waiting for it, and the event was that it came.
pub proof fn lemma_ends_only_after_acknowledgment(session: SessionView, event: EventView)
    requires
        !(session is Ended),
        session.advance(event).0 is Ended,
    ensures
        session.pending() == ActionView::Pause,
        event == EventView::Resumed,
{
}

/// A session that is past sending requests stays so, whatever events come.
proof fn lemma_offline_stays(session: SessionView, events: Seq<EventView>)
    requires
        session.offline(),
    ensures
        session.run(events).offline(),
    decreases events.len(),
{
    if events.len() > 0 {
        lemma_offline_stays(session, events.drop_last());
    }
}

/// Where the configuration file is missing, the next thing done is to write
/// the template of the variant, and whatever events come after that, no
/// request is ever sent.
pub proof fn lemma_missing_config_sends_nothing(variant: Variant, events: Seq<EventView>)
    ensures
        SessionView::Start(variant).pending() == ActionView::CheckConfig,
        SessionView::Start(variant).advance(EventView::ConfigMissing).0.pending()
            == ActionView::WriteTemplate(template(variant)),
        !(SessionView::Start(variant).advance(EventView::ConfigMissing).0.run(events).pending()
            is Send),
{
    lemma_offline_stays(SessionView::Start(variant).advance(EventView::ConfigMissing).0, events);
}

} // verus!
