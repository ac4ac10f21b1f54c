//! Subscribing the destination account, item by item.
//!
//! A [`Batch`] goes through the item ids in the order given, one request per
//! item. A request that the server turns down, or to which no response
//! comes, is recorded and reported as a failure of that item, the operator is
//! asked to acknowledge it, and the batch goes on with the next item: no
//! outcome keeps a later item from being attempted.

use crate::decimal::{decimal, decimal_string, signed_decimal, signed_decimal_string};
use crate::request::{Request, RequestView};
use vstd::prelude::*;
use vstd::string::*;

verus! {

/// How the request for one item ended.
#[derive(Clone, Debug, PartialEq, Eq)]
pub enum Outcome {
    /// The server answered with a status from 200 to 299.
    Success,
    /// The server answered with another status, kept here as text.
    Failure(String),
    /// No response came.
    Lost,
}

/// An [`Outcome`], with its text as plain characters.
pub enum OutcomeView {
    Success,
    Failure(Seq<char>),
    Lost,
}

impl View for Outcome {
    type V = OutcomeView;

    open spec fn view(&self) -> OutcomeView {
        match self {
            Outcome::Success => OutcomeView::Success,
            Outcome::Failure(status) => OutcomeView::Failure(status@),
            Outcome::Lost => OutcomeView::Lost,
        }
    }
}

/// An item and how the request for it ended.
#[derive(Clone, Debug, PartialEq, Eq)]
pub struct SubscriptionResult {
    pub item_id: i64,
    pub outcome: Outcome,
}

/// A [`SubscriptionResult`], with its text as plain characters.
pub struct SubscriptionResultView {
    pub item_id: i64,
    pub outcome: OutcomeView,
}

impl View for SubscriptionResult {
    type V = SubscriptionResultView;

    open spec fn view(&self) -> SubscriptionResultView {
        SubscriptionResultView { item_id: self.item_id, outcome: self.outcome@ }
    }
}

impl DeepView for SubscriptionResult {
    type V = SubscriptionResultView;

    open spec fn deep_view(&self) -> SubscriptionResultView {
        self@
    }
}

/// Whether an HTTP status tells of success: the statuses from 200 to 299 do.
pub open spec fn is_success(status: u16) -> bool {
    200 <= status < 300
}

/// The outcome that an HTTP status stands for. A status that does not tell
/// of success is kept as its decimal digits.
pub open spec fn outcome_of(status: u16) -> OutcomeView {
    if is_success(status) {
        OutcomeView::Success
    } else {
        OutcomeView::Failure(decimal(status as nat))
    }
}

/// The outcome of a request by what came back for it: the status of the
/// response, or `None` where no response came.
pub open spec fn outcome_of_response(response: Option<u16>) -> OutcomeView {
    match response {
        Some(status) => outcome_of(status),
        None => OutcomeView::Lost,
    }
}

/// Turns the status of a response into the outcome of the request.
pub fn classify(status: u16) -> (outcome: Outcome)
    ensures
        outcome@ == outcome_of(status),
{
    if 200 <= status && status < 300 {
        Outcome::Success
    } else {
        Outcome::Failure(decimal_string(status as u128))
    }
}

/// The line that reports a subscribed item: its id, its place among the
/// items counted from one, and the number of items.
pub open spec fn success_line(item_id: i64, place: nat, total: nat) -> Seq<char> {
    "Successfully subscribed file "@ + signed_decimal(item_id as int) + ". Proceeding "@ + decimal(
        place,
    ) + "/"@ + decimal(total)
}

/// The line that reports an item that could not be subscribed, and the status
/// that came back for it.
pub open spec fn failure_line(item_id: i64, status: Seq<char>) -> Seq<char> {
    "Error subscribing file "@ + signed_decimal(item_id as int) + ", status code "@ + status
}

/// The line that reports an item for which no response came.
pub open spec fn lost_line(item_id: i64) -> Seq<char> {
    "Error subscribing file "@ + signed_decimal(item_id as int) + ", no response"@
}

/// The line that closes a batch: how many items were subscribed and how many
/// were not.
pub open spec fn closing_line(succeeded: nat, failed: nat) -> Seq<char> {
    "All provided file id attempted: "@ + decimal(succeeded) + " subscribed, "@ + decimal(failed)
        + " failed. Finishing"@
}

/// The number of successes among `results`.
pub open spec fn successes(results: Seq<SubscriptionResultView>) -> nat
    decreases results.len(),
{
    if results.len() == 0 {
        0
    } else {
        successes(results.drop_last()) + if results.last().outcome is Success {
            1nat
        } else {
            0nat
        }
    }
}

/// What the driver of a batch has to do next.
#[derive(Clone, Debug, PartialEq, Eq)]
pub enum BatchAction {
    /// Send this request and hand back the status of the response, or that
    /// none came.
    Subscribe(Request),
    /// Wait until the operator has acknowledged the failure reported last.
    Pause,
    /// Nothing: every item has been attempted.
    Finish,
}

/// A [`BatchAction`], with its text as plain characters.
pub enum BatchActionView {
    Subscribe(RequestView),
    Pause,
    Finish,
}

impl View for BatchAction {
    type V = BatchActionView;

    open spec fn view(&self) -> BatchActionView {
        match self {
            BatchAction::Subscribe(request) => BatchActionView::Subscribe(request@),
            BatchAction::Pause => BatchActionView::Pause,
            BatchAction::Finish => BatchActionView::Finish,
        }
    }
}

/// The state of a batch in progress.
pub struct BatchView {
    /// The key of the account that is subscribed.
    pub api_key: Seq<char>,
    /// The items to subscribe to, in order.
    pub ids: Seq<i64>,
    /// The results so far, one for each item attempted, in order.
    pub results: Seq<SubscriptionResultView>,
    /// Whether the failure reported last is still to be acknowledged.
    pub paused: bool,
}

impl BatchView {
    /// A batch of which nothing has been attempted yet.
    pub open spec fn start(api_key: Seq<char>, ids: Seq<i64>) -> BatchView {
        BatchView { api_key, ids, results: Seq::empty(), paused: false }
    }

    /// What holds of every batch: the results are those of the first items,
    /// one each and in order, and a batch pauses only on an item that was not
    /// subscribed.
    pub open spec fn wf(self) -> bool {
        &&& self.results.len() <= self.ids.len()
        &&& forall|i: int|
            0 <= i < self.results.len() ==> (#[trigger] self.results[i]).item_id == self.ids[i]
        &&& self.paused ==> self.results.len() > 0 && !(self.results.last().outcome is Success)
    }

    /// Whether a request is due: no failure waits to be acknowledged and
    /// some item has not been attempted.
    pub open spec fn awaits_status(self) -> bool {
        !self.paused && self.results.len() < self.ids.len()
    }

    /// Whether every item has been attempted and every failure acknowledged.
    pub open spec fn finished(self) -> bool {
        !self.paused && self.results.len() >= self.ids.len()
    }

    /// What the driver has to do next.
    pub open spec fn pending(self) -> BatchActionView {
        if self.paused {
            BatchActionView::Pause
        } else if self.results.len() < self.ids.len() {
            BatchActionView::Subscribe(
                RequestView::subscribe(self.api_key, self.ids[self.results.len() as int] as int),
            )
        } else {
            BatchActionView::Finish
        }
    }

    /// The batch after the response with `status` to the request that was
    /// due: the outcome is recorded for the item, and a failure makes the
    /// batch pause. Where no request is due the batch stays as it is.
    pub open spec fn record(self, status: u16) -> BatchView {
        if self.awaits_status() {
            BatchView {
                results: self.results.push(
                    SubscriptionResultView {
                        item_id: self.ids[self.results.len() as int],
                        outcome: outcome_of(status),
                    },
                ),
                paused: !is_success(status),
                ..self
            }
        } else {
            self
        }
    }

    /// The lines to print for the response with `status`.
    pub open spec fn report(self, status: u16) -> Seq<Seq<char>> {
        if !self.awaits_status() {
            Seq::empty()
        } else if is_success(status) {
            seq![
                success_line(
                    self.ids[self.results.len() as int],
                    self.results.len() + 1,
                    self.ids.len(),
                ),
            ]
        } else {
            seq![failure_line(self.ids[self.results.len() as int], decimal(status as nat))]
        }
    }

    /// The batch after no response came to the request that was due: the
    /// item is recorded as lost and the batch pauses. Where no request is
    /// due the batch stays as it is.
    pub open spec fn record_lost(self) -> BatchView {
        if self.awaits_status() {
            BatchView {
                results: self.results.push(
                    SubscriptionResultView {
                        item_id: self.ids[self.results.len() as int],
                        outcome: OutcomeView::Lost,
                    },
                ),
                paused: true,
                ..self
            }
        } else {
            self
        }
    }

    /// The lines to print where no response came.
    pub open spec fn report_lost(self) -> Seq<Seq<char>> {
        if self.awaits_status() {
            seq![lost_line(self.ids[self.results.len() as int])]
        } else {
            Seq::empty()
        }
    }

    /// The batch after what came back for the request that was due: the
    /// status of the response, or `None` where no response came.
    pub open spec fn respond(self, response: Option<u16>) -> BatchView {
        match response {
            Some(status) => self.record(status),
            None => self.record_lost(),
        }
    }

    /// The line that closes the batch, with its counts.
    pub open spec fn closing(self) -> Seq<char> {
        closing_line(successes(self.results), (self.results.len() - successes(self.results)) as nat)
    }

    /// The batch after the operator's acknowledgment.
    pub open spec fn resume(self) -> BatchView {
        BatchView { paused: false, ..self }
    }

    /// The batch after `responses` came back for its requests, one after the
    /// other, each failure acknowledged before the next request.
    pub open spec fn run(self, responses: Seq<Option<u16>>) -> BatchView
        decreases responses.len(),
    {
        if responses.len() == 0 {
            self
        } else {
            self.run(responses.drop_last()).respond(responses.last()).resume()
        }
    }
}

/// The counts of a batch.
#[derive(Clone, Copy, Debug, PartialEq, Eq, Structural)]
pub struct Summary {
    /// The number of items for which a request was made.
    pub attempted: usize,
    /// The number of those that succeeded.
    pub succeeded: usize,
    /// The number of those that did not: turned down or without response.
    pub failed: usize,
}

/// A batch in progress.
#[derive(Debug)]
pub struct Batch {
    api_key: String,
    ids: Vec<i64>,
    results: Vec<SubscriptionResult>,
    paused: bool,
}

impl View for Batch {
    type V = BatchView;

    closed spec fn view(&self) -> BatchView {
        BatchView {
            api_key: self.api_key@,
            ids: self.ids@,
            results: self.results.deep_view(),
            paused: self.paused,
        }
    }
}

impl Batch {
    #[verifier::type_invariant]
    spec fn sound(&self) -> bool {
        self@.wf()
    }

    /// Starts the batch that subscribes the account of `api_key` to `ids`.
    pub fn new(api_key: String, ids: Vec<i64>) -> (batch: Batch)
        ensures
            batch@ == BatchView::start(api_key@, ids@),
    {
        let batch = Batch { api_key, ids, results: Vec::new(), paused: false };
        assert(batch.results.deep_view() =~= Seq::empty());
        batch
    }

    /// What the driver has to do next.
    pub fn pending(&self) -> (action: BatchAction)
        ensures
            action@ == self@.pending(),
            self@.wf(),
    {
        proof {
            use_type_invariant(self);
        }
        if self.paused {
            BatchAction::Pause
        } else if self.results.len() < self.ids.len() {
            BatchAction::Subscribe(
                Request::subscribe(self.ids[self.results.len()], self.api_key.as_str()),
            )
        } else {
            BatchAction::Finish
        }
    }

    /// Takes the status of the response to the request that was due.
    /// Returns the batch after it and the lines that report it.
    pub fn record(self, status: u16) -> (next: (Batch, Vec<String>))
        ensures
            next.0@ == self@.record(status),
            next.1.deep_view() == self@.report(status),
    {
        proof {
            use_type_invariant(&self);
        }
        let mut lines: Vec<String> = Vec::new();
        if self.paused || self.results.len() >= self.ids.len() {
            return (self, lines);
        }
        let Batch { api_key, ids, results, paused: _ } = self;
        let mut results = results;
        let item_id = ids[results.len()];
        let outcome = classify(status);
        let paused = match &outcome {
            Outcome::Success => {
                let mut line = String::from_str("Successfully subscribed file ");
                line.append(signed_decimal_string(item_id).as_str());
                line.append(". Proceeding ");
                line.append(decimal_string(results.len() as u128 + 1).as_str());
                line.append("/");
                line.append(decimal_string(ids.len() as u128).as_str());
                lines.push(line);
                false
            },
            Outcome::Failure(text) => {
                let mut line = String::from_str("Error subscribing file ");
                line.append(signed_decimal_string(item_id).as_str());
                line.append(", status code ");
                line.append(text.as_str());
                lines.push(line);
                true
            },
            Outcome::Lost => true,
        };
        let ghost earlier = results.deep_view();
        results.push(SubscriptionResult { item_id, outcome });
        assert(results.deep_view() =~= earlier.push(
            SubscriptionResultView { item_id, outcome: outcome_of(status) },
        ));
        (Batch { api_key, ids, results, paused }, lines)
    }

    /// Takes that no response came to the request that was due. Returns the
    /// batch after it and the lines that report it.
    pub fn record_lost(self) -> (next: (Batch, Vec<String>))
        ensures
            next.0@ == self@.record_lost(),
            next.1.deep_view() == self@.report_lost(),
    {
        proof {
            use_type_invariant(&self);
        }
        let mut lines: Vec<String> = Vec::new();
        if self.paused || self.results.len() >= self.ids.len() {
            return (self, lines);
        }
        let Batch { api_key, ids, results, paused: _ } = self;
        let mut results = results;
        let item_id = ids[results.len()];
        let mut line = String::from_str("Error subscribing file ");
        line.append(signed_decimal_string(item_id).as_str());
        line.append(", no response");
        lines.push(line);
        let ghost earlier = results.deep_view();
        results.push(SubscriptionResult { item_id, outcome: Outcome::Lost });
        assert(results.deep_view() =~= earlier.push(
            SubscriptionResultView { item_id, outcome: OutcomeView::Lost },
        ));
        (Batch { api_key, ids, results, paused: true }, lines)
    }

    /// Takes the operator's acknowledgment. Returns the batch after it.
    pub fn resume(self) -> (next: Batch)
        ensures
            next@ == self@.resume(),
    {
        proof {
            use_type_invariant(&self);
        }
        let Batch { api_key, ids, results, paused: _ } = self;
        Batch { api_key, ids, results, paused: false }
    }

    /// Whether a request is due.
    pub fn awaits_status(&self) -> (due: bool)
        ensures
            due == self@.awaits_status(),
    {
        !self.paused && self.results.len() < self.ids.len()
    }

    /// Whether every item has been attempted and every failure acknowledged.
    pub fn is_finished(&self) -> (finished: bool)
        ensures
            finished == self@.finished(),
    {
        !self.paused && self.results.len() >= self.ids.len()
    }

    /// The results so far, one for each item attempted, in order.
    pub fn results(&self) -> (results: &Vec<SubscriptionResult>)
        ensures
            results.deep_view() == self@.results,
            self@.wf(),
    {
        proof {
            use_type_invariant(self);
        }
        &self.results
    }

    /// Counts the items attempted so far, and among them the successes and
    /// the failures.
    pub fn summary(&self) -> (summary: Summary)
        ensures
            summary.attempted == self@.results.len(),
            summary.succeeded == successes(self@.results),
            summary.failed == self@.results.len() - successes(self@.results),
    {
        let ghost all = self.results.deep_view();
        let mut succeeded: usize = 0;
        let mut i: usize = 0;
        while i < self.results.len()
            invariant
                i <= self.results.len(),
                all == self.results.deep_view(),
                succeeded == successes(all.take(i as int)),
                succeeded <= i,
            decreases self.results.len() - i,
        {
            assert(all.take(i + 1).drop_last() =~= all.take(i as int));
            match &self.results[i].outcome {
                Outcome::Success => {
                    succeeded = succeeded + 1;
                },
                Outcome::Failure(_) => {},
                Outcome::Lost => {},
            }
            i = i + 1;
        }
        assert(all.take(i as int) =~= all);
        Summary { attempted: i, succeeded, failed: i - succeeded }
    }

    /// Writes the line that closes the batch, with its counts.
    pub fn closing(&self) -> (line: String)
        ensures
            line@ == self@.closing(),
    {
        let summary = self.summary();
        let mut line = String::from_str("All provided file id attempted: ");
        line.append(decimal_string(summary.succeeded as u128).as_str());
        line.append(" subscribed, ");
        line.append(decimal_string(summary.failed as u128).as_str());
        line.append(" failed. Finishing");
        line
    }
}

/// Neither a response, nor a lost one, nor an acknowledgment breaks what
/// holds of every batch.
pub proof fn lemma_batch_stays_sound(batch: BatchView, response: Option<u16>)
    requires
        batch.wf(),
    ensures
        batch.respond(response).wf(),
        batch.resume().wf(),
{
}

/// What comes back for the first requests of a batch, whatever it is and
/// whether anything comes at all, leaves one result for each of the first
/// items, in order, each with the outcome of its own request, and the request
/// for the item after them is due next: no failure and no lost response keeps
/// a later item from being attempted.
pub proof fn lemma_first_items_attempted(
    api_key: Seq<char>,
    ids: Seq<i64>,
    responses: Seq<Option<u16>>,
)
    requires
        responses.len() <= ids.len(),
    ensures
        ({
            let batch = BatchView::start(api_key, ids).run(responses);
            &&& batch.wf()
            &&& batch.api_key == api_key
            &&& batch.ids == ids
            &&& !batch.paused
            &&& batch.results.len() == responses.len()
            &&& forall|i: int|
                0 <= i < responses.len() ==> #[trigger] batch.results[i] == (
                SubscriptionResultView {
                    item_id: ids[i],
                    outcome: outcome_of_response(responses[i]),
                })
            &&& responses.len() < ids.len() ==> batch.pending() == BatchActionView::Subscribe(
                RequestView::subscribe(api_key, ids[responses.len() as int] as int),
            )
        }),
    decreases responses.len(),
{
    if responses.len() > 0 {
        lemma_first_items_attempted(api_key, ids, responses.drop_last());
    }
}

/// With an answer or a lost response for each item, a batch ends with every
/// item attempted exactly once, whatever the outcomes.
pub proof fn lemma_every_item_attempted(
    api_key: Seq<char>,
    ids: Seq<i64>,
    responses: Seq<Option<u16>>,
)
    requires
        responses.len() == ids.len(),
    ensures
        BatchView::start(api_key, ids).run(responses).finished(),
        BatchView::start(api_key, ids).run(responses).results.len() == ids.len(),
        BatchView::start(api_key, ids).run(responses).pending() == BatchActionView::Finish,
{
    lemma_first_items_attempted(api_key, ids, responses);
}

} // verus!
