//! The record client: the one remote `A` record and the address it was last
//! known to hold.
//!
//! A cycle has two halves with the network in between. [`DDnsRecord::update`]
//! takes the address that was resolved and decides whether anything has to be
//! pushed; [`DDnsRecord::complete`] takes the answer to the push and only then
//! changes the record. The caller carries out the requests.

use crate::error::{AppError, AppErrorView, AppResult, ErrorKind};
use crate::ipv4::{malformed_address, parse_ipv4, Ipv4};
use crate::resolver::{resolves_to, trim};
use vstd::prelude::*;

verus! {

/// The content of a remote record, as it is read from and sent to the record
/// API.
#[derive(Clone, Debug, PartialEq, Eq)]
pub struct RecordContent {
    /// The address the record points to.
    pub content: Ipv4,
    pub ttl: u32,
    /// The DNS type of the record, `"A"` for the records handled here.
    pub record_type: String,
    pub name: String,
}

/// What a [`RecordContent`] holds, as plain values.
pub struct RecordContentView {
    pub content: Ipv4,
    pub ttl: u32,
    pub record_type: Seq<char>,
    pub name: Seq<char>,
}

impl View for RecordContent {
    type V = RecordContentView;

    open spec fn view(&self) -> RecordContentView {
        RecordContentView {
            content: self.content,
            ttl: self.ttl,
            record_type: self.record_type@,
            name: self.name@,
        }
    }
}

impl RecordContent {
    /// The content of a record as the record API writes it, with the address
    /// as text. Text that is no address is a format error.
    pub fn new(content: &str, ttl: u32, record_type: String, name: String) -> (r: AppResult<Self>)
        ensures
            match r {
                Ok(record) => parse_ipv4(content@) matches Some(ip) && record@ == (RecordContentView {
                    content: ip,
                    ttl,
                    record_type: record_type@,
                    name: name@,
                }),
                Err(e) => parse_ipv4(content@) is None && e@ == malformed_address(),
            },
    {
        match Ipv4::parse(content) {
            Ok(ip) => Ok(RecordContent { content: ip, ttl, record_type, name }),
            Err(e) => Err(e),
        }
    }
}

/// How one cycle ended.
#[derive(Debug)]
pub enum SyncOutcome {
    /// The address is the one the record already holds.
    Unchanged(Ipv4),
    /// The record was moved from the first address to the second.
    Updated(Ipv4, Ipv4),
    /// The cycle failed; the record is as it was.
    Failed(AppError),
}

/// What is to be done after the current address was resolved.
#[derive(Debug)]
pub enum SyncStep {
    /// Send this content to the update endpoint and hand the answer to
    /// [`DDnsRecord::complete`].
    Push(RecordContent),
    /// The cycle is over and nothing is to be sent.
    Done(SyncOutcome),
}

/// A [`SyncStep`] with the content to push as plain values.
pub enum SyncStepView {
    Push(RecordContentView),
    Done(SyncOutcome),
}

impl View for SyncStep {
    type V = SyncStepView;

    open spec fn view(&self) -> SyncStepView {
        match *self {
            SyncStep::Push(content) => SyncStepView::Push(content@),
            SyncStep::Done(outcome) => SyncStepView::Done(outcome),
        }
    }
}

/// The remote record and the address it was last known to hold.
#[derive(Clone, Debug)]
pub struct DDnsRecord {
    id: u64,
    ttl: u32,
    name: String,
    user_token: String,
    last_ip: Ipv4,
}

/// What a [`DDnsRecord`] holds, as plain values.
pub struct DDnsRecordView {
    pub id: u64,
    pub ttl: u32,
    pub name: Seq<char>,
    pub user_token: Seq<char>,
    pub last_ip: Ipv4,
}

/// One whole cycle: the record after it, how it ended, and how many update
/// requests it sent.
pub struct Cycle {
    pub record: DDnsRecordView,
    pub outcome: SyncOutcome,
    pub pushes: nat,
}

/// The error for a remote record that is not an `A` record.
pub open spec fn type_mismatch() -> AppErrorView {
    AppErrorView { kind: ErrorKind::RecordTypeMismatch, message: "DNS type not match"@, cause: None }
}

impl DDnsRecordView {
    /// The content that moves the record to `ip`: the new address under the
    /// record's own ttl and name, as an `A` record.
    pub open spec fn content_for(self, ip: Ipv4) -> RecordContentView {
        RecordContentView { content: ip, ttl: self.ttl, record_type: "A"@, name: self.name }
    }

    /// The step that follows a resolution: a failure ends the cycle, the
    /// address already held ends it too, any other address is pushed.
    pub open spec fn plan(self, resolved: AppResult<Ipv4>) -> SyncStepView {
        match resolved {
            Err(e) => SyncStepView::Done(SyncOutcome::Failed(e)),
            Ok(ip) => if ip == self.last_ip {
                SyncStepView::Done(SyncOutcome::Unchanged(ip))
            } else {
                SyncStepView::Push(self.content_for(ip))
            },
        }
    }

    /// The record after the push of `ip` was answered: it holds `ip` when the
    /// push succeeded and is unchanged when it failed.
    pub open spec fn after_push(self, ip: Ipv4, pushed: AppResult<()>) -> DDnsRecordView {
        match pushed {
            Ok(_) => DDnsRecordView { last_ip: ip, ..self },
            Err(_) => self,
        }
    }

    /// The outcome of the cycle once the push of `ip` was answered.
    pub open spec fn outcome_of_push(self, ip: Ipv4, pushed: AppResult<()>) -> SyncOutcome {
        match pushed {
            Ok(_) => SyncOutcome::Updated(self.last_ip, ip),
            Err(e) => SyncOutcome::Failed(e),
        }
    }

    /// A whole cycle, given what the resolver found and what the update
    /// endpoint answers if it is asked.
    pub open spec fn reconcile(self, resolved: AppResult<Ipv4>, endpoint: AppResult<()>) -> Cycle {
        match self.plan(resolved) {
            SyncStepView::Done(outcome) => Cycle { record: self, outcome, pushes: 0 },
            SyncStepView::Push(content) => Cycle {
                record: self.after_push(content.content, endpoint),
                outcome: self.outcome_of_push(content.content, endpoint),
                pushes: 1,
            },
        }
    }
}

impl View for DDnsRecord {
    type V = DDnsRecordView;

    closed spec fn view(&self) -> DDnsRecordView {
        DDnsRecordView {
            id: self.id,
            ttl: self.ttl,
            name: self.name@,
            user_token: self.user_token@,
            last_ip: self.last_ip,
        }
    }
}

fn is_a_record(record_type: &str) -> (r: bool)
    ensures
        r == (record_type@ == "A"@),
{
    proof {
        reveal_strlit("A");
    }
    let r = record_type.unicode_len() == 1 && record_type.get_char(0) == 'A';
    assert(r == (record_type@ =~= "A"@));
    r
}

impl DDnsRecord {
    /// Sets up the client for record `id` from the content that the record
    /// API returned for it. Only an `A` record is accepted; for any other
    /// type no client is made.
    pub fn init(id: u64, user_token: &str, remote: RecordContent) -> (r: AppResult<Self>)
        ensures
            match r {
                Ok(record) => remote@.record_type == "A"@ && record@ == (DDnsRecordView {
                    id,
                    ttl: remote@.ttl,
                    name: remote@.name,
                    user_token: user_token@,
                    last_ip: remote@.content,
                }),
                Err(e) => remote@.record_type != "A"@ && e@ == type_mismatch(),
            },
    {
        if !is_a_record(remote.record_type.as_str()) {
            return Err(AppError::new(ErrorKind::RecordTypeMismatch, "DNS type not match"));
        }
        Ok(
            DDnsRecord {
                id,
                ttl: remote.ttl,
                name: remote.name,
                user_token: user_token.to_owned(),
                last_ip: remote.content,
            },
        )
    }

    /// The id of the remote record.
    pub fn id(&self) -> (id: u64)
        ensures
            id == self@.id,
    {
        self.id
    }

    /// The time to live that the record is kept at.
    pub fn ttl(&self) -> (ttl: u32)
        ensures
            ttl == self@.ttl,
    {
        self.ttl
    }

    /// The name of the record.
    pub fn name(&self) -> (name: &str)
        ensures
            name@ == self@.name,
    {
        self.name.as_str()
    }

    /// The credential for the record API.
    pub fn user_token(&self) -> (token: &str)
        ensures
            token@ == self@.user_token,
    {
        self.user_token.as_str()
    }

    /// The address the remote record was last known to hold.
    pub fn last_ip(&self) -> (ip: Ipv4)
        ensures
            ip == self@.last_ip,
    {
        self.last_ip
    }

    /// First half of a cycle. Takes what the resolver found and says what
    /// follows; the record itself is not touched.
    pub fn update(&self, resolved: AppResult<Ipv4>) -> (step: SyncStep)
        ensures
            step@ == self@.plan(resolved),
    {
        match resolved {
            Err(e) => SyncStep::Done(SyncOutcome::Failed(e)),
            Ok(ip) => if ip == self.last_ip {
                SyncStep::Done(SyncOutcome::Unchanged(ip))
            } else {
                SyncStep::Push(
                    RecordContent {
                        content: ip,
                        ttl: self.ttl,
                        record_type: "A".to_owned(),
                        name: self.name.clone(),
                    },
                )
            },
        }
    }

    /// Second half of a cycle. Takes the answer of the update endpoint to the
    /// push of `ip`; the record takes the new address only if the push
    /// succeeded.
    pub fn complete(&mut self, ip: Ipv4, pushed: AppResult<()>) -> (outcome: SyncOutcome)
        ensures
            final(self)@ == old(self)@.after_push(ip, pushed),
            outcome == old(self)@.outcome_of_push(ip, pushed),
    {
        match pushed {
            Ok(_) => {
                let old_ip = self.last_ip;
                self.last_ip = ip;
                SyncOutcome::Updated(old_ip, ip)
            },
            Err(e) => SyncOutcome::Failed(e),
        }
    }
}

/// When the resolved address is the one the record holds, the cycle ends as
/// `Unchanged`, sends no update request and leaves the record as it was.
pub proof fn lemma_same_address_sends_nothing(
    record: DDnsRecordView,
    current: Ipv4,
    endpoint: AppResult<()>,
)
    requires
        current == record.last_ip,
    ensures
        record.reconcile(Ok(current), endpoint) == (Cycle {
            record,
            outcome: SyncOutcome::Unchanged(current),
            pushes: 0,
        }),
{
}

/// When the resolved address differs from the one the record holds and the
/// update endpoint accepts the push, the cycle ends as `Updated` from the old
/// address to the new one, and the record holds the new one.
pub proof fn lemma_changed_address_is_stored(record: DDnsRecordView, current: Ipv4)
    requires
        current != record.last_ip,
    ensures
        record.plan(Ok(current)) == SyncStepView::Push(record.content_for(current)),
        record.reconcile(Ok(current), Ok(())) == (Cycle {
            record: DDnsRecordView { last_ip: current, ..record },
            outcome: SyncOutcome::Updated(record.last_ip, current),
            pushes: 1,
        }),
{
}

/// When the update endpoint refuses the push, the cycle ends as `Failed` with
/// the record as it was, and the next cycle on the same address asks for the
/// same push again: it runs as if the failed one had not happened.
pub proof fn lemma_failed_push_is_retried(
    record: DDnsRecordView,
    current: Ipv4,
    e: AppError,
    next: AppResult<()>,
)
    requires
        current != record.last_ip,
    ensures
        record.reconcile(Ok(current), Err(e)) == (Cycle {
            record,
            outcome: SyncOutcome::Failed(e),
            pushes: 1,
        }),
        record.reconcile(Ok(current), Err(e)).record.plan(Ok(current)) == SyncStepView::Push(
            record.content_for(current),
        ),
        record.reconcile(Ok(current), Err(e)).record.reconcile(Ok(current), next)
            == record.reconcile(Ok(current), next),
{
}

/// A failed resolution ends the cycle as `Failed` with that error, sends no
/// update request and leaves the record as it was.
pub proof fn lemma_failed_resolution_sends_nothing(
    record: DDnsRecordView,
    e: AppError,
    endpoint: AppResult<()>,
)
    ensures
        record.reconcile(Err(e), endpoint) == (Cycle {
            record,
            outcome: SyncOutcome::Failed(e),
            pushes: 0,
        }),
{
}

/// A body of the echo service that stands for no address makes the cycle
/// fail with a format error, without an update request: whatever `resolve`
/// answers on such a body is an error of that kind, and the cycle ends with
/// it.
pub proof fn lemma_malformed_body_sends_nothing(
    record: DDnsRecordView,
    body: Seq<char>,
    resolved: AppResult<Ipv4>,
    endpoint: AppResult<()>,
)
    requires
        parse_ipv4(trim(body)) is None,
        resolves_to(body, resolved),
    ensures
        resolved is Err,
        resolved->Err_0@.kind == ErrorKind::Format,
        record.reconcile(resolved, endpoint) == (Cycle {
            record,
            outcome: SyncOutcome::Failed(resolved->Err_0),
            pushes: 0,
        }),
{
}

} // verus!
