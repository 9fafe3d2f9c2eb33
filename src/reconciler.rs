//! One reconciliation pass for one desired record, as a state machine.
//!
//! The caller performs each call that a step asks for and hands the reply
//! back: `begin` asks for the listing of the zone, `on_listed` decides between
//! a create, an update and nothing, and `on_written` gives the outcome.
use vstd::prelude::*;

use crate::matcher::{find_match, first_match, has_match, is_first_match, lemma_first_match_unique};
use crate::provider::{
    create_request, create_request_of, judge_list, judge_write, list_request, list_request_of,
    list_verdict, listed_view, update_request, update_request_of, with_id, write_verdict,
    written_view, Method, ProviderRequest, Reply, RequestView,
};
use crate::typings::{
    records_view, same_target, DNSListResponse, DNSRecordSpec, DNSResponse, Error, ErrorView,
    RecordView,
};

verus! {

/// Where a pass stands.
#[derive(Clone, Copy, Debug, PartialEq, Eq, Structural)]
pub enum Phase {
    /// Nothing has been asked yet.
    Ready,
    /// The listing of the zone has been asked for.
    Listing,
    /// A create has been asked for.
    Creating,
    /// An update has been asked for.
    Updating,
    /// The pass has an outcome.
    Done,
}

/// What a pass came to.
#[derive(Debug)]
pub enum Outcome {
    Created,
    Updated,
    Unchanged,
    Failed(Error),
}

/// The mathematical value of an [`Outcome`].
pub enum OutcomeView {
    Created,
    Updated,
    Unchanged,
    Failed(ErrorView),
}

impl View for Outcome {
    type V = OutcomeView;

    open spec fn view(&self) -> OutcomeView {
        match self {
            Outcome::Created => OutcomeView::Created,
            Outcome::Updated => OutcomeView::Updated,
            Outcome::Unchanged => OutcomeView::Unchanged,
            Outcome::Failed(e) => OutcomeView::Failed(e@),
        }
    }
}

/// What the caller is to do next: make a call, or take the outcome.
#[derive(Debug)]
pub enum Step {
    Send(ProviderRequest),
    Finish(Outcome),
}

/// The mathematical value of a [`Step`].
pub enum StepView {
    Send(RequestView),
    Finish(OutcomeView),
}

impl View for Step {
    type V = StepView;

    open spec fn view(&self) -> StepView {
        match self {
            Step::Send(r) => StepView::Send(r@),
            Step::Finish(o) => StepView::Finish(o@),
        }
    }
}

/// The step that follows a listing: a failed listing ends the pass; a record
/// without remote counterpart is created; one whose first counterpart has
/// the same content and flag is left alone; otherwise that counterpart is
/// updated under its own identifier.
pub open spec fn after_list(
    zone: Seq<char>,
    desired: RecordView,
    listed: Result<Seq<RecordView>, ErrorView>,
) -> StepView {
    match listed {
        Err(e) => StepView::Finish(OutcomeView::Failed(e)),
        Ok(remote) => match first_match(desired, remote) {
            None => StepView::Send(create_request_of(zone, desired)),
            Some(i) => if same_target(remote[i], desired) {
                StepView::Finish(OutcomeView::Unchanged)
            } else {
                StepView::Send(update_request_of(zone, remote[i].id, desired))
            },
        },
    }
}

/// The phase in which a step leaves the pass.
pub open spec fn phase_after(step: StepView) -> Phase {
    match step {
        StepView::Send(r) => if r.method == Method::Post {
            Phase::Creating
        } else {
            Phase::Updating
        },
        StepView::Finish(_) => Phase::Done,
    }
}

/// The outcome of a write asked for in `phase`.
pub open spec fn after_write(phase: Phase, written: Result<RecordView, ErrorView>) -> OutcomeView {
    match written {
        Err(e) => OutcomeView::Failed(e),
        Ok(_) => if phase == Phase::Creating {
            OutcomeView::Created
        } else {
            OutcomeView::Updated
        },
    }
}

/// The writes that a pass issues after the given listing.
pub open spec fn pass_writes(
    zone: Seq<char>,
    desired: RecordView,
    listed: Result<Seq<RecordView>, ErrorView>,
) -> Seq<RequestView> {
    match after_list(zone, desired, listed) {
        StepView::Send(r) => seq![r],
        StepView::Finish(_) => Seq::empty(),
    }
}

/// The outcome of a pass after the given listing and, where a write is
/// issued, the given result of that write.
pub open spec fn pass_outcome(
    zone: Seq<char>,
    desired: RecordView,
    listed: Result<Seq<RecordView>, ErrorView>,
    written: Result<RecordView, ErrorView>,
) -> OutcomeView {
    let step = after_list(zone, desired, listed);
    match step {
        StepView::Send(_) => after_write(phase_after(step), written),
        StepView::Finish(o) => o,
    }
}

/// The step that follows a judged listing.
pub fn decide(zone: &String, desired: &DNSRecordSpec, listed: Result<Vec<DNSRecordSpec>, Error>) -> (step: Step)
    ensures
        step@ == after_list(zone@, desired@, listed_view(listed)),
{
    match listed {
        Err(e) => Step::Finish(Outcome::Failed(e)),
        Ok(remote) => match find_match(desired, &remote) {
            None => Step::Send(create_request(zone, desired)),
            Some(i) => {
                let found = &remote[i];
                assert(records_view(remote@)[i as int] == found@);
                if found.same_target_as(desired) {
                    Step::Finish(Outcome::Unchanged)
                } else {
                    Step::Send(update_request(zone, &found.id, desired))
                }
            },
        },
    }
}

/// The outcome of a judged write asked for in `phase`.
pub fn conclude(phase: Phase, written: Result<DNSRecordSpec, Error>) -> (outcome: Outcome)
    ensures
        outcome@ == after_write(phase, written_view(written)),
{
    match written {
        Err(e) => Outcome::Failed(e),
        Ok(_) => if phase == Phase::Creating {
            Outcome::Created
        } else {
            Outcome::Updated
        },
    }
}

/// A pass that keeps `desired` in line with the records of `zone`.
#[derive(Debug)]
pub struct Reconciliation {
    pub zone: String,
    pub desired: DNSRecordSpec,
    pub phase: Phase,
}

impl Reconciliation {
    /// A pass that has not asked anything yet.
    pub fn new(zone: String, desired: DNSRecordSpec) -> (r: Reconciliation)
        ensures
            r.zone == zone,
            r.desired == desired,
            r.phase == Phase::Ready,
    {
        Reconciliation { zone, desired, phase: Phase::Ready }
    }

    /// The first call of a pass: the listing of the zone.
    pub fn begin(&mut self) -> (req: ProviderRequest)
        requires
            old(self).phase == Phase::Ready,
        ensures
            req@ == list_request_of(old(self).zone@),
            final(self).phase == Phase::Listing,
            final(self).zone == old(self).zone,
            final(self).desired == old(self).desired,
    {
        self.phase = Phase::Listing;
        list_request(&self.zone)
    }

    /// Takes the reply to the listing and says what comes next.
    pub fn on_listed(&mut self, reply: Reply<DNSListResponse>) -> (step: Step)
        requires
            old(self).phase == Phase::Listing,
        ensures
            step@ == after_list(old(self).zone@, old(self).desired@, list_verdict(reply)),
            final(self).phase == phase_after(step@),
            final(self).zone == old(self).zone,
            final(self).desired == old(self).desired,
    {
        let step = decide(&self.zone, &self.desired, judge_list(reply));
        self.phase = match &step {
            Step::Send(r) => if r.method == Method::Post {
                Phase::Creating
            } else {
                Phase::Updating
            },
            Step::Finish(_) => Phase::Done,
        };
        step
    }

    /// Takes the reply to the write and gives the outcome of the pass.
    pub fn on_written(&mut self, reply: Reply<DNSResponse>) -> (outcome: Outcome)
        requires
            old(self).phase == Phase::Creating || old(self).phase == Phase::Updating,
        ensures
            outcome@ == after_write(old(self).phase, write_verdict(reply)),
            final(self).phase == Phase::Done,
            final(self).zone == old(self).zone,
            final(self).desired == old(self).desired,
    {
        let outcome = conclude(self.phase, judge_write(reply));
        self.phase = Phase::Done;
        outcome
    }
}

/// A desired record with no remote record of its name and type is created
/// by exactly one call, and the pass ends `Created` when that call succeeds.
pub proof fn lemma_absent_record_is_created(
    zone: Seq<char>,
    desired: RecordView,
    remote: Seq<RecordView>,
    written: RecordView,
)
    requires
        !has_match(desired, remote),
    ensures
        pass_writes(zone, desired, Ok(remote)) == seq![create_request_of(zone, desired)],
        pass_outcome(zone, desired, Ok(remote), Ok(written)) == OutcomeView::Created,
{
    crate::matcher::lemma_no_match(desired, remote);
}

/// A desired record whose remote counterpart has the same content and flag
/// issues no write, and the pass ends `Unchanged`.
pub proof fn lemma_matching_record_is_unchanged(
    zone: Seq<char>,
    desired: RecordView,
    remote: Seq<RecordView>,
    i: int,
    written: Result<RecordView, ErrorView>,
)
    requires
        first_match(desired, remote) == Some(i),
        same_target(remote[i], desired),
    ensures
        pass_writes(zone, desired, Ok(remote)) == Seq::<RequestView>::empty(),
        pass_outcome(zone, desired, Ok(remote), written) == OutcomeView::Unchanged,
{
}

/// A desired record whose remote counterpart differs in content or flag is
/// updated by exactly one call addressed to that counterpart's identifier,
/// and the pass ends `Updated` when that call succeeds.
pub proof fn lemma_differing_record_is_updated(
    zone: Seq<char>,
    desired: RecordView,
    remote: Seq<RecordView>,
    i: int,
    written: RecordView,
)
    requires
        first_match(desired, remote) == Some(i),
        !same_target(remote[i], desired),
    ensures
        pass_writes(zone, desired, Ok(remote)) == seq![update_request_of(zone, remote[i].id, desired)],
        pass_outcome(zone, desired, Ok(remote), Ok(written)) == OutcomeView::Updated,
{
}

/// Two passes in a row over a record that the provider lacks: the first
/// creates it and ends `Created`; the second, over the provider's records,
/// which now hold the created record under the identifier the provider gave
/// it, issues no write and ends `Unchanged`.
pub proof fn lemma_second_pass_after_create(
    zone: Seq<char>,
    desired: RecordView,
    remote: Seq<RecordView>,
    id: Seq<char>,
    created: RecordView,
    written: Result<RecordView, ErrorView>,
)
    requires
        !has_match(desired, remote),
    ensures
        pass_writes(zone, desired, Ok(remote)) == seq![create_request_of(zone, desired)],
        pass_outcome(zone, desired, Ok(remote), Ok(created)) == OutcomeView::Created,
        pass_writes(zone, desired, Ok(remote.push(with_id(desired, id)))) == Seq::<RequestView>::empty(),
        pass_outcome(zone, desired, Ok(remote.push(with_id(desired, id))), written) == OutcomeView::Unchanged,
{
    crate::matcher::lemma_no_match(desired, remote);
    let after = remote.push(with_id(desired, id));
    assert forall|j: int| 0 <= j < remote.len() implies !crate::typings::same_key(
        #[trigger] after[j],
        desired,
    ) by {
        assert(after[j] == remote[j]);
    }
    lemma_first_match_unique(desired, after, remote.len() as int);
}

/// Two passes in a row over a record whose remote counterpart differs: the
/// first updates it and ends `Updated`; the second, over the provider's
/// records, which now hold the updated record, issues no write and ends
/// `Unchanged`.
pub proof fn lemma_second_pass_after_update(
    zone: Seq<char>,
    desired: RecordView,
    remote: Seq<RecordView>,
    i: int,
    updated: RecordView,
    written: Result<RecordView, ErrorView>,
)
    requires
        first_match(desired, remote) == Some(i),
        !same_target(remote[i], desired),
    ensures
        pass_outcome(zone, desired, Ok(remote), Ok(updated)) == OutcomeView::Updated,
        pass_writes(zone, desired, Ok(remote.update(i, with_id(desired, remote[i].id))))
            == Seq::<RequestView>::empty(),
        pass_outcome(zone, desired, Ok(remote.update(i, with_id(desired, remote[i].id))), written)
            == OutcomeView::Unchanged,
{
    let after = remote.update(i, with_id(desired, remote[i].id));
    assert(is_first_match(desired, remote, i));
    assert forall|j: int| 0 <= j < i implies !crate::typings::same_key(#[trigger] after[j], desired) by {
        assert(after[j] == remote[j]);
    }
    lemma_first_match_unique(desired, after, i);
}

/// A listing that fails ends the pass `Failed` with the listing's error, and
/// no create or update is issued.
pub proof fn lemma_failed_listing_writes_nothing(
    zone: Seq<char>,
    desired: RecordView,
    reply: Reply<DNSListResponse>,
    written: Result<RecordView, ErrorView>,
)
    requires
        list_verdict(reply) is Err,
    ensures
        pass_writes(zone, desired, list_verdict(reply)) == Seq::<RequestView>::empty(),
        pass_outcome(zone, desired, list_verdict(reply), written)
            == OutcomeView::Failed(list_verdict(reply)->Err_0),
{
}

} // verus!
