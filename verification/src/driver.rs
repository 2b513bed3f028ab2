//! What goes round a journey: the provider is found, an earlier process may have begun it, and what
//! came of it is reported.

use vstd::prelude::*;
use crate::amount::{
    DOUBLE_RESERVATION_INPUT_AMOUNT_SAT, DOUBLE_RESERVATION_MAXIMUM_TOTAL_FEE_SAT,
    DOUBLE_RESERVATION_OUTPUT_AMOUNT_SAT,
};
use crate::conflict::{RbfConflictPhase, RbfConflictRun, ZeroConfPhase, ZeroConfRun};
use crate::evidence::{
    cooperative_doc, cooperative_report, expects_provider, journey_doc, journey_report,
    outlives_provider,
};
use crate::journey::{CooperativeJourney, FundedJourney, HarnessInjection};
use crate::json::{Json, JsonView};
use crate::machine::{
    Action, ActionView, INVOICE_EXPIRY_SECONDS, Reply, ReplyView, Task, lemma_ranks_rise, perform,
    perform_with, perform_with_five, perform_with_four, wrong_reply, wrong_reply_text,
};
use crate::record::RecordKinds;
use crate::submarine::{
    SubmarinePhase, SubmarineRun, SubmarineRunView, proves_conflict, submarine_step,
};
use crate::text::{decimal, decimal_text};
use crate::topology::{
    Reservation, ReservationView, active_reservation, double_reservation, double_reservation_doc,
    reservation_reading,
};

verus! {

/// The phases of a funded journey as a whole, in their order.
#[derive(Clone, Copy, Debug, PartialEq, Eq, Structural)]
pub enum FundedPhase {
    CheckHealth,
    DiscoverProvider,
    RestoreSession,
    ResumeJourney,
    FundWallet,
    RunJourney,
    CheckHealthAgain,
    Finished,
}

impl FundedPhase {
    /// The place of the phase in their order.
    pub open spec fn rank(self) -> int {
        match self {
            FundedPhase::CheckHealth => 0,
            FundedPhase::DiscoverProvider => 1,
            FundedPhase::RestoreSession => 2,
            FundedPhase::ResumeJourney => 3,
            FundedPhase::FundWallet => 4,
            FundedPhase::RunJourney => 5,
            FundedPhase::CheckHealthAgain => 6,
            FundedPhase::Finished => 7,
        }
    }
}

/// A funded journey as a whole: with whom it is, and what came of it.
pub struct FundedRun {
    pub phase: FundedPhase,
    pub journey: FundedJourney,
    pub provider_pubkey: String,
    pub resumed: bool,
    pub result: Json,
}

/// A funded journey as a whole: with whom it is, and what came of it.
#[verifier::ext_equal]
pub struct FundedRunView {
    pub phase: FundedPhase,
    pub journey: FundedJourney,
    pub provider_pubkey: Seq<char>,
    pub resumed: bool,
    pub result: JsonView,
}

impl View for FundedRun {
    type V = FundedRunView;

    open spec fn view(&self) -> FundedRunView {
        FundedRunView {
            phase: self.phase,
            journey: self.journey,
            provider_pubkey: self.provider_pubkey@,
            resumed: self.resumed,
            result: self.result@,
        }
    }
}

/// Whether a journey locks coins of the client's wallet.
pub open spec fn spends_wallet(journey: FundedJourney) -> bool {
    journey == FundedJourney::Submarine || journey == FundedJourney::SubmarineRefund
}

/// Where a journey begins that no earlier process has begun.
pub open spec fn fresh_phase(journey: FundedJourney) -> FundedPhase {
    if spends_wallet(journey) {
        FundedPhase::FundWallet
    } else {
        FundedPhase::RunJourney
    }
}

/// What a funded journey asks for next.
pub open spec fn funded_action(run: FundedRunView) -> ActionView {
    match run.phase {
        FundedPhase::CheckHealth => ActionView::CheckHealth,
        FundedPhase::DiscoverProvider => ActionView::Perform(Task::DiscoverProvider, seq![]),
        FundedPhase::RestoreSession => ActionView::Perform(
            Task::RestoreSession,
            seq![run.journey.label()],
        ),
        FundedPhase::ResumeJourney => ActionView::Perform(
            Task::ResumeJourney,
            seq![run.journey.label()],
        ),
        FundedPhase::FundWallet => ActionView::Perform(Task::FundWallet, seq![]),
        FundedPhase::RunJourney => ActionView::Perform(
            Task::RunJourney,
            seq![run.journey.label()],
        ),
        FundedPhase::CheckHealthAgain => ActionView::CheckHealth,
        FundedPhase::Finished => ActionView::Finish,
    }
}

/// Where a reply takes a funded journey.
pub open spec fn funded_step(run: FundedRunView, reply: ReplyView) -> Result<
    FundedRunView,
    Seq<char>,
> {
    match (run.phase, reply) {
        (FundedPhase::CheckHealth, ReplyView::Done) => Ok(
            FundedRunView { phase: FundedPhase::DiscoverProvider, ..run },
        ),
        (FundedPhase::DiscoverProvider, ReplyView::Texts(texts)) => {
            if texts.len() != 1 {
                Err(wrong_reply())
            } else {
                Ok(
                    FundedRunView {
                        phase: if outlives_provider(run.journey) {
                            FundedPhase::RestoreSession
                        } else {
                            fresh_phase(run.journey)
                        },
                        provider_pubkey: texts[0],
                        ..run
                    },
                )
            }
        },
        (FundedPhase::RestoreSession, ReplyView::Truth(restored)) => Ok(
            FundedRunView {
                phase: if restored {
                    FundedPhase::ResumeJourney
                } else {
                    fresh_phase(run.journey)
                },
                ..run
            },
        ),
        (FundedPhase::ResumeJourney, ReplyView::Document(Some(result))) => Ok(
            FundedRunView { phase: FundedPhase::CheckHealthAgain, resumed: true, result, ..run },
        ),
        (FundedPhase::FundWallet, ReplyView::Done) => Ok(
            FundedRunView { phase: FundedPhase::RunJourney, ..run },
        ),
        (FundedPhase::RunJourney, ReplyView::Document(Some(result))) => Ok(
            FundedRunView {
                phase: if outlives_provider(run.journey) {
                    FundedPhase::CheckHealthAgain
                } else {
                    FundedPhase::Finished
                },
                result,
                ..run
            },
        ),
        (FundedPhase::CheckHealthAgain, ReplyView::Done) => Ok(
            FundedRunView { phase: FundedPhase::Finished, ..run },
        ),
        _ => Err(wrong_reply()),
    }
}

/// What a funded journey reports, once it is over.
pub open spec fn funded_report(run: FundedRunView) -> Option<JsonView> {
    if run.phase == FundedPhase::Finished {
        Some(journey_doc(run.journey, run.provider_pubkey, run.resumed, run.result))
    } else {
        None
    }
}

fn begins_at(journey: FundedJourney) -> (phase: FundedPhase)
    ensures
        phase == fresh_phase(journey),
{
    match journey {
        FundedJourney::Submarine | FundedJourney::SubmarineRefund => FundedPhase::FundWallet,
        FundedJourney::ReverseClaim | FundedJourney::ReverseRefund => FundedPhase::RunJourney,
    }
}

impl FundedRun {
    /// A funded journey before its first action.
    pub fn new(journey: FundedJourney) -> (run: FundedRun)
        ensures
            run@.phase == FundedPhase::CheckHealth,
            run@.journey == journey,
            run@.provider_pubkey == Seq::<char>::empty(),
            !run@.resumed,
            run@.result == JsonView::Null,
    {
        FundedRun {
            phase: FundedPhase::CheckHealth,
            journey,
            provider_pubkey: String::new(),
            resumed: false,
            result: Json::null(),
        }
    }

    /// What the journey asks for next.
    pub fn action(&self) -> (action: Action)
        ensures
            action@ == funded_action(self@),
    {
        match self.phase {
            FundedPhase::CheckHealth => Action::CheckHealth,
            FundedPhase::DiscoverProvider => perform(Task::DiscoverProvider),
            FundedPhase::RestoreSession => perform_with(Task::RestoreSession, self.journey.name()),
            FundedPhase::ResumeJourney => perform_with(Task::ResumeJourney, self.journey.name()),
            FundedPhase::FundWallet => perform(Task::FundWallet),
            FundedPhase::RunJourney => perform_with(Task::RunJourney, self.journey.name()),
            FundedPhase::CheckHealthAgain => Action::CheckHealth,
            FundedPhase::Finished => Action::Finish,
        }
    }

    /// Takes a reply: the journey goes on to its next phase, or ends with a message.
    pub fn advance(&mut self, reply: Reply) -> (moved: Result<(), String>)
        ensures
            match moved {
                Ok(_) => funded_step(old(self)@, reply@) == Ok::<FundedRunView, Seq<char>>(
                    final(self)@,
                ),
                Err(message) => {
                    &&& funded_step(old(self)@, reply@) == Err::<FundedRunView, Seq<char>>(message@)
                    &&& final(self)@ == old(self)@
                },
            },
    {
        match (self.phase, reply) {
            (FundedPhase::CheckHealth, Reply::Done) => {
                self.phase = FundedPhase::DiscoverProvider;
                Ok(())
            },
            (FundedPhase::DiscoverProvider, Reply::Texts(texts)) => {
                if texts.len() != 1 {
                    return Err(wrong_reply_text());
                }
                self.provider_pubkey = texts[0].clone();
                self.phase = if expects_provider(self.journey) {
                    FundedPhase::RestoreSession
                } else {
                    begins_at(self.journey)
                };
                Ok(())
            },
            (FundedPhase::RestoreSession, Reply::Truth(restored)) => {
                self.phase = if restored {
                    FundedPhase::ResumeJourney
                } else {
                    begins_at(self.journey)
                };
                Ok(())
            },
            (FundedPhase::ResumeJourney, Reply::Document(Some(result))) => {
                self.result = result;
                self.resumed = true;
                self.phase = FundedPhase::CheckHealthAgain;
                Ok(())
            },
            (FundedPhase::FundWallet, Reply::Done) => {
                self.phase = FundedPhase::RunJourney;
                Ok(())
            },
            (FundedPhase::RunJourney, Reply::Document(Some(result))) => {
                self.result = result;
                self.phase = if expects_provider(self.journey) {
                    FundedPhase::CheckHealthAgain
                } else {
                    FundedPhase::Finished
                };
                Ok(())
            },
            (FundedPhase::CheckHealthAgain, Reply::Done) => {
                self.phase = FundedPhase::Finished;
                Ok(())
            },
            _ => Err(wrong_reply_text()),
        }
    }

    /// What the journey reports, once it is over.
    pub fn report(&self) -> (report: Option<Json>)
        ensures
            (match report {
                Some(report) => Some(report@),
                None => None,
            }) == funded_report(self@),
    {
        if self.phase == FundedPhase::Finished {
            Some(
                journey_report(
                    self.journey,
                    self.provider_pubkey.as_str(),
                    self.resumed,
                    &self.result,
                ),
            )
        } else {
            None
        }
    }
}

/// Whether each entry of a trace leads to the one after it, from the first phase on.
pub open spec fn is_funded_trace(trace: Seq<(FundedRunView, ReplyView)>) -> bool {
    &&& trace.len() > 0
    &&& trace[0].0.phase == FundedPhase::CheckHealth
    &&& !trace[0].0.resumed
    &&& forall|i: int|
        0 <= i < trace.len() - 1 ==> funded_step((#[trigger] trace[i]).0, trace[i].1) == Ok::<
            FundedRunView,
            Seq<char>,
        >(trace[i + 1].0)
}

/// Each reply takes a funded journey to a later phase.
pub proof fn law_funded_moves_forward(run: FundedRunView, reply: ReplyView)
    requires
        funded_step(run, reply) is Ok,
    ensures
        funded_step(run, reply)->Ok_0.phase.rank() > run.phase.rank(),
        funded_step(run, reply)->Ok_0.journey == run.journey,
{
}

/// Which replies take a funded journey on, and to which phase: in each phase exactly the replies
/// that pass every check of that phase, and no others.
pub proof fn law_funded_goes_on_only_when_answered(run: FundedRunView, reply: ReplyView)
    ensures
        ({
            let next = funded_step(run, reply);
            match run.phase {
                FundedPhase::CheckHealth => {
                    &&& next is Ok <==> reply is Done
                    &&& next is Ok ==> next->Ok_0.phase == FundedPhase::DiscoverProvider
                },
                FundedPhase::DiscoverProvider => {
                    &&& next is Ok <==> {
                        &&& reply is Texts
                        &&& reply->Texts_0.len() == 1
                    }
                    &&& next is Ok ==> next->Ok_0.phase == (
                        if outlives_provider(run.journey) {
                            FundedPhase::RestoreSession
                        } else { fresh_phase(run.journey) }
                    )
                },
                FundedPhase::RestoreSession => {
                    &&& next is Ok <==> reply is Truth
                    &&& next is Ok ==> next->Ok_0.phase == (
                        if reply->Truth_0 {
                            FundedPhase::ResumeJourney
                        } else { fresh_phase(run.journey) }
                    )
                },
                FundedPhase::ResumeJourney => {
                    &&& next is Ok <==> {
                        &&& reply is Document
                        &&& reply->Document_0 is Some
                    }
                    &&& next is Ok ==> next->Ok_0.phase == FundedPhase::CheckHealthAgain
                },
                FundedPhase::FundWallet => {
                    &&& next is Ok <==> reply is Done
                    &&& next is Ok ==> next->Ok_0.phase == FundedPhase::RunJourney
                },
                FundedPhase::RunJourney => {
                    &&& next is Ok <==> {
                        &&& reply is Document
                        &&& reply->Document_0 is Some
                    }
                    &&& next is Ok ==> next->Ok_0.phase == (
                        if outlives_provider(run.journey) {
                            FundedPhase::CheckHealthAgain
                        } else { FundedPhase::Finished }
                    )
                },
                FundedPhase::CheckHealthAgain => {
                    &&& next is Ok <==> reply is Done
                    &&& next is Ok ==> next->Ok_0.phase == FundedPhase::Finished
                },
                FundedPhase::Finished => next is Err,
            }
        }),
{
}

/// The reply that a trace of a funded journey holds for a phase.
pub open spec fn funded_told(
    trace: Seq<(FundedRunView, ReplyView)>,
    phase: FundedPhase,
) -> ReplyView {
    trace[choose|i: int| 0 <= i < trace.len() && (#[trigger] trace[i]).0.phase == phase].1
}

/// The values that a run of a funded journey holds, by the replies that gave them: each stays as
/// the reply to one phase gave it, or as the run started with it.
pub open spec fn funded_holds(trace: Seq<(FundedRunView, ReplyView)>, run: FundedRunView) -> bool {
    let start = trace[0].0;
    let provider_pubkey = funded_told(trace, FundedPhase::DiscoverProvider)->Texts_0[0];
    &&& run.journey == start.journey
    &&& run.phase.rank() > FundedPhase::DiscoverProvider.rank()
        ==> run.provider_pubkey == provider_pubkey
}

/// No phase of a funded journey comes twice in a trace.
proof fn lemma_funded_told_once(trace: Seq<(FundedRunView, ReplyView)>, place: int)
    requires
        is_funded_trace(trace),
        0 <= place < trace.len(),
    ensures
        funded_told(trace, trace[place].0.phase) == trace[place].1,
{
    let phase = trace[place].0.phase;
    let other = choose|i: int| 0 <= i < trace.len() && (#[trigger] trace[i]).0.phase == phase;
    assert(trace[place].0.phase == phase);
    if other != place {
        let (early, late) = if other < place {
            (other, place)
        } else {
            (place, other)
        };
        assert forall|run: FundedRunView, reply: ReplyView|
            (#[trigger] funded_step(run, reply)) is Ok implies run.phase.rank() < funded_step(
            run,
            reply,
        )->Ok_0.phase.rank() by {
            law_funded_moves_forward(run, reply);
        }
        lemma_ranks_rise(
            trace,
            |run: FundedRunView, reply: ReplyView| funded_step(run, reply),
            |run: FundedRunView| run.phase.rank(),
            early,
            late,
        );
    }
}

/// A reply keeps what a funded journey holds, and adds what it tells.
proof fn lemma_funded_holds_on(
    trace: Seq<(FundedRunView, ReplyView)>,
    run: FundedRunView,
    reply: ReplyView,
)
    requires
        funded_holds(trace, run),
        funded_told(trace, run.phase) == reply,
        funded_step(run, reply) is Ok,
    ensures
        funded_holds(trace, funded_step(run, reply)->Ok_0),
{
    let next = funded_step(run, reply)->Ok_0;
    match run.phase {
        FundedPhase::CheckHealth => assert(funded_holds(trace, next)),
        FundedPhase::DiscoverProvider => assert(funded_holds(trace, next)),
        FundedPhase::RestoreSession => assert(funded_holds(trace, next)),
        FundedPhase::ResumeJourney => assert(funded_holds(trace, next)),
        FundedPhase::FundWallet => assert(funded_holds(trace, next)),
        FundedPhase::RunJourney => assert(funded_holds(trace, next)),
        FundedPhase::CheckHealthAgain => assert(funded_holds(trace, next)),
        FundedPhase::Finished => assert(funded_holds(trace, next)),
    }
}

/// What a funded journey has been told, it keeps: at every place of a trace each value that the run
/// holds is the one that the reply to the phase that asks for it gave, or the one that the run
/// started with.
pub proof fn law_funded_keeps_what_it_was_told(trace: Seq<(FundedRunView, ReplyView)>, last: int)
    requires
        is_funded_trace(trace),
        0 <= last < trace.len(),
    ensures
        funded_holds(trace, trace[last].0),
    decreases last,
{
    if last > 0 {
        let before = last - 1;
        law_funded_keeps_what_it_was_told(trace, before);
        lemma_funded_told_once(trace, before);
        assert(funded_step(trace[before].0, trace[before].1) == Ok::<FundedRunView, Seq<char>>(
            trace[before + 1].0,
        ));
        lemma_funded_holds_on(trace, trace[before].0, trace[before].1);
    }
}

/// What a funded journey asks for in each phase, in terms of the replies before it: the values in a
/// request are those that the replies to the named phases gave, or those that the run started with.
pub proof fn law_funded_asks_with_what_it_was_told(
    trace: Seq<(FundedRunView, ReplyView)>,
    last: int,
)
    requires
        is_funded_trace(trace),
        0 <= last < trace.len(),
    ensures
        ({
            let start = trace[0].0;
            let action = funded_action(trace[last].0);
            match trace[last].0.phase {
                FundedPhase::CheckHealth => action == ActionView::CheckHealth,
                FundedPhase::DiscoverProvider => action == ActionView::Perform(
                    Task::DiscoverProvider,
                    seq![],
                ),
                FundedPhase::RestoreSession => action == ActionView::Perform(
                    Task::RestoreSession,
                    seq![start.journey.label()],
                ),
                FundedPhase::ResumeJourney => action == ActionView::Perform(
                    Task::ResumeJourney,
                    seq![start.journey.label()],
                ),
                FundedPhase::FundWallet => action == ActionView::Perform(Task::FundWallet, seq![]),
                FundedPhase::RunJourney => action == ActionView::Perform(
                    Task::RunJourney,
                    seq![start.journey.label()],
                ),
                FundedPhase::CheckHealthAgain => action == ActionView::CheckHealth,
                FundedPhase::Finished => action == ActionView::Finish,
            }
        }),
{
    law_funded_keeps_what_it_was_told(trace, last);
}

/// What has come about once a trace has got as far as its last entry.
proof fn lemma_funded_history(trace: Seq<(FundedRunView, ReplyView)>, last: int)
    requires
        is_funded_trace(trace),
        0 <= last < trace.len(),
    ensures
        trace[last].0.journey == trace[0].0.journey,
        trace[last].0.phase.rank() < FundedPhase::CheckHealthAgain.rank()
            ==> !trace[last].0.resumed,
        trace[last].0.phase == FundedPhase::ResumeJourney ==> outlives_provider(
            trace[0].0.journey,
        ) && exists|i: int|
            0 <= i < last && (#[trigger] trace[i]).0.phase == FundedPhase::RestoreSession
                && trace[i].1 == ReplyView::Truth(true),
        trace[last].0.phase == FundedPhase::RestoreSession ==> outlives_provider(
            trace[0].0.journey,
        ),
        trace[last].0.phase == FundedPhase::FundWallet ==> spends_wallet(trace[0].0.journey),
        trace[last].0.phase == FundedPhase::RunJourney && spends_wallet(trace[0].0.journey)
            ==> exists|i: int|
            0 <= i < last && (#[trigger] trace[i]).0.phase == FundedPhase::FundWallet,
        trace[last].0.phase.rank() >= FundedPhase::CheckHealthAgain.rank() ==> exists|i: int|
            0 <= i < last && (#[trigger] trace[i]).1 == ReplyView::Document(
                Some(trace[last].0.result),
            ) && trace[i].0.phase == (if trace[last].0.resumed {
                FundedPhase::ResumeJourney
            } else {
                FundedPhase::RunJourney
            }),
        trace[last].0.phase == FundedPhase::Finished && outlives_provider(trace[0].0.journey)
            ==> trace[last - 1].0.phase == FundedPhase::CheckHealthAgain && trace[last - 1].1
            == ReplyView::Done,
    decreases last,
{
    if last > 0 {
        lemma_funded_history(trace, last - 1);
        let before = trace[last - 1];
        assert(funded_step(before.0, before.1) == Ok::<FundedRunView, Seq<char>>(trace[last].0));
    }
}

/// What is reported is what the journey came to, whether it was run from its start or resumed; and
/// it says that it was resumed exactly where an earlier process had begun it.
pub proof fn law_funded_report_is_of_its_journey(
    trace: Seq<(FundedRunView, ReplyView)>,
    last: int,
) -> (place: int)
    requires
        is_funded_trace(trace),
        0 <= last < trace.len(),
        funded_report(trace[last].0) is Some,
    ensures
        0 <= place < last,
        trace[place].1 matches ReplyView::Document(Some(result)) && funded_report(trace[last].0)
            == Some(
            journey_doc(
                trace[0].0.journey,
                trace[last].0.provider_pubkey,
                trace[last].0.resumed,
                result,
            ),
        ),
        funded_action(trace[place].0) == ActionView::Perform(
            if trace[last].0.resumed {
                Task::ResumeJourney
            } else {
                Task::RunJourney
            },
            seq![trace[0].0.journey.label()],
        ),
        trace[last].0.resumed ==> exists|i: int|
            0 <= i < place && (#[trigger] trace[i]).0.phase == FundedPhase::RestoreSession
                && trace[i].1 == ReplyView::Truth(true),
{
    lemma_funded_history(trace, last);
    let place = choose|i: int|
        0 <= i < last && (#[trigger] trace[i]).1 == ReplyView::Document(Some(trace[last].0.result))
            && trace[i].0.phase == (if trace[last].0.resumed {
            FundedPhase::ResumeJourney
        } else {
            FundedPhase::RunJourney
        });
    lemma_funded_history(trace, place);
    place
}

/// A journey that the provider is to outlive is reported only where the provider is healthy after
/// it.
pub proof fn law_funded_report_follows_a_health_check(
    trace: Seq<(FundedRunView, ReplyView)>,
    last: int,
)
    requires
        is_funded_trace(trace),
        0 <= last < trace.len(),
        funded_report(trace[last].0) is Some,
        outlives_provider(trace[0].0.journey),
    ensures
        last > 0,
        funded_action(trace[last - 1].0) == ActionView::CheckHealth,
        trace[last - 1].1 == ReplyView::Done,
{
    lemma_funded_history(trace, last);
}

/// The wallet is funded before a submarine swap is run and for no other, and a submarine refund is
/// never resumed.
pub proof fn law_wallet_is_funded_for_a_lock(trace: Seq<(FundedRunView, ReplyView)>, last: int)
    requires
        is_funded_trace(trace),
        0 <= last < trace.len(),
    ensures
        trace[last].0.phase == FundedPhase::FundWallet ==> spends_wallet(trace[0].0.journey),
        trace[last].0.phase == FundedPhase::RunJourney && spends_wallet(trace[0].0.journey)
            ==> exists|i: int|
            0 <= i < last && (#[trigger] trace[i]).0.phase == FundedPhase::FundWallet,
        trace[0].0.journey == FundedJourney::SubmarineRefund ==> trace[last].0.phase
            != FundedPhase::RestoreSession && trace[last].0.phase != FundedPhase::ResumeJourney,
{
    lemma_funded_history(trace, last);
}

/// The phases of a jointly signed journey as a whole, in their order.
#[derive(Clone, Copy, Debug, PartialEq, Eq, Structural)]
pub enum JointPhase {
    CheckHealth,
    DiscoverProvider,
    FundWallet,
    RunJourney,
    CheckHealthAgain,
    Finished,
}

impl JointPhase {
    /// The place of the phase in their order.
    pub open spec fn rank(self) -> int {
        match self {
            JointPhase::CheckHealth => 0,
            JointPhase::DiscoverProvider => 1,
            JointPhase::FundWallet => 2,
            JointPhase::RunJourney => 3,
            JointPhase::CheckHealthAgain => 4,
            JointPhase::Finished => 5,
        }
    }
}

/// A jointly signed journey as a whole: with whom it is, and what came of it.
pub struct JointRun {
    pub phase: JointPhase,
    pub journey: CooperativeJourney,
    pub provider_pubkey: String,
    pub result: Json,
}

/// A jointly signed journey as a whole: with whom it is, and what came of it.
#[verifier::ext_equal]
pub struct JointRunView {
    pub phase: JointPhase,
    pub journey: CooperativeJourney,
    pub provider_pubkey: Seq<char>,
    pub result: JsonView,
}

impl View for JointRun {
    type V = JointRunView;

    open spec fn view(&self) -> JointRunView {
        JointRunView {
            phase: self.phase,
            journey: self.journey,
            provider_pubkey: self.provider_pubkey@,
            result: self.result@,
        }
    }
}

/// What a jointly signed journey asks for next.
pub open spec fn joint_action(run: JointRunView) -> ActionView {
    match run.phase {
        JointPhase::CheckHealth => ActionView::CheckHealth,
        JointPhase::DiscoverProvider => ActionView::Perform(Task::DiscoverProvider, seq![]),
        JointPhase::FundWallet => ActionView::Perform(Task::FundWallet, seq![]),
        JointPhase::RunJourney => ActionView::Perform(
            Task::RunJourney,
            seq![run.journey.label()],
        ),
        JointPhase::CheckHealthAgain => ActionView::CheckHealth,
        JointPhase::Finished => ActionView::Finish,
    }
}

/// Where a reply takes a jointly signed journey.
pub open spec fn joint_step(run: JointRunView, reply: ReplyView) -> Result<JointRunView, Seq<char>> {
    match (run.phase, reply) {
        (JointPhase::CheckHealth, ReplyView::Done) => Ok(
            JointRunView { phase: JointPhase::DiscoverProvider, ..run },
        ),
        (JointPhase::DiscoverProvider, ReplyView::Texts(texts)) => {
            if texts.len() != 1 {
                Err(wrong_reply())
            } else {
                Ok(
                    JointRunView {
                        phase: JointPhase::FundWallet,
                        provider_pubkey: texts[0],
                        ..run
                    },
                )
            }
        },
        (JointPhase::FundWallet, ReplyView::Done) => Ok(
            JointRunView { phase: JointPhase::RunJourney, ..run },
        ),
        (JointPhase::RunJourney, ReplyView::Document(Some(result))) => Ok(
            JointRunView { phase: JointPhase::CheckHealthAgain, result, ..run },
        ),
        (JointPhase::CheckHealthAgain, ReplyView::Done) => Ok(
            JointRunView { phase: JointPhase::Finished, ..run },
        ),
        _ => Err(wrong_reply()),
    }
}

/// What a jointly signed journey reports, once it is over.
pub open spec fn joint_report(run: JointRunView) -> Option<JsonView> {
    if run.phase == JointPhase::Finished {
        Some(cooperative_doc(run.journey, run.provider_pubkey, run.result))
    } else {
        None
    }
}

impl JointRun {
    /// A jointly signed journey before its first action.
    pub fn new(journey: CooperativeJourney) -> (run: JointRun)
        ensures
            run@.phase == JointPhase::CheckHealth,
            run@.journey == journey,
            run@.provider_pubkey == Seq::<char>::empty(),
            run@.result == JsonView::Null,
    {
        JointRun {
            phase: JointPhase::CheckHealth,
            journey,
            provider_pubkey: String::new(),
            result: Json::null(),
        }
    }

    /// What the journey asks for next.
    pub fn action(&self) -> (action: Action)
        ensures
            action@ == joint_action(self@),
    {
        match self.phase {
            JointPhase::CheckHealth => Action::CheckHealth,
            JointPhase::DiscoverProvider => perform(Task::DiscoverProvider),
            JointPhase::FundWallet => perform(Task::FundWallet),
            JointPhase::RunJourney => perform_with(Task::RunJourney, self.journey.name()),
            JointPhase::CheckHealthAgain => Action::CheckHealth,
            JointPhase::Finished => Action::Finish,
        }
    }

    /// Takes a reply: the journey goes on to its next phase, or ends with a message.
    pub fn advance(&mut self, reply: Reply) -> (moved: Result<(), String>)
        ensures
            match moved {
                Ok(_) => joint_step(old(self)@, reply@) == Ok::<JointRunView, Seq<char>>(
                    final(self)@,
                ),
                Err(message) => {
                    &&& joint_step(old(self)@, reply@) == Err::<JointRunView, Seq<char>>(message@)
                    &&& final(self)@ == old(self)@
                },
            },
    {
        match (self.phase, reply) {
            (JointPhase::CheckHealth, Reply::Done) => {
                self.phase = JointPhase::DiscoverProvider;
                Ok(())
            },
            (JointPhase::DiscoverProvider, Reply::Texts(texts)) => {
                if texts.len() != 1 {
                    return Err(wrong_reply_text());
                }
                self.provider_pubkey = texts[0].clone();
                self.phase = JointPhase::FundWallet;
                Ok(())
            },
            (JointPhase::FundWallet, Reply::Done) => {
                self.phase = JointPhase::RunJourney;
                Ok(())
            },
            (JointPhase::RunJourney, Reply::Document(Some(result))) => {
                self.result = result;
                self.phase = JointPhase::CheckHealthAgain;
                Ok(())
            },
            (JointPhase::CheckHealthAgain, Reply::Done) => {
                self.phase = JointPhase::Finished;
                Ok(())
            },
            _ => Err(wrong_reply_text()),
        }
    }

    /// What the journey reports, once it is over.
    pub fn report(&self) -> (report: Option<Json>)
        ensures
            (match report {
                Some(report) => Some(report@),
                None => None,
            }) == joint_report(self@),
    {
        if self.phase == JointPhase::Finished {
            Some(cooperative_report(self.journey, self.provider_pubkey.as_str(), &self.result))
        } else {
            None
        }
    }
}

/// Whether each entry of a trace leads to the one after it, from the first phase on.
pub open spec fn is_joint_trace(trace: Seq<(JointRunView, ReplyView)>) -> bool {
    &&& trace.len() > 0
    &&& trace[0].0.phase == JointPhase::CheckHealth
    &&& forall|i: int|
        0 <= i < trace.len() - 1 ==> joint_step((#[trigger] trace[i]).0, trace[i].1) == Ok::<
            JointRunView,
            Seq<char>,
        >(trace[i + 1].0)
}

/// Each reply takes a jointly signed journey to the very next phase.
pub proof fn law_joint_moves_forward(run: JointRunView, reply: ReplyView)
    requires
        joint_step(run, reply) is Ok,
    ensures
        joint_step(run, reply)->Ok_0.phase.rank() == run.phase.rank() + 1,
        joint_step(run, reply)->Ok_0.journey == run.journey,
{
}

/// Which replies take a jointly signed journey on, and to which phase: in each phase exactly the
/// replies that pass every check of that phase, and no others.
pub proof fn law_joint_goes_on_only_when_answered(run: JointRunView, reply: ReplyView)
    ensures
        ({
            let next = joint_step(run, reply);
            match run.phase {
                JointPhase::CheckHealth => {
                    &&& next is Ok <==> reply is Done
                    &&& next is Ok ==> next->Ok_0.phase == JointPhase::DiscoverProvider
                },
                JointPhase::DiscoverProvider => {
                    &&& next is Ok <==> {
                        &&& reply is Texts
                        &&& reply->Texts_0.len() == 1
                    }
                    &&& next is Ok ==> next->Ok_0.phase == JointPhase::FundWallet
                },
                JointPhase::FundWallet => {
                    &&& next is Ok <==> reply is Done
                    &&& next is Ok ==> next->Ok_0.phase == JointPhase::RunJourney
                },
                JointPhase::RunJourney => {
                    &&& next is Ok <==> {
                        &&& reply is Document
                        &&& reply->Document_0 is Some
                    }
                    &&& next is Ok ==> next->Ok_0.phase == JointPhase::CheckHealthAgain
                },
                JointPhase::CheckHealthAgain => {
                    &&& next is Ok <==> reply is Done
                    &&& next is Ok ==> next->Ok_0.phase == JointPhase::Finished
                },
                JointPhase::Finished => next is Err,
            }
        }),
{
}

/// The reply that a trace of a jointly signed journey holds for a phase.
pub open spec fn joint_told(trace: Seq<(JointRunView, ReplyView)>, phase: JointPhase) -> ReplyView {
    trace[choose|i: int| 0 <= i < trace.len() && (#[trigger] trace[i]).0.phase == phase].1
}

/// The values that a run of a jointly signed journey holds, by the replies that gave them: each
/// stays as the reply to one phase gave it, or as the run started with it.
pub open spec fn joint_holds(trace: Seq<(JointRunView, ReplyView)>, run: JointRunView) -> bool {
    let start = trace[0].0;
    let provider_pubkey = joint_told(trace, JointPhase::DiscoverProvider)->Texts_0[0];
    let result = joint_told(trace, JointPhase::RunJourney)->Document_0->0;
    &&& run.journey == start.journey
    &&& run.phase.rank() > JointPhase::DiscoverProvider.rank()
        ==> run.provider_pubkey == provider_pubkey
    &&& run.phase.rank() > JointPhase::RunJourney.rank() ==> run.result == result
}

/// No phase of a jointly signed journey comes twice in a trace.
proof fn lemma_joint_told_once(trace: Seq<(JointRunView, ReplyView)>, place: int)
    requires
        is_joint_trace(trace),
        0 <= place < trace.len(),
    ensures
        joint_told(trace, trace[place].0.phase) == trace[place].1,
{
    let phase = trace[place].0.phase;
    let other = choose|i: int| 0 <= i < trace.len() && (#[trigger] trace[i]).0.phase == phase;
    assert(trace[place].0.phase == phase);
    if other != place {
        let (early, late) = if other < place {
            (other, place)
        } else {
            (place, other)
        };
        assert forall|run: JointRunView, reply: ReplyView|
            (#[trigger] joint_step(run, reply)) is Ok implies run.phase.rank() < joint_step(
            run,
            reply,
        )->Ok_0.phase.rank() by {
            law_joint_moves_forward(run, reply);
        }
        lemma_ranks_rise(
            trace,
            |run: JointRunView, reply: ReplyView| joint_step(run, reply),
            |run: JointRunView| run.phase.rank(),
            early,
            late,
        );
    }
}

/// A reply keeps what a jointly signed journey holds, and adds what it tells.
proof fn lemma_joint_holds_on(
    trace: Seq<(JointRunView, ReplyView)>,
    run: JointRunView,
    reply: ReplyView,
)
    requires
        joint_holds(trace, run),
        joint_told(trace, run.phase) == reply,
        joint_step(run, reply) is Ok,
    ensures
        joint_holds(trace, joint_step(run, reply)->Ok_0),
{
    let next = joint_step(run, reply)->Ok_0;
    match run.phase {
        JointPhase::CheckHealth => assert(joint_holds(trace, next)),
        JointPhase::DiscoverProvider => assert(joint_holds(trace, next)),
        JointPhase::FundWallet => assert(joint_holds(trace, next)),
        JointPhase::RunJourney => assert(joint_holds(trace, next)),
        JointPhase::CheckHealthAgain => assert(joint_holds(trace, next)),
        JointPhase::Finished => assert(joint_holds(trace, next)),
    }
}

/// What a jointly signed journey has been told, it keeps: at every place of a trace each value that
/// the run holds is the one that the reply to the phase that asks for it gave, or the one that the
/// run started with.
pub proof fn law_joint_keeps_what_it_was_told(trace: Seq<(JointRunView, ReplyView)>, last: int)
    requires
        is_joint_trace(trace),
        0 <= last < trace.len(),
    ensures
        joint_holds(trace, trace[last].0),
    decreases last,
{
    if last > 0 {
        let before = last - 1;
        law_joint_keeps_what_it_was_told(trace, before);
        lemma_joint_told_once(trace, before);
        assert(joint_step(trace[before].0, trace[before].1) == Ok::<JointRunView, Seq<char>>(
            trace[before + 1].0,
        ));
        lemma_joint_holds_on(trace, trace[before].0, trace[before].1);
    }
}

/// What a jointly signed journey asks for in each phase, in terms of the replies before it: the
/// values in a request are those that the replies to the named phases gave, or those that the run
/// started with.
pub proof fn law_joint_asks_with_what_it_was_told(trace: Seq<(JointRunView, ReplyView)>, last: int)
    requires
        is_joint_trace(trace),
        0 <= last < trace.len(),
    ensures
        ({
            let start = trace[0].0;
            let action = joint_action(trace[last].0);
            match trace[last].0.phase {
                JointPhase::CheckHealth => action == ActionView::CheckHealth,
                JointPhase::DiscoverProvider => action == ActionView::Perform(
                    Task::DiscoverProvider,
                    seq![],
                ),
                JointPhase::FundWallet => action == ActionView::Perform(Task::FundWallet, seq![]),
                JointPhase::RunJourney => action == ActionView::Perform(
                    Task::RunJourney,
                    seq![start.journey.label()],
                ),
                JointPhase::CheckHealthAgain => action == ActionView::CheckHealth,
                JointPhase::Finished => action == ActionView::Finish,
            }
        }),
{
    law_joint_keeps_what_it_was_told(trace, last);
}

proof fn lemma_joint_places(trace: Seq<(JointRunView, ReplyView)>, place: int)
    requires
        is_joint_trace(trace),
        0 <= place < trace.len(),
    ensures
        trace[place].0.phase.rank() == place,
        trace[place].0.journey == trace[0].0.journey,
    decreases place,
{
    if place > 0 {
        lemma_joint_places(trace, place - 1);
        let before = trace[place - 1];
        assert(joint_step(before.0, before.1) == Ok::<JointRunView, Seq<char>>(trace[place].0));
        law_joint_moves_forward(before.0, before.1);
    }
}

/// A jointly signed journey is run on a wallet that was funded for it, and reports what it came to
/// exactly once the provider is found healthy after it.
pub proof fn law_joint_report_is_of_its_journey(
    trace: Seq<(JointRunView, ReplyView)>,
    last: int,
)
    requires
        is_joint_trace(trace),
        0 <= last < trace.len(),
    ensures
        joint_report(trace[last].0) is Some <==> last == 5,
        last == 5 ==> {
            &&& joint_action(trace[2].0) == ActionView::Perform(Task::FundWallet, seq![])
            &&& joint_action(trace[3].0) == ActionView::Perform(
                Task::RunJourney,
                seq![trace[0].0.journey.label()],
            )
            &&& joint_action(trace[4].0) == ActionView::CheckHealth
            &&& trace[4].1 == ReplyView::Done
            &&& trace[3].1 matches ReplyView::Document(Some(result))
            &&& joint_report(trace[last].0) == Some(
                cooperative_doc(trace[0].0.journey, trace[last].0.provider_pubkey, result),
            )
        },
{
    lemma_joint_places(trace, last);
    if last == 5 {
        lemma_joint_places(trace, 2);
        lemma_joint_places(trace, 3);
        lemma_joint_places(trace, 4);
        assert(joint_step(trace[3].0, trace[3].1) == Ok::<JointRunView, Seq<char>>(trace[4].0));
        assert(joint_step(trace[4].0, trace[4].1) == Ok::<JointRunView, Seq<char>>(trace[5].0));
    }
}

/// The journey that a fault turns a submarine swap into.
pub enum Diversion {
    Replacement(RbfConflictRun),
    ZeroConf(ZeroConfRun),
}

/// The fault that has turned a submarine swap into the proof of a conflict, where one has.
pub open spec fn diverting_fault(run: SubmarineRunView) -> Option<HarnessInjection> {
    if run.phase == SubmarinePhase::Diverted && proves_conflict(run.injection) {
        run.injection
    } else {
        None
    }
}

/// Whether a journey goes on with what a submarine swap has ordered and authorized.
pub open spec fn goes_on_with(diversion: Diversion, run: SubmarineRunView) -> bool {
    match diversion {
        Diversion::Replacement(next) => {
            &&& next@.phase == RbfConflictPhase::BuildConflict
            &&& next@.order_id == run.order_id
            &&& next@.payment_hash == run.payment_hash
            &&& next@.committed_txid == run.lockup_txid
            &&& next@.committed_hex == run.funding_hex
        },
        Diversion::ZeroConf(next) => {
            &&& next@.phase == ZeroConfPhase::SayVerified
            &&& Some(next@.injection) == run.injection
            &&& next@.order_id == run.order_id
            &&& next@.payment_hash == run.payment_hash
            &&& next@.funding_txid == run.lockup_txid
            &&& next@.funding_hex == run.funding_hex
        },
    }
}

/// What a submarine swap goes on with where a fault has turned it into the proof of a conflict: a
/// replacement of its lock, or a lock that is accepted before it confirms.
pub fn diversion(run: &SubmarineRun, provider_pubkey: &str, kinds: RecordKinds) -> (next: Option<
    Diversion,
>)
    ensures
        next is Some <==> diverting_fault(run@) is Some,
        next matches Some(next) ==> {
            &&& goes_on_with(next, run@)
            &&& (next is Replacement <==> run@.injection == Some(HarnessInjection::RbfConflict))
            &&& next matches Diversion::ZeroConf(next) ==> next@.provider_pubkey == provider_pubkey@
                && next@.kinds == kinds
        },
{
    if run.phase != SubmarinePhase::Diverted || !run.proves_conflict() {
        return None;
    }
    match run.injection {
        Some(HarnessInjection::RbfConflict) => Some(
            Diversion::Replacement(
                RbfConflictRun::new(
                    run.order_id.as_str(),
                    run.payment_hash.as_str(),
                    run.lockup_txid.as_str(),
                    run.funding_hex.as_str(),
                ),
            ),
        ),
        Some(injection) => Some(
            Diversion::ZeroConf(
                ZeroConfRun::new(
                    provider_pubkey,
                    kinds,
                    injection,
                    run.order_id.as_str(),
                    run.payment_hash.as_str(),
                    run.lockup_txid.as_str(),
                    run.funding_hex.as_str(),
                ),
            ),
        ),
        None => None,
    }
}

/// A submarine swap that is diverted has a journey to go on with.
pub proof fn law_diverted_swap_goes_on(run: SubmarineRunView, reply: ReplyView)
    requires
        submarine_step(run, reply) is Ok,
        submarine_step(run, reply)->Ok_0.phase == SubmarinePhase::Diverted,
    ensures
        diverting_fault(submarine_step(run, reply)->Ok_0) is Some,
{
}

/// The phases of two sessions that contend for one reservation, in their order.
#[derive(Clone, Copy, Debug, PartialEq, Eq, Structural)]
pub enum ContentionPhase {
    CheckHealth,
    DiscoverProvider,
    CreateActiveInvoice,
    CreateRefusedInvoice,
    QuoteActive,
    ReadActive,
    RequestRefused,
    Wait,
    CheckHealthAgain,
    Finished,
}

impl ContentionPhase {
    /// The place of the phase in their order.
    pub open spec fn rank(self) -> int {
        match self {
            ContentionPhase::CheckHealth => 0,
            ContentionPhase::DiscoverProvider => 1,
            ContentionPhase::CreateActiveInvoice => 2,
            ContentionPhase::CreateRefusedInvoice => 3,
            ContentionPhase::QuoteActive => 4,
            ContentionPhase::ReadActive => 5,
            ContentionPhase::RequestRefused => 6,
            ContentionPhase::Wait => 7,
            ContentionPhase::CheckHealthAgain => 8,
            ContentionPhase::Finished => 9,
        }
    }
}

/// Two sessions that contend for one reservation: the first is quoted, the second asks for what is
/// left.
pub struct ContentionRun {
    pub phase: ContentionPhase,
    pub kinds: RecordKinds,
    pub provider_pubkey: String,
    /// The payment hash and the invoice of the session that is quoted.
    pub active: (String, String),
    /// The payment hash and the invoice of the session that is not.
    pub refused: (String, String),
    pub active_session_id: String,
    pub reservation: Option<Reservation>,
    pub refused_session_id: String,
    pub refused_rfq_id: String,
}

/// Two sessions that contend for one reservation: the first is quoted, the second asks for what is
/// left.
#[verifier::ext_equal]
pub struct ContentionRunView {
    pub phase: ContentionPhase,
    pub kinds: RecordKinds,
    pub provider_pubkey: Seq<char>,
    pub active: (Seq<char>, Seq<char>),
    pub refused: (Seq<char>, Seq<char>),
    pub active_session_id: Seq<char>,
    pub reservation: Option<ReservationView>,
    pub refused_session_id: Seq<char>,
    pub refused_rfq_id: Seq<char>,
}

impl View for ContentionRun {
    type V = ContentionRunView;

    open spec fn view(&self) -> ContentionRunView {
        ContentionRunView {
            phase: self.phase,
            kinds: self.kinds,
            provider_pubkey: self.provider_pubkey@,
            active: (self.active.0@, self.active.1@),
            refused: (self.refused.0@, self.refused.1@),
            active_session_id: self.active_session_id@,
            reservation: match self.reservation {
                Some(reservation) => Some(reservation@),
                None => None,
            },
            refused_session_id: self.refused_session_id@,
            refused_rfq_id: self.refused_rfq_id@,
        }
    }
}

/// The action that has an invoice created for one of the two sessions.
pub open spec fn reservation_invoice(label: Seq<char>, description: Seq<char>) -> ActionView {
    ActionView::Perform(
        Task::CreateInvoice,
        seq![
            label,
            decimal(DOUBLE_RESERVATION_OUTPUT_AMOUNT_SAT as nat),
            description,
            decimal(INVOICE_EXPIRY_SECONDS as nat),
        ],
    )
}

/// The action that asks the provider for a quote in one of the two sessions.
pub open spec fn reservation_request(
    task: Task,
    session: Seq<char>,
    payment: (Seq<char>, Seq<char>),
) -> ActionView {
    ActionView::Perform(
        task,
        seq![
            session,
            payment.0,
            payment.1,
            decimal(DOUBLE_RESERVATION_INPUT_AMOUNT_SAT as nat),
            decimal(DOUBLE_RESERVATION_MAXIMUM_TOTAL_FEE_SAT as nat),
        ],
    )
}

/// What two contending sessions ask for next.
pub open spec fn contention_action(run: ContentionRunView) -> ActionView {
    match run.phase {
        ContentionPhase::CheckHealth => ActionView::CheckHealth,
        ContentionPhase::DiscoverProvider => ActionView::Perform(Task::DiscoverProvider, seq![]),
        ContentionPhase::CreateActiveInvoice => reservation_invoice(
            "immortal-double-reservation-active"@,
            "Immortal adversarial active reservation"@,
        ),
        ContentionPhase::CreateRefusedInvoice => reservation_invoice(
            "immortal-double-reservation-refused"@,
            "Immortal adversarial refused reservation"@,
        ),
        ContentionPhase::QuoteActive => reservation_request(
            Task::QuoteReservation,
            "double_reservation_active"@,
            run.active,
        ),
        ContentionPhase::ReadActive => ActionView::Perform(Task::ReadRecords, seq![]),
        ContentionPhase::RequestRefused => reservation_request(
            Task::RequestReservation,
            "double_reservation_refused"@,
            run.refused,
        ),
        ContentionPhase::Wait => ActionView::Perform(Task::Wait, seq!["750"@]),
        ContentionPhase::CheckHealthAgain => ActionView::CheckHealth,
        ContentionPhase::Finished => ActionView::Finish,
    }
}

/// Where a reply takes two contending sessions.
pub open spec fn contention_step(run: ContentionRunView, reply: ReplyView) -> Result<
    ContentionRunView,
    Seq<char>,
> {
    match (run.phase, reply) {
        (ContentionPhase::CheckHealth, ReplyView::Done) => Ok(
            ContentionRunView { phase: ContentionPhase::DiscoverProvider, ..run },
        ),
        (ContentionPhase::DiscoverProvider, ReplyView::Texts(texts)) => {
            if texts.len() != 1 {
                Err(wrong_reply())
            } else {
                Ok(
                    ContentionRunView {
                        phase: ContentionPhase::CreateActiveInvoice,
                        provider_pubkey: texts[0],
                        ..run
                    },
                )
            }
        },
        (ContentionPhase::CreateActiveInvoice, ReplyView::Texts(texts)) => {
            if texts.len() != 2 {
                Err(wrong_reply())
            } else {
                Ok(
                    ContentionRunView {
                        phase: ContentionPhase::CreateRefusedInvoice,
                        active: (texts[0], texts[1]),
                        ..run
                    },
                )
            }
        },
        (ContentionPhase::CreateRefusedInvoice, ReplyView::Texts(texts)) => {
            if texts.len() != 2 {
                Err(wrong_reply())
            } else {
                Ok(
                    ContentionRunView {
                        phase: ContentionPhase::QuoteActive,
                        refused: (texts[0], texts[1]),
                        ..run
                    },
                )
            }
        },
        (ContentionPhase::QuoteActive, ReplyView::Texts(texts)) => {
            if texts.len() != 1 {
                Err(wrong_reply())
            } else {
                Ok(
                    ContentionRunView {
                        phase: ContentionPhase::ReadActive,
                        active_session_id: texts[0],
                        ..run
                    },
                )
            }
        },
        (ContentionPhase::ReadActive, ReplyView::Records(records)) => match reservation_reading(
            records,
            run.kinds,
        ) {
            Err(message) => Err(message),
            Ok(reservation) => Ok(
                ContentionRunView {
                    phase: ContentionPhase::RequestRefused,
                    reservation: Some(reservation),
                    ..run
                },
            ),
        },
        (ContentionPhase::RequestRefused, ReplyView::Texts(texts)) => {
            if texts.len() != 2 {
                Err(wrong_reply())
            } else {
                Ok(
                    ContentionRunView {
                        phase: ContentionPhase::Wait,
                        refused_session_id: texts[0],
                        refused_rfq_id: texts[1],
                        ..run
                    },
                )
            }
        },
        (ContentionPhase::Wait, ReplyView::Done) => Ok(
            ContentionRunView { phase: ContentionPhase::CheckHealthAgain, ..run },
        ),
        (ContentionPhase::CheckHealthAgain, ReplyView::Done) => Ok(
            ContentionRunView { phase: ContentionPhase::Finished, ..run },
        ),
        _ => Err(wrong_reply()),
    }
}

/// The proof of two contending sessions, once they are over.
pub open spec fn contention_proof(run: ContentionRunView) -> Option<JsonView> {
    match run.reservation {
        Some(reservation) if run.phase == ContentionPhase::Finished => Some(
            double_reservation_doc(
                run.provider_pubkey,
                reservation,
                run.active_session_id,
                run.refused_session_id,
                run.refused_rfq_id,
            ),
        ),
        _ => None,
    }
}

fn create_invoice(label: &str, description: &str) -> (action: Action)
    ensures
        action@ == reservation_invoice(label@, description@),
{
    perform_with_four(
        Task::CreateInvoice,
        label,
        decimal_text(DOUBLE_RESERVATION_OUTPUT_AMOUNT_SAT).as_str(),
        description,
        decimal_text(INVOICE_EXPIRY_SECONDS).as_str(),
    )
}

fn request(task: Task, session: &str, payment: &(String, String)) -> (action: Action)
    ensures
        action@ == reservation_request(task, session@, (payment.0@, payment.1@)),
{
    perform_with_five(
        task,
        session,
        payment.0.as_str(),
        payment.1.as_str(),
        decimal_text(DOUBLE_RESERVATION_INPUT_AMOUNT_SAT).as_str(),
        decimal_text(DOUBLE_RESERVATION_MAXIMUM_TOTAL_FEE_SAT).as_str(),
    )
}

impl ContentionRun {
    /// Two contending sessions before their first action.
    pub fn new(kinds: RecordKinds) -> (run: ContentionRun)
        ensures
            run@.phase == ContentionPhase::CheckHealth,
            run@.kinds == kinds,
            run@.provider_pubkey == Seq::<char>::empty(),
            run@.active == (Seq::<char>::empty(), Seq::<char>::empty()),
            run@.refused == (Seq::<char>::empty(), Seq::<char>::empty()),
            run@.active_session_id == Seq::<char>::empty(),
            run@.reservation is None,
            run@.refused_session_id == Seq::<char>::empty(),
            run@.refused_rfq_id == Seq::<char>::empty(),
    {
        ContentionRun {
            phase: ContentionPhase::CheckHealth,
            kinds,
            provider_pubkey: String::new(),
            active: (String::new(), String::new()),
            refused: (String::new(), String::new()),
            active_session_id: String::new(),
            reservation: None,
            refused_session_id: String::new(),
            refused_rfq_id: String::new(),
        }
    }

    /// What the sessions ask for next.
    pub fn action(&self) -> (action: Action)
        ensures
            action@ == contention_action(self@),
    {
        match self.phase {
            ContentionPhase::CheckHealth => Action::CheckHealth,
            ContentionPhase::DiscoverProvider => perform(Task::DiscoverProvider),
            ContentionPhase::CreateActiveInvoice => create_invoice(
                "immortal-double-reservation-active",
                "Immortal adversarial active reservation",
            ),
            ContentionPhase::CreateRefusedInvoice => create_invoice(
                "immortal-double-reservation-refused",
                "Immortal adversarial refused reservation",
            ),
            ContentionPhase::QuoteActive => request(
                Task::QuoteReservation,
                "double_reservation_active",
                &self.active,
            ),
            ContentionPhase::ReadActive => perform(Task::ReadRecords),
            ContentionPhase::RequestRefused => request(
                Task::RequestReservation,
                "double_reservation_refused",
                &self.refused,
            ),
            ContentionPhase::Wait => perform_with(Task::Wait, "750"),
            ContentionPhase::CheckHealthAgain => Action::CheckHealth,
            ContentionPhase::Finished => Action::Finish,
        }
    }

    /// Takes a reply: the sessions go on to their next phase, or end with a message.
    #[verifier::rlimit(40)]
    pub fn advance(&mut self, reply: Reply) -> (moved: Result<(), String>)
        ensures
            match moved {
                Ok(_) => contention_step(old(self)@, reply@) == Ok::<ContentionRunView, Seq<char>>(
                    final(self)@,
                ),
                Err(message) => {
                    &&& contention_step(old(self)@, reply@) == Err::<ContentionRunView, Seq<char>>(
                        message@,
                    )
                    &&& final(self)@ == old(self)@
                },
            },
    {
        match (self.phase, reply) {
            (ContentionPhase::CheckHealth, Reply::Done) => {
                self.phase = ContentionPhase::DiscoverProvider;
                Ok(())
            },
            (ContentionPhase::DiscoverProvider, Reply::Texts(texts)) => {
                if texts.len() != 1 {
                    return Err(wrong_reply_text());
                }
                self.provider_pubkey = texts[0].clone();
                self.phase = ContentionPhase::CreateActiveInvoice;
                Ok(())
            },
            (ContentionPhase::CreateActiveInvoice, Reply::Texts(texts)) => {
                if texts.len() != 2 {
                    return Err(wrong_reply_text());
                }
                self.active = (texts[0].clone(), texts[1].clone());
                self.phase = ContentionPhase::CreateRefusedInvoice;
                Ok(())
            },
            (ContentionPhase::CreateRefusedInvoice, Reply::Texts(texts)) => {
                if texts.len() != 2 {
                    return Err(wrong_reply_text());
                }
                self.refused = (texts[0].clone(), texts[1].clone());
                self.phase = ContentionPhase::QuoteActive;
                Ok(())
            },
            (ContentionPhase::QuoteActive, Reply::Texts(texts)) => {
                if texts.len() != 1 {
                    return Err(wrong_reply_text());
                }
                self.active_session_id = texts[0].clone();
                self.phase = ContentionPhase::ReadActive;
                Ok(())
            },
            (ContentionPhase::ReadActive, Reply::Records(records)) => {
                let reservation: Reservation = active_reservation(&records, self.kinds)?;
                self.reservation = Some(reservation);
                self.phase = ContentionPhase::RequestRefused;
                Ok(())
            },
            (ContentionPhase::RequestRefused, Reply::Texts(texts)) => {
                if texts.len() != 2 {
                    return Err(wrong_reply_text());
                }
                self.refused_session_id = texts[0].clone();
                self.refused_rfq_id = texts[1].clone();
                self.phase = ContentionPhase::Wait;
                Ok(())
            },
            (ContentionPhase::Wait, Reply::Done) => {
                self.phase = ContentionPhase::CheckHealthAgain;
                Ok(())
            },
            (ContentionPhase::CheckHealthAgain, Reply::Done) => {
                self.phase = ContentionPhase::Finished;
                Ok(())
            },
            _ => Err(wrong_reply_text()),
        }
    }

    /// The proof of the two sessions, once they are over.
    pub fn result(&self) -> (document: Option<Json>)
        ensures
            (match document {
                Some(document) => Some(document@),
                None => None,
            }) == contention_proof(self@),
    {
        match &self.reservation {
            Some(reservation) if self.phase == ContentionPhase::Finished => Some(
                double_reservation(
                    self.provider_pubkey.as_str(),
                    reservation,
                    self.active_session_id.as_str(),
                    self.refused_session_id.as_str(),
                    self.refused_rfq_id.as_str(),
                ),
            ),
            _ => None,
        }
    }
}

/// Whether each entry of a trace leads to the one after it, from the first phase on.
pub open spec fn is_contention_trace(trace: Seq<(ContentionRunView, ReplyView)>) -> bool {
    &&& trace.len() > 0
    &&& trace[0].0.phase == ContentionPhase::CheckHealth
    &&& forall|i: int|
        0 <= i < trace.len() - 1 ==> contention_step((#[trigger] trace[i]).0, trace[i].1) == Ok::<
            ContentionRunView,
            Seq<char>,
        >(trace[i + 1].0)
}

/// Each reply takes two contending sessions to the very next phase.
pub proof fn law_contention_moves_forward(run: ContentionRunView, reply: ReplyView)
    requires
        contention_step(run, reply) is Ok,
    ensures
        contention_step(run, reply)->Ok_0.phase.rank() == run.phase.rank() + 1,
        contention_step(run, reply)->Ok_0.kinds == run.kinds,
{
}

/// Which replies take two contending sessions on, and to which phase: in each phase exactly the
/// replies that pass every check of that phase, and no others.
pub proof fn law_contention_goes_on_only_when_answered(run: ContentionRunView, reply: ReplyView)
    ensures
        ({
            let next = contention_step(run, reply);
            match run.phase {
                ContentionPhase::CheckHealth => {
                    &&& next is Ok <==> reply is Done
                    &&& next is Ok ==> next->Ok_0.phase == ContentionPhase::DiscoverProvider
                },
                ContentionPhase::DiscoverProvider => {
                    &&& next is Ok <==> {
                        &&& reply is Texts
                        &&& reply->Texts_0.len() == 1
                    }
                    &&& next is Ok ==> next->Ok_0.phase == ContentionPhase::CreateActiveInvoice
                },
                ContentionPhase::CreateActiveInvoice => {
                    &&& next is Ok <==> {
                        &&& reply is Texts
                        &&& reply->Texts_0.len() == 2
                    }
                    &&& next is Ok ==> next->Ok_0.phase == ContentionPhase::CreateRefusedInvoice
                },
                ContentionPhase::CreateRefusedInvoice => {
                    &&& next is Ok <==> {
                        &&& reply is Texts
                        &&& reply->Texts_0.len() == 2
                    }
                    &&& next is Ok ==> next->Ok_0.phase == ContentionPhase::QuoteActive
                },
                ContentionPhase::QuoteActive => {
                    &&& next is Ok <==> {
                        &&& reply is Texts
                        &&& reply->Texts_0.len() == 1
                    }
                    &&& next is Ok ==> next->Ok_0.phase == ContentionPhase::ReadActive
                },
                ContentionPhase::ReadActive => {
                    &&& next is Ok <==> {
                        &&& reply is Records
                        &&& reservation_reading(reply->Records_0, run.kinds) is Ok
                    }
                    &&& next is Ok ==> next->Ok_0.phase == ContentionPhase::RequestRefused
                },
                ContentionPhase::RequestRefused => {
                    &&& next is Ok <==> {
                        &&& reply is Texts
                        &&& reply->Texts_0.len() == 2
                    }
                    &&& next is Ok ==> next->Ok_0.phase == ContentionPhase::Wait
                },
                ContentionPhase::Wait => {
                    &&& next is Ok <==> reply is Done
                    &&& next is Ok ==> next->Ok_0.phase == ContentionPhase::CheckHealthAgain
                },
                ContentionPhase::CheckHealthAgain => {
                    &&& next is Ok <==> reply is Done
                    &&& next is Ok ==> next->Ok_0.phase == ContentionPhase::Finished
                },
                ContentionPhase::Finished => next is Err,
            }
        }),
{
}

/// The reply that a trace of two contending sessions holds for a phase.
pub open spec fn contention_told(
    trace: Seq<(ContentionRunView, ReplyView)>,
    phase: ContentionPhase,
) -> ReplyView {
    trace[choose|i: int| 0 <= i < trace.len() && (#[trigger] trace[i]).0.phase == phase].1
}

/// The values that a run of two contending sessions holds, by the replies that gave them: each
/// stays as the reply to one phase gave it, or as the run started with it.
pub open spec fn contention_holds(
    trace: Seq<(ContentionRunView, ReplyView)>,
    run: ContentionRunView,
) -> bool {
    let start = trace[0].0;
    let provider_pubkey = contention_told(trace, ContentionPhase::DiscoverProvider)->Texts_0[0];
    let active = (
        contention_told(trace, ContentionPhase::CreateActiveInvoice)->Texts_0[0],
        contention_told(trace, ContentionPhase::CreateActiveInvoice)->Texts_0[1],
    );
    let refused = (
        contention_told(trace, ContentionPhase::CreateRefusedInvoice)->Texts_0[0],
        contention_told(trace, ContentionPhase::CreateRefusedInvoice)->Texts_0[1],
    );
    let active_session_id = contention_told(trace, ContentionPhase::QuoteActive)->Texts_0[0];
    let reservation = Some(
        reservation_reading(
            contention_told(trace, ContentionPhase::ReadActive)->Records_0,
            start.kinds,
        )->Ok_0,
    );
    let refused_session_id = contention_told(trace, ContentionPhase::RequestRefused)->Texts_0[0];
    let refused_rfq_id = contention_told(trace, ContentionPhase::RequestRefused)->Texts_0[1];
    &&& run.kinds == start.kinds
    &&& run.phase.rank() > ContentionPhase::DiscoverProvider.rank()
        ==> run.provider_pubkey == provider_pubkey
    &&& run.phase.rank() > ContentionPhase::CreateActiveInvoice.rank() ==> run.active == active
    &&& run.phase.rank() > ContentionPhase::CreateRefusedInvoice.rank() ==> run.refused == refused
    &&& run.phase.rank() > ContentionPhase::QuoteActive.rank()
        ==> run.active_session_id == active_session_id
    &&& run.phase.rank() > ContentionPhase::ReadActive.rank() ==> run.reservation == reservation
    &&& run.phase.rank() > ContentionPhase::RequestRefused.rank()
        ==> run.refused_session_id == refused_session_id
    &&& run.phase.rank() > ContentionPhase::RequestRefused.rank()
        ==> run.refused_rfq_id == refused_rfq_id
}

/// No phase of two contending sessions comes twice in a trace.
proof fn lemma_contention_told_once(trace: Seq<(ContentionRunView, ReplyView)>, place: int)
    requires
        is_contention_trace(trace),
        0 <= place < trace.len(),
    ensures
        contention_told(trace, trace[place].0.phase) == trace[place].1,
{
    let phase = trace[place].0.phase;
    let other = choose|i: int| 0 <= i < trace.len() && (#[trigger] trace[i]).0.phase == phase;
    assert(trace[place].0.phase == phase);
    if other != place {
        let (early, late) = if other < place {
            (other, place)
        } else {
            (place, other)
        };
        assert forall|run: ContentionRunView, reply: ReplyView|
            (#[trigger] contention_step(run, reply)) is Ok implies run.phase.rank() < contention_step(
            run,
            reply,
        )->Ok_0.phase.rank() by {
            law_contention_moves_forward(run, reply);
        }
        lemma_ranks_rise(
            trace,
            |run: ContentionRunView, reply: ReplyView| contention_step(run, reply),
            |run: ContentionRunView| run.phase.rank(),
            early,
            late,
        );
    }
}

/// A reply keeps what two contending sessions holds, and adds what it tells.
proof fn lemma_contention_holds_on(
    trace: Seq<(ContentionRunView, ReplyView)>,
    run: ContentionRunView,
    reply: ReplyView,
)
    requires
        contention_holds(trace, run),
        contention_told(trace, run.phase) == reply,
        contention_step(run, reply) is Ok,
    ensures
        contention_holds(trace, contention_step(run, reply)->Ok_0),
{
    let next = contention_step(run, reply)->Ok_0;
    match run.phase {
        ContentionPhase::CheckHealth => assert(contention_holds(trace, next)),
        ContentionPhase::DiscoverProvider => assert(contention_holds(trace, next)),
        ContentionPhase::CreateActiveInvoice => assert(contention_holds(trace, next)),
        ContentionPhase::CreateRefusedInvoice => assert(contention_holds(trace, next)),
        ContentionPhase::QuoteActive => assert(contention_holds(trace, next)),
        ContentionPhase::ReadActive => assert(contention_holds(trace, next)),
        ContentionPhase::RequestRefused => assert(contention_holds(trace, next)),
        ContentionPhase::Wait => assert(contention_holds(trace, next)),
        ContentionPhase::CheckHealthAgain => assert(contention_holds(trace, next)),
        ContentionPhase::Finished => assert(contention_holds(trace, next)),
    }
}

/// What two contending sessions has been told, it keeps: at every place of a trace each value that
/// the run holds is the one that the reply to the phase that asks for it gave, or the one that the
/// run started with.
pub proof fn law_contention_keeps_what_it_was_told(
    trace: Seq<(ContentionRunView, ReplyView)>,
    last: int,
)
    requires
        is_contention_trace(trace),
        0 <= last < trace.len(),
    ensures
        contention_holds(trace, trace[last].0),
    decreases last,
{
    if last > 0 {
        let before = last - 1;
        law_contention_keeps_what_it_was_told(trace, before);
        lemma_contention_told_once(trace, before);
        assert(contention_step(trace[before].0, trace[before].1) == Ok::<ContentionRunView, Seq<char>>(
            trace[before + 1].0,
        ));
        lemma_contention_holds_on(trace, trace[before].0, trace[before].1);
    }
}

/// What two contending sessions asks for in each phase, in terms of the replies before it: the
/// values in a request are those that the replies to the named phases gave, or those that the run
/// started with.
pub proof fn law_contention_asks_with_what_it_was_told(
    trace: Seq<(ContentionRunView, ReplyView)>,
    last: int,
)
    requires
        is_contention_trace(trace),
        0 <= last < trace.len(),
    ensures
        ({
            let active = (
                contention_told(trace, ContentionPhase::CreateActiveInvoice)->Texts_0[0],
                contention_told(trace, ContentionPhase::CreateActiveInvoice)->Texts_0[1],
            );
            let refused = (
                contention_told(trace, ContentionPhase::CreateRefusedInvoice)->Texts_0[0],
                contention_told(trace, ContentionPhase::CreateRefusedInvoice)->Texts_0[1],
            );
            let action = contention_action(trace[last].0);
            match trace[last].0.phase {
                ContentionPhase::CheckHealth => action == ActionView::CheckHealth,
                ContentionPhase::DiscoverProvider => action == ActionView::Perform(
                    Task::DiscoverProvider,
                    seq![],
                ),
                ContentionPhase::CreateActiveInvoice => action == reservation_invoice(
                    "immortal-double-reservation-active"@,
                    "Immortal adversarial active reservation"@,
                ),
                ContentionPhase::CreateRefusedInvoice => action == reservation_invoice(
                    "immortal-double-reservation-refused"@,
                    "Immortal adversarial refused reservation"@,
                ),
                ContentionPhase::QuoteActive => action == reservation_request(
                    Task::QuoteReservation,
                    "double_reservation_active"@,
                    active,
                ),
                ContentionPhase::ReadActive => action == ActionView::Perform(
                    Task::ReadRecords,
                    seq![],
                ),
                ContentionPhase::RequestRefused => action == reservation_request(
                    Task::RequestReservation,
                    "double_reservation_refused"@,
                    refused,
                ),
                ContentionPhase::Wait => action == ActionView::Perform(Task::Wait, seq!["750"@]),
                ContentionPhase::CheckHealthAgain => action == ActionView::CheckHealth,
                ContentionPhase::Finished => action == ActionView::Finish,
            }
        }),
{
    law_contention_keeps_what_it_was_told(trace, last);
}

proof fn lemma_contention_places(trace: Seq<(ContentionRunView, ReplyView)>, place: int)
    requires
        is_contention_trace(trace),
        0 <= place < trace.len(),
    ensures
        trace[place].0.phase.rank() == place,
        trace[place].0.kinds == trace[0].0.kinds,
    decreases place,
{
    if place > 0 {
        lemma_contention_places(trace, place - 1);
        let before = trace[place - 1];
        assert(contention_step(before.0, before.1) == Ok::<ContentionRunView, Seq<char>>(
            trace[place].0,
        ));
        law_contention_moves_forward(before.0, before.1);
    }
}

/// The second session asks for a quote only once the first holds a hard reservation that leaves no
/// room for another; and there is a proof of both, in which that reservation stands, exactly once
/// the provider is found healthy after the second has asked.
pub proof fn law_contention_is_for_one_reservation(
    trace: Seq<(ContentionRunView, ReplyView)>,
    last: int,
)
    requires
        is_contention_trace(trace),
        0 <= last < trace.len(),
    ensures
        last > 5 ==> {
            &&& trace[5].1 matches ReplyView::Records(records)
            &&& reservation_reading(records, trace[0].0.kinds) is Ok
        },
        contention_proof(trace[last].0) is Some <==> last == 9,
        last == 9 ==> {
            &&& trace[5].1 matches ReplyView::Records(records)
            &&& trace[6].1 matches ReplyView::Texts(texts)
            &&& trace[8].1 == ReplyView::Done
            &&& contention_action(trace[8].0) == ActionView::CheckHealth
            &&& texts.len() == 2
            &&& contention_proof(trace[last].0) == Some(
                double_reservation_doc(
                    trace[last].0.provider_pubkey,
                    reservation_reading(records, trace[0].0.kinds)->Ok_0,
                    trace[last].0.active_session_id,
                    texts[0],
                    texts[1],
                ),
            )
        },
{
    lemma_contention_places(trace, last);
    if last > 5 {
        lemma_contention_places(trace, 5);
        assert(contention_step(trace[5].0, trace[5].1) == Ok::<ContentionRunView, Seq<char>>(
            trace[6].0,
        ));
    }
    if last == 9 {
        lemma_contention_places(trace, 6);
        lemma_contention_places(trace, 7);
        lemma_contention_places(trace, 8);
        assert(contention_step(trace[6].0, trace[6].1) == Ok::<ContentionRunView, Seq<char>>(
            trace[7].0,
        ));
        assert(contention_step(trace[7].0, trace[7].1) == Ok::<ContentionRunView, Seq<char>>(
            trace[8].0,
        ));
        assert(contention_step(trace[8].0, trace[8].1) == Ok::<ContentionRunView, Seq<char>>(
            trace[9].0,
        ));
    }
}

} // verus!
