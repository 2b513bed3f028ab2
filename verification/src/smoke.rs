//! The smoke test: three journeys with one provider, one after the other, and their evidence.

use vstd::prelude::*;
use crate::evidence::{evidence_of, journey_evidence, smoke_doc, smoke_document, smoke_reading};
use crate::journey::FundedJourney;
use crate::json::{Json, JsonView};
use crate::machine::{
    Action, ActionView, Reply, ReplyView, Task, lemma_ranks_rise, perform, perform_with,
    wrong_reply, wrong_reply_text,
};

verus! {

/// The phases of a smoke test, in their order.
#[derive(Clone, Copy, Debug, PartialEq, Eq, Structural)]
pub enum SmokePhase {
    LoadLaboratory,
    CheckHealth,
    DiscoverProvider,
    RunSubmarine,
    RunReverse,
    RunReverseRefund,
    CheckHealthAgain,
    StoreEvidence,
    Finished,
}

impl SmokePhase {
    /// The place of the phase in their order.
    pub open spec fn rank(self) -> int {
        match self {
            SmokePhase::LoadLaboratory => 0,
            SmokePhase::CheckHealth => 1,
            SmokePhase::DiscoverProvider => 2,
            SmokePhase::RunSubmarine => 3,
            SmokePhase::RunReverse => 4,
            SmokePhase::RunReverseRefund => 5,
            SmokePhase::CheckHealthAgain => 6,
            SmokePhase::StoreEvidence => 7,
            SmokePhase::Finished => 8,
        }
    }
}

/// A smoke test: the evidence of the journeys so far.
pub struct SmokeRun {
    pub phase: SmokePhase,
    pub provider_pubkey: String,
    pub submarine: Json,
    pub reverse: Json,
    pub reverse_refund: Json,
}

/// A smoke test: the evidence of the journeys so far.
#[verifier::ext_equal]
pub struct SmokeRunView {
    pub phase: SmokePhase,
    pub provider_pubkey: Seq<char>,
    pub submarine: JsonView,
    pub reverse: JsonView,
    pub reverse_refund: JsonView,
}

impl View for SmokeRun {
    type V = SmokeRunView;

    open spec fn view(&self) -> SmokeRunView {
        SmokeRunView {
            phase: self.phase,
            provider_pubkey: self.provider_pubkey@,
            submarine: self.submarine@,
            reverse: self.reverse@,
            reverse_refund: self.reverse_refund@,
        }
    }
}

/// The action that has a journey run.
pub open spec fn runs(journey: FundedJourney) -> ActionView {
    ActionView::Perform(Task::RunJourney, seq![journey.label()])
}

/// What a smoke test asks for next.
pub open spec fn smoke_action(run: SmokeRunView) -> ActionView {
    match run.phase {
        SmokePhase::LoadLaboratory => ActionView::Perform(Task::LoadLaboratory, seq![]),
        SmokePhase::CheckHealth => ActionView::CheckHealth,
        SmokePhase::DiscoverProvider => ActionView::Perform(Task::DiscoverProvider, seq![]),
        SmokePhase::RunSubmarine => runs(FundedJourney::Submarine),
        SmokePhase::RunReverse => runs(FundedJourney::ReverseClaim),
        SmokePhase::RunReverseRefund => runs(FundedJourney::ReverseRefund),
        SmokePhase::CheckHealthAgain => ActionView::CheckHealth,
        SmokePhase::StoreEvidence => ActionView::Store(
            "evidence"@,
            smoke_doc(run.provider_pubkey, run.submarine, run.reverse, run.reverse_refund),
        ),
        SmokePhase::Finished => ActionView::Finish,
    }
}

/// Where a reply takes a smoke test. Whatever failed ends it with its message.
pub open spec fn smoke_step(run: SmokeRunView, reply: ReplyView) -> Result<
    SmokeRunView,
    Seq<char>,
> {
    match (run.phase, reply) {
        (_, ReplyView::Refused { message, .. }) => Err(message),
        (SmokePhase::LoadLaboratory, ReplyView::Done) => Ok(
            SmokeRunView { phase: SmokePhase::CheckHealth, ..run },
        ),
        (SmokePhase::CheckHealth, ReplyView::Done) => Ok(
            SmokeRunView { phase: SmokePhase::DiscoverProvider, ..run },
        ),
        (SmokePhase::DiscoverProvider, ReplyView::Texts(texts)) => {
            if texts.len() != 1 {
                Err(wrong_reply())
            } else {
                Ok(
                    SmokeRunView {
                        phase: SmokePhase::RunSubmarine,
                        provider_pubkey: texts[0],
                        ..run
                    },
                )
            }
        },
        (SmokePhase::RunSubmarine, ReplyView::Document(Some(report))) => match evidence_of(report) {
            Err(message) => Err(message),
            Ok(evidence) => Ok(
                SmokeRunView { phase: SmokePhase::RunReverse, submarine: evidence, ..run },
            ),
        },
        (SmokePhase::RunReverse, ReplyView::Document(Some(report))) => match evidence_of(report) {
            Err(message) => Err(message),
            Ok(evidence) => Ok(
                SmokeRunView { phase: SmokePhase::RunReverseRefund, reverse: evidence, ..run },
            ),
        },
        (SmokePhase::RunReverseRefund, ReplyView::Document(Some(report))) => match evidence_of(
            report,
        ) {
            Err(message) => Err(message),
            Ok(evidence) => Ok(
                SmokeRunView { phase: SmokePhase::CheckHealthAgain, reverse_refund: evidence, ..run },
            ),
        },
        (SmokePhase::CheckHealthAgain, ReplyView::Done) => Ok(
            SmokeRunView { phase: SmokePhase::StoreEvidence, ..run },
        ),
        (SmokePhase::StoreEvidence, ReplyView::Done) => Ok(
            SmokeRunView { phase: SmokePhase::Finished, ..run },
        ),
        _ => Err(wrong_reply()),
    }
}

fn run_journey(journey: FundedJourney) -> (action: Action)
    ensures
        action@ == runs(journey),
{
    perform_with(Task::RunJourney, journey.name())
}

impl SmokeRun {
    /// A smoke test before its first action.
    pub fn new() -> (run: SmokeRun)
        ensures
            run@.phase == SmokePhase::LoadLaboratory,
            run@.provider_pubkey == Seq::<char>::empty(),
            run@.submarine == JsonView::Null,
            run@.reverse == JsonView::Null,
            run@.reverse_refund == JsonView::Null,
    {
        SmokeRun {
            phase: SmokePhase::LoadLaboratory,
            provider_pubkey: String::new(),
            submarine: Json::null(),
            reverse: Json::null(),
            reverse_refund: Json::null(),
        }
    }

    /// What the smoke test asks for next.
    pub fn action(&self) -> (action: Action)
        ensures
            action@ == smoke_action(self@),
    {
        match self.phase {
            SmokePhase::LoadLaboratory => perform(Task::LoadLaboratory),
            SmokePhase::CheckHealth => Action::CheckHealth,
            SmokePhase::DiscoverProvider => perform(Task::DiscoverProvider),
            SmokePhase::RunSubmarine => run_journey(FundedJourney::Submarine),
            SmokePhase::RunReverse => run_journey(FundedJourney::ReverseClaim),
            SmokePhase::RunReverseRefund => run_journey(FundedJourney::ReverseRefund),
            SmokePhase::CheckHealthAgain => Action::CheckHealth,
            SmokePhase::StoreEvidence => Action::Store(
                "evidence",
                smoke_document(
                    self.provider_pubkey.as_str(),
                    self.submarine.copy(),
                    self.reverse.copy(),
                    self.reverse_refund.copy(),
                ),
            ),
            SmokePhase::Finished => Action::Finish,
        }
    }

    /// Takes a reply: the smoke test goes on to its next phase, or ends with a message.
    pub fn advance(&mut self, reply: Reply) -> (moved: Result<(), String>)
        ensures
            match moved {
                Ok(_) => smoke_step(old(self)@, reply@) == Ok::<SmokeRunView, Seq<char>>(
                    final(self)@,
                ),
                Err(message) => {
                    &&& smoke_step(old(self)@, reply@) == Err::<SmokeRunView, Seq<char>>(message@)
                    &&& final(self)@ == old(self)@
                },
            },
    {
        match (self.phase, reply) {
            (_, Reply::Refused { code: _, message }) => Err(message),
            (SmokePhase::LoadLaboratory, Reply::Done) => {
                self.phase = SmokePhase::CheckHealth;
                Ok(())
            },
            (SmokePhase::CheckHealth, Reply::Done) => {
                self.phase = SmokePhase::DiscoverProvider;
                Ok(())
            },
            (SmokePhase::DiscoverProvider, Reply::Texts(texts)) => {
                if texts.len() != 1 {
                    return Err(wrong_reply_text());
                }
                self.provider_pubkey = texts[0].clone();
                self.phase = SmokePhase::RunSubmarine;
                Ok(())
            },
            (SmokePhase::RunSubmarine, Reply::Document(Some(report))) => {
                let evidence: Json = journey_evidence(&report)?;
                self.submarine = evidence;
                self.phase = SmokePhase::RunReverse;
                Ok(())
            },
            (SmokePhase::RunReverse, Reply::Document(Some(report))) => {
                let evidence: Json = journey_evidence(&report)?;
                self.reverse = evidence;
                self.phase = SmokePhase::RunReverseRefund;
                Ok(())
            },
            (SmokePhase::RunReverseRefund, Reply::Document(Some(report))) => {
                let evidence: Json = journey_evidence(&report)?;
                self.reverse_refund = evidence;
                self.phase = SmokePhase::CheckHealthAgain;
                Ok(())
            },
            (SmokePhase::CheckHealthAgain, Reply::Done) => {
                self.phase = SmokePhase::StoreEvidence;
                Ok(())
            },
            (SmokePhase::StoreEvidence, Reply::Done) => {
                self.phase = SmokePhase::Finished;
                Ok(())
            },
            _ => Err(wrong_reply_text()),
        }
    }
}

/// Whether each entry of a trace leads to the one after it, from the first phase on.
pub open spec fn is_smoke_trace(trace: Seq<(SmokeRunView, ReplyView)>) -> bool {
    &&& trace.len() > 0
    &&& trace[0].0.phase == SmokePhase::LoadLaboratory
    &&& forall|i: int|
        0 <= i < trace.len() - 1 ==> smoke_step((#[trigger] trace[i]).0, trace[i].1) == Ok::<
            SmokeRunView,
            Seq<char>,
        >(trace[i + 1].0)
}

/// Each reply takes a smoke test to the very next phase.
pub proof fn law_smoke_moves_forward(run: SmokeRunView, reply: ReplyView)
    requires
        smoke_step(run, reply) is Ok,
    ensures
        smoke_step(run, reply)->Ok_0.phase.rank() == run.phase.rank() + 1,
{
}

/// Which replies take a smoke test on, and to which phase: in each phase exactly the replies that
/// pass every check of that phase, and no others.
pub proof fn law_smoke_goes_on_only_when_answered(run: SmokeRunView, reply: ReplyView)
    ensures
        ({
            let next = smoke_step(run, reply);
            match run.phase {
                SmokePhase::LoadLaboratory => {
                    &&& next is Ok <==> reply is Done
                    &&& next is Ok ==> next->Ok_0.phase == SmokePhase::CheckHealth
                },
                SmokePhase::CheckHealth => {
                    &&& next is Ok <==> reply is Done
                    &&& next is Ok ==> next->Ok_0.phase == SmokePhase::DiscoverProvider
                },
                SmokePhase::DiscoverProvider => {
                    &&& next is Ok <==> {
                        &&& reply is Texts
                        &&& reply->Texts_0.len() == 1
                    }
                    &&& next is Ok ==> next->Ok_0.phase == SmokePhase::RunSubmarine
                },
                SmokePhase::RunSubmarine => {
                    &&& next is Ok <==> {
                        &&& reply is Document
                        &&& reply->Document_0 is Some
                        &&& evidence_of(reply->Document_0->0) is Ok
                    }
                    &&& next is Ok ==> next->Ok_0.phase == SmokePhase::RunReverse
                },
                SmokePhase::RunReverse => {
                    &&& next is Ok <==> {
                        &&& reply is Document
                        &&& reply->Document_0 is Some
                        &&& evidence_of(reply->Document_0->0) is Ok
                    }
                    &&& next is Ok ==> next->Ok_0.phase == SmokePhase::RunReverseRefund
                },
                SmokePhase::RunReverseRefund => {
                    &&& next is Ok <==> {
                        &&& reply is Document
                        &&& reply->Document_0 is Some
                        &&& evidence_of(reply->Document_0->0) is Ok
                    }
                    &&& next is Ok ==> next->Ok_0.phase == SmokePhase::CheckHealthAgain
                },
                SmokePhase::CheckHealthAgain => {
                    &&& next is Ok <==> reply is Done
                    &&& next is Ok ==> next->Ok_0.phase == SmokePhase::StoreEvidence
                },
                SmokePhase::StoreEvidence => {
                    &&& next is Ok <==> reply is Done
                    &&& next is Ok ==> next->Ok_0.phase == SmokePhase::Finished
                },
                SmokePhase::Finished => next is Err,
            }
        }),
{
}

/// The reply that a trace of a smoke test holds for a phase.
pub open spec fn smoke_told(trace: Seq<(SmokeRunView, ReplyView)>, phase: SmokePhase) -> ReplyView {
    trace[choose|i: int| 0 <= i < trace.len() && (#[trigger] trace[i]).0.phase == phase].1
}

/// The values that a run of a smoke test holds, by the replies that gave them: each stays as the
/// reply to one phase gave it, or as the run started with it.
pub open spec fn smoke_holds(trace: Seq<(SmokeRunView, ReplyView)>, run: SmokeRunView) -> bool {
    let provider_pubkey = smoke_told(trace, SmokePhase::DiscoverProvider)->Texts_0[0];
    let submarine = evidence_of(smoke_told(trace, SmokePhase::RunSubmarine)->Document_0->0)->Ok_0;
    let reverse = evidence_of(smoke_told(trace, SmokePhase::RunReverse)->Document_0->0)->Ok_0;
    let reverse_refund = evidence_of(smoke_told(trace, SmokePhase::RunReverseRefund)->Document_0->0)->Ok_0;
    &&& run.phase.rank() > SmokePhase::DiscoverProvider.rank()
        ==> run.provider_pubkey == provider_pubkey
    &&& run.phase.rank() > SmokePhase::RunSubmarine.rank() ==> run.submarine == submarine
    &&& run.phase.rank() > SmokePhase::RunReverse.rank() ==> run.reverse == reverse
    &&& run.phase.rank() > SmokePhase::RunReverseRefund.rank()
        ==> run.reverse_refund == reverse_refund
}

/// No phase of a smoke test comes twice in a trace.
proof fn lemma_smoke_told_once(trace: Seq<(SmokeRunView, ReplyView)>, place: int)
    requires
        is_smoke_trace(trace),
        0 <= place < trace.len(),
    ensures
        smoke_told(trace, trace[place].0.phase) == trace[place].1,
{
    let phase = trace[place].0.phase;
    let other = choose|i: int| 0 <= i < trace.len() && (#[trigger] trace[i]).0.phase == phase;
    assert(trace[place].0.phase == phase);
    if other != place {
        let (early, late) = if other < place {
            (other, place)
        } else {
            (place, other)
        };
        assert forall|run: SmokeRunView, reply: ReplyView|
            (#[trigger] smoke_step(run, reply)) is Ok implies run.phase.rank() < smoke_step(
            run,
            reply,
        )->Ok_0.phase.rank() by {
            law_smoke_moves_forward(run, reply);
        }
        lemma_ranks_rise(
            trace,
            |run: SmokeRunView, reply: ReplyView| smoke_step(run, reply),
            |run: SmokeRunView| run.phase.rank(),
            early,
            late,
        );
    }
}

/// A reply keeps what a smoke test holds, and adds what it tells.
proof fn lemma_smoke_holds_on(
    trace: Seq<(SmokeRunView, ReplyView)>,
    run: SmokeRunView,
    reply: ReplyView,
)
    requires
        smoke_holds(trace, run),
        smoke_told(trace, run.phase) == reply,
        smoke_step(run, reply) is Ok,
    ensures
        smoke_holds(trace, smoke_step(run, reply)->Ok_0),
{
    let next = smoke_step(run, reply)->Ok_0;
    match run.phase {
        SmokePhase::LoadLaboratory => assert(smoke_holds(trace, next)),
        SmokePhase::CheckHealth => assert(smoke_holds(trace, next)),
        SmokePhase::DiscoverProvider => assert(smoke_holds(trace, next)),
        SmokePhase::RunSubmarine => assert(smoke_holds(trace, next)),
        SmokePhase::RunReverse => assert(smoke_holds(trace, next)),
        SmokePhase::RunReverseRefund => assert(smoke_holds(trace, next)),
        SmokePhase::CheckHealthAgain => assert(smoke_holds(trace, next)),
        SmokePhase::StoreEvidence => assert(smoke_holds(trace, next)),
        SmokePhase::Finished => assert(smoke_holds(trace, next)),
    }
}

/// What a smoke test has been told, it keeps: at every place of a trace each value that the run
/// holds is the one that the reply to the phase that asks for it gave, or the one that the run
/// started with.
pub proof fn law_smoke_keeps_what_it_was_told(trace: Seq<(SmokeRunView, ReplyView)>, last: int)
    requires
        is_smoke_trace(trace),
        0 <= last < trace.len(),
    ensures
        smoke_holds(trace, trace[last].0),
    decreases last,
{
    if last > 0 {
        let before = last - 1;
        law_smoke_keeps_what_it_was_told(trace, before);
        lemma_smoke_told_once(trace, before);
        assert(smoke_step(trace[before].0, trace[before].1) == Ok::<SmokeRunView, Seq<char>>(
            trace[before + 1].0,
        ));
        lemma_smoke_holds_on(trace, trace[before].0, trace[before].1);
    }
}

/// What a smoke test asks for in each phase, in terms of the replies before it: the values in a
/// request are those that the replies to the named phases gave, or those that the run started with.
pub proof fn law_smoke_asks_with_what_it_was_told(trace: Seq<(SmokeRunView, ReplyView)>, last: int)
    requires
        is_smoke_trace(trace),
        0 <= last < trace.len(),
    ensures
        ({
            let provider_pubkey = smoke_told(trace, SmokePhase::DiscoverProvider)->Texts_0[0];
            let submarine = evidence_of(smoke_told(trace, SmokePhase::RunSubmarine)->Document_0->0)->Ok_0;
            let reverse = evidence_of(smoke_told(trace, SmokePhase::RunReverse)->Document_0->0)->Ok_0;
            let reverse_refund = evidence_of(smoke_told(trace, SmokePhase::RunReverseRefund)->Document_0->0)->Ok_0;
            let action = smoke_action(trace[last].0);
            match trace[last].0.phase {
                SmokePhase::LoadLaboratory => action == ActionView::Perform(
                    Task::LoadLaboratory,
                    seq![],
                ),
                SmokePhase::CheckHealth => action == ActionView::CheckHealth,
                SmokePhase::DiscoverProvider => action == ActionView::Perform(
                    Task::DiscoverProvider,
                    seq![],
                ),
                SmokePhase::RunSubmarine => action == runs(FundedJourney::Submarine),
                SmokePhase::RunReverse => action == runs(FundedJourney::ReverseClaim),
                SmokePhase::RunReverseRefund => action == runs(FundedJourney::ReverseRefund),
                SmokePhase::CheckHealthAgain => action == ActionView::CheckHealth,
                SmokePhase::StoreEvidence => action == ActionView::Store(
                    "evidence"@,
                    smoke_doc(provider_pubkey, submarine, reverse, reverse_refund),
                ),
                SmokePhase::Finished => action == ActionView::Finish,
            }
        }),
{
    law_smoke_keeps_what_it_was_told(trace, last);
}

proof fn lemma_smoke_places(trace: Seq<(SmokeRunView, ReplyView)>, place: int)
    requires
        is_smoke_trace(trace),
        0 <= place < trace.len(),
    ensures
        trace[place].0.phase.rank() == place,
    decreases place,
{
    if place > 0 {
        lemma_smoke_places(trace, place - 1);
        let before = trace[place - 1];
        assert(smoke_step(before.0, before.1) == Ok::<SmokeRunView, Seq<char>>(trace[place].0));
        law_smoke_moves_forward(before.0, before.1);
    }
}

/// A journey, a check or a search that fails ends a smoke test with its message, and so does a
/// journey that reports no evidence: no later journey is run and nothing is stored.
pub proof fn law_smoke_failure_ends(run: SmokeRunView, reply: ReplyView)
    ensures
        reply matches ReplyView::Refused { message, .. } ==> smoke_step(run, reply) == Err::<
            SmokeRunView,
            Seq<char>,
        >(message),
        (run.phase == SmokePhase::RunSubmarine || run.phase == SmokePhase::RunReverse || run.phase
            == SmokePhase::RunReverseRefund) ==> (reply matches ReplyView::Document(Some(report))
            && evidence_of(report) is Ok) == (smoke_step(run, reply) is Ok),
{
}

/// The three journeys are run one after the other, and evidence is stored only once each of them
/// has reported: it is the evidence of these three reports.
pub proof fn law_smoke_evidence_is_of_three_journeys(
    trace: Seq<(SmokeRunView, ReplyView)>,
    last: int,
)
    requires
        is_smoke_trace(trace),
        0 <= last < trace.len(),
        smoke_action(trace[last].0) is Store,
    ensures
        last == 7,
        trace[2].1 == ReplyView::Texts(seq![trace[last].0.provider_pubkey]),
        smoke_action(trace[3].0) == runs(FundedJourney::Submarine),
        smoke_action(trace[4].0) == runs(FundedJourney::ReverseClaim),
        smoke_action(trace[5].0) == runs(FundedJourney::ReverseRefund),
        trace[3].1 matches ReplyView::Document(Some(_)),
        trace[4].1 matches ReplyView::Document(Some(_)),
        trace[5].1 matches ReplyView::Document(Some(_)),
        smoke_reading(
            trace[last].0.provider_pubkey,
            trace[3].1->Document_0->0,
            trace[4].1->Document_0->0,
            trace[5].1->Document_0->0,
        ) == Ok::<JsonView, Seq<char>>(smoke_action(trace[last].0)->Store_1),
{
    lemma_smoke_places(trace, last);
    lemma_smoke_places(trace, 2);
    lemma_smoke_places(trace, 3);
    lemma_smoke_places(trace, 4);
    lemma_smoke_places(trace, 5);
    lemma_smoke_places(trace, 6);
    assert(smoke_step(trace[2].0, trace[2].1) == Ok::<SmokeRunView, Seq<char>>(trace[3].0));
    assert(trace[2].1->Texts_0 =~= seq![trace[last].0.provider_pubkey]);
    assert(smoke_step(trace[3].0, trace[3].1) == Ok::<SmokeRunView, Seq<char>>(trace[4].0));
    assert(smoke_step(trace[4].0, trace[4].1) == Ok::<SmokeRunView, Seq<char>>(trace[5].0));
    assert(smoke_step(trace[5].0, trace[5].1) == Ok::<SmokeRunView, Seq<char>>(trace[6].0));
    assert(smoke_step(trace[6].0, trace[6].1) == Ok::<SmokeRunView, Seq<char>>(trace[7].0));
}

} // verus!
