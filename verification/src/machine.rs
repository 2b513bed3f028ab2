//! What a journey asks of the outside and what it is told in reply.
//!
//! A journey is a machine: it names the next action, the outside performs it, and the reply takes
//! the machine to its next phase or ends the journey with a message.

use vstd::prelude::*;
use crate::contract::{TxOutput, outputs_view, strings};
use crate::json::{Json, JsonObject, JsonView, member_text};
use crate::journey::CooperativeAction;
use crate::planner::{Plan, PlanView, Standing, plan_view};
use crate::record::{Event, EventTag};
use crate::terminal::{LightningTerminalCheck, TxInput};
use crate::topology::TopologyCandidate;
use crate::text::{maybe, same_text, told};

verus! {

/// How long an invoice of a swap can be paid.
pub const INVOICE_EXPIRY_SECONDS: u64 = 86_400;

/// Work that only the rails, the wallet or the client engine can do.
#[derive(Clone, Copy, Debug, PartialEq, Eq, Structural)]
pub enum Task {
    AbortRound,
    ApplyProbe,
    AuthorizeFunding,
    AwaitAncestor,
    AwaitCancel,
    AwaitCancelledClose,
    AwaitControl,
    AwaitCooperative,
    AwaitDirectClose,
    AwaitOnBothNodes,
    AwaitPaymentAttempt,
    AwaitPaymentEnd,
    AwaitProviderContract,
    AwaitQuote,
    BeginSigningRound,
    BroadcastBitcoin,
    BroadcastCompetitor,
    BroadcastFunding,
    BroadcastLiquidExit,
    BuildClaim,
    BuildConflict,
    BuildExit,
    BuildFunding,
    BuildKeylessRequest,
    BuildLiquidExit,
    BuildRefund,
    CancelSession,
    CheckInvoicePaid,
    CheckSignature,
    ClaimBitcoinDestination,
    ClaimLiquidDestination,
    ClearControls,
    CountExits,
    CreateInvoice,
    DeriveFundingId,
    DigestVerifier,
    DiscoverOffering,
    DiscoverProvider,
    DiscoverProviders,
    DraftContract,
    ExchangeDirect,
    ExecuteLiquidClaim,
    FinalizeExits,
    FinalizeInvoice,
    FinalizeNegotiation,
    FindCanonical,
    FundSession,
    FundWallet,
    HashFunding,
    InspectSettlement,
    InvalidateBlock,
    JoinPayment,
    KeepAuthorization,
    ListInvoices,
    LoadLaboratory,
    LoadSecret,
    LoadSignedExit,
    ObserveConflict,
    ObserveHeldPayment,
    ObserveTemplate,
    OpenSubscription,
    ParseDestinationTemplate,
    ParseInputs,
    PreflightLiquidDestination,
    PrepareOrder,
    PublishCancel,
    PublishContract,
    PublishOrder,
    PublishRfq,
    Quote,
    QuoteReservation,
    ReadConfirmationHeight,
    ReadFundingInvoice,
    ReadHeight,
    ReadLiquidNetwork,
    ReadMempool,
    ReadParent,
    ReadRecords,
    ReadSession,
    ReadSpender,
    ReadTranscript,
    ReadUnspent,
    RecordEsploraEffect,
    RecordFundingEffect,
    RecordSignedExit,
    RegisterCommitment,
    RemoveSecret,
    RequestReservation,
    RequireKnownTransaction,
    RestoreLiquidRequest,
    RestoreSession,
    ResumeJourney,
    RevealNonce,
    RunJourney,
    SayCooperative,
    SignContract,
    SignCooperatively,
    SignExit,
    SignOrder,
    SignRfq,
    StartPayment,
    StoreSecret,
    StoreSignedExit,
    TakeFunding,
    TryWrongKey,
    VerifyChainSource,
    VerifyOnBothNodes,
    VerifyRestored,
    VerifySession,
    Wait,
}

/// What has to hold before a close of the provider is accepted.
pub struct CloseCheck {
    pub outcome: &'static str,
    pub bitcoin: Option<String>,
    pub liquid: Option<String>,
    pub lightning: Option<LightningTerminalCheck>,
}

/// What has to hold before a close of the provider is accepted.
#[verifier::ext_equal]
pub struct CloseCheckView {
    pub outcome: Seq<char>,
    pub bitcoin: Option<Seq<char>>,
    pub liquid: Option<Seq<char>>,
    pub lightning: Option<LightningView>,
}

/// What is known of a payment over Lightning.
#[verifier::ext_equal]
pub enum LightningView {
    Incoming(Seq<char>),
    Outgoing(Seq<char>, Seq<char>, Seq<char>),
}

impl View for LightningTerminalCheck {
    type V = LightningView;

    open spec fn view(&self) -> LightningView {
        match *self {
            LightningTerminalCheck::IncomingInvoice { payment_hash } => LightningView::Incoming(
                payment_hash@,
            ),
            LightningTerminalCheck::OutgoingPayment { invoice, payment_hash, expected_status } =>
                LightningView::Outgoing(invoice@, payment_hash@, expected_status@),
        }
    }
}

/// What is known of a payment, where something is.
pub open spec fn lightning_view(check: Option<LightningTerminalCheck>) -> Option<LightningView> {
    match check {
        Some(check) => Some(check@),
        None => None,
    }
}

impl View for CloseCheck {
    type V = CloseCheckView;

    open spec fn view(&self) -> CloseCheckView {
        CloseCheckView {
            outcome: self.outcome@,
            bitcoin: maybe(self.bitcoin),
            liquid: maybe(self.liquid),
            lightning: lightning_view(self.lightning),
        }
    }
}

/// The next thing that a journey asks for.
pub enum Action {
    /// Wait until the provider says that they are in a state.
    AwaitState(&'static str),
    /// The same over the direct recovery channel.
    AwaitDirectState(&'static str),
    /// Publish a status of the requester with these members.
    Say(&'static str, JsonObject),
    /// The same over the direct recovery channel.
    SayDirect(&'static str, JsonObject),
    /// Record a checkpoint that is safe to stop at.
    Keep(&'static str, Json),
    /// Record a checkpoint at which a fault is brought about and which is not safe to stop at.
    Pause(&'static str, Json),
    /// Store a document for another client.
    Store(&'static str, Json),
    /// Mine blocks on a rail.
    Mine(String, u64, &'static str),
    /// Wait until every node of a rail has a transaction.
    AwaitTransaction(String, String, &'static str),
    /// Read the bytes of a transaction.
    ReadTransaction(String, String, &'static str),
    /// Check that the provider's daemon is healthy.
    CheckHealth,
    /// Load the controller's acknowledgement of an injected fault.
    LoadControllerProof,
    /// Wait until the provider closes the session, and verify the end of each leg.
    AwaitClose(CloseCheck),
    /// Show the planner of a recovery what the local rails show, and ask what is to be done.
    Plan(Standing),
    /// Do a piece of work with these arguments.
    Perform(Task, Vec<String>),
    /// The journey is over.
    Finish,
}

/// The next thing that a journey asks for.
#[verifier::ext_equal]
pub enum ActionView {
    AwaitState(Seq<char>),
    AwaitDirectState(Seq<char>),
    Say(Seq<char>, Map<Seq<char>, JsonView>),
    SayDirect(Seq<char>, Map<Seq<char>, JsonView>),
    Keep(Seq<char>, JsonView),
    Pause(Seq<char>, JsonView),
    Store(Seq<char>, JsonView),
    Mine(Seq<char>, u64, Seq<char>),
    AwaitTransaction(Seq<char>, Seq<char>, Seq<char>),
    ReadTransaction(Seq<char>, Seq<char>, Seq<char>),
    CheckHealth,
    LoadControllerProof,
    AwaitClose(CloseCheckView),
    Plan(Standing),
    Perform(Task, Seq<Seq<char>>),
    Finish,
}

impl View for Action {
    type V = ActionView;

    open spec fn view(&self) -> ActionView {
        match *self {
            Action::AwaitState(state) => ActionView::AwaitState(state@),
            Action::AwaitDirectState(state) => ActionView::AwaitDirectState(state@),
            Action::Say(state, extra) => ActionView::Say(state@, extra@),
            Action::SayDirect(state, extra) => ActionView::SayDirect(state@, extra@),
            Action::Keep(label, details) => ActionView::Keep(label@, details@),
            Action::Pause(label, details) => ActionView::Pause(label@, details@),
            Action::Store(label, document) => ActionView::Store(label@, document@),
            Action::Mine(rail, count, label) => ActionView::Mine(rail@, count, label@),
            Action::AwaitTransaction(rail, id, label) => ActionView::AwaitTransaction(
                rail@,
                id@,
                label@,
            ),
            Action::ReadTransaction(rail, id, label) => ActionView::ReadTransaction(
                rail@,
                id@,
                label@,
            ),
            Action::CheckHealth => ActionView::CheckHealth,
            Action::LoadControllerProof => ActionView::LoadControllerProof,
            Action::AwaitClose(check) => ActionView::AwaitClose(check@),
            Action::Plan(standing) => ActionView::Plan(standing),
            Action::Perform(task, arguments) => ActionView::Perform(task, strings(arguments@)),
            Action::Finish => ActionView::Finish,
        }
    }
}

/// What a journey is told once its action is done.
pub enum Reply {
    Done,
    Record(Event),
    Texts(Vec<String>),
    Document(Option<Json>),
    Number(u64),
    Truth(bool),
    /// The transaction that a node took, and the transaction that it was handed with the output
    /// that funds the contract.
    Funding { receipt: String, id: String, output_index: u32, hex: String },
    /// The outputs of a parsed transaction, or why it could not be parsed.
    Outputs(Result<Vec<TxOutput>, String>),
    /// A negotiated session: its order and its contract.
    Session { order_id: String, contract: Json },
    /// An exit package: how it is signed and what it says.
    Package { mode: String, document: Json },
    /// A prepared Liquid order: its journey and its exit.
    LiquidOrder { journey: String, exit: LiquidExit },
    /// The restored request of a Liquid leg.
    LiquidRequest { swap_type: String, purpose: String, exit: LiquidExit },
    /// A record that came over the direct channel, after this many further rounds.
    Direct(Event, u32),
    /// The records of the session.
    Records(Vec<Event>),
    /// An invoice that was deleted, and what is listed afterwards.
    Removal { deleted: Json, remaining: Json },
    /// A quote of one of two providers.
    Quoted(TopologyCandidate),
    /// A refusal: its code and its text.
    Refused { code: String, message: String },
    /// A message of a joint signature: its record, who has said it, what step it is, its value and
    /// the values it repeats.
    Signing {
        id: String,
        pubkey: String,
        action: CooperativeAction,
        value: Option<String>,
        values: Vec<String>,
    },
    /// The steps of a joint signature that each side has taken.
    Transcript { provider: Vec<CooperativeAction>, requester: Vec<CooperativeAction> },
    /// The inputs of a lock and of a transaction that conflicts with it, or why one could not be
    /// parsed.
    SpentInputs {
        committed: Result<Vec<TxInput>, String>,
        conflicting: Result<Vec<TxInput>, String>,
    },
    /// What the planner of a recovery wants done, or why it refused what it was shown.
    Planned(Result<Plan, String>),
    /// What two nodes report of a settlement, and what its transaction is.
    Settlement { primary: Json, secondary: Json, parsed: Result<SettlementShape, String> },
}

/// A transaction that settles a lock.
pub struct SettlementShape {
    pub inputs: Vec<SpentInput>,
    pub output_count: usize,
    pub virtual_size: Result<u64, String>,
}

/// An input of a transaction with the witness that unlocks it.
pub struct SpentInput {
    pub previous_txid: Vec<u8>,
    pub previous_output: u32,
    pub witness: Vec<Vec<u8>>,
}

/// The exit of a Liquid leg.
pub struct LiquidExit {
    pub mode: String,
    pub path: String,
    pub timelock: u32,
    pub signing_handle: Option<String>,
    pub preimage_recovery: Option<String>,
    pub funding_id: String,
    pub funding_output: u32,
}

/// What the exit of a Liquid leg is.
#[verifier::ext_equal]
pub struct LiquidExitView {
    pub mode: Seq<char>,
    pub path: Seq<char>,
    pub timelock: u32,
    pub signing_handle: Option<Seq<char>>,
    pub preimage_recovery: Option<Seq<char>>,
    pub funding_id: Seq<char>,
    pub funding_output: u32,
}

impl View for LiquidExit {
    type V = LiquidExitView;

    open spec fn view(&self) -> LiquidExitView {
        LiquidExitView {
            mode: self.mode@,
            path: self.path@,
            timelock: self.timelock,
            signing_handle: maybe(self.signing_handle),
            preimage_recovery: maybe(self.preimage_recovery),
            funding_id: self.funding_id@,
            funding_output: self.funding_output,
        }
    }
}

/// Whether an exit is a claim by the wallet whose two references differ.
pub open spec fn is_wallet_claim(exit: LiquidExitView) -> bool {
    &&& exit.mode == "wallet"@
    &&& exit.path == "claim"@
    &&& exit.signing_handle is Some
    &&& exit.preimage_recovery is Some
    &&& exit.signing_handle != exit.preimage_recovery
}

/// Whether an exit is a refund that was signed beforehand.
pub open spec fn is_presigned_refund(exit: LiquidExitView) -> bool {
    exit.mode == "presigned"@ && exit.path == "refund"@
}

impl LiquidExit {
    /// Whether the exit is a claim by the wallet whose two references differ.
    pub fn is_wallet_claim(&self) -> (is: bool)
        ensures
            is == is_wallet_claim(self@),
    {
        let distinct: bool = match (&self.signing_handle, &self.preimage_recovery) {
            (Some(handle), Some(recovery)) => !same_text(handle.as_str(), recovery.as_str()),
            _ => false,
        };
        same_text(self.mode.as_str(), "wallet") && same_text(self.path.as_str(), "claim")
            && distinct
    }

    /// Whether the exit is a refund that was signed beforehand.
    pub fn is_presigned_refund(&self) -> (is: bool)
        ensures
            is == is_presigned_refund(self@),
    {
        same_text(self.mode.as_str(), "presigned") && same_text(self.path.as_str(), "refund")
    }
}

/// What a journey is told once its action is done.
#[verifier::ext_equal]
pub enum ReplyView {
    Done,
    Record {
        id: Seq<char>,
        pubkey: Seq<char>,
        created_at: u64,
        kind: u16,
        tags: Seq<EventTag>,
        content: Seq<char>,
        sig: Seq<char>,
    },
    Texts(Seq<Seq<char>>),
    Document(Option<JsonView>),
    Number(u64),
    Truth(bool),
    Funding { receipt: Seq<char>, id: Seq<char>, output_index: u32, hex: Seq<char> },
    Outputs(Result<Seq<TxOutput>, Seq<char>>),
    Session { order_id: Seq<char>, contract: JsonView },
    Package { mode: Seq<char>, document: JsonView },
    LiquidOrder { journey: Seq<char>, exit: LiquidExitView },
    LiquidRequest { swap_type: Seq<char>, purpose: Seq<char>, exit: LiquidExitView },
    Direct {
        id: Seq<char>,
        pubkey: Seq<char>,
        created_at: u64,
        kind: u16,
        tags: Seq<EventTag>,
        content: Seq<char>,
        sig: Seq<char>,
        rounds: u32,
    },
    Records(Seq<Event>),
    Removal { deleted: JsonView, remaining: JsonView },
    Quoted(TopologyCandidate),
    Refused { code: Seq<char>, message: Seq<char> },
    Signing {
        id: Seq<char>,
        pubkey: Seq<char>,
        action: CooperativeAction,
        value: Option<Seq<char>>,
        values: Seq<Seq<char>>,
    },
    Transcript { provider: Seq<CooperativeAction>, requester: Seq<CooperativeAction> },
    SpentInputs {
        committed: Result<Seq<TxInput>, Seq<char>>,
        conflicting: Result<Seq<TxInput>, Seq<char>>,
    },
    Planned(Result<PlanView, Seq<char>>),
    Settlement {
        primary: JsonView,
        secondary: JsonView,
        parsed: Result<SettlementShape, Seq<char>>,
    },
}

/// Inputs, or why there are none.
pub open spec fn inputs_view(inputs: Result<Vec<TxInput>, String>) -> Result<
    Seq<TxInput>,
    Seq<char>,
> {
    match inputs {
        Ok(inputs) => Ok(inputs@),
        Err(message) => Err(message@),
    }
}

/// Inputs, or why there are none: it can be had exactly where every part that it rests on can, and
/// each part of it is the one that its name says.
pub proof fn law_inputs_view_is_read_from_its_parts(inputs: Result<Vec<TxInput>, String>)
    ensures
        ({
            let read = inputs_view(inputs);
            let given = read->Ok_0;
            &&& read is Ok <==> {
                &&& inputs is Ok
            }
            &&& read is Ok ==> {
                &&& given == inputs->Ok_0@
            }
        }),
{
}

impl View for Reply {
    type V = ReplyView;

    open spec fn view(&self) -> ReplyView {
        match *self {
            Reply::Done => ReplyView::Done,
            Reply::Record(event) => ReplyView::Record {
                id: event.id@,
                pubkey: event.pubkey@,
                created_at: event.created_at,
                kind: event.kind,
                tags: event.tags@,
                content: event.content@,
                sig: event.sig@,
            },
            Reply::Texts(texts) => ReplyView::Texts(strings(texts@)),
            Reply::Document(document) => ReplyView::Document(
                match document {
                    Some(document) => Some(document@),
                    None => None,
                },
            ),
            Reply::Number(value) => ReplyView::Number(value),
            Reply::Truth(value) => ReplyView::Truth(value),
            Reply::Funding { receipt, id, output_index, hex } => ReplyView::Funding {
                receipt: receipt@,
                id: id@,
                output_index,
                hex: hex@,
            },
            Reply::Outputs(outputs) => ReplyView::Outputs(outputs_view(outputs)),
            Reply::Session { order_id, contract } => ReplyView::Session {
                order_id: order_id@,
                contract: contract@,
            },
            Reply::Package { mode, document } => ReplyView::Package {
                mode: mode@,
                document: document@,
            },
            Reply::LiquidOrder { journey, exit } => ReplyView::LiquidOrder {
                journey: journey@,
                exit: exit@,
            },
            Reply::LiquidRequest { swap_type, purpose, exit } => ReplyView::LiquidRequest {
                swap_type: swap_type@,
                purpose: purpose@,
                exit: exit@,
            },
            Reply::Direct(event, rounds) => ReplyView::Direct {
                id: event.id@,
                pubkey: event.pubkey@,
                created_at: event.created_at,
                kind: event.kind,
                tags: event.tags@,
                content: event.content@,
                sig: event.sig@,
                rounds,
            },
            Reply::Records(records) => ReplyView::Records(records@),
            Reply::Removal { deleted, remaining } => ReplyView::Removal {
                deleted: deleted@,
                remaining: remaining@,
            },
            Reply::Quoted(candidate) => ReplyView::Quoted(candidate),
            Reply::Refused { code, message } => ReplyView::Refused {
                code: code@,
                message: message@,
            },
            Reply::Signing { id, pubkey, action, value, values } => ReplyView::Signing {
                id: id@,
                pubkey: pubkey@,
                action,
                value: maybe(value),
                values: strings(values@),
            },
            Reply::Transcript { provider, requester } => ReplyView::Transcript {
                provider: provider@,
                requester: requester@,
            },
            Reply::SpentInputs { committed, conflicting } => ReplyView::SpentInputs {
                committed: inputs_view(committed),
                conflicting: inputs_view(conflicting),
            },
            Reply::Planned(planned) => ReplyView::Planned(plan_view(planned)),
            Reply::Settlement { primary, secondary, parsed } => ReplyView::Settlement {
                primary: primary@,
                secondary: secondary@,
                parsed: told(parsed),
            },
        }
    }
}

/// A task without arguments.
pub fn perform(task: Task) -> (action: Action)
    ensures
        action@ == ActionView::Perform(task, seq![]),
{
    let arguments: Vec<String> = Vec::new();
    assert(strings(arguments@) =~= seq![]);
    Action::Perform(task, arguments)
}

/// A task with one argument.
pub fn perform_with(task: Task, argument: &str) -> (action: Action)
    ensures
        action@ == ActionView::Perform(task, seq![argument@]),
{
    let arguments: Vec<String> = vec![argument.to_owned()];
    assert(strings(arguments@) =~= seq![argument@]);
    Action::Perform(task, arguments)
}

/// A task with two arguments.
pub fn perform_with_two(task: Task, first: &str, second: &str) -> (action: Action)
    ensures
        action@ == ActionView::Perform(task, seq![first@, second@]),
{
    let arguments: Vec<String> = vec![first.to_owned(), second.to_owned()];
    assert(strings(arguments@) =~= seq![first@, second@]);
    Action::Perform(task, arguments)
}

/// A task with three arguments.
pub fn perform_with_three(task: Task, first: &str, second: &str, third: &str) -> (action: Action)
    ensures
        action@ == ActionView::Perform(task, seq![first@, second@, third@]),
{
    let arguments: Vec<String> = vec![first.to_owned(), second.to_owned(), third.to_owned()];
    assert(strings(arguments@) =~= seq![first@, second@, third@]);
    Action::Perform(task, arguments)
}

/// A task with four arguments.
pub fn perform_with_four(task: Task, first: &str, second: &str, third: &str, fourth: &str) -> (action:
    Action)
    ensures
        action@ == ActionView::Perform(task, seq![first@, second@, third@, fourth@]),
{
    let arguments: Vec<String> = vec![
        first.to_owned(),
        second.to_owned(),
        third.to_owned(),
        fourth.to_owned(),
    ];
    assert(strings(arguments@) =~= seq![first@, second@, third@, fourth@]);
    Action::Perform(task, arguments)
}

/// A task with five arguments.
pub fn perform_with_five(
    task: Task,
    first: &str,
    second: &str,
    third: &str,
    fourth: &str,
    fifth: &str,
) -> (action: Action)
    ensures
        action@ == ActionView::Perform(task, seq![first@, second@, third@, fourth@, fifth@]),
{
    let arguments: Vec<String> = vec![
        first.to_owned(),
        second.to_owned(),
        third.to_owned(),
        fourth.to_owned(),
        fifth.to_owned(),
    ];
    assert(strings(arguments@) =~= seq![first@, second@, third@, fourth@, fifth@]);
    Action::Perform(task, arguments)
}

/// The message of a journey that is told something it did not ask for.
pub open spec fn wrong_reply() -> Seq<char> {
    "journey received a reply to another action"@
}

/// The message of a journey that is told something it did not ask for.
pub fn wrong_reply_text() -> (message: String)
    ensures
        message@ == wrong_reply(),
{
    "journey received a reply to another action".to_owned()
}

/// The members that name the external effect of a checkpoint.
pub open spec fn effect_doc(identifier: Seq<char>) -> JsonView {
    JsonView::Object(
        crate::json::no_members().insert("external_identifier"@, crate::json::text_doc(identifier)),
    )
}

/// The members that name the external effect of a checkpoint.
pub fn effect_details(identifier: &str) -> (details: Json)
    ensures
        details@ == effect_doc(identifier@),
{
    Json::object(JsonObject::new().with_text("external_identifier", identifier))
}

/// A trace that starts at or below a rank and ends above it has an entry of that rank in between,
/// where no reply takes a run from below the rank to above it.
pub proof fn lemma_milestone<R>(
    trace: Seq<(R, ReplyView)>,
    step: spec_fn(R, ReplyView) -> Result<R, Seq<char>>,
    rank: spec_fn(R) -> int,
    milestone: int,
    last: int,
) -> (place: int)
    requires
        0 <= last < trace.len(),
        rank(trace[0].0) <= milestone < rank(trace[last].0),
        forall|i: int|
            0 <= i < trace.len() - 1 ==> step((#[trigger] trace[i]).0, trace[i].1) == Ok::<
                R,
                Seq<char>,
            >(trace[i + 1].0),
        forall|run: R, reply: ReplyView|
            rank(run) < milestone && (#[trigger] step(run, reply)) is Ok ==> rank(
                step(run, reply)->Ok_0,
            ) <= milestone,
    ensures
        0 <= place < last,
        rank(trace[place].0) == milestone,
    decreases last,
{
    let before = last - 1;
    assert(step(trace[before].0, trace[before].1) == Ok::<R, Seq<char>>(trace[before + 1].0));
    if rank(trace[before].0) == milestone {
        before
    } else {
        lemma_milestone(trace, step, rank, milestone, before)
    }
}

/// Where every reply takes a run to a higher rank, a later entry of a trace has a higher rank than an
/// earlier one.
pub proof fn lemma_ranks_rise<R>(
    trace: Seq<(R, ReplyView)>,
    step: spec_fn(R, ReplyView) -> Result<R, Seq<char>>,
    rank: spec_fn(R) -> int,
    early: int,
    late: int,
)
    requires
        0 <= early < late < trace.len(),
        forall|i: int|
            0 <= i < trace.len() - 1 ==> step((#[trigger] trace[i]).0, trace[i].1) == Ok::<
                R,
                Seq<char>,
            >(trace[i + 1].0),
        forall|run: R, reply: ReplyView|
            (#[trigger] step(run, reply)) is Ok ==> rank(run) < rank(step(run, reply)->Ok_0),
    ensures
        rank(trace[early].0) < rank(trace[late].0),
    decreases late - early,
{
    let before = late - 1;
    assert(step(trace[before].0, trace[before].1) == Ok::<R, Seq<char>>(trace[before + 1].0));
    if early < before {
        lemma_ranks_rise(trace, step, rank, early, before);
    }
}

/// A count of rounds after some more, up to the largest number.
pub open spec fn more_rounds(rounds: u32, more: u32) -> u32 {
    if rounds + more > u32::MAX {
        u32::MAX
    } else {
        (rounds + more) as u32
    }
}

/// A count of rounds after some more, up to the largest number.
pub fn count_rounds(rounds: u32, more: u32) -> (total: u32)
    ensures
        total == more_rounds(rounds, more),
{
    if rounds > u32::MAX - more {
        u32::MAX
    } else {
        rounds + more
    }
}

/// How many blocks a chain is short of a height.
pub open spec fn blocks_until(target: u32, height: u32) -> u64 {
    if target > height {
        (target - height) as u64
    } else {
        0
    }
}

/// How many blocks a chain is short of a height.
pub fn count_blocks_until(target: u32, height: u32) -> (count: u64)
    ensures
        count == blocks_until(target, height),
{
    if target > height {
        (target - height) as u64
    } else {
        0
    }
}

/// A height that must fit thirty-two bits.
pub open spec fn height_reading(height: u64, refusal: Seq<char>) -> Result<u32, Seq<char>> {
    if height <= u32::MAX {
        Ok(height as u32)
    } else {
        Err(refusal)
    }
}

/// A height that must fit thirty-two bits: it can be had exactly where every part that it rests on
/// can, and each part of it is the one that its name says.
pub proof fn law_height_is_read_from_its_parts(height: u64, refusal: Seq<char>)
    ensures
        ({
            let read = height_reading(height, refusal);
            let given = read->Ok_0;
            &&& read is Ok <==> {
                &&& height <= u32::MAX
            }
            &&& read is Ok ==> {
                &&& given == height as u32
            }
        }),
{
}

/// A height that must fit thirty-two bits.
pub fn narrow_height(height: u64, refusal: &str) -> (narrow: Result<u32, String>)
    ensures
        told(narrow) == height_reading(height, refusal@),
{
    if height <= 0xffff_ffff {
        Ok(height as u32)
    } else {
        Err(refusal.to_owned())
    }
}

/// The blocks that a chain is short of a height take it exactly there, and none are missing at or past
/// it.
pub proof fn law_missing_blocks_reach_the_height(target: u32, height: u32)
    ensures
        height < target ==> height + blocks_until(target, height) == target,
        height >= target ==> blocks_until(target, height) == 0,
{
}

/// Rounds add up, never to fewer than before, and stop at the largest count.
pub proof fn law_rounds_add_up(rounds: u32, more: u32)
    ensures
        more_rounds(rounds, more) >= rounds,
        rounds + more <= u32::MAX ==> more_rounds(rounds, more) == rounds + more,
        rounds + more > u32::MAX ==> more_rounds(rounds, more) == u32::MAX,
        more_rounds(rounds, more) == more_rounds(more, rounds),
{
}

/// The details of an effect hold its outside identifier and nothing else.
pub proof fn law_effect_names_its_identifier(identifier: Seq<char>)
    ensures
        member_text(effect_doc(identifier), "external_identifier"@) == Some(identifier),
        effect_doc(identifier) matches JsonView::Object(members) ==> members.dom()
            == set!["external_identifier"@],
{
    assert(effect_doc(identifier)->Object_0.dom() =~= set!["external_identifier"@]);
}

/// No exit is both signed by the wallet when it is needed and signed before: one claims, the other
/// refunds. What the wallet signs has a handle to sign by and another to find its preimage by.
pub proof fn law_exits_are_of_one_kind(exit: LiquidExitView)
    ensures
        !(is_wallet_claim(exit) && is_presigned_refund(exit)),
        is_wallet_claim(exit) ==> exit.mode == "wallet"@ && exit.path == "claim"@,
        is_presigned_refund(exit) ==> exit.mode == "presigned"@ && exit.path == "refund"@,
        is_wallet_claim(exit) ==> exit.signing_handle is Some && exit.preimage_recovery is Some
            && exit.signing_handle != exit.preimage_recovery,
{
    reveal_strlit("claim");
    reveal_strlit("refund");
    assert("claim"@.len() == 5);
    assert("refund"@.len() == 6);
}

} // verus!
