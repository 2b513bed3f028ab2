//! Exits of the requester: how they are written down, committed to and bound in a contract.

use vstd::prelude::*;
use vstd::string::*;
use vstd::utf8::*;
use crate::boltz::told_pair;
use crate::contract::{
    after_fee, amount_after_fee, amount_member, leg_entry, leg_members, leg_verifier,
    narrow_amount, narrow_reading, required_amount, required_reading, required_string,
    verifier_for_leg,
};
use crate::control::{counted, told_json};
use crate::hex::{decode_hex, hex_reading, hex_text, lower_hex, told_bytes};
use crate::json::{
    Json, JsonObject, JsonView, bool_of, items_of, items_view, lemma_items_view, member,
    member_text, members_of, name_views, no_members, number_doc, text_doc, texts_doc,
    u64_of,
};
use crate::settlement::{narrow_count, narrow_index};
use crate::terminal::{ParsedTransaction, copy_items, show_id, shown_id};
use crate::text::{join, join3, maybe_str, same_text, told};

verus! {

/// What an exit of the requester is built from.
pub struct ExitPlan {
    pub funding_transaction: String,
    pub funding_transaction_id: String,
    pub output_index: u32,
    pub destination_value: u64,
    pub lock_time: u32,
    pub taproot_script: String,
    pub taproot_control_block: String,
}

/// What an exit of the requester is built from.
#[verifier::ext_equal]
pub struct ExitPlanView {
    pub funding_transaction: Seq<char>,
    pub funding_transaction_id: Seq<char>,
    pub output_index: u32,
    pub destination_value: u64,
    pub lock_time: u32,
    pub taproot_script: Seq<char>,
    pub taproot_control_block: Seq<char>,
}

impl View for ExitPlan {
    type V = ExitPlanView;

    open spec fn view(&self) -> ExitPlanView {
        ExitPlanView {
            funding_transaction: self.funding_transaction@,
            funding_transaction_id: self.funding_transaction_id@,
            output_index: self.output_index,
            destination_value: self.destination_value,
            lock_time: self.lock_time,
            taproot_script: self.taproot_script@,
            taproot_control_block: self.taproot_control_block@,
        }
    }
}

/// The exit policy of a contract.
pub open spec fn exit_policy(contract: JsonView) -> Option<Map<Seq<char>, JsonView>> {
    match members_of(member(contract, "recovery"@)) {
        Some(recovery) => members_of(member(JsonView::Object(recovery), "exit_policy"@)),
        None => None,
    }
}

fn find_policy<'a>(contract: &'a Json) -> (policy: Option<&'a JsonObject>)
    ensures
        (match policy {
            Some(policy) => Some(policy@),
            None => None,
        }) == exit_policy(contract@),
{
    match contract.get("recovery") {
        Some(value) => match value.as_object() {
            Some(recovery) => match recovery.get("exit_policy") {
                Some(policy) => policy.as_object(),
                None => None,
            },
            None => None,
        },
        None => None,
    }
}

/// The names of the script and of the control block that a leg is left by.
pub open spec fn path_names(path: Seq<char>) -> Option<(Seq<char>, Seq<char>)> {
    if path == "claim"@ {
        Some(("claim_script"@, "taproot_claim_control_block"@))
    } else if path == "refund"@ {
        Some(("refund_script"@, "taproot_refund_control_block"@))
    } else {
        None
    }
}

fn find_path_names(path: &str) -> (names: Option<(&'static str, &'static str)>)
    ensures
        (match names {
            Some((script, control)) => Some((script@, control@)),
            None => None,
        }) == path_names(path@),
{
    if same_text(path, "claim") {
        Some(("claim_script", "taproot_claim_control_block"))
    } else if same_text(path, "refund") {
        Some(("refund_script", "taproot_refund_control_block"))
    } else {
        None
    }
}

/// When a leg can be left: at once by a claim, at its lock by a refund.
pub open spec fn lock_time_reading(leg: Map<Seq<char>, JsonView>, path: Seq<char>) -> Result<
    u32,
    Seq<char>,
> {
    if path == "claim"@ {
        Ok(0)
    } else if path == "refund"@ {
        narrow_reading(
            required_amount(leg, "refund_lock_value"@),
            "requester refund height exceeds u32"@,
        )
    } else {
        Err("requester exit path is unsupported"@)
    }
}

/// When a leg can be left: it can be had exactly where every part that it rests on can, and each
/// part of it is the one that its name says.
pub proof fn law_lock_time_is_read_from_its_parts(leg: Map<Seq<char>, JsonView>, path: Seq<char>)
    ensures
        ({
            let read = lock_time_reading(leg, path);
            let given = read->Ok_0;
            let case_1 = path == "claim"@;
            let case_2 = {
                &&& path != "claim"@
                &&& path == "refund"@
                &&& narrow_reading(
                    required_amount(leg, "refund_lock_value"@),
                    "requester refund height exceeds u32"@,
                ) is Ok
            };
            &&& (read is Ok <==> case_1 || case_2)
            &&& read is Ok && case_1 ==> {
                &&& given == 0
            }
            &&& read is Ok && case_2 ==> {
                &&& given == narrow_reading(
                    required_amount(leg, "refund_lock_value"@),
                    "requester refund height exceeds u32"@,
                )->Ok_0
            }
        }),
{
}

fn exit_lock_time(leg: &JsonObject, path: &str) -> (lock_time: Result<u32, String>)
    ensures
        told(lock_time) == lock_time_reading(leg@, path@),
{
    if same_text(path, "claim") {
        Ok(0)
    } else if same_text(path, "refund") {
        narrow_amount(leg, "refund_lock_value", "requester refund height exceeds u32")
    } else {
        Err("requester exit path is unsupported".to_owned())
    }
}

/// The script and the control block that a leg is left by.
pub open spec fn exit_scripts_reading(
    verifier: Map<Seq<char>, JsonView>,
    path: Seq<char>,
) -> Result<(Seq<char>, Seq<char>), Seq<char>> {
    match path_names(path) {
        None => Err("requester exit path is unsupported"@),
        Some(names) => match required_reading(verifier, names.0) {
            Err(message) => Err(message),
            Ok(script) => match required_reading(verifier, names.1) {
                Err(message) => Err(message),
                Ok(control) => Ok((script, control)),
            },
        },
    }
}

/// The script and the control block that a leg is left by: it can be had exactly where every part
/// that it rests on can, and each part of it is the one that its name says.
pub proof fn law_exit_scripts_is_read_from_its_parts(
    verifier: Map<Seq<char>, JsonView>,
    path: Seq<char>,
)
    ensures
        ({
            let read = exit_scripts_reading(verifier, path);
            let names = path_names(path)->0;
            let given = read->Ok_0;
            &&& read is Ok <==> {
                &&& path_names(path) is Some
                &&& required_reading(verifier, names.0) is Ok
                &&& required_reading(verifier, names.1) is Ok
            }
            &&& read is Ok ==> {
                &&& given.0 == required_reading(verifier, names.0)->Ok_0
                &&& given.1 == required_reading(verifier, names.1)->Ok_0
            }
        }),
{
}

/// The script and the control block that a leg is left by.
fn exit_scripts(verifier: &JsonObject, path: &str) -> (outcome: Result<(String, String), String>)
    ensures
        told_pair(outcome) == exit_scripts_reading(verifier@, path@),
{
    let names: (&'static str, &'static str) = match find_path_names(path) {
        Some(names) => names,
        None => {
            return Err("requester exit path is unsupported".to_owned());
        },
    };
    let script: &str = required_string(verifier, names.0)?;
    let control: &str = required_string(verifier, names.1)?;
    Ok((script.to_owned(), control.to_owned()))
}

/// What an exit of the requester is built from, given what the funding parses as.
pub open spec fn exit_plan_reading(
    contract: JsonView,
    leg_id: Seq<char>,
    path: Seq<char>,
    parsed: Result<ParsedTransaction, String>,
) -> Result<ExitPlanView, Seq<char>> {
    match leg_verifier(contract, leg_id) {
        None => Err("funded contract has no "@ + leg_id + " verifier"@),
        Some(verifier) => match members_of(leg_entry(contract, "legs"@, leg_id)) {
            None => Err("funded contract has no "@ + leg_id + " leg"@),
            Some(leg) => match required_reading(verifier, "funding_transaction"@) {
                Err(message) => Err(message),
                Ok(raw) => match hex_reading(raw) {
                    Err(message) => Err(message),
                    Ok(raw_bytes) => match shown_id(
                        parsed,
                        "committed funding transaction is invalid: "@,
                        "could not derive funding transaction ID: "@,
                    ) {
                        Err(message) => Err(message),
                        Ok(id) => match narrow_count(counted(verifier, "output_index"@)) {
                            None => Err("funded verifier has no bounded output index"@),
                            Some(output_index) => match required_amount(verifier, "amount"@) {
                                Err(message) => Err(message),
                                Ok(amount) => match exit_policy(contract) {
                                    None => Err("funded contract has no exit policy"@),
                                    Some(policy) => match required_amount(policy, "maximum_fee"@) {
                                        Err(message) => Err(message),
                                        Ok(maximum_fee) => match after_fee(amount, maximum_fee) {
                                            None => Err(
                                                "requester exit fee consumes the funding output"@,
                                            ),
                                            Some(left) => match lock_time_reading(leg, path) {
                                                Err(message) => Err(message),
                                                Ok(lock_time) => match exit_scripts_reading(
                                                    verifier,
                                                    path,
                                                ) {
                                                    Err(message) => Err(message),
                                                    Ok(scripts) => Ok(
                                                        ExitPlanView {
                                                            funding_transaction: raw,
                                                            funding_transaction_id: id,
                                                            output_index,
                                                            destination_value: left,
                                                            lock_time,
                                                            taproot_script: scripts.0,
                                                            taproot_control_block: scripts.1,
                                                        },
                                                    ),
                                                },
                                            },
                                        },
                                    },
                                },
                            },
                        },
                    },
                },
            },
        },
    }
}

/// What an exit of the requester is built from, given what the funding parses as: it can be had
/// exactly where every part that it rests on can, and each part of it is the one that its name
/// says.
pub proof fn law_exit_plan_is_read_from_its_parts(
    contract: JsonView,
    leg_id: Seq<char>,
    path: Seq<char>,
    parsed: Result<ParsedTransaction, String>,
)
    ensures
        ({
            let read = exit_plan_reading(contract, leg_id, path, parsed);
            let verifier = leg_verifier(contract, leg_id)->0;
            let leg = members_of(leg_entry(contract, "legs"@, leg_id))->0;
            let raw = required_reading(verifier, "funding_transaction"@)->Ok_0;
            let amount = required_amount(verifier, "amount"@)->Ok_0;
            let policy = exit_policy(contract)->0;
            let maximum_fee = required_amount(policy, "maximum_fee"@)->Ok_0;
            let scripts = exit_scripts_reading(verifier, path)->Ok_0;
            let given = read->Ok_0;
            &&& read is Ok <==> {
                &&& leg_verifier(contract, leg_id) is Some
                &&& members_of(leg_entry(contract, "legs"@, leg_id)) is Some
                &&& required_reading(verifier, "funding_transaction"@) is Ok
                &&& hex_reading(raw) is Ok
                &&& shown_id(
                    parsed,
                    "committed funding transaction is invalid: "@,
                    "could not derive funding transaction ID: "@,
                ) is Ok
                &&& narrow_count(counted(verifier, "output_index"@)) is Some
                &&& required_amount(verifier, "amount"@) is Ok
                &&& exit_policy(contract) is Some
                &&& required_amount(policy, "maximum_fee"@) is Ok
                &&& after_fee(amount, maximum_fee) is Some
                &&& lock_time_reading(leg, path) is Ok
                &&& exit_scripts_reading(verifier, path) is Ok
            }
            &&& read is Ok ==> {
                &&& given.funding_transaction == raw
                &&& given.funding_transaction_id == shown_id(
                    parsed,
                    "committed funding transaction is invalid: "@,
                    "could not derive funding transaction ID: "@,
                )->Ok_0
                &&& given.output_index == narrow_count(counted(verifier, "output_index"@))->0
                &&& given.destination_value == after_fee(amount, maximum_fee)->0
                &&& given.lock_time == lock_time_reading(leg, path)->Ok_0
                &&& given.taproot_script == scripts.0
                &&& given.taproot_control_block == scripts.1
            }
        }),
{
}

/// What an exit of the requester is built from, given what the funding parses as.
pub fn plan_requester_exit(
    contract: &Json,
    leg_id: &str,
    path: &str,
    parsed: &Result<ParsedTransaction, String>,
) -> (outcome: Result<ExitPlan, String>)
    ensures
        (match outcome { Ok(value) => Ok(value@), Err(message) => Err(message@) }) == exit_plan_reading(
            contract@,
            leg_id@,
            path@,
            *parsed,
        ),
{
    let verifier: &JsonObject = verifier_for_leg(contract, leg_id)?;
    let leg: &JsonObject = match leg_members(contract, leg_id) {
        Some(leg) => leg,
        None => {
            return Err(join3("funded contract has no ", leg_id, " leg"));
        },
    };
    let raw: &str = required_string(verifier, "funding_transaction")?;
    let raw_bytes: Vec<u8> = decode_hex(raw)?;
    let id: String = show_id(
        parsed,
        "committed funding transaction is invalid: ",
        "could not derive funding transaction ID: ",
    )?;
    let output_index: u32 = match narrow_index(verifier.u64_at("output_index")) {
        Some(output_index) => output_index,
        None => {
            return Err("funded verifier has no bounded output index".to_owned());
        },
    };
    let amount: u64 = amount_member(verifier, "amount")?;
    let policy: &JsonObject = match find_policy(contract) {
        Some(policy) => policy,
        None => {
            return Err("funded contract has no exit policy".to_owned());
        },
    };
    let maximum_fee: u64 = amount_member(policy, "maximum_fee")?;
    let left: u64 = match amount_after_fee(amount, maximum_fee) {
        Some(left) => left,
        None => {
            return Err("requester exit fee consumes the funding output".to_owned());
        },
    };
    let lock_time: u32 = exit_lock_time(leg, path)?;
    let scripts: (String, String) = exit_scripts(verifier, path)?;
    Ok(
        ExitPlan {
            funding_transaction: raw.to_owned(),
            funding_transaction_id: id,
            output_index,
            destination_value: left,
            lock_time,
            taproot_script: scripts.0,
            taproot_control_block: scripts.1,
        },
    )
}

/// The bytes whose digest identifies an effect of the requester.
pub open spec fn effect_preimage_reading(
    order_id: Seq<char>,
    role: Seq<char>,
    leg_id: Seq<char>,
) -> Result<
    Seq<u8>,
    Seq<char>,
> {
    match hex_reading(order_id) {
        Err(message) => Err(message),
        Ok(order) => Ok(
            encode_utf8("openagents.mkt-swp.v1"@) + seq![0u8] + order + seq![0u8] + encode_utf8(
                role,
            )
                + seq![0u8] + encode_utf8(leg_id),
        ),
    }
}

/// The bytes whose digest identifies an effect of the requester: it can be had exactly where every
/// part that it rests on can, and each part of it is the one that its name says.
pub proof fn law_effect_preimage_is_read_from_its_parts(
    order_id: Seq<char>,
    role: Seq<char>,
    leg_id: Seq<char>,
)
    ensures
        ({
            let read = effect_preimage_reading(order_id, role, leg_id);
            let given = read->Ok_0;
            &&& read is Ok <==> {
                &&& hex_reading(order_id) is Ok
            }
            &&& read is Ok ==> {
                &&& given == encode_utf8(
                    "openagents.mkt-swp.v1"@,
                ) + seq![0u8] + hex_reading(
                    order_id,
                )->Ok_0 + seq![0u8] + encode_utf8(role) + seq![0u8] + encode_utf8(leg_id)
            }
        }),
{
}

fn append_bytes(bytes: &mut Vec<u8>, more: &[u8])
    ensures
        final(bytes)@ == old(bytes)@ + more@,
{
    let mut i: usize = 0;
    let ghost before = bytes@;
    while i < more.len()
        invariant
            i <= more@.len(),
            bytes@ == before + more@.subrange(0, i as int),
        decreases more@.len() - i,
    {
        bytes.push(more[i]);
        i = i + 1;
        assert(bytes@ =~= before + more@.subrange(0, i as int));
    }
    assert(more@.subrange(0, i as int) =~= more@);
}

/// The bytes whose digest identifies an effect of the requester.
pub fn requester_effect_preimage(order_id: &str, role: &str, leg_id: &str) -> (preimage: Result<
    Vec<u8>,
    String,
>)
    ensures
        told_bytes(preimage) == effect_preimage_reading(order_id@, role@, leg_id@),
{
    let order: Vec<u8> = decode_hex(order_id)?;
    let mut preimage: Vec<u8> = Vec::new();
    append_bytes(&mut preimage, "openagents.mkt-swp.v1".as_bytes());
    preimage.push(0);
    append_bytes(&mut preimage, order.as_slice());
    preimage.push(0);
    append_bytes(&mut preimage, role.as_bytes());
    preimage.push(0);
    append_bytes(&mut preimage, leg_id.as_bytes());
    assert(preimage@ =~= encode_utf8("openagents.mkt-swp.v1"@) + seq![0u8] + order@ + seq![0u8]
        + encode_utf8(role@) + seq![0u8] + encode_utf8(leg_id@));
    Ok(preimage)
}

/// Effects of one order that have the same bytes have the same role and the same leg, as long as no
/// role holds a zero byte.
pub proof fn law_effects_of_an_order_differ(
    order_id: Seq<char>,
    first_role: Seq<char>,
    first_leg: Seq<char>,
    second_role: Seq<char>,
    second_leg: Seq<char>,
)
    requires
        effect_preimage_reading(order_id, first_role, first_leg) is Ok,
        effect_preimage_reading(order_id, first_role, first_leg) == effect_preimage_reading(
            order_id,
            second_role,
            second_leg,
        ),
        !encode_utf8(first_role).contains(0u8),
        !encode_utf8(second_role).contains(0u8),
    ensures
        first_role == second_role,
        first_leg == second_leg,
{
    let order = hex_reading(order_id)->Ok_0;
    let head = encode_utf8("openagents.mkt-swp.v1"@) + seq![0u8] + order + seq![0u8];
    let (a, b) = (encode_utf8(first_role), encode_utf8(second_role));
    let (p, q) = (encode_utf8(first_leg), encode_utf8(second_leg));
    let left = head + a + seq![0u8] + p;
    let right = head + b + seq![0u8] + q;
    assert(left == right);
    let n = head.len() as int;
    if a.len() < b.len() {
        assert(left[n + a.len()] == 0u8);
        assert(right[n + a.len()] == b[a.len() as int]);
        assert(b.contains(b[a.len() as int]));
    } else if b.len() < a.len() {
        assert(right[n + b.len()] == 0u8);
        assert(left[n + b.len()] == a[b.len() as int]);
        assert(a.contains(a[b.len() as int]));
    }
    assert forall|i: int| 0 <= i < a.len() implies a[i] == b[i] by {
        assert(left[n + i] == right[n + i]);
    }
    assert(a =~= b);
    assert(left.len() == right.len());
    assert forall|i: int| 0 <= i < p.len() implies p[i] == q[i] by {
        assert(left[n + a.len() + 1 + i] == p[i]);
        assert(right[n + a.len() + 1 + i] == q[i]);
    }
    assert(p =~= q);
    encode_utf8_decode_utf8(first_role);
    encode_utf8_decode_utf8(second_role);
    encode_utf8_decode_utf8(first_leg);
    encode_utf8_decode_utf8(second_leg);
}

/// The digests that an exit of the requester names.
pub struct ExitDigests {
    /// Of the unsigned exit.
    pub template_sha256: String,
    /// Of the confirmation policy of the leg.
    pub confirmation_policy_sha256: String,
    /// Of the verifier inputs of the leg.
    pub verifier_sha256: String,
    /// Of the effect.
    pub effect_id: String,
}

/// So many times a text of two characters.
pub open spec fn repeated(text: Seq<char>, count: nat) -> Seq<char>
    decreases count,
{
    if count == 0 {
        Seq::empty()
    } else {
        repeated(text, (count - 1) as nat) + text
    }
}

fn repeat_text(text: &str, count: u64) -> (whole: String)
    ensures
        whole@ == repeated(text@, count as nat),
{
    let mut whole: String = "".to_owned();
    let mut i: u64 = 0;
    proof {
        reveal_strlit("");
        assert(whole@ =~= Seq::<char>::empty());
    }
    while i < count
        invariant
            i <= count,
            whole@ == repeated(text@, i as nat),
        decreases count - i,
    {
        whole.append(text);
        i = i + 1;
    }
    whole
}

fn one_text(text: &str) -> (document: Json)
    ensures
        document@ == texts_doc(seq![text@]),
{
    let texts: Vec<&str> = vec![text];
    assert(name_views(texts@) =~= seq![text@]);
    Json::texts(&texts)
}

fn two_texts(first: &str, second: &str) -> (document: Json)
    ensures
        document@ == texts_doc(seq![first@, second@]),
{
    let texts: Vec<&str> = vec![first, second];
    assert(name_views(texts@) =~= seq![first@, second@]);
    Json::texts(&texts)
}

fn unbound_ids() -> (document: Json)
    ensures
        document@ == texts_doc(seq![repeated("01"@, 32), repeated("02"@, 32)]),
{
    let first: String = repeat_text("01", 32);
    let second: String = repeat_text("02", 32);
    two_texts(first.as_str(), second.as_str())
}

/// The funding that an exit spends.
pub open spec fn funding_doc(
    plan: ExitPlanView,
    sha256: Seq<char>,
    amount: Seq<char>,
    script_pubkey: Seq<char>,
    policy_sha256: Seq<char>,
) -> JsonView {
    JsonView::Object(
        no_members().insert("transaction_id"@, text_doc(plan.funding_transaction_id)).insert(
            "transaction_template_sha256"@,
            text_doc(sha256),
        ).insert("transaction_template"@, text_doc(plan.funding_transaction)).insert(
            "output_index"@,
            number_doc(plan.output_index as u64),
        ).insert("amount"@, text_doc(amount)).insert(
            "script_pubkey"@,
            text_doc(script_pubkey),
        ).insert("confirmation_policy_sha256"@, text_doc(policy_sha256)),
    )
}

/// The funding that an exit spends: what stands under each of its names.
pub proof fn law_funding_says_each_part_by_its_name(
    plan: ExitPlanView,
    sha256: Seq<char>,
    amount: Seq<char>,
    script_pubkey: Seq<char>,
    policy_sha256: Seq<char>,
)
    ensures
        ({
            let document = funding_doc(plan, sha256, amount, script_pubkey, policy_sha256);
            &&& member_text(document, "transaction_id"@) == Some(plan.funding_transaction_id)
            &&& member_text(document, "transaction_template_sha256"@) == Some(sha256)
            &&& member_text(document, "transaction_template"@) == Some(plan.funding_transaction)
            &&& member(document, "output_index"@) == Some(number_doc(plan.output_index as u64))
            &&& member_text(document, "amount"@) == Some(amount)
            &&& member_text(document, "script_pubkey"@) == Some(script_pubkey)
            &&& member_text(document, "confirmation_policy_sha256"@) == Some(policy_sha256)
        }),
{
    reveal_strlit("transaction_id");
    reveal_strlit("transaction_template_sha256");
    reveal_strlit("transaction_template");
    reveal_strlit("output_index");
    reveal_strlit("amount");
    reveal_strlit("script_pubkey");
    reveal_strlit("confirmation_policy_sha256");
    assert("transaction_id"@.len() == 14);
    assert("transaction_template_sha256"@.len() == 27);
    assert("transaction_template"@.len() == 20);
    assert("output_index"@.len() == 12);
    assert("amount"@.len() == 6);
    assert("script_pubkey"@.len() == 13);
    assert("confirmation_policy_sha256"@.len() == 26);
}

fn funding_document(
    plan: &ExitPlan,
    sha256: &str,
    amount: &str,
    script_pubkey: &str,
    policy_sha256: &str,
) -> (
    document: Json)
    ensures
        document@ == funding_doc(plan@, sha256@, amount@, script_pubkey@, policy_sha256@),
{
    Json::object(
        JsonObject::new().with(
            "transaction_id",
            Json::text(plan.funding_transaction_id.as_str()),
        ).with("transaction_template_sha256", Json::text(sha256)).with(
            "transaction_template",
            Json::text(plan.funding_transaction.as_str()),
        ).with("output_index", Json::number(plan.output_index as u64)).with(
            "amount",
            Json::text(amount),
        ).with("script_pubkey", Json::text(script_pubkey)).with(
            "confirmation_policy_sha256",
            Json::text(policy_sha256),
        ),
    )
}

/// What an exit may cost.
pub open spec fn fee_policy_doc(
    target_blocks: JsonView,
    maximum_fee: Seq<char>,
    bump_mode: Seq<char>,
) -> JsonView {
    JsonView::Object(
        no_members().insert("target_blocks"@, target_blocks).insert(
            "maximum_fee"@,
            text_doc(maximum_fee),
        ).insert("bump_mode"@, text_doc(bump_mode)),
    )
}

/// What an exit may cost: what stands under each of its names.
pub proof fn law_fee_policy_says_each_part_by_its_name(
    target_blocks: JsonView,
    maximum_fee: Seq<char>,
    bump_mode: Seq<char>,
)
    ensures
        ({
            let document = fee_policy_doc(target_blocks, maximum_fee, bump_mode);
            &&& member(document, "target_blocks"@) == Some(target_blocks)
            &&& member_text(document, "maximum_fee"@) == Some(maximum_fee)
            &&& member_text(document, "bump_mode"@) == Some(bump_mode)
        }),
{
    reveal_strlit("target_blocks");
    reveal_strlit("maximum_fee");
    reveal_strlit("bump_mode");
    assert("target_blocks"@.len() == 13);
    assert("maximum_fee"@.len() == 11);
    assert("bump_mode"@.len() == 9);
}

fn fee_policy(target_blocks: Json, maximum_fee: &str, bump_mode: &str) -> (document: Json)
    ensures
        document@ == fee_policy_doc(target_blocks@, maximum_fee@, bump_mode@),
{
    Json::object(
        JsonObject::new().with("target_blocks", target_blocks).with(
            "maximum_fee",
            Json::text(maximum_fee),
        ).with("bump_mode", Json::text(bump_mode)),
    )
}

/// How a lock is left.
pub open spec fn exit_doc(
    plan: ExitPlanView,
    leg_id: Seq<char>,
    path: Seq<char>,
    destination: Seq<u8>,
    template_sha256: Seq<char>,
    earliest: Seq<char>,
    latest: Seq<char>,
    fee_policy: JsonView,
) -> JsonView {
    JsonView::Object(
        no_members().insert("mode"@, text_doc("wallet_sign"@)).insert(
            "path"@,
            text_doc(path),
        ).insert("transaction_template_sha256"@, text_doc(template_sha256)).insert(
            "signed_transaction"@,
            JsonView::Null,
        ).insert("signer_ref"@, text_doc("funded-smoke-wallet:"@ + leg_id + ":"@ + path)).insert(
            "transaction_version"@,
            number_doc(2),
        ).insert("lock_time"@, number_doc(plan.lock_time as u64)).insert(
            "input_sequence"@,
            number_doc(0xffff_fffe),
        ).insert("sighash_type"@, text_doc("DEFAULT"@)).insert(
            "destination_script_pubkey"@,
            text_doc(hex_text(destination)),
        ).insert("earliest_broadcast_height"@, text_doc(earliest)).insert(
            "latest_safe_broadcast_height"@,
            text_doc(latest),
        ).insert("fee_policy"@, fee_policy),
    )
}

/// How a lock is left: what stands under each of its names.
pub proof fn law_exit_says_each_part_by_its_name(
    plan: ExitPlanView,
    leg_id: Seq<char>,
    path: Seq<char>,
    destination: Seq<u8>,
    template_sha256: Seq<char>,
    earliest: Seq<char>,
    latest: Seq<char>,
    fee_policy: JsonView,
)
    ensures
        ({
            let document = exit_doc(
                plan,
                leg_id,
                path,
                destination,
                template_sha256,
                earliest,
                latest,
                fee_policy,
            );
            &&& member_text(document, "mode"@) == Some("wallet_sign"@)
            &&& member_text(document, "path"@) == Some(path)
            &&& member_text(document, "transaction_template_sha256"@) == Some(template_sha256)
            &&& member(document, "signed_transaction"@) == Some(JsonView::Null)
            &&& member_text(document, "signer_ref"@) == Some(
                "funded-smoke-wallet:"@ + leg_id + ":"@ + path,
            )
            &&& member(document, "transaction_version"@) == Some(number_doc(2))
            &&& member(document, "lock_time"@) == Some(number_doc(plan.lock_time as u64))
            &&& member(document, "input_sequence"@) == Some(number_doc(0xffff_fffe))
            &&& member_text(document, "sighash_type"@) == Some("DEFAULT"@)
            &&& member_text(document, "destination_script_pubkey"@) == Some(hex_text(destination))
            &&& member_text(document, "earliest_broadcast_height"@) == Some(earliest)
            &&& member_text(document, "latest_safe_broadcast_height"@) == Some(latest)
            &&& member(document, "fee_policy"@) == Some(fee_policy)
        }),
{
    reveal_strlit("mode");
    reveal_strlit("path");
    reveal_strlit("transaction_template_sha256");
    reveal_strlit("signed_transaction");
    reveal_strlit("signer_ref");
    reveal_strlit("transaction_version");
    reveal_strlit("lock_time");
    reveal_strlit("input_sequence");
    reveal_strlit("sighash_type");
    reveal_strlit("destination_script_pubkey");
    reveal_strlit("earliest_broadcast_height");
    reveal_strlit("latest_safe_broadcast_height");
    reveal_strlit("fee_policy");
    assert("mode"@.len() == 4);
    assert("path"@.len() == 4);
    assert("transaction_template_sha256"@.len() == 27);
    assert("signed_transaction"@.len() == 18);
    assert("signer_ref"@.len() == 10);
    assert("transaction_version"@.len() == 19);
    assert("lock_time"@.len() == 9);
    assert("input_sequence"@.len() == 14);
    assert("sighash_type"@.len() == 12);
    assert("destination_script_pubkey"@.len() == 25);
    assert("earliest_broadcast_height"@.len() == 25);
    assert("latest_safe_broadcast_height"@.len() == 28);
    assert("fee_policy"@.len() == 10);
    assert("mode"@[0] == 'm');
    assert("path"@[0] == 'p');
    assert("signer_ref"@[0] == 's');
    assert("fee_policy"@[0] == 'f');
    assert("destination_script_pubkey"@[0] == 'd');
    assert("earliest_broadcast_height"@[0] == 'e');
}

fn exit_document(
    plan: &ExitPlan,
    leg_id: &str,
    path: &str,
    destination: &Vec<u8>,
    template_sha256: &str,
    earliest: &str,
    latest: &str,
    fee_policy: Json,
) -> (document: Json)
    ensures
        document@ == exit_doc(
            plan@,
            leg_id@,
            path@,
            destination@,
            template_sha256@,
            earliest@,
            latest@,
            fee_policy@,
        ),
{
    let mut signer: String = join3("funded-smoke-wallet:", leg_id, ":");
    signer.append(path);
    Json::object(
        JsonObject::new().with_text("mode", "wallet_sign").with("path", Json::text(path)).with(
            "transaction_template_sha256",
            Json::text(template_sha256),
        ).with("signed_transaction", Json::null()).with(
            "signer_ref",
            Json::text(signer.as_str()),
        ).with_number("transaction_version", 2).with(
            "lock_time",
            Json::number(plan.lock_time as u64),
        ).with_number("input_sequence", 0xffff_fffe).with_text("sighash_type", "DEFAULT").with(
            "destination_script_pubkey",
            Json::text(lower_hex(destination.as_slice()).as_str()),
        ).with("earliest_broadcast_height", Json::text(earliest)).with(
            "latest_safe_broadcast_height",
            Json::text(latest),
        ).with("fee_policy", fee_policy),
    )
}

/// What an exit is verified by.
pub open spec fn verification_doc(
    plan: ExitPlanView,
    swap_tree: Seq<char>,
    quote_id: Seq<char>,
    verifier_sha256: Seq<char>,
    taproot_tree: JsonView,
) -> JsonView {
    JsonView::Object(
        no_members().insert("swap_tree_sha256"@, text_doc(swap_tree)).insert(
            "quote_id"@,
            text_doc(quote_id),
        ).insert("verifier_digest"@, text_doc(verifier_sha256)).insert(
            "taproot_script"@,
            text_doc(plan.taproot_script),
        ).insert("taproot_control_block"@, text_doc(plan.taproot_control_block)).insert(
            "taproot_tree"@,
            taproot_tree,
        ),
    )
}

/// What an exit is verified by: what stands under each of its names.
pub proof fn law_verification_says_each_part_by_its_name(
    plan: ExitPlanView,
    swap_tree: Seq<char>,
    quote_id: Seq<char>,
    verifier_sha256: Seq<char>,
    taproot_tree: JsonView,
)
    ensures
        ({
            let document = verification_doc(
                plan,
                swap_tree,
                quote_id,
                verifier_sha256,
                taproot_tree,
            );
            &&& member_text(document, "swap_tree_sha256"@) == Some(swap_tree)
            &&& member_text(document, "quote_id"@) == Some(quote_id)
            &&& member_text(document, "verifier_digest"@) == Some(verifier_sha256)
            &&& member_text(document, "taproot_script"@) == Some(plan.taproot_script)
            &&& member_text(document, "taproot_control_block"@) == Some(plan.taproot_control_block)
            &&& member(document, "taproot_tree"@) == Some(taproot_tree)
        }),
{
    reveal_strlit("swap_tree_sha256");
    reveal_strlit("quote_id");
    reveal_strlit("verifier_digest");
    reveal_strlit("taproot_script");
    reveal_strlit("taproot_control_block");
    reveal_strlit("taproot_tree");
    assert("swap_tree_sha256"@.len() == 16);
    assert("quote_id"@.len() == 8);
    assert("verifier_digest"@.len() == 15);
    assert("taproot_script"@.len() == 14);
    assert("taproot_control_block"@.len() == 21);
    assert("taproot_tree"@.len() == 12);
}

fn verification_document(
    plan: &ExitPlan,
    swap_tree: &str,
    quote_id: &str,
    verifier_sha256: &str,
    taproot_tree: Json,
) -> (document: Json)
    ensures
        document@ == verification_doc(
            plan@,
            swap_tree@,
            quote_id@,
            verifier_sha256@,
            taproot_tree@,
        ),
{
    Json::object(
        JsonObject::new().with("swap_tree_sha256", Json::text(swap_tree)).with(
            "quote_id",
            Json::text(quote_id),
        ).with("verifier_digest", Json::text(verifier_sha256)).with(
            "taproot_script",
            Json::text(plan.taproot_script.as_str()),
        ).with("taproot_control_block", Json::text(plan.taproot_control_block.as_str())).with(
            "taproot_tree",
            taproot_tree,
        ),
    )
}

/// Where an exit is broadcast.
pub open spec fn broadcast_doc(url: Seq<char>) -> JsonView {
    JsonView::Object(
        no_members().insert("esplora_urls"@, texts_doc(seq![url])).insert(
            "minimum_agreeing_sources"@,
            number_doc(1),
        ),
    )
}

/// Where an exit is broadcast: what stands under each of its names.
pub proof fn law_broadcast_says_each_part_by_its_name(url: Seq<char>)
    ensures
        ({
            let document = broadcast_doc(url);
            &&& member(document, "esplora_urls"@) == Some(texts_doc(seq![url]))
            &&& member(document, "minimum_agreeing_sources"@) == Some(number_doc(1))
        }),
{
    reveal_strlit("esplora_urls");
    reveal_strlit("minimum_agreeing_sources");
    assert("esplora_urls"@.len() == 12);
    assert("minimum_agreeing_sources"@.len() == 24);
}

fn broadcast_document(url: &str) -> (document: Json)
    ensures
        document@ == broadcast_doc(url@),
{
    Json::object(
        JsonObject::new().with("esplora_urls", one_text(url)).with_number(
            "minimum_agreeing_sources",
            1,
        ),
    )
}

/// The confirmation policy of a leg.
pub open spec fn confirmation_policy_reading(
    contract: JsonView,
    leg_id: Seq<char>,
) -> Result<JsonView, Seq<char>> {
    match members_of(leg_entry(contract, "legs"@, leg_id)) {
        None => Err("funded contract has no "@ + leg_id + " leg"@),
        Some(leg) => match member(JsonView::Object(leg), "confirmation_policy"@) {
            None => Err("funded Bitcoin leg has no confirmation policy"@),
            Some(policy) => Ok(policy),
        },
    }
}

/// The confirmation policy of a leg: it can be had exactly where every part that it rests on can,
/// and each part of it is the one that its name says.
pub proof fn law_confirmation_policy_is_read_from_its_parts(contract: JsonView, leg_id: Seq<char>)
    ensures
        ({
            let read = confirmation_policy_reading(contract, leg_id);
            let leg = members_of(leg_entry(contract, "legs"@, leg_id))->0;
            let given = read->Ok_0;
            &&& read is Ok <==> {
                &&& members_of(leg_entry(contract, "legs"@, leg_id)) is Some
                &&& member(JsonView::Object(leg), "confirmation_policy"@) is Some
            }
            &&& read is Ok ==> {
                &&& given == member(JsonView::Object(leg), "confirmation_policy"@)->0
            }
        }),
{
}

/// The confirmation policy of a leg.
pub fn confirmation_policy(contract: &Json, leg_id: &str) -> (outcome: Result<Json, String>)
    ensures
        told_json(outcome) == confirmation_policy_reading(contract@, leg_id@),
{
    let leg: &JsonObject = match leg_members(contract, leg_id) {
        Some(leg) => leg,
        None => {
            return Err(join3("funded contract has no ", leg_id, " leg"));
        },
    };
    let policy: Json = match leg.get("confirmation_policy") {
        Some(policy) => policy.copy(),
        None => {
            return Err("funded Bitcoin leg has no confirmation policy".to_owned());
        },
    };
    Ok(policy)
}

/// The funding that an exit spends, by the verifier inputs of its leg.
pub open spec fn exit_funding_reading(
    verifier: Map<Seq<char>, JsonView>,
    plan: ExitPlanView,
    policy_sha256: Seq<char>,
) -> Result<JsonView, Seq<char>> {
    match required_reading(verifier, "funding_transaction_sha256"@) {
        Err(message) => Err(message),
        Ok(funding_sha256) => match required_reading(verifier, "amount"@) {
            Err(message) => Err(message),
            Ok(amount) => match required_reading(verifier, "script_pubkey"@) {
                Err(message) => Err(message),
                Ok(script_pubkey) => Ok(
                    funding_doc(plan, funding_sha256, amount, script_pubkey, policy_sha256),
                ),
            },
        },
    }
}

/// The funding that an exit spends, by the verifier inputs of its leg: it can be had exactly where
/// every part that it rests on can, and each part of it is the one that its name says.
pub proof fn law_exit_funding_is_read_from_its_parts(
    verifier: Map<Seq<char>, JsonView>,
    plan: ExitPlanView,
    policy_sha256: Seq<char>,
)
    ensures
        ({
            let read = exit_funding_reading(verifier, plan, policy_sha256);
            let given = read->Ok_0;
            &&& read is Ok <==> {
                &&& required_reading(verifier, "funding_transaction_sha256"@) is Ok
                &&& required_reading(verifier, "amount"@) is Ok
                &&& required_reading(verifier, "script_pubkey"@) is Ok
            }
            &&& read is Ok ==> {
                &&& given == funding_doc(
                    plan,
                    required_reading(verifier, "funding_transaction_sha256"@)->Ok_0,
                    required_reading(verifier, "amount"@)->Ok_0,
                    required_reading(verifier, "script_pubkey"@)->Ok_0,
                    policy_sha256,
                )
            }
        }),
{
}

/// The funding that an exit spends, by the verifier inputs of its leg.
fn exit_funding(
    verifier: &JsonObject,
    plan: &ExitPlan,
    policy_sha256: &str,
) -> (outcome: Result<Json, String>)
    ensures
        told_json(outcome) == exit_funding_reading(verifier@, plan@, policy_sha256@),
{
    let funding_sha256: &str = required_string(verifier, "funding_transaction_sha256")?;
    let amount: &str = required_string(verifier, "amount")?;
    let script_pubkey: &str = required_string(verifier, "script_pubkey")?;
    Ok(funding_document(plan, funding_sha256, amount, script_pubkey, policy_sha256))
}

/// How a lock is left, by the exit policy of its contract.
pub open spec fn exit_terms_reading(
    policy: Map<Seq<char>, JsonView>,
    plan: ExitPlanView,
    leg_id: Seq<char>,
    path: Seq<char>,
    destination: Seq<u8>,
    template_sha256: Seq<char>,
) -> Result<JsonView, Seq<char>> {
    match required_reading(policy, "earliest_broadcast_height"@) {
        Err(message) => Err(message),
        Ok(earliest) => match required_reading(policy, "latest_safe_broadcast_height"@) {
            Err(message) => Err(message),
            Ok(latest) => match member(JsonView::Object(policy), "target_blocks"@) {
                None => Err("exit policy has no target blocks"@),
                Some(target_blocks) => match required_reading(policy, "maximum_fee"@) {
                    Err(message) => Err(message),
                    Ok(maximum_fee) => match required_reading(policy, "bump_mode"@) {
                        Err(message) => Err(message),
                        Ok(bump_mode) => Ok(
                            exit_doc(
                                plan,
                                leg_id,
                                path,
                                destination,
                                template_sha256,
                                earliest,
                                latest,
                                fee_policy_doc(target_blocks, maximum_fee, bump_mode),
                            ),
                        ),
                    },
                },
            },
        },
    }
}

/// How a lock is left, by the exit policy of its contract: it can be had exactly where every part
/// that it rests on can, and each part of it is the one that its name says.
pub proof fn law_exit_terms_is_read_from_its_parts(
    policy: Map<Seq<char>, JsonView>,
    plan: ExitPlanView,
    leg_id: Seq<char>,
    path: Seq<char>,
    destination: Seq<u8>,
    template_sha256: Seq<char>,
)
    ensures
        ({
            let read = exit_terms_reading(policy, plan, leg_id, path, destination, template_sha256);
            let given = read->Ok_0;
            &&& read is Ok <==> {
                &&& required_reading(policy, "earliest_broadcast_height"@) is Ok
                &&& required_reading(policy, "latest_safe_broadcast_height"@) is Ok
                &&& member(JsonView::Object(policy), "target_blocks"@) is Some
                &&& required_reading(policy, "maximum_fee"@) is Ok
                &&& required_reading(policy, "bump_mode"@) is Ok
            }
            &&& read is Ok ==> {
                &&& given == exit_doc(
                    plan,
                    leg_id,
                    path,
                    destination,
                    template_sha256,
                    required_reading(policy, "earliest_broadcast_height"@)->Ok_0,
                    required_reading(policy, "latest_safe_broadcast_height"@)->Ok_0,
                    fee_policy_doc(
                        member(JsonView::Object(policy), "target_blocks"@)->0,
                        required_reading(policy, "maximum_fee"@)->Ok_0,
                        required_reading(policy, "bump_mode"@)->Ok_0,
                    ),
                )
            }
        }),
{
}

/// How a lock is left, by the exit policy of its contract.
fn exit_terms(
    policy: &JsonObject,
    plan: &ExitPlan,
    leg_id: &str,
    path: &str,
    destination: &Vec<u8>,
    template_sha256: &str,
) -> (outcome: Result<Json, String>)
    ensures
        told_json(outcome) == exit_terms_reading(
            policy@,
            plan@,
            leg_id@,
            path@,
            destination@,
            template_sha256@,
        ),
{
    let earliest: &str = required_string(policy, "earliest_broadcast_height")?;
    let latest: &str = required_string(policy, "latest_safe_broadcast_height")?;
    let target_blocks: Json = match policy.get("target_blocks") {
        Some(target_blocks) => target_blocks.copy(),
        None => {
            return Err("exit policy has no target blocks".to_owned());
        },
    };
    let maximum_fee: &str = required_string(policy, "maximum_fee")?;
    let bump_mode: &str = required_string(policy, "bump_mode")?;
    Ok(
        exit_document(
            plan,
            leg_id,
            path,
            destination,
            template_sha256,
            earliest,
            latest,
            fee_policy(target_blocks, maximum_fee, bump_mode),
        ),
    )
}

/// What an exit is verified by, by the verifier inputs of its leg.
pub open spec fn exit_verification_reading(
    verifier: Map<Seq<char>, JsonView>,
    plan: ExitPlanView,
    quote_id: Seq<char>,
    verifier_sha256: Seq<char>,
) -> Result<JsonView, Seq<char>> {
    match required_reading(verifier, "swap_tree_sha256"@) {
        Err(message) => Err(message),
        Ok(swap_tree) => match member(JsonView::Object(verifier), "taproot_tree"@) {
            None => Err("funded verifier has no Taproot tree"@),
            Some(taproot_tree) => Ok(
                verification_doc(plan, swap_tree, quote_id, verifier_sha256, taproot_tree),
            ),
        },
    }
}

/// What an exit is verified by, by the verifier inputs of its leg: it can be had exactly where
/// every part that it rests on can, and each part of it is the one that its name says.
pub proof fn law_exit_verification_is_read_from_its_parts(
    verifier: Map<Seq<char>, JsonView>,
    plan: ExitPlanView,
    quote_id: Seq<char>,
    verifier_sha256: Seq<char>,
)
    ensures
        ({
            let read = exit_verification_reading(verifier, plan, quote_id, verifier_sha256);
            let given = read->Ok_0;
            &&& read is Ok <==> {
                &&& required_reading(verifier, "swap_tree_sha256"@) is Ok
                &&& member(JsonView::Object(verifier), "taproot_tree"@) is Some
            }
            &&& read is Ok ==> {
                &&& given == verification_doc(
                    plan,
                    required_reading(verifier, "swap_tree_sha256"@)->Ok_0,
                    quote_id,
                    verifier_sha256,
                    member(JsonView::Object(verifier), "taproot_tree"@)->0,
                )
            }
        }),
{
}

/// What an exit is verified by, by the verifier inputs of its leg.
fn exit_verification(
    verifier: &JsonObject,
    plan: &ExitPlan,
    quote_id: &str,
    verifier_sha256: &str,
) -> (outcome: Result<Json, String>)
    ensures
        told_json(outcome) == exit_verification_reading(
            verifier@,
            plan@,
            quote_id@,
            verifier_sha256@,
        ),
{
    let swap_tree: &str = required_string(verifier, "swap_tree_sha256")?;
    let taproot_tree: Json = match verifier.get("taproot_tree") {
        Some(taproot_tree) => taproot_tree.copy(),
        None => {
            return Err("funded verifier has no Taproot tree".to_owned());
        },
    };
    Ok(verification_document(plan, swap_tree, quote_id, verifier_sha256, taproot_tree))
}

/// An exit of the requester that is not bound to signed contracts yet, by its plan.
pub open spec fn planned_exit_reading(
    contract: JsonView,
    profile_id: Seq<char>,
    profile_version: JsonView,
    order_id: Seq<char>,
    quote_id: Seq<char>,
    leg_id: Seq<char>,
    path: Seq<char>,
    destination: Seq<u8>,
    plan: ExitPlanView,
    digests: ExitDigests,
) -> Result<JsonView, Seq<char>> {
    match leg_verifier(contract, leg_id) {
        None => Err("funded contract has no "@ + leg_id + " verifier"@),
        Some(verifier) => match members_of(leg_entry(contract, "legs"@, leg_id)) {
            None => Err("funded contract has no "@ + leg_id + " leg"@),
            Some(leg) => match exit_policy(contract) {
                None => Err("funded contract has no exit policy"@),
                Some(policy) => match member(JsonView::Object(leg), "network_id"@) {
                    None => Err("Bitcoin leg has no network ID"@),
                    Some(network_id) => match member(JsonView::Object(leg), "asset_id"@) {
                        None => Err("Bitcoin leg has no asset ID"@),
                        Some(asset_id) => match exit_funding_reading(
                            verifier,
                            plan,
                            digests.confirmation_policy_sha256@,
                        ) {
                            Err(message) => Err(message),
                            Ok(funding) => match exit_terms_reading(
                                policy,
                                plan,
                                leg_id,
                                path,
                                destination,
                                digests.template_sha256@,
                            ) {
                                Err(message) => Err(message),
                                Ok(exit) => match exit_verification_reading(
                                    verifier,
                                    plan,
                                    quote_id,
                                    digests.verifier_sha256@,
                                ) {
                                    Err(message) => Err(message),
                                    Ok(verification) => match member(contract, "payment_hash"@) {
                                        None => Err("funded contract has no payment hash"@),
                                        Some(payment_hash) => Ok(
                                            JsonView::Object(
                                                no_members().insert(
                                                    "schema"@,
                                                    text_doc("openagents.mkt-swp.exit.v1"@),
                                                ).insert("profile"@, text_doc(profile_id)).insert(
                                                    "profile_version"@,
                                                    profile_version,
                                                ).insert("order_id"@, text_doc(order_id)).insert(
                                                    "swap_contract_ids"@,
                                                    texts_doc(
                                                        seq![
                                                            repeated("01"@, 32),
                                                            repeated("02"@, 32),
                                                        ],
                                                    ),
                                                ).insert(
                                                    "contract_sha256"@,
                                                    text_doc(repeated("03"@, 32)),
                                                ).insert(
                                                    "participant_role"@,
                                                    text_doc("requester"@),
                                                ).insert("leg_id"@, text_doc(leg_id)).insert(
                                                    "network_id"@,
                                                    network_id,
                                                ).insert("asset_id"@, asset_id).insert(
                                                    "effect_id"@,
                                                    text_doc(digests.effect_id@),
                                                ).insert("funding"@, funding).insert(
                                                    "exit"@,
                                                    exit,
                                                ).insert("verification"@, verification).insert(
                                                    "secret_commitments"@,
                                                    JsonView::Object(
                                                        no_members().insert(
                                                            "payment_hash"@,
                                                            payment_hash,
                                                        ).insert(
                                                            "preimage_recovery_ref"@,
                                                            JsonView::Null,
                                                        ),
                                                    ),
                                                ).insert(
                                                    "broadcast"@,
                                                    broadcast_doc("https://localhost.invalid/api"@),
                                                ),
                                            ),
                                        ),
                                    },
                                },
                            },
                        },
                    },
                },
            },
        },
    }
}

/// An exit of the requester that is not bound to signed contracts yet, by its plan: it can be had
/// exactly where every part that it rests on can, and each part of it is the one that its name
/// says.
pub proof fn law_planned_exit_is_read_from_its_parts(
    contract: JsonView,
    profile_id: Seq<char>,
    profile_version: JsonView,
    order_id: Seq<char>,
    quote_id: Seq<char>,
    leg_id: Seq<char>,
    path: Seq<char>,
    destination: Seq<u8>,
    plan: ExitPlanView,
    digests: ExitDigests,
)
    ensures
        ({
            let read = planned_exit_reading(
                contract,
                profile_id,
                profile_version,
                order_id,
                quote_id,
                leg_id,
                path,
                destination,
                plan,
                digests,
            );
            let verifier = leg_verifier(contract, leg_id)->0;
            let leg = members_of(leg_entry(contract, "legs"@, leg_id))->0;
            let policy = exit_policy(contract)->0;
            let given = read->Ok_0;
            &&& read is Ok <==> {
                &&& leg_verifier(contract, leg_id) is Some
                &&& members_of(leg_entry(contract, "legs"@, leg_id)) is Some
                &&& exit_policy(contract) is Some
                &&& member(JsonView::Object(leg), "network_id"@) is Some
                &&& member(JsonView::Object(leg), "asset_id"@) is Some
                &&& exit_funding_reading(verifier, plan, digests.confirmation_policy_sha256@) is Ok
                &&& exit_terms_reading(
                    policy,
                    plan,
                    leg_id,
                    path,
                    destination,
                    digests.template_sha256@,
                ) is Ok
                &&& exit_verification_reading(verifier, plan, quote_id, digests.verifier_sha256@) is Ok
                &&& member(contract, "payment_hash"@) is Some
            }
            &&& read is Ok ==> {
                &&& given == JsonView::Object(
                    no_members()
                        .insert("schema"@, text_doc("openagents.mkt-swp.exit.v1"@))
                        .insert("profile"@, text_doc(profile_id))
                        .insert("profile_version"@, profile_version)
                        .insert("order_id"@, text_doc(order_id))
                        .insert(
                            "swap_contract_ids"@,
                            texts_doc(seq![repeated("01"@, 32), repeated("02"@, 32)]),
                        )
                        .insert("contract_sha256"@, text_doc(repeated("03"@, 32)))
                        .insert("participant_role"@, text_doc("requester"@))
                        .insert("leg_id"@, text_doc(leg_id))
                        .insert("network_id"@, member(JsonView::Object(leg), "network_id"@)->0)
                        .insert("asset_id"@, member(JsonView::Object(leg), "asset_id"@)->0)
                        .insert("effect_id"@, text_doc(digests.effect_id@))
                        .insert(
                            "funding"@,
                            exit_funding_reading(
                                verifier,
                                plan,
                                digests.confirmation_policy_sha256@,
                            )->Ok_0,
                        )
                        .insert(
                            "exit"@,
                            exit_terms_reading(
                                policy,
                                plan,
                                leg_id,
                                path,
                                destination,
                                digests.template_sha256@,
                            )->Ok_0,
                        )
                        .insert(
                            "verification"@,
                            exit_verification_reading(
                                verifier,
                                plan,
                                quote_id,
                                digests.verifier_sha256@,
                            )->Ok_0,
                        )
                        .insert(
                            "secret_commitments"@,
                            JsonView::Object(
                                no_members()
                                    .insert("payment_hash"@, member(contract, "payment_hash"@)->0)
                                    .insert("preimage_recovery_ref"@, JsonView::Null),
                            ),
                        )
                        .insert("broadcast"@, broadcast_doc("https://localhost.invalid/api"@)),
                )
            }
        }),
{
}

/// An exit of the requester that is not bound to signed contracts yet, by its plan.
#[verifier::rlimit(40)]
fn planned_exit_document(
    contract: &Json,
    profile_id: &str,
    profile_version: &Json,
    order_id: &str,
    quote_id: &str,
    leg_id: &str,
    path: &str,
    destination_script_pubkey: &Vec<u8>,
    plan: &ExitPlan,
    digests: &ExitDigests,
) -> (outcome: Result<Json, String>)
    ensures
        told_json(outcome) == planned_exit_reading(
            contract@,
            profile_id@,
            profile_version@,
            order_id@,
            quote_id@,
            leg_id@,
            path@,
            destination_script_pubkey@,
            plan@,
            *digests,
        ),
{
    let verifier: &JsonObject = verifier_for_leg(contract, leg_id)?;
    let leg: &JsonObject = match leg_members(contract, leg_id) {
        Some(leg) => leg,
        None => {
            return Err(join3("funded contract has no ", leg_id, " leg"));
        },
    };
    let policy: &JsonObject = match find_policy(contract) {
        Some(policy) => policy,
        None => {
            return Err("funded contract has no exit policy".to_owned());
        },
    };
    let network_id: Json = match leg.get("network_id") {
        Some(network_id) => network_id.copy(),
        None => {
            return Err("Bitcoin leg has no network ID".to_owned());
        },
    };
    let asset_id: Json = match leg.get("asset_id") {
        Some(asset_id) => asset_id.copy(),
        None => {
            return Err("Bitcoin leg has no asset ID".to_owned());
        },
    };
    let funding: Json = exit_funding(verifier, plan, digests.confirmation_policy_sha256.as_str())?;
    let exit: Json = exit_terms(
        policy,
        plan,
        leg_id,
        path,
        destination_script_pubkey,
        digests.template_sha256.as_str(),
    )?;
    let verification: Json = exit_verification(
        verifier,
        plan,
        quote_id,
        digests.verifier_sha256.as_str(),
    )?;
    let payment_hash: Json = match contract.get("payment_hash") {
        Some(payment_hash) => payment_hash.copy(),
        None => {
            return Err("funded contract has no payment hash".to_owned());
        },
    };
    Ok(
        Json::object(
            JsonObject::new().with_text("schema", "openagents.mkt-swp.exit.v1").with(
                "profile",
                Json::text(profile_id),
            ).with("profile_version", profile_version.copy()).with(
                "order_id",
                Json::text(order_id),
            ).with("swap_contract_ids", unbound_ids()).with(
                "contract_sha256",
                Json::text(repeat_text("03", 32).as_str()),
            ).with_text("participant_role", "requester").with("leg_id", Json::text(leg_id)).with(
                "network_id",
                network_id,
            ).with("asset_id", asset_id).with(
                "effect_id",
                Json::text(digests.effect_id.as_str()),
            ).with("funding", funding).with("exit", exit).with("verification", verification).with(
                "secret_commitments",
                Json::object(
                    JsonObject::new().with("payment_hash", payment_hash).with(
                        "preimage_recovery_ref",
                        Json::null(),
                    ),
                ),
            ).with("broadcast", broadcast_document("https://localhost.invalid/api")),
        ),
    )
}

/// An exit of the requester that is not bound to signed contracts yet: the one that its contract
/// plans for the leg and the path. `parsed` is what the funding of the leg parses as.
pub open spec fn exit_document_reading(
    contract: JsonView,
    profile_id: Seq<char>,
    profile_version: JsonView,
    order_id: Seq<char>,
    quote_id: Seq<char>,
    leg_id: Seq<char>,
    path: Seq<char>,
    destination: Seq<u8>,
    parsed: Result<ParsedTransaction, String>,
    digests: ExitDigests,
) -> Result<JsonView, Seq<char>> {
    match exit_plan_reading(contract, leg_id, path, parsed) {
        Err(message) => Err(message),
        Ok(plan) => match confirmation_policy_reading(contract, leg_id) {
            Err(message) => Err(message),
            Ok(_) => match effect_preimage_reading(order_id, "chain_"@ + path, leg_id) {
                Err(message) => Err(message),
                Ok(_) => planned_exit_reading(
                    contract,
                    profile_id,
                    profile_version,
                    order_id,
                    quote_id,
                    leg_id,
                    path,
                    destination,
                    plan,
                    digests,
                ),
            },
        },
    }
}

/// An exit of the requester that is not bound to signed contracts yet: it can be had exactly where
/// every part that it rests on can, and each part of it is the one that its name says.
pub proof fn law_exit_document_is_read_from_its_parts(
    contract: JsonView,
    profile_id: Seq<char>,
    profile_version: JsonView,
    order_id: Seq<char>,
    quote_id: Seq<char>,
    leg_id: Seq<char>,
    path: Seq<char>,
    destination: Seq<u8>,
    parsed: Result<ParsedTransaction, String>,
    digests: ExitDigests,
)
    ensures
        ({
            let read = exit_document_reading(
                contract,
                profile_id,
                profile_version,
                order_id,
                quote_id,
                leg_id,
                path,
                destination,
                parsed,
                digests,
            );
            let plan = exit_plan_reading(contract, leg_id, path, parsed)->Ok_0;
            let given = read->Ok_0;
            &&& read is Ok <==> {
                &&& exit_plan_reading(contract, leg_id, path, parsed) is Ok
                &&& confirmation_policy_reading(contract, leg_id) is Ok
                &&& effect_preimage_reading(order_id, "chain_"@ + path, leg_id) is Ok
                &&& planned_exit_reading(
                    contract,
                    profile_id,
                    profile_version,
                    order_id,
                    quote_id,
                    leg_id,
                    path,
                    destination,
                    plan,
                    digests,
                ) is Ok
            }
            &&& read is Ok ==> {
                &&& given == planned_exit_reading(
                    contract,
                    profile_id,
                    profile_version,
                    order_id,
                    quote_id,
                    leg_id,
                    path,
                    destination,
                    plan,
                    digests,
                )->Ok_0
            }
        }),
{
}

/// An exit of the requester that is not bound to signed contracts yet: the one that its contract
/// plans for the leg and the path. `parsed` is what the funding of the leg parses as, and `digests`
/// are those of the bytes that the plan, the contract and the order give.
pub fn requester_exit_document(
    contract: &Json,
    profile_id: &str,
    profile_version: &Json,
    order_id: &str,
    quote_id: &str,
    leg_id: &str,
    path: &str,
    destination_script_pubkey: &Vec<u8>,
    parsed: &Result<ParsedTransaction, String>,
    digests: &ExitDigests,
) -> (outcome: Result<Json, String>)
    ensures
        told_json(outcome) == exit_document_reading(
            contract@,
            profile_id@,
            profile_version@,
            order_id@,
            quote_id@,
            leg_id@,
            path@,
            destination_script_pubkey@,
            *parsed,
            *digests,
        ),
{
    let plan: ExitPlan = plan_requester_exit(contract, leg_id, path, parsed)?;
    let policy: Json = confirmation_policy(contract, leg_id)?;
    let preimage: Vec<u8> = requester_effect_preimage(
        order_id,
        join("chain_", path).as_str(),
        leg_id,
    )?;
    planned_exit_document(
        contract,
        profile_id,
        profile_version,
        order_id,
        quote_id,
        leg_id,
        path,
        destination_script_pubkey,
        &plan,
        digests,
    )
}

/// An exit that was written spends the output that its contract names, and waits for the height
/// that the contract gives for its path.
pub proof fn law_exit_is_planned_by_its_contract(
    contract: JsonView,
    profile_id: Seq<char>,
    profile_version: JsonView,
    order_id: Seq<char>,
    quote_id: Seq<char>,
    leg_id: Seq<char>,
    path: Seq<char>,
    destination: Seq<u8>,
    parsed: Result<ParsedTransaction, String>,
    digests: ExitDigests,
)
    requires
        exit_document_reading(
            contract,
            profile_id,
            profile_version,
            order_id,
            quote_id,
            leg_id,
            path,
            destination,
            parsed,
            digests,
        ) is Ok,
    ensures
        ({
            let document = exit_document_reading(
                contract,
                profile_id,
                profile_version,
                order_id,
                quote_id,
                leg_id,
                path,
                destination,
                parsed,
                digests,
            )->Ok_0;
            let verifier = leg_verifier(contract, leg_id)->0;
            let leg = members_of(leg_entry(contract, "legs"@, leg_id))->0;
            &&& member(document, "funding"@) is Some
            &&& member(document, "exit"@) is Some
            &&& u64_of(member(member(document, "funding"@)->0, "output_index"@)) == counted(
                verifier,
                "output_index"@,
            )
            &&& lock_time_reading(leg, path) is Ok
            &&& u64_of(member(member(document, "exit"@)->0, "lock_time"@)) == Some(
                lock_time_reading(leg, path)->Ok_0 as u64,
            )
        }),
{
    reveal_strlit("funding");
    reveal_strlit("exit");
    reveal_strlit("verification");
    reveal_strlit("secret_commitments");
    reveal_strlit("broadcast");
    reveal_strlit("output_index");
    reveal_strlit("lock_time");
    reveal_strlit("amount");
    reveal_strlit("script_pubkey");
    reveal_strlit("confirmation_policy_sha256");
    reveal_strlit("input_sequence");
    reveal_strlit("sighash_type");
    reveal_strlit("destination_script_pubkey");
    reveal_strlit("earliest_broadcast_height");
    reveal_strlit("latest_safe_broadcast_height");
    reveal_strlit("fee_policy");
    assert("funding"@.len() == 7 && "exit"@.len() == 4 && "verification"@.len() == 12);
    assert("secret_commitments"@.len() == 18 && "broadcast"@.len() == 9);
    assert("output_index"@.len() == 12 && "lock_time"@.len() == 9 && "amount"@.len() == 6);
    assert("script_pubkey"@.len() == 13 && "confirmation_policy_sha256"@.len() == 26);
    assert("input_sequence"@.len() == 14 && "sighash_type"@.len() == 12);
    assert("sighash_type"@[0] == 's' && "lock_time"@[0] == 'l');
    assert("destination_script_pubkey"@.len() == 25 && "fee_policy"@.len() == 10);
    assert("earliest_broadcast_height"@.len() == 25);
    assert("latest_safe_broadcast_height"@.len() == 28);
}

/// An exit package that was signed beforehand.
pub open spec fn presigned_reading(document: JsonView, signed: Seq<char>, url: Seq<char>) -> Result<
    JsonView,
    Seq<char>,
> {
    match members_of(member(document, "exit"@)) {
        None => Err("doomsday exit package has no mutable exit"@),
        Some(exit) => Ok(
            JsonView::Object(
                members_of(Some(document))->0.insert(
                    "exit"@,
                    JsonView::Object(
                        exit.insert("mode"@, text_doc("presigned"@)).insert(
                            "signed_transaction"@,
                            text_doc(signed),
                        ).insert("signer_ref"@, JsonView::Null),
                    ),
                ).insert("broadcast"@, broadcast_doc(url)),
            ),
        ),
    }
}

/// An exit package that was signed beforehand: it can be had exactly where every part that it rests
/// on can, and each part of it is the one that its name says.
pub proof fn law_presigned_is_read_from_its_parts(
    document: JsonView,
    signed: Seq<char>,
    url: Seq<char>,
)
    ensures
        ({
            let read = presigned_reading(document, signed, url);
            let given = read->Ok_0;
            &&& read is Ok <==> {
                &&& members_of(member(document, "exit"@)) is Some
            }
            &&& read is Ok ==> {
                &&& given == JsonView::Object(
                    members_of(Some(document))->0
                        .insert(
                            "exit"@,
                            JsonView::Object(
                                members_of(member(document, "exit"@))->0
                                    .insert("mode"@, text_doc("presigned"@))
                                    .insert("signed_transaction"@, text_doc(signed))
                                    .insert("signer_ref"@, JsonView::Null),
                            ),
                        )
                        .insert("broadcast"@, broadcast_doc(url)),
                )
            }
        }),
{
}

/// Turns an exit package into one that was signed beforehand, to be broadcast at one endpoint.
pub fn presign_exit(
    document: &Json,
    signed_transaction: &str,
    esplora_url: &str,
) -> (presigned: Result<
    Json,
    String,
>)
    ensures
        told_json(presigned) == presigned_reading(document@, signed_transaction@, esplora_url@),
{
    let refusal: &str = "doomsday exit package has no mutable exit";
    let members: &JsonObject = match document.as_object() {
        Some(members) => members,
        None => {
            return Err(refusal.to_owned());
        },
    };
    let exit: &JsonObject = match document.get("exit") {
        Some(value) => match value.as_object() {
            Some(exit) => exit,
            None => {
                return Err(refusal.to_owned());
            },
        },
        None => {
            return Err(refusal.to_owned());
        },
    };
    let signed: Json = Json::object(
        exit.copy().with_text("mode", "presigned").with_text(
            "signed_transaction",
            signed_transaction,
        ).with("signer_ref", Json::null()),
    );
    Ok(
        Json::object(
            members.copy().with("exit", signed).with("broadcast", broadcast_document(esplora_url)),
        ),
    )
}

/// An exit package that is bound to two signed contracts.
pub open spec fn bound_exit_doc(
    members: Map<Seq<char>, JsonView>,
    first_id: Seq<char>,
    second_id: Seq<char>,
    contract_sha256: Seq<char>,
) -> JsonView {
    JsonView::Object(
        members.insert("swap_contract_ids"@, texts_doc(seq![first_id, second_id])).insert(
            "contract_sha256"@,
            text_doc(contract_sha256),
        ),
    )
}

/// Binds an exit package to two signed contracts.
pub fn finalize_exit_package(
    seed: &JsonObject,
    requester_contract_id: &str,
    provider_contract_id: &str,
    contract_sha256: &str,
) -> (document: Json)
    ensures
        document@ == bound_exit_doc(
            seed@,
            requester_contract_id@,
            provider_contract_id@,
            contract_sha256@,
        ),
{
    Json::object(
        seed.copy().with(
            "swap_contract_ids",
            two_texts(requester_contract_id, provider_contract_id),
        ).with_text("contract_sha256", contract_sha256),
    )
}

/// Binding an exit package changes nothing of it but the contracts that it names.
pub proof fn law_binding_keeps_the_exit(
    members: Map<Seq<char>, JsonView>,
    first_id: Seq<char>,
    second_id: Seq<char>,
    contract_sha256: Seq<char>,
    name: Seq<char>,
)
    requires
        name != "swap_contract_ids"@,
        name != "contract_sha256"@,
    ensures
        member(bound_exit_doc(members, first_id, second_id, contract_sha256), name) == member(
            JsonView::Object(members),
            name,
        ),
{
}

/// Whether a binding is of this role and leg.
pub open spec fn is_binding(binding: JsonView, role: Seq<char>, leg_id: Seq<char>) -> bool {
    member_text(binding, "role"@) == Some(role) && member_text(binding, "leg_id"@) == Some(leg_id)
}

/// A binding of an effect.
pub open spec fn binding_doc(role: Seq<char>, leg_id: Seq<char>) -> JsonView {
    JsonView::Object(
        no_members().insert("role"@, text_doc(role)).insert("leg_id"@, text_doc(leg_id)),
    )
}

/// A binding of an effect: what stands under each of its names.
pub proof fn law_binding_says_each_part_by_its_name(role: Seq<char>, leg_id: Seq<char>)
    ensures
        ({
            let document = binding_doc(role, leg_id);
            &&& member_text(document, "role"@) == Some(role)
            &&& member_text(document, "leg_id"@) == Some(leg_id)
        }),
{
    reveal_strlit("role");
    reveal_strlit("leg_id");
    assert("role"@.len() == 4);
    assert("leg_id"@.len() == 6);
}

/// Whether an effect is bound.
pub open spec fn is_bound(bindings: Seq<JsonView>, role: Seq<char>, leg_id: Seq<char>) -> bool {
    exists|i: int| 0 <= i < bindings.len() && is_binding(#[trigger] bindings[i], role, leg_id)
}

/// Bindings with one more, unless it is there.
pub open spec fn with_binding(
    bindings: Seq<JsonView>,
    role: Seq<char>,
    leg_id: Seq<char>,
) -> Seq<JsonView> {
    if is_bound(bindings, role, leg_id) {
        bindings
    } else {
        bindings.push(binding_doc(role, leg_id))
    }
}

/// Binds an effect, unless it is bound.
pub fn upsert_effect_binding(bindings: &mut Vec<Json>, role: &str, leg_id: &str)
    ensures
        items_view(final(bindings)@) == with_binding(items_view(old(bindings)@), role@, leg_id@),
{
    let mut i: usize = 0;
    proof {
        lemma_items_view(bindings@);
    }
    while i < bindings.len()
        invariant
            i <= bindings@.len(),
            bindings@ == old(bindings)@,
            items_view(bindings@).len() == bindings@.len(),
            forall|j: int|
                0 <= j < bindings@.len() ==> #[trigger] items_view(bindings@)[j] == bindings@[j]@,
            forall|j: int|
                0 <= j < i ==> !is_binding(#[trigger] items_view(bindings@)[j], role@, leg_id@),
        decreases bindings@.len() - i,
    {
        assert(items_view(bindings@)[i as int] == bindings@[i as int]@);
        if bindings[i].says("role", role) && bindings[i].says("leg_id", leg_id) {
            return;
        }
        i = i + 1;
    }
    bindings.push(
        Json::object(JsonObject::new().with_text("role", role).with_text("leg_id", leg_id)),
    );
    proof {
        lemma_items_view(bindings@);
        assert(items_view(bindings@) =~= items_view(old(bindings)@).push(
            binding_doc(role@, leg_id@),
        ));
    }
}

/// After an effect was bound it is bound, everything that was bound still is, and binding it again
/// changes nothing.
pub proof fn law_binding_is_idempotent(bindings: Seq<JsonView>, role: Seq<char>, leg_id: Seq<char>)
    ensures
        is_bound(with_binding(bindings, role, leg_id), role, leg_id),
        with_binding(with_binding(bindings, role, leg_id), role, leg_id) == with_binding(
            bindings,
            role,
            leg_id,
        ),
        forall|other_role: Seq<char>, other_leg: Seq<char>|
            is_bound(bindings, other_role, other_leg) ==> #[trigger] is_bound(
                with_binding(bindings, role, leg_id),
                other_role,
                other_leg,
            ),
{
    let after = with_binding(bindings, role, leg_id);
    if !is_bound(bindings, role, leg_id) {
        reveal_strlit("role");
        reveal_strlit("leg_id");
        assert("role"@.len() != "leg_id"@.len());
        assert(is_binding(after[bindings.len() as int], role, leg_id));
    }
    assert forall|other_role: Seq<char>, other_leg: Seq<char>|
        is_bound(bindings, other_role, other_leg) implies #[trigger] is_bound(
        after,
        other_role,
        other_leg,
    ) by {
        let i = choose|i: int|
            0 <= i < bindings.len() && is_binding(#[trigger] bindings[i], other_role, other_leg);
        assert(after[i] == bindings[i]);
    }
}

/// Whether a commitment is of this side, leg and path.
pub open spec fn is_commitment(
    commitment: JsonView,
    role: Seq<char>,
    leg_id: Seq<char>,
    path: Seq<char>,
) -> bool {
    &&& member_text(commitment, "participant_role"@) == Some(role)
    &&& member_text(commitment, "leg_id"@) == Some(leg_id)
    &&& member_text(commitment, "path"@) == Some(path)
}

/// A commitment to an exit.
pub open spec fn commitment_doc(
    role: Seq<char>,
    leg_id: Seq<char>,
    path: Seq<char>,
    mode: Seq<char>,
    sha256: Seq<char>,
) -> JsonView {
    JsonView::Object(
        no_members().insert("participant_role"@, text_doc(role)).insert(
            "leg_id"@,
            text_doc(leg_id),
        ).insert("path"@, text_doc(path)).insert("package_mode"@, text_doc(mode)).insert(
            "package_sha256"@,
            text_doc(sha256),
        ),
    )
}

/// A commitment to an exit: what stands under each of its names.
pub proof fn law_commitment_says_each_part_by_its_name(
    role: Seq<char>,
    leg_id: Seq<char>,
    path: Seq<char>,
    mode: Seq<char>,
    sha256: Seq<char>,
)
    ensures
        ({
            let document = commitment_doc(role, leg_id, path, mode, sha256);
            &&& member_text(document, "participant_role"@) == Some(role)
            &&& member_text(document, "leg_id"@) == Some(leg_id)
            &&& member_text(document, "path"@) == Some(path)
            &&& member_text(document, "package_mode"@) == Some(mode)
            &&& member_text(document, "package_sha256"@) == Some(sha256)
        }),
{
    reveal_strlit("participant_role");
    reveal_strlit("leg_id");
    reveal_strlit("path");
    reveal_strlit("package_mode");
    reveal_strlit("package_sha256");
    assert("participant_role"@.len() == 16);
    assert("leg_id"@.len() == 6);
    assert("path"@.len() == 4);
    assert("package_mode"@.len() == 12);
    assert("package_sha256"@.len() == 14);
}

/// The commitments to other exits.
pub open spec fn other_commitments(
    commitments: Seq<JsonView>,
    role: Seq<char>,
    leg_id: Seq<char>,
    path: Seq<char>,
) -> Seq<JsonView> {
    commitments.filter(|commitment: JsonView| !is_commitment(commitment, role, leg_id, path))
}

/// Commitments with this one in place of any to the same exit.
pub open spec fn with_commitment(
    commitments: Seq<JsonView>,
    role: Seq<char>,
    leg_id: Seq<char>,
    path: Seq<char>,
    mode: Seq<char>,
    sha256: Seq<char>,
) -> Seq<JsonView> {
    other_commitments(commitments, role, leg_id, path).push(
        commitment_doc(role, leg_id, path, mode, sha256),
    )
}

proof fn lemma_other_step(
    commitments: Seq<JsonView>,
    role: Seq<char>,
    leg_id: Seq<char>,
    path: Seq<char>,
    upto: int,
)
    requires
        0 <= upto < commitments.len(),
    ensures
        other_commitments(commitments.subrange(0, upto + 1), role, leg_id, path) == (
        if is_commitment(commitments[upto], role, leg_id, path) {
            other_commitments(commitments.subrange(0, upto), role, leg_id, path)
        } else {
            other_commitments(commitments.subrange(0, upto), role, leg_id, path).push(
                commitments[upto],
            )
        }),
{
    reveal(Seq::filter);
    let longer = commitments.subrange(0, upto + 1);
    assert(longer.drop_last() =~= commitments.subrange(0, upto));
    assert(longer.last() == commitments[upto]);
}

/// Commits to an exit in place of any commitment to the same one.
pub fn upsert_exit_commitment(
    commitments: &mut Vec<Json>,
    participant_role: &str,
    leg_id: &str,
    path: &str,
    package_mode: &str,
    package_sha256: &str,
)
    ensures
        items_view(final(commitments)@) == with_commitment(
            items_view(old(commitments)@),
            participant_role@,
            leg_id@,
            path@,
            package_mode@,
            package_sha256@,
        ),
{
    let mut kept: Vec<Json> = Vec::new();
    let mut i: usize = 0;
    let ghost shown = items_view(commitments@);
    proof {
        lemma_items_view(commitments@);
        lemma_items_view(kept@);
        reveal(Seq::filter);
        assert(shown.subrange(0, 0) =~= Seq::<JsonView>::empty());
        assert(items_view(kept@) =~= other_commitments(
            shown.subrange(0, 0),
            participant_role@,
            leg_id@,
            path@,
        ));
    }
    while i < commitments.len()
        invariant
            i <= commitments@.len(),
            commitments@ == old(commitments)@,
            shown == items_view(commitments@),
            shown.len() == commitments@.len(),
            forall|j: int| 0 <= j < commitments@.len() ==> #[trigger] shown[j] == commitments@[j]@,
            items_view(kept@) == other_commitments(
                shown.subrange(0, i as int),
                participant_role@,
                leg_id@,
                path@,
            ),
        decreases commitments@.len() - i,
    {
        assert(shown[i as int] == commitments@[i as int]@);
        proof {
            lemma_other_step(shown, participant_role@, leg_id@, path@, i as int);
        }
        let same: bool = commitments[i].says("participant_role", participant_role)
            && commitments[i].says("leg_id", leg_id) && commitments[i].says("path", path);
        if !same {
            let ghost before = kept@;
            kept.push(commitments[i].copy());
            proof {
                lemma_items_view(before);
                lemma_items_view(kept@);
                assert(items_view(kept@) =~= items_view(before).push(shown[i as int]));
            }
        }
        i = i + 1;
    }
    assert(shown.subrange(0, i as int) =~= shown);
    let ghost before = kept@;
    kept.push(
        Json::object(
            JsonObject::new().with_text("participant_role", participant_role).with_text(
                "leg_id",
                leg_id,
            ).with_text("path", path).with_text("package_mode", package_mode).with_text(
                "package_sha256",
                package_sha256,
            ),
        ),
    );
    proof {
        lemma_items_view(before);
        lemma_items_view(kept@);
        assert(items_view(kept@) =~= items_view(before).push(
            commitment_doc(participant_role@, leg_id@, path@, package_mode@, package_sha256@),
        ));
    }
    *commitments = kept;
}

/// After an exit was committed to, the last commitment is to it and no earlier one is.
pub proof fn law_exit_is_committed_once(
    commitments: Seq<JsonView>,
    role: Seq<char>,
    leg_id: Seq<char>,
    path: Seq<char>,
    mode: Seq<char>,
    sha256: Seq<char>,
)
    ensures
        with_commitment(commitments, role, leg_id, path, mode, sha256).last() == commitment_doc(
            role,
            leg_id,
            path,
            mode,
            sha256,
        ),
        forall|i: int|
            0 <= i < with_commitment(commitments, role, leg_id, path, mode, sha256).len() - 1
                ==> !is_commitment(
                #[trigger] with_commitment(commitments, role, leg_id, path, mode, sha256)[i],
                role,
                leg_id,
                path,
            ),
{
    lemma_others_differ(commitments, role, leg_id, path);
}

proof fn lemma_others_differ(
    commitments: Seq<JsonView>,
    role: Seq<char>,
    leg_id: Seq<char>,
    path: Seq<char>,
)
    ensures
        forall|i: int|
            0 <= i < other_commitments(commitments, role, leg_id, path).len() ==> !is_commitment(
                #[trigger] other_commitments(commitments, role, leg_id, path)[i],
                role,
                leg_id,
                path,
            ),
    decreases commitments.len(),
{
    reveal(Seq::filter);
    if commitments.len() > 0 {
        lemma_others_differ(commitments.drop_last(), role, leg_id, path);
    }
}

/// How a swap is left and paid by the requester: the leg and the path of its exit, the role and the
/// leg of its funding.
pub open spec fn exit_shape(swap_type: Seq<char>) -> Option<
    (Seq<char>, Seq<char>, Seq<char>, Seq<char>),
> {
    if swap_type == "submarine"@ {
        Some(("source"@, "refund"@, "chain_fund"@, "source"@))
    } else if swap_type == "reverse"@ {
        Some(("destination"@, "claim"@, "invoice_pay"@, "lightning"@))
    } else {
        None
    }
}

/// How a swap is left and paid by the requester.
pub fn requester_exit_shape(swap_type: &str) -> (shape: Option<
    (&'static str, &'static str, &'static str, &'static str),
>)
    ensures
        (match shape {
            Some((leg_id, path, role, funding_leg)) => Some((leg_id@, path@, role@, funding_leg@)),
            None => None,
        }) == exit_shape(swap_type@),
{
    if same_text(swap_type, "submarine") {
        Some(("source", "refund", "chain_fund", "source"))
    } else if same_text(swap_type, "reverse") {
        Some(("destination", "claim", "invoice_pay", "lightning"))
    } else {
        None
    }
}

/// Whether a contract is settled by a joint signature.
pub open spec fn is_cooperative(contract: JsonView, swap_type: Seq<char>) -> bool {
    swap_type == "submarine"@ && bool_of(member(contract, "musig2_execution"@)) == Some(true)
}

/// Whether a contract is settled by a joint signature.
pub fn settles_jointly(contract: &Json, swap_type: &str) -> (jointly: bool)
    ensures
        jointly == is_cooperative(contract@, swap_type@),
{
    match contract.bool_at("musig2_execution") {
        Some(joint) => joint && same_text(swap_type, "submarine"),
        None => false,
    }
}

/// The items of a list of a contract.
pub open spec fn list_of(contract: JsonView, name: Seq<char>) -> Option<Seq<JsonView>> {
    items_of(member(contract, name))
}

/// A contract with another list in place of one.
pub open spec fn with_list(contract: JsonView, name: Seq<char>, items: Seq<JsonView>) -> JsonView {
    JsonView::Object(members_of(Some(contract))->0.insert(name, JsonView::Array(items)))
}

fn copy_list(contract: &Json, name: &str) -> (items: Option<Vec<Json>>)
    ensures
        (match items {
            Some(items) => Some(items_view(items@)),
            None => None,
        }) == list_of(contract@, name@),
{
    match contract.get(name) {
        Some(value) => match value.as_array() {
            Some(items) => Some(copy_items(items)),
            None => None,
        },
        None => None,
    }
}

fn put_list(members: &JsonObject, name: &str, items: Vec<Json>) -> (contract: Json)
    ensures
        contract@ == JsonView::Object(
            members@.insert(name@, JsonView::Array(items_view(items@))),
        ),
{
    Json::object(members.copy().with(name, Json::array(items)))
}

/// The effects that a swap of the requester binds.
pub open spec fn bound_effects(
    bindings: Seq<JsonView>,
    shape: (Seq<char>, Seq<char>, Seq<char>, Seq<char>),
    cooperative: bool,
) -> Seq<JsonView> {
    let (leg_id, path, role, funding_leg) = shape;
    let plain = with_binding(
        with_binding(bindings, role, funding_leg),
        "chain_"@ + path,
        leg_id,
    );
    if cooperative {
        with_binding(
            with_binding(plain, "cooperative_sign"@, "source"@),
            "chain_claim"@,
            "source"@,
        )
    } else {
        plain
    }
}

/// What a contract reads as with its effects bound.
pub open spec fn effects_reading(contract: JsonView, swap_type: Seq<char>, presign: bool) -> Result<
    JsonView,
    Seq<char>,
> {
    match exit_shape(swap_type) {
        None => Err("funded smoke cannot bind exits for this swap type"@),
        Some(shape) => if presign && swap_type != "submarine"@ {
            Err("only the submarine CLTV refund can be pre-signed"@)
        } else if members_of(Some(contract)) is None {
            Err("funded contract is not an object"@)
        } else {
            match list_of(contract, "effect_bindings"@) {
                None => Err("funded contract has no mutable effect bindings"@),
                Some(bindings) => Ok(
                    with_list(
                        contract,
                        "effect_bindings"@,
                        bound_effects(bindings, shape, is_cooperative(contract, swap_type)),
                    ),
                ),
            }
        },
    }
}

/// What a contract reads as with its effects bound: it can be had exactly where every part that it
/// rests on can, and each part of it is the one that its name says.
pub proof fn law_effects_is_read_from_its_parts(
    contract: JsonView,
    swap_type: Seq<char>,
    presign: bool,
)
    ensures
        ({
            let read = effects_reading(contract, swap_type, presign);
            let given = read->Ok_0;
            &&& read is Ok <==> {
                &&& exit_shape(swap_type) is Some
                &&& !(presign && swap_type != "submarine"@)
                &&& members_of(Some(contract)) is Some
                &&& list_of(contract, "effect_bindings"@) is Some
            }
            &&& read is Ok ==> {
                &&& given == with_list(
                    contract,
                    "effect_bindings"@,
                    bound_effects(
                        list_of(contract, "effect_bindings"@)->0,
                        exit_shape(swap_type)->0,
                        is_cooperative(contract, swap_type),
                    ),
                )
            }
        }),
{
}

/// Binds the effects of a swap in its contract.
pub fn bind_effects(
    contract: &Json,
    swap_type: &str,
    presign: bool,
) -> (bound: Result<Json, String>)
    ensures
        told_json(bound) == effects_reading(contract@, swap_type@, presign),
{
    let (leg_id, path, role, funding_leg): (
        &'static str,
        &'static str,
        &'static str,
        &'static str,
    ) = match requester_exit_shape(swap_type) {
        Some(shape) => shape,
        None => {
            return Err("funded smoke cannot bind exits for this swap type".to_owned());
        },
    };
    if presign && !same_text(swap_type, "submarine") {
        return Err("only the submarine CLTV refund can be pre-signed".to_owned());
    }
    let members: &JsonObject = match contract.as_object() {
        Some(members) => members,
        None => {
            return Err("funded contract is not an object".to_owned());
        },
    };
    let mut bindings: Vec<Json> = match copy_list(contract, "effect_bindings") {
        Some(bindings) => bindings,
        None => {
            return Err("funded contract has no mutable effect bindings".to_owned());
        },
    };
    upsert_effect_binding(&mut bindings, role, funding_leg);
    upsert_effect_binding(&mut bindings, join("chain_", path).as_str(), leg_id);
    if settles_jointly(contract, swap_type) {
        upsert_effect_binding(&mut bindings, "cooperative_sign", "source");
        upsert_effect_binding(&mut bindings, "chain_claim", "source");
    }
    Ok(put_list(members, "effect_bindings", bindings))
}

/// What a contract reads as with one more commitment; `missing` is said where it has no list of
/// them.
pub open spec fn commitment_reading(
    contract: JsonView,
    role: Seq<char>,
    leg_id: Seq<char>,
    path: Seq<char>,
    mode: Seq<char>,
    sha256: Seq<char>,
    missing: Seq<char>,
) -> Result<JsonView, Seq<char>> {
    match list_of(contract, "exit_package_commitments"@) {
        None => Err(missing),
        Some(commitments) => Ok(
            with_list(
                contract,
                "exit_package_commitments"@,
                with_commitment(commitments, role, leg_id, path, mode, sha256),
            ),
        ),
    }
}

/// What a contract reads as with one more commitment: it can be had exactly where every part that
/// it rests on can, and each part of it is the one that its name says.
pub proof fn law_commitment_is_read_from_its_parts(
    contract: JsonView,
    role: Seq<char>,
    leg_id: Seq<char>,
    path: Seq<char>,
    mode: Seq<char>,
    sha256: Seq<char>,
    missing: Seq<char>,
)
    ensures
        ({
            let read = commitment_reading(contract, role, leg_id, path, mode, sha256, missing);
            let given = read->Ok_0;
            &&& read is Ok <==> {
                &&& list_of(contract, "exit_package_commitments"@) is Some
            }
            &&& read is Ok ==> {
                &&& given == with_list(
                    contract,
                    "exit_package_commitments"@,
                    with_commitment(
                        list_of(contract, "exit_package_commitments"@)->0,
                        role,
                        leg_id,
                        path,
                        mode,
                        sha256,
                    ),
                )
            }
        }),
{
}

/// Commits a contract to an exit.
pub fn bind_exit_commitment(
    contract: &Json,
    participant_role: &str,
    leg_id: &str,
    path: &str,
    package_mode: &str,
    package_sha256: &str,
    missing: &str,
) -> (bound: Result<Json, String>)
    ensures
        told_json(bound) == commitment_reading(
            contract@,
            participant_role@,
            leg_id@,
            path@,
            package_mode@,
            package_sha256@,
            missing@,
        ),
{
    let members: &JsonObject = match contract.as_object() {
        Some(members) => members,
        None => {
            return Err(missing.to_owned());
        },
    };
    let mut commitments: Vec<Json> = match copy_list(contract, "exit_package_commitments") {
        Some(commitments) => commitments,
        None => {
            return Err(missing.to_owned());
        },
    };
    upsert_exit_commitment(
        &mut commitments,
        participant_role,
        leg_id,
        path,
        package_mode,
        package_sha256,
    );
    Ok(put_list(members, "exit_package_commitments", commitments))
}

/// How the exit of a Liquid leg is committed to, by how it is signed.
pub open spec fn liquid_mode(presigned: bool) -> Seq<char> {
    if presigned {
        "presigned"@
    } else {
        "wallet_sign"@
    }
}

/// Commits a contract to the exit of a Liquid leg.
pub fn bind_liquid_exit_commitment(
    contract: &Json,
    leg_id: &str,
    path: &str,
    presigned: bool,
    package_sha256: &str,
) -> (bound: Result<Json, String>)
    ensures
        told_json(bound) == commitment_reading(
            contract@,
            "requester"@,
            leg_id@,
            path@,
            liquid_mode(presigned),
            package_sha256@,
            "chain contract has no mutable exit commitments"@,
        ),
{
    bind_exit_commitment(
        contract,
        "requester",
        leg_id,
        path,
        if presigned {
            "presigned"
        } else {
            "wallet_sign"
        },
        package_sha256,
        "chain contract has no mutable exit commitments",
    )
}

/// Commits a contract to the requester's exit, and to the provider's where the swap is settled
/// jointly.
pub fn bind_requester_exit_packages(
    contract: &Json,
    swap_type: &str,
    requester_mode: &str,
    requester_sha256: &str,
    provider_sha256: Option<&str>,
) -> (bound: Result<Json, String>)
    ensures
        told_json(bound) == exits_reading(
            contract@,
            swap_type@,
            requester_mode@,
            requester_sha256@,
            maybe_str(provider_sha256),
        ),
{
    let (leg_id, path, _, _): (&'static str, &'static str, &'static str, &'static str) =
        match requester_exit_shape(swap_type) {
        Some(shape) => shape,
        None => {
            return Err("funded smoke cannot bind exits for this swap type".to_owned());
        },
    };
    if contract.as_object().is_none() {
        return Err("funded contract is not an object".to_owned());
    }
    let missing: &str = "funded contract has no mutable exit commitments";
    let bound: Json = bind_exit_commitment(
        contract,
        "requester",
        leg_id,
        path,
        requester_mode,
        requester_sha256,
        missing,
    )?;
    match provider_sha256 {
        None => Ok(bound),
        Some(sha256) => bind_exit_commitment(
            &bound,
            "provider",
            "source",
            "claim",
            "external_signer",
            sha256,
            missing,
        ),
    }
}

/// What a contract reads as with its exits committed to.
pub open spec fn exits_reading(
    contract: JsonView,
    swap_type: Seq<char>,
    requester_mode: Seq<char>,
    requester_sha256: Seq<char>,
    provider_sha256: Option<Seq<char>>,
) -> Result<JsonView, Seq<char>> {
    match exit_shape(swap_type) {
        None => Err("funded smoke cannot bind exits for this swap type"@),
        Some((leg_id, path, _, _)) => if members_of(Some(contract)) is None {
            Err("funded contract is not an object"@)
        } else {
            match commitment_reading(
                contract,
                "requester"@,
                leg_id,
                path,
                requester_mode,
                requester_sha256,
                "funded contract has no mutable exit commitments"@,
            ) {
                Err(message) => Err(message),
                Ok(bound) => match provider_sha256 {
                    None => Ok(bound),
                    Some(sha256) => commitment_reading(
                        bound,
                        "provider"@,
                        "source"@,
                        "claim"@,
                        "external_signer"@,
                        sha256,
                        "funded contract has no mutable exit commitments"@,
                    ),
                },
            }
        },
    }
}

/// What a contract reads as with its exits committed to: it can be had exactly where every part
/// that it rests on can, and each part of it is the one that its name says.
pub proof fn law_exits_is_read_from_its_parts(
    contract: JsonView,
    swap_type: Seq<char>,
    requester_mode: Seq<char>,
    requester_sha256: Seq<char>,
    provider_sha256: Option<Seq<char>>,
)
    ensures
        ({
            let read = exits_reading(
                contract,
                swap_type,
                requester_mode,
                requester_sha256,
                provider_sha256,
            );
            let leg_id = exit_shape(swap_type)->Some_0.0;
            let path = exit_shape(swap_type)->Some_0.1;
            let bound = commitment_reading(
                contract,
                "requester"@,
                leg_id,
                path,
                requester_mode,
                requester_sha256,
                "funded contract has no mutable exit commitments"@,
            )->Ok_0;
            let sha256 = provider_sha256->0;
            let given = read->Ok_0;
            let case_1 = provider_sha256 is None;
            let case_2 = {
                &&& provider_sha256 is Some
                &&& commitment_reading(
                    bound,
                    "provider"@,
                    "source"@,
                    "claim"@,
                    "external_signer"@,
                    sha256,
                    "funded contract has no mutable exit commitments"@,
                ) is Ok
            };
            &&& read is Ok <==> {
                &&& exit_shape(swap_type) is Some
                &&& members_of(Some(contract)) is Some
                &&& commitment_reading(
                    contract,
                    "requester"@,
                    leg_id,
                    path,
                    requester_mode,
                    requester_sha256,
                    "funded contract has no mutable exit commitments"@,
                ) is Ok
                &&& case_1 || case_2
            }
            &&& read is Ok && case_1 ==> {
                &&& given == bound
            }
            &&& read is Ok && case_2 ==> {
                &&& given == commitment_reading(
                    bound,
                    "provider"@,
                    "source"@,
                    "claim"@,
                    "external_signer"@,
                    sha256,
                    "funded contract has no mutable exit commitments"@,
                )->Ok_0
            }
        }),
{
}

/// A list with another entry in one place.
pub open spec fn with_entry(
    contract: JsonView,
    list: Seq<char>,
    place: int,
    members: Map<Seq<char>, JsonView>,
) -> JsonView {
    with_list(
        contract,
        list,
        list_of(contract, list)->0.update(place, JsonView::Object(members)),
    )
}

/// The first place of the entry of a leg in a list; nothing where there is none.
pub open spec fn entry_place(items: Seq<JsonView>, leg_id: Seq<char>) -> Option<int>
    decreases items.len(),
{
    if items.len() == 0 {
        None
    } else if member_text(items[0], "leg_id"@) == Some(leg_id) {
        Some(0)
    } else {
        match entry_place(items.drop_first(), leg_id) {
            Some(place) => Some(place + 1),
            None => None,
        }
    }
}

proof fn lemma_entry_place(items: Seq<JsonView>, leg_id: Seq<char>, place: int)
    requires
        0 <= place <= items.len(),
        forall|j: int|
            0 <= j < place ==> member_text(#[trigger] items[j], "leg_id"@) != Some(leg_id),
        place < items.len() ==> member_text(items[place], "leg_id"@) == Some(leg_id),
    ensures
        entry_place(items, leg_id) == (if place < items.len() {
            Some(place)
        } else {
            None
        }),
    decreases place,
{
    if place > 0 {
        assert(member_text(items[0], "leg_id"@) != Some(leg_id));
        let rest = items.drop_first();
        assert forall|j: int| 0 <= j < place - 1 implies member_text(
            #[trigger] rest[j],
            "leg_id"@,
        ) != Some(leg_id) by {
            assert(member_text(items[j + 1], "leg_id"@) != Some(leg_id));
        }
        lemma_entry_place(rest, leg_id, place - 1);
    }
}

fn find_entry(items: &Vec<Json>, leg_id: &str) -> (found: Option<usize>)
    ensures
        match found {
            Some(place) => place < items@.len() && entry_place(items_view(items@), leg_id@) == Some(
                place as int,
            ),
            None => entry_place(items_view(items@), leg_id@) is None,
        },
{
    proof {
        lemma_items_view(items@);
    }
    let mut i: usize = 0;
    while i < items.len()
        invariant
            i <= items@.len(),
            items_view(items@).len() == items@.len(),
            forall|j: int|
                0 <= j < items@.len() ==> #[trigger] items_view(items@)[j] == items@[j]@,
            forall|j: int|
                0 <= j < i ==> member_text(#[trigger] items_view(items@)[j], "leg_id"@) != Some(
                    leg_id@,
                ),
        decreases items@.len() - i,
    {
        assert(items_view(items@)[i as int] == items@[i as int]@);
        if items[i].says("leg_id", leg_id) {
            proof {
                lemma_entry_place(items_view(items@), leg_id@, i as int);
            }
            return Some(i);
        }
        i = i + 1;
    }
    proof {
        lemma_entry_place(items_view(items@), leg_id@, i as int);
    }
    None
}

/// The entry of the source in a list of a contract: its place and its members.
pub open spec fn source_entry(contract: JsonView, list: Seq<char>) -> Option<
    (int, Map<Seq<char>, JsonView>),
> {
    match list_of(contract, list) {
        None => None,
        Some(items) => match entry_place(items, "source"@) {
            None => None,
            Some(place) => match members_of(Some(items[place])) {
                Some(members) => Some((place, members)),
                None => None,
            },
        },
    }
}

/// The members that bind a lock in the verifier inputs of its leg.
pub open spec fn funded_verifier(
    verifier: Map<Seq<char>, JsonView>,
    raw: Seq<char>,
    sha256: Seq<char>,
) -> Map<Seq<char>, JsonView> {
    verifier.insert("funding_transaction"@, text_doc(raw)).insert(
        "funding_transaction_sha256"@,
        text_doc(sha256),
    ).insert("output_index"@, number_doc(0))
}

/// What a contract reads as with the lock of the requester bound: the contract, and the verifier
/// inputs of the lock.
pub open spec fn funding_binding_reading(
    contract: JsonView,
    raw: Seq<char>,
    sha256: Seq<char>,
) -> Result<
    (JsonView, JsonView),
    Seq<char>,
> {
    match list_of(contract, "verifier_inputs"@) {
        None => Err("submarine contract has no mutable verifier inputs"@),
        Some(_) => match source_entry(contract, "verifier_inputs"@) {
            None => Err("submarine contract has no source verifier"@),
            Some((place, verifier)) => Ok(
                (
                    with_entry(
                        contract,
                        "verifier_inputs"@,
                        place,
                        funded_verifier(verifier, raw, sha256),
                    ),
                    JsonView::Object(funded_verifier(verifier, raw, sha256)),
                ),
            ),
        },
    }
}

/// What a contract reads as with the lock of the requester bound: it can be had exactly where every
/// part that it rests on can, and each part of it is the one that its name says.
pub proof fn law_funding_binding_is_read_from_its_parts(
    contract: JsonView,
    raw: Seq<char>,
    sha256: Seq<char>,
)
    ensures
        ({
            let read = funding_binding_reading(contract, raw, sha256);
            let verifier = source_entry(contract, "verifier_inputs"@)->Some_0.1;
            let given = read->Ok_0;
            &&& read is Ok <==> {
                &&& list_of(contract, "verifier_inputs"@) is Some
                &&& source_entry(contract, "verifier_inputs"@) is Some
            }
            &&& read is Ok ==> {
                &&& given.0 == with_entry(
                    contract,
                    "verifier_inputs"@,
                    source_entry(contract, "verifier_inputs"@)->Some_0.0,
                    funded_verifier(verifier, raw, sha256),
                )
                &&& given.1 == JsonView::Object(funded_verifier(verifier, raw, sha256))
            }
        }),
{
}

fn replace_entry(
    members: &JsonObject,
    list: &str,
    items: Vec<Json>,
    place: usize,
    entry: Json,
) -> (contract:
    Json)
    requires
        place < items@.len(),
    ensures
        contract@ == JsonView::Object(
            members@.insert(
                list@,
                JsonView::Array(items_view(items@).update(place as int, entry@)),
            ),
        ),
{
    let mut items: Vec<Json> = items;
    let ghost before = items@;
    proof {
        lemma_items_view(before);
    }
    items.set(place, entry);
    proof {
        lemma_items_view(items@);
        assert(items_view(items@) =~= items_view(before).update(place as int, entry@));
    }
    put_list(members, list, items)
}

/// Binds the lock of the requester in a contract: the contract, and the verifier inputs of the lock
/// whose digest is bound next.
pub fn bind_requester_funding(
    contract: &Json,
    raw_transaction: &str,
    sha256: &str,
) -> (bound: Result<
    (Json, Json),
    String,
>)
    ensures
        (match bound {
            Ok((contract, verifier)) => Ok((contract@, verifier@)),
            Err(message) => Err(message@),
        }) == funding_binding_reading(contract@, raw_transaction@, sha256@),
{
    let members: &JsonObject = match contract.as_object() {
        Some(members) => members,
        None => {
            return Err("submarine contract has no mutable verifier inputs".to_owned());
        },
    };
    let items: Vec<Json> = match copy_list(contract, "verifier_inputs") {
        Some(items) => items,
        None => {
            return Err("submarine contract has no mutable verifier inputs".to_owned());
        },
    };
    proof {
        lemma_items_view(items@);
    }
    let place: usize = match find_entry(&items, "source") {
        Some(place) => place,
        None => {
            return Err("submarine contract has no source verifier".to_owned());
        },
    };
    assert(items_view(items@)[place as int] == items@[place as int]@);
    let verifier: JsonObject = match items[place].as_object() {
        Some(verifier) => verifier.copy(),
        None => {
            return Err("submarine contract has no source verifier".to_owned());
        },
    };
    let funded: JsonObject = verifier.with_text("funding_transaction", raw_transaction).with_text(
        "funding_transaction_sha256",
        sha256,
    ).with_number("output_index", 0);
    let shown: Json = Json::object(funded.copy());
    Ok((replace_entry(members, "verifier_inputs", items, place, Json::object(funded)), shown))
}

/// What a contract reads as with the digest of the verifier inputs bound.
pub open spec fn digest_binding_reading(contract: JsonView, digest: Seq<char>) -> Result<
    JsonView,
    Seq<char>,
> {
    match list_of(contract, "legs"@) {
        None => Err("submarine contract has no mutable legs"@),
        Some(_) => match source_entry(contract, "legs"@) {
            None => Err("submarine contract has no source leg"@),
            Some((place, leg)) => Ok(
                with_entry(
                    contract,
                    "legs"@,
                    place,
                    leg.insert("verifier_digest"@, text_doc(digest)),
                ),
            ),
        },
    }
}

/// What a contract reads as with the digest of the verifier inputs bound: it can be had exactly
/// where every part that it rests on can, and each part of it is the one that its name says.
pub proof fn law_digest_binding_is_read_from_its_parts(contract: JsonView, digest: Seq<char>)
    ensures
        ({
            let read = digest_binding_reading(contract, digest);
            let given = read->Ok_0;
            &&& read is Ok <==> {
                &&& list_of(contract, "legs"@) is Some
                &&& source_entry(contract, "legs"@) is Some
            }
            &&& read is Ok ==> {
                &&& given == with_entry(
                    contract,
                    "legs"@,
                    source_entry(contract, "legs"@)->Some_0.0,
                    source_entry(contract, "legs"@)->Some_0.1.insert(
                        "verifier_digest"@,
                        text_doc(digest),
                    ),
                )
            }
        }),
{
}

/// Binds the digest of the verifier inputs of a lock in its leg.
pub fn bind_verifier_digest(contract: &Json, verifier_digest: &str) -> (bound: Result<Json, String>)
    ensures
        told_json(bound) == digest_binding_reading(contract@, verifier_digest@),
{
    let members: &JsonObject = match contract.as_object() {
        Some(members) => members,
        None => {
            return Err("submarine contract has no mutable legs".to_owned());
        },
    };
    let items: Vec<Json> = match copy_list(contract, "legs") {
        Some(items) => items,
        None => {
            return Err("submarine contract has no mutable legs".to_owned());
        },
    };
    proof {
        lemma_items_view(items@);
    }
    let place: usize = match find_entry(&items, "source") {
        Some(place) => place,
        None => {
            return Err("submarine contract has no source leg".to_owned());
        },
    };
    assert(items_view(items@)[place as int] == items@[place as int]@);
    let leg: JsonObject = match items[place].as_object() {
        Some(leg) => leg.copy(),
        None => {
            return Err("submarine contract has no source leg".to_owned());
        },
    };
    Ok(
        replace_entry(
            members,
            "legs",
            items,
            place,
            Json::object(leg.with_text("verifier_digest", verifier_digest)),
        ),
    )
}

/// Binding a lock changes nothing of a contract but its verifier inputs, and there only those of
/// the source.
pub proof fn law_funding_changes_only_its_leg(
    contract: JsonView,
    raw: Seq<char>,
    sha256: Seq<char>,
    name: Seq<char>,
    place: int,
)
    requires
        funding_binding_reading(contract, raw, sha256) is Ok,
        name != "verifier_inputs"@,
        Some(place) != entry_place(list_of(contract, "verifier_inputs"@)->0, "source"@),
        0 <= place < list_of(contract, "verifier_inputs"@)->0.len(),
    ensures
        funding_binding_reading(contract, raw, sha256) matches Ok((bound, _)) && member(bound, name)
            == member(contract, name) && list_of(bound, "verifier_inputs"@)->0[place] == list_of(
            contract,
            "verifier_inputs"@,
        )->0[place],
{
    let members = members_of(Some(contract))->0;
    assert(contract == JsonView::Object(members));
    let items = list_of(contract, "verifier_inputs"@)->0;
    lemma_entry_in_list(items, "source"@);
    let at = entry_place(items, "source"@)->0;
    let verifier = funded_verifier(members_of(Some(items[at]))->0, raw, sha256);
    let bound = with_entry(contract, "verifier_inputs"@, at, verifier);
    assert(
        list_of(bound, "verifier_inputs"@) == Some(items.update(at, JsonView::Object(verifier)))
    );
}

proof fn lemma_entry_in_list(items: Seq<JsonView>, leg_id: Seq<char>)
    requires
        entry_place(items, leg_id) is Some,
    ensures
        0 <= entry_place(items, leg_id)->0 < items.len(),
    decreases items.len(),
{
    if member_text(items[0], "leg_id"@) != Some(leg_id) {
        lemma_entry_in_list(items.drop_first(), leg_id);
    }
}

/// A swap is left on its Bitcoin leg: a submarine swap by the refund of the source that the requester
/// funds, a reverse swap by the claim of the destination that the provider funds after the invoice
/// is paid; and the scripts of a path are those that are named after it.
pub proof fn law_swap_is_left_on_its_bitcoin_leg()
    ensures
        exit_shape("submarine"@) == Some(("source"@, "refund"@, "chain_fund"@, "source"@)),
        exit_shape("reverse"@) == Some(("destination"@, "claim"@, "invoice_pay"@, "lightning"@)),
        forall|swap_type: Seq<char>|
            (#[trigger] exit_shape(swap_type)) is Some ==> swap_type == "submarine"@ || swap_type
                == "reverse"@,
        path_names("claim"@) == Some(("claim_script"@, "taproot_claim_control_block"@)),
        path_names("refund"@) == Some(("refund_script"@, "taproot_refund_control_block"@)),
{
    reveal_strlit("submarine");
    reveal_strlit("reverse");
    reveal_strlit("claim");
    reveal_strlit("refund");
    assert("submarine"@.len() == 9);
    assert("reverse"@.len() == 7);
    assert("claim"@.len() == 5);
    assert("refund"@.len() == 6);
}

/// A commitment belongs to one exit: one side, one leg and one path.
pub proof fn law_commitment_is_of_one_exit(
    commitment: JsonView,
    role: Seq<char>,
    leg_id: Seq<char>,
    path: Seq<char>,
    other_role: Seq<char>,
    other_leg: Seq<char>,
    other_path: Seq<char>,
)
    requires
        is_commitment(commitment, role, leg_id, path),
    ensures
        is_commitment(commitment, other_role, other_leg, other_path) <==> {
            &&& other_role == role
            &&& other_leg == leg_id
            &&& other_path == path
        },
{
}

/// A binding belongs to one effect: one role on one leg.
pub proof fn law_binding_is_of_one_effect(
    binding: JsonView,
    role: Seq<char>,
    leg_id: Seq<char>,
    other_role: Seq<char>,
    other_leg: Seq<char>,
)
    requires
        is_binding(binding, role, leg_id),
    ensures
        is_binding(binding, other_role, other_leg) <==> other_role == role && other_leg == leg_id,
{
}

} // verus!
