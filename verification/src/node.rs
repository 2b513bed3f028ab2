//! What the nodes of a rail are asked for and what their answers show.

use vstd::prelude::*;
use crate::amount::{bitcoin_reading, btc_value_to_sat};
use crate::contract::{known_transaction_reading, verify_known_bitcoin_transaction};
use crate::hex::{
    decode_hex, hex_reading, hex_text, is_lower_hex_32, lower_hex, require_lower_hex_32,
};
use crate::json::{
    Json, JsonView, items_of, items_view, lemma_items_view, member, member_text, step, text_of,
    u64_of,
};
use crate::terminal::{ParsedTransaction, show_id, shown_id};
use crate::text::{decimal, decimal_text, is_text, join, join3, same_text, told, told_text};

verus! {

/// The identifier that the bytes of a transaction have.
pub open spec fn raw_id_reading(raw: Seq<char>, parsed: Result<ParsedTransaction, String>) -> Result<
    Seq<char>,
    Seq<char>,
> {
    match hex_reading(raw) {
        Err(message) => Err(message),
        Ok(_) => shown_id(
            parsed,
            "persisted Bitcoin transaction is invalid: "@,
            "could not derive Bitcoin transaction ID: "@,
        ),
    }
}

/// The identifier that the bytes of a transaction have: it can be had exactly where every part that
/// it rests on can, and each part of it is the one that its name says.
pub proof fn law_raw_id_is_read_from_its_parts(
    raw: Seq<char>,
    parsed: Result<ParsedTransaction, String>,
)
    ensures
        ({
            let read = raw_id_reading(raw, parsed);
            let given = read->Ok_0;
            &&& read is Ok <==> {
                &&& hex_reading(raw) is Ok
                &&& shown_id(
                    parsed,
                    "persisted Bitcoin transaction is invalid: "@,
                    "could not derive Bitcoin transaction ID: "@,
                ) is Ok
            }
            &&& read is Ok ==> {
                &&& given == shown_id(
                    parsed,
                    "persisted Bitcoin transaction is invalid: "@,
                    "could not derive Bitcoin transaction ID: "@,
                )->Ok_0
            }
        }),
{
}

/// The identifier that the bytes of a transaction have, given what they parse as.
pub fn transaction_id(raw: &str, parsed: &Result<ParsedTransaction, String>) -> (id: Result<
    String,
    String,
>)
    ensures
        told_text(id) == raw_id_reading(raw@, *parsed),
{
    let _bytes: Vec<u8> = decode_hex(raw)?;
    show_id(
        parsed,
        "persisted Bitcoin transaction is invalid: ",
        "could not derive Bitcoin transaction ID: ",
    )
}

/// What a node answers when it is asked for a transaction.
pub enum Lookup {
    /// The node reports the transaction.
    Known(Json),
    /// The node does not know it.
    Absent,
    /// The node could not say.
    Failed(String),
}

/// What has to hold of a transaction before a node is asked for it.
pub open spec fn intended_reading(
    raw: Seq<char>,
    parsed: Result<ParsedTransaction, String>,
    expected: Seq<char>,
) -> Result<(), Seq<char>> {
    if !is_lower_hex_32(expected) {
        Err("expected Bitcoin transaction ID"@ + " is not lowercase 32-byte hex"@)
    } else {
        match raw_id_reading(raw, parsed) {
            Err(message) => Err(message),
            Ok(id) => if id != expected {
                Err("Bitcoin execution checkpoint binds another transaction"@)
            } else {
                Ok(())
            },
        }
    }
}

/// What has to hold of a transaction before a node is asked for it: it holds exactly where every
/// one of these conditions does.
pub proof fn law_intended_holds_by_its_parts(
    raw: Seq<char>,
    parsed: Result<ParsedTransaction, String>,
    expected: Seq<char>,
)
    ensures
        ({
            let read = intended_reading(raw, parsed, expected);
            &&& read is Ok <==> {
                &&& is_lower_hex_32(expected)
                &&& raw_id_reading(raw, parsed) is Ok
                &&& raw_id_reading(raw, parsed)->Ok_0 == expected
            }
        }),
{
}

/// Checks that a transaction is the one that is to be broadcast.
pub fn check_intended(
    raw: &str,
    parsed: &Result<ParsedTransaction, String>,
    expected_txid: &str,
) -> (checked: Result<(), String>)
    ensures
        told(checked) == intended_reading(raw@, *parsed, expected_txid@),
{
    require_lower_hex_32(expected_txid, "expected Bitcoin transaction ID")?;
    let id: String = transaction_id(raw, parsed)?;
    if !same_text(id.as_str(), expected_txid) {
        return Err("Bitcoin execution checkpoint binds another transaction".to_owned());
    }
    Ok(())
}

/// Whether a node knows a transaction already, by its own answer.
pub open spec fn preflight_reading(lookup: Lookup, expected: Seq<char>, raw: Seq<char>) -> Result<
    bool,
    Seq<char>,
> {
    match lookup {
        Lookup::Known(report) => match known_transaction_reading(report@, expected, Some(raw)) {
            Err(message) => Err(message),
            Ok(_) => Ok(true),
        },
        Lookup::Absent => Ok(false),
        Lookup::Failed(message) => Err(
            "could not prove whether Bitcoin transaction already exists: "@ + message@,
        ),
    }
}

/// Whether a node knows a transaction already: where it does, it is not broadcast again.
pub fn is_known_already(lookup: &Lookup, expected_txid: &str, raw: &str) -> (known: Result<
    bool,
    String,
>)
    ensures
        told(known) == preflight_reading(*lookup, expected_txid@, raw@),
{
    match lookup {
        Lookup::Known(report) => {
            verify_known_bitcoin_transaction(report, expected_txid, Some(raw))?;
            Ok(true)
        },
        Lookup::Absent => Ok(false),
        Lookup::Failed(message) => Err(
            join(
                "could not prove whether Bitcoin transaction already exists: ",
                message.as_str(),
            ),
        ),
    }
}

/// What the answer to a broadcast reads as.
pub open spec fn receipt_reading(receipt: Result<String, String>, expected: Seq<char>) -> Result<
    Seq<char>,
    Seq<char>,
> {
    match receipt {
        Err(message) => Err("could not broadcast Bitcoin transaction: "@ + message@),
        Ok(id) => if id@ != expected {
            Err("bitcoind returned another Bitcoin transaction ID"@)
        } else {
            Ok(id@)
        },
    }
}

/// What the answer to a broadcast reads as: it can be had exactly where every part that it rests on
/// can, and each part of it is the one that its name says.
pub proof fn law_receipt_is_read_from_its_parts(
    receipt: Result<String, String>,
    expected: Seq<char>,
)
    ensures
        ({
            let read = receipt_reading(receipt, expected);
            let id = receipt->Ok_0;
            let given = read->Ok_0;
            &&& read is Ok <==> {
                &&& receipt is Ok
                &&& id@ == expected
            }
            &&& read is Ok ==> {
                &&& given == id@
            }
        }),
{
}

/// Checks that a node took the transaction that it was handed.
pub fn check_receipt(receipt: &Result<String, String>, expected_txid: &str) -> (id: Result<
    String,
    String,
>)
    ensures
        told_text(id) == receipt_reading(*receipt, expected_txid@),
{
    match receipt {
        Err(message) => Err(join("could not broadcast Bitcoin transaction: ", message.as_str())),
        Ok(id) => if !same_text(id.as_str(), expected_txid) {
            Err("bitcoind returned another Bitcoin transaction ID".to_owned())
        } else {
            Ok(id.clone())
        },
    }
}

/// A transaction that a node reports is never broadcast again, and what it reports is exactly the
/// transaction that was to be broadcast.
pub proof fn law_known_transaction_is_exact(lookup: Lookup, expected: Seq<char>, raw: Seq<char>)
    requires
        preflight_reading(lookup, expected, raw) == Ok::<bool, Seq<char>>(true),
    ensures
        lookup matches Lookup::Known(report) && member_text(report@, "txid"@) == Some(expected)
            && member_text(report@, "hex"@) == Some(raw),
{
}

/// How many blocks may be mined at once on a rail.
pub open spec fn mining_reading(rail: Seq<char>, count: u64, liquid_here: bool) -> Result<(), Seq<char>> {
    if rail == "bitcoin"@ {
        if 1 <= count <= 1_000 {
            Ok(())
        } else {
            Err("smoke mining count is outside bounds"@)
        }
    } else if rail == "liquid"@ {
        if !liquid_here {
            Err("chain leg has no local elementsd"@)
        } else if count > u32::MAX {
            Err("Liquid block count exceeds u32"@)
        } else if 1 <= count <= 1_000 {
            Ok(())
        } else {
            Err("Liquid mining count is outside bounds"@)
        }
    } else {
        Err("chain leg uses an unsupported rail"@)
    }
}

/// How many blocks may be mined at once on a rail: it holds exactly where every one of these
/// conditions does.
pub proof fn law_mining_holds_by_its_parts(rail: Seq<char>, count: u64, liquid_here: bool)
    ensures
        ({
            let read = mining_reading(rail, count, liquid_here);
            let case_1 = {
                &&& rail == "bitcoin"@
                &&& 1 <= count <= 1_000
            };
            let case_2 = {
                &&& rail != "bitcoin"@
                &&& rail == "liquid"@
                &&& liquid_here
                &&& count <= u32::MAX
                &&& 1 <= count <= 1_000
            };
            &&& (read is Ok <==> case_1 || case_2)
        }),
{
}

/// Checks that so many blocks may be mined on a rail.
pub fn check_mining(rail: &str, count: u64, liquid_here: bool) -> (checked: Result<(), String>)
    ensures
        told(checked) == mining_reading(rail@, count, liquid_here),
{
    if same_text(rail, "bitcoin") {
        return if count == 0 || count > 1_000 {
            Err("smoke mining count is outside bounds".to_owned())
        } else {
            Ok(())
        };
    }
    if !same_text(rail, "liquid") {
        return Err("chain leg uses an unsupported rail".to_owned());
    }
    if !liquid_here {
        return Err("chain leg has no local elementsd".to_owned());
    }
    if count > 0xffff_ffff {
        return Err("Liquid block count exceeds u32".to_owned());
    }
    if count == 0 || count > 1_000 {
        return Err("Liquid mining count is outside bounds".to_owned());
    }
    Ok(())
}

/// What a node answers to mining reads as.
pub open spec fn mined_reading(blocks: JsonView, count: u64) -> Result<(), Seq<char>> {
    match items_of(Some(blocks)) {
        Some(mined) if mined.len() == count => Ok(()),
        _ => Err("bitcoind returned another mined-block count"@),
    }
}

/// Checks that a node mined as many blocks as it was asked for.
pub fn check_mined(blocks: &Json, count: u64) -> (checked: Result<(), String>)
    ensures
        told(checked) == mined_reading(blocks@, count),
{
    if let Some(mined) = blocks.as_array() {
        proof {
            lemma_items_view(mined@);
        }
        if mined.len() as u64 == count {
            return Ok(());
        }
    }
    Err("bitcoind returned another mined-block count".to_owned())
}

/// Checks that an Elements node mined as many blocks as it was asked for.
pub fn check_mined_liquid(mined: usize, count: u64) -> (checked: Result<(), String>)
    ensures
        told(checked) == (if mined == count {
            Ok(())
        } else {
            Err("elementsd returned another mined-block count"@)
        }),
{
    if mined as u64 == count {
        Ok(())
    } else {
        Err("elementsd returned another mined-block count".to_owned())
    }
}

/// The height that a node answers.
pub open spec fn block_count_reading(answer: JsonView) -> Result<u32, Seq<char>> {
    match u64_of(Some(answer)) {
        Some(height) if height <= u32::MAX => Ok(height as u32),
        _ => Err("Bitcoin chain height exceeds u32"@),
    }
}

/// The height that a node answers: it can be had exactly where every part that it rests on can, and
/// each part of it is the one that its name says.
pub proof fn law_block_count_is_read_from_its_parts(answer: JsonView)
    ensures
        ({
            let read = block_count_reading(answer);
            let height = u64_of(Some(answer))->0;
            let given = read->Ok_0;
            &&& read is Ok <==> {
                &&& u64_of(Some(answer)) is Some
                &&& height <= u32::MAX
            }
            &&& read is Ok ==> {
                &&& given == height as u32
            }
        }),
{
}

/// The height that a node answers.
pub fn chain_height(answer: &Json) -> (height: Result<u32, String>)
    ensures
        told(height) == block_count_reading(answer@),
{
    match answer.as_u64() {
        Some(height) if height <= 0xffff_ffff => Ok(height as u32),
        _ => Err("Bitcoin chain height exceeds u32".to_owned()),
    }
}

/// The block that a node reports a transaction in.
pub fn confirmation_block(transaction: &Json) -> (block: Result<String, String>)
    ensures
        told_text(block) == (match member_text(transaction@, "blockhash"@) {
            Some(hash) => Ok(hash),
            None => Err("funding transaction is not confirmed"@),
        }),
{
    match transaction.text_at("blockhash") {
        Some(hash) => Ok(hash.to_owned()),
        None => Err("funding transaction is not confirmed".to_owned()),
    }
}

/// The height that the header of a block names.
pub open spec fn header_height_reading(header: JsonView) -> Result<u32, Seq<char>> {
    match u64_of(member(header, "height"@)) {
        Some(height) if height <= u32::MAX => Ok(height as u32),
        _ => Err("funding confirmation height exceeds u32"@),
    }
}

/// The height that the header of a block names: it can be had exactly where every part that it
/// rests on can, and each part of it is the one that its name says.
pub proof fn law_header_height_is_read_from_its_parts(header: JsonView)
    ensures
        ({
            let read = header_height_reading(header);
            let height = u64_of(member(header, "height"@))->0;
            let given = read->Ok_0;
            &&& read is Ok <==> {
                &&& u64_of(member(header, "height"@)) is Some
                &&& height <= u32::MAX
            }
            &&& read is Ok ==> {
                &&& given == height as u32
            }
        }),
{
}

/// The height that the header of a block names.
pub fn confirmation_height(header: &Json) -> (height: Result<u32, String>)
    ensures
        told(height) == header_height_reading(header@),
{
    match header.u64_at("height") {
        Some(height) if height <= 0xffff_ffff => Ok(height as u32),
        _ => Err("funding confirmation height exceeds u32".to_owned()),
    }
}

/// What a node answers while a transaction spreads.
pub enum NodeReply {
    /// The node has something under the identifier.
    Found(Json),
    /// The node does not have it yet, and there is time left.
    Missing,
    /// The node could not say, or time has run out.
    Failed(String),
}

/// The bytes that a node has of a transaction; `None` where it has none yet.
pub open spec fn node_reading(reply: NodeReply, index: nat) -> Result<Option<Seq<char>>, Seq<char>> {
    match reply {
        NodeReply::Found(document) => match text_of(Some(document@)) {
            Some(raw) => Ok(Some(raw)),
            None => Err(
                "Bitcoin node "@ + decimal(index)
                    + " returned another transaction shape during propagation"@,
            ),
        },
        NodeReply::Missing => Ok(None),
        NodeReply::Failed(message) => Err(
            "Bitcoin node "@ + decimal(index) + " did not receive the settlement transaction: "@
                + message@,
        ),
    }
}

fn read_node(reply: &NodeReply, index: u64) -> (raw: Result<Option<String>, String>)
    ensures
        (match raw {
            Ok(Some(raw)) => Ok(Some(raw@)),
            Ok(None) => Ok(None),
            Err(message) => Err(message@),
        }) == node_reading(*reply, index as nat),
{
    match reply {
        NodeReply::Found(document) => match document.as_str() {
            Some(raw) => Ok(Some(raw.to_owned())),
            None => Err(
                join3(
                    "Bitcoin node ",
                    decimal_text(index).as_str(),
                    " returned another transaction shape during propagation",
                ),
            ),
        },
        NodeReply::Missing => Ok(None),
        NodeReply::Failed(message) => {
            let mut text: String = join3(
                "Bitcoin node ",
                decimal_text(index).as_str(),
                " did not receive the settlement transaction: ",
            );
            text.append(message.as_str());
            Err(text)
        },
    }
}

/// What one round of asking both nodes shows: whether both have exactly the transaction. The second
/// node is asked only where the first one has it.
pub open spec fn propagation_reading(
    first: NodeReply,
    second: NodeReply,
    parsed: Result<ParsedTransaction, String>,
    transaction_id: Seq<char>,
    expired: bool,
) -> Result<bool, Seq<char>> {
    let waits = if expired {
        Err("settlement transaction did not propagate to both Bitcoin nodes before mining"@)
    } else {
        Ok(false)
    };
    match node_reading(first, 0) {
        Err(message) => Err(message),
        Ok(None) => waits,
        Ok(Some(left)) => match node_reading(second, 1) {
            Err(message) => Err(message),
            Ok(None) => waits,
            Ok(Some(right)) => if left != right {
                Err("Bitcoin nodes received different settlement transaction bytes"@)
            } else {
                match hex_reading(left) {
                    Err(message) => Err(message),
                    Ok(_) => match shown_id(
                        parsed,
                        "propagated settlement transaction is invalid: "@,
                        "settlement transaction txid failed: "@,
                    ) {
                        Err(message) => Err(message),
                        Ok(id) => if id != transaction_id {
                            Err("propagated settlement transaction has another txid"@)
                        } else {
                            Ok(true)
                        },
                    },
                }
            },
        },
    }
}

/// What one round of asking both nodes shows: whether both have exactly the transaction.
pub fn has_propagated(
    first: &NodeReply,
    second: &NodeReply,
    parsed: &Result<ParsedTransaction, String>,
    transaction_id: &str,
    expired: bool,
) -> (has: Result<bool, String>)
    ensures
        told(has) == propagation_reading(*first, *second, *parsed, transaction_id@, expired),
{
    let waits: Result<bool, String> = if expired {
        Err(
            "settlement transaction did not propagate to both Bitcoin nodes before mining".to_owned(),
        )
    } else {
        Ok(false)
    };
    let left: String = match read_node(first, 0)? {
        Some(raw) => raw,
        None => {
            return waits;
        },
    };
    let right: String = match read_node(second, 1)? {
        Some(raw) => raw,
        None => {
            return waits;
        },
    };
    if !same_text(left.as_str(), right.as_str()) {
        return Err("Bitcoin nodes received different settlement transaction bytes".to_owned());
    }
    let _bytes: Vec<u8> = decode_hex(left.as_str())?;
    let id: String = show_id(
        parsed,
        "propagated settlement transaction is invalid: ",
        "settlement transaction txid failed: ",
    )?;
    if !same_text(id.as_str(), transaction_id) {
        return Err("propagated settlement transaction has another txid".to_owned());
    }
    Ok(true)
}

/// Whether a second Bitcoin node is set up, by how many of its four settings are there.
pub fn has_second_node(configured: usize) -> (has: Result<bool, String>)
    ensures
        told(has) == (if configured == 0 {
            Ok(false)
        } else if configured != 4 {
            Err("adversarial Bitcoin B propagation configuration is partial"@)
        } else {
            Ok(true)
        }),
{
    if configured == 0 {
        Ok(false)
    } else if configured != 4 {
        Err("adversarial Bitcoin B propagation configuration is partial".to_owned())
    } else {
        Ok(true)
    }
}

/// What a node answers while a Liquid transaction spreads.
pub enum LiquidReply {
    /// The identifier of the transaction that it has, or why it could not be parsed.
    Found(Result<Vec<u8>, String>),
    /// The node does not have it, and there is time left.
    Missing,
    /// The node does not have it, and time has run out.
    Expired,
    /// The node could not say.
    Failed(String),
}

/// What one round of asking an Elements node shows.
pub open spec fn liquid_propagation_reading(reply: LiquidReply, transaction_id: Seq<char>) -> Result<
    bool,
    Seq<char>,
> {
    match reply {
        LiquidReply::Found(Err(message)) => Err(
            "propagated Liquid transaction is invalid: "@ + message@,
        ),
        LiquidReply::Found(Ok(id)) => if hex_text(id@) != transaction_id {
            Err("propagated Liquid transaction has another transaction ID"@)
        } else {
            Ok(true)
        },
        LiquidReply::Missing => Ok(false),
        LiquidReply::Expired => Err(
            "Liquid transaction "@ + transaction_id
                + " did not propagate to the mining elementsd before mining"@,
        ),
        LiquidReply::Failed(message) => Err(
            "mining elementsd did not receive the Liquid transaction: "@ + message@,
        ),
    }
}

/// What one round of asking an Elements node shows: whether it has exactly the transaction.
pub fn has_propagated_liquid(reply: &LiquidReply, transaction_id: &str) -> (has: Result<bool, String>)
    ensures
        told(has) == liquid_propagation_reading(*reply, transaction_id@),
{
    match reply {
        LiquidReply::Found(Err(message)) => Err(
            join("propagated Liquid transaction is invalid: ", message.as_str()),
        ),
        LiquidReply::Found(Ok(id)) => if !same_text(
            lower_hex(id.as_slice()).as_str(),
            transaction_id,
        ) {
            Err("propagated Liquid transaction has another transaction ID".to_owned())
        } else {
            Ok(true)
        },
        LiquidReply::Missing => Ok(false),
        LiquidReply::Expired => Err(
            join3(
                "Liquid transaction ",
                transaction_id,
                " did not propagate to the mining elementsd before mining",
            ),
        ),
        LiquidReply::Failed(message) => Err(
            join("mining elementsd did not receive the Liquid transaction: ", message.as_str()),
        ),
    }
}

/// What a node shows of a refund: it is exactly the refund, its one input spends the lock, and the
/// lock is no longer unspent.
pub open spec fn refund_spend_reading(
    report: JsonView,
    unspent: JsonView,
    funding_id: Seq<char>,
    funding_output: u32,
    refund_id: Seq<char>,
    raw_refund: Seq<char>,
) -> Result<(), Seq<char>> {
    match known_transaction_reading(report, refund_id, Some(raw_refund)) {
        Err(message) => Err(message),
        Ok(_) => match items_of(member(report, "vin"@)) {
            None => Err("refund transaction has no input array"@),
            Some(inputs) => if inputs.len() != 1 {
                Err("requester refund does not have exactly one input"@)
            } else if member_text(inputs[0], "txid"@) != Some(funding_id) || u64_of(
                member(inputs[0], "vout"@),
            ) != Some(funding_output as u64) {
                Err("requester refund spends another funding outpoint"@)
            } else if unspent != JsonView::Null {
                Err("requester funding outpoint remains unspent on a Bitcoin node"@)
            } else {
                Ok(())
            },
        },
    }
}

/// What a node shows of a refund: it holds exactly where every one of these conditions does.
pub proof fn law_refund_spend_holds_by_its_parts(
    report: JsonView,
    unspent: JsonView,
    funding_id: Seq<char>,
    funding_output: u32,
    refund_id: Seq<char>,
    raw_refund: Seq<char>,
)
    ensures
        ({
            let read = refund_spend_reading(
                report,
                unspent,
                funding_id,
                funding_output,
                refund_id,
                raw_refund,
            );
            let inputs = items_of(member(report, "vin"@))->0;
            &&& read is Ok <==> {
                &&& known_transaction_reading(report, refund_id, Some(raw_refund)) is Ok
                &&& items_of(member(report, "vin"@)) is Some
                &&& inputs.len() == 1
                &&& member_text(inputs[0], "txid"@) == Some(funding_id)
                &&& u64_of(member(inputs[0], "vout"@)) == Some(funding_output as u64)
                &&& unspent == JsonView::Null
            }
        }),
{
}

/// Checks what a node shows of a refund.
pub fn check_refund_spend(
    report: &Json,
    unspent: &Json,
    funding_transaction_id: &str,
    funding_output_index: u32,
    refund_transaction_id: &str,
    raw_refund: &str,
) -> (checked: Result<(), String>)
    ensures
        told(checked) == refund_spend_reading(
            report@,
            unspent@,
            funding_transaction_id@,
            funding_output_index,
            refund_transaction_id@,
            raw_refund@,
        ),
{
    verify_known_bitcoin_transaction(report, refund_transaction_id, Some(raw_refund))?;
    let inputs: &Vec<Json> = match report.get("vin") {
        Some(value) => match value.as_array() {
            Some(inputs) => inputs,
            None => {
                return Err("refund transaction has no input array".to_owned());
            },
        },
        None => {
            return Err("refund transaction has no input array".to_owned());
        },
    };
    proof {
        lemma_items_view(inputs@);
    }
    if inputs.len() != 1 {
        return Err("requester refund does not have exactly one input".to_owned());
    }
    assert(items_view(inputs@)[0] == inputs@[0]@);
    let vout: Option<u64> = inputs[0].u64_at("vout");
    let same_output: bool = match vout {
        Some(vout) => vout == funding_output_index as u64,
        None => false,
    };
    if !inputs[0].says("txid", funding_transaction_id) || !same_output {
        return Err("requester refund spends another funding outpoint".to_owned());
    }
    if !unspent.is_null() {
        return Err("requester funding outpoint remains unspent on a Bitcoin node".to_owned());
    }
    Ok(())
}

/// Whether an output pays to a script.
pub open spec fn pays_to(script: Seq<char>) -> spec_fn(JsonView) -> bool {
    |output: JsonView| text_of(step(member(output, "scriptPubKey"@), "hex"@)) == Some(script)
}

fn output_pays_to(output: &Json, script: &str) -> (pays: bool)
    ensures
        pays == pays_to(script@)(output@),
{
    match output.get("scriptPubKey") {
        Some(value) => is_text(value.text_at("hex"), script),
        None => false,
    }
}

/// What the client wallet is funded with.
pub const CLIENT_FUNDING_SAT: u64 = 100_000_000;

/// The output that funds the client wallet, by what a node reports of the transaction.
pub open spec fn client_output_reading(report: JsonView, script: Seq<char>) -> Result<u32, Seq<char>> {
    match items_of(member(report, "vout"@)) {
        None => Err("client wallet funding has no outputs"@),
        Some(outputs) => {
            let paying = outputs.filter(pays_to(script));
            if paying.len() != 1 {
                Err("client wallet funding did not contain one derived output"@)
            } else {
                match u64_of(member(paying[0], "n"@)) {
                    Some(index) if index <= u32::MAX => match member(paying[0], "value"@) {
                        None => Err("client wallet funding output has no amount"@),
                        Some(amount) => match bitcoin_reading(amount) {
                            Err(message) => Err(message),
                            Ok(sat) => if sat != CLIENT_FUNDING_SAT {
                                Err("client wallet funding output has another amount"@)
                            } else {
                                Ok(index as u32)
                            },
                        },
                    },
                    _ => Err("client wallet funding output index is invalid"@),
                }
            }
        },
    }
}

/// The output that funds the client wallet, by what a node reports of the transaction: it can be
/// had exactly where every part that it rests on can, and each part of it is the one that its name
/// says.
pub proof fn law_client_output_is_read_from_its_parts(report: JsonView, script: Seq<char>)
    ensures
        ({
            let read = client_output_reading(report, script);
            let paying = items_of(member(report, "vout"@))->0.filter(pays_to(script));
            let index = u64_of(member(paying[0], "n"@))->0;
            let amount = member(paying[0], "value"@)->0;
            let given = read->Ok_0;
            &&& read is Ok <==> {
                &&& items_of(member(report, "vout"@)) is Some
                &&& paying.len() == 1
                &&& u64_of(member(paying[0], "n"@)) is Some
                &&& index <= u32::MAX
                &&& member(paying[0], "value"@) is Some
                &&& bitcoin_reading(amount) is Ok
                &&& bitcoin_reading(amount)->Ok_0 == CLIENT_FUNDING_SAT
            }
            &&& read is Ok ==> {
                &&& given == index as u32
            }
        }),
{
}

proof fn lemma_paying(outputs: Seq<JsonView>, script: Seq<char>, upto: int)
    requires
        0 <= upto < outputs.len(),
    ensures
        outputs.subrange(0, upto + 1).filter(pays_to(script)) == (if pays_to(script)(outputs[upto]) {
            outputs.subrange(0, upto).filter(pays_to(script)).push(outputs[upto])
        } else {
            outputs.subrange(0, upto).filter(pays_to(script))
        }),
{
    reveal(Seq::filter);
    let longer = outputs.subrange(0, upto + 1);
    assert(longer.drop_last() =~= outputs.subrange(0, upto));
    assert(longer.last() == outputs[upto]);
}

/// The output that funds the client wallet, by what a node reports of the transaction.
pub fn client_funding_output(report: &Json, script: &str) -> (index: Result<u32, String>)
    ensures
        told(index) == client_output_reading(report@, script@),
{
    let outputs: &Vec<Json> = match report.get("vout") {
        Some(value) => match value.as_array() {
            Some(outputs) => outputs,
            None => {
                return Err("client wallet funding has no outputs".to_owned());
            },
        },
        None => {
            return Err("client wallet funding has no outputs".to_owned());
        },
    };
    proof {
        lemma_items_view(outputs@);
    }
    let ghost shown = items_view(outputs@);
    let mut found: Option<usize> = None;
    let mut count: usize = 0;
    let mut i: usize = 0;
    proof {
        reveal(Seq::filter);
        assert(shown.subrange(0, 0) =~= Seq::<JsonView>::empty());
        assert(shown.subrange(0, 0).filter(pays_to(script@)).len() == 0);
    }
    while i < outputs.len()
        invariant
            i <= outputs@.len(),
            count <= i,
            shown == items_view(outputs@),
            shown.len() == outputs@.len(),
            forall|j: int| 0 <= j < outputs@.len() ==> #[trigger] shown[j] == outputs@[j]@,
            count == shown.subrange(0, i as int).filter(pays_to(script@)).len(),
            count > 0 ==> found is Some,
            match found {
                Some(place) => {
                    &&& place < i
                    &&& count > 0
                    &&& shown.subrange(0, i as int).filter(pays_to(script@)).last()
                        == shown[place as int]
                },
                None => count == 0,
            },
        decreases outputs@.len() - i,
    {
        assert(shown[i as int] == outputs@[i as int]@);
        proof {
            lemma_paying(shown, script@, i as int);
        }
        if output_pays_to(&outputs[i], script) {
            found = Some(i);
            count = count + 1;
        }
        i = i + 1;
    }
    assert(shown.subrange(0, i as int) =~= shown);
    let place: usize = match found {
        Some(place) if count == 1 => place,
        _ => {
            return Err("client wallet funding did not contain one derived output".to_owned());
        },
    };
    assert(shown.filter(pays_to(script@))[0] == shown[place as int]);
    assert(shown[place as int] == outputs@[place as int]@);
    let output: &Json = &outputs[place];
    let index: u32 = match output.u64_at("n") {
        Some(index) if index <= 0xffff_ffff => index as u32,
        _ => {
            return Err("client wallet funding output index is invalid".to_owned());
        },
    };
    let amount: &Json = match output.get("value") {
        Some(amount) => amount,
        None => {
            return Err("client wallet funding output has no amount".to_owned());
        },
    };
    let sat: u64 = btc_value_to_sat(amount)?;
    if sat != CLIENT_FUNDING_SAT {
        return Err("client wallet funding output has another amount".to_owned());
    }
    Ok(index)
}

/// The text that a node answers, or a message where it is none.
pub fn answered_text(answer: &Json, missing: &str) -> (text: Result<String, String>)
    ensures
        told_text(text) == (match text_of(Some(answer@)) {
            Some(text) => Ok(text),
            None => Err(missing@),
        }),
{
    match answer.as_str() {
        Some(text) => Ok(text.to_owned()),
        None => Err(missing.to_owned()),
    }
}

/// The bytes of a transaction as a Bitcoin node answers them.
pub open spec fn raw_answer_reading(
    answer: JsonView,
    parsed: Result<ParsedTransaction, String>,
    expected: Seq<char>,
) -> Result<Seq<char>, Seq<char>> {
    match text_of(Some(answer)) {
        None => Err("bitcoind raw transaction result is not hexadecimal"@),
        Some(raw) => match raw_id_reading(raw, parsed) {
            Err(message) => Err(message),
            Ok(id) => if id != expected {
                Err("bitcoind raw transaction has another transaction ID"@)
            } else {
                Ok(raw)
            },
        },
    }
}

/// The bytes of a transaction as a Bitcoin node answers them: it can be had exactly where every
/// part that it rests on can, and each part of it is the one that its name says.
pub proof fn law_raw_answer_is_read_from_its_parts(
    answer: JsonView,
    parsed: Result<ParsedTransaction, String>,
    expected: Seq<char>,
)
    ensures
        ({
            let read = raw_answer_reading(answer, parsed, expected);
            let raw = text_of(Some(answer))->0;
            let given = read->Ok_0;
            &&& read is Ok <==> {
                &&& text_of(Some(answer)) is Some
                &&& raw_id_reading(raw, parsed) is Ok
                &&& raw_id_reading(raw, parsed)->Ok_0 == expected
            }
            &&& read is Ok ==> {
                &&& given == raw
            }
        }),
{
}

/// The bytes of a transaction as a Bitcoin node answers them, given what they parse as.
pub fn bitcoin_raw_transaction(
    answer: &Json,
    parsed: &Result<ParsedTransaction, String>,
    expected_transaction_id: &str,
) -> (raw: Result<String, String>)
    ensures
        told_text(raw) == raw_answer_reading(answer@, *parsed, expected_transaction_id@),
{
    let raw: String = answered_text(answer, "bitcoind raw transaction result is not hexadecimal")?;
    let id: String = transaction_id(raw.as_str(), parsed)?;
    if !same_text(id.as_str(), expected_transaction_id) {
        return Err("bitcoind raw transaction has another transaction ID".to_owned());
    }
    Ok(raw)
}

/// The bytes of a transaction as an Elements node answers them.
pub open spec fn liquid_raw_reading(
    raw: Seq<u8>,
    parsed: Result<Vec<u8>, String>,
    expected: Seq<char>,
) -> Result<Seq<char>, Seq<char>> {
    match parsed {
        Err(message) => Err("observed Liquid transaction is invalid: "@ + message@),
        Ok(id) => if hex_text(id@) != expected {
            Err("elementsd raw transaction has another transaction ID"@)
        } else {
            Ok(hex_text(raw))
        },
    }
}

/// The bytes of a transaction as an Elements node answers them: it can be had exactly where every
/// part that it rests on can, and each part of it is the one that its name says.
pub proof fn law_liquid_raw_is_read_from_its_parts(
    raw: Seq<u8>,
    parsed: Result<Vec<u8>, String>,
    expected: Seq<char>,
)
    ensures
        ({
            let read = liquid_raw_reading(raw, parsed, expected);
            let given = read->Ok_0;
            &&& read is Ok <==> {
                &&& parsed is Ok
                &&& hex_text(parsed->Ok_0@) == expected
            }
            &&& read is Ok ==> {
                &&& given == hex_text(raw)
            }
        }),
{
}

/// The bytes of a transaction as an Elements node answers them, given the identifier they have.
pub fn liquid_raw_transaction(
    raw: &Vec<u8>,
    parsed: &Result<Vec<u8>, String>,
    expected_transaction_id: &str,
) -> (hex: Result<String, String>)
    ensures
        told_text(hex) == liquid_raw_reading(raw@, *parsed, expected_transaction_id@),
{
    match parsed {
        Err(message) => Err(join("observed Liquid transaction is invalid: ", message.as_str())),
        Ok(id) => if !same_text(lower_hex(id.as_slice()).as_str(), expected_transaction_id) {
            Err("elementsd raw transaction has another transaction ID".to_owned())
        } else {
            Ok(lower_hex(raw.as_slice()))
        },
    }
}

/// Which network a transaction is handed to.
pub struct LiquidBroadcast {
    pub rpc_method: String,
    pub network_id: String,
    pub genesis_hash: String,
    pub transaction_artifact_ref: String,
    pub transaction_sha256: String,
}

/// How the signed exit of a journey is referred to.
pub open spec fn artifact_reference(journey: Seq<char>) -> Seq<char> {
    "lab-private-signed-exit:"@ + journey
}

/// How the signed exit of a journey is referred to.
pub fn signed_exit_reference(journey_name: &str) -> (reference: String)
    ensures
        reference@ == artifact_reference(journey_name@),
{
    join("lab-private-signed-exit:", journey_name)
}

/// The signed exit that a reference names.
pub open spec fn artifact_bytes_reading(
    journey: Seq<char>,
    reference: Seq<char>,
    signed_exit: Seq<char>,
) -> Result<Seq<u8>, Seq<char>> {
    if reference != artifact_reference(journey) {
        Err("Liquid broadcast artifact reference differs from its lab journey"@)
    } else {
        hex_reading(signed_exit)
    }
}

/// The signed exit that a reference names: it can be had exactly where every part that it rests on
/// can, and each part of it is the one that its name says.
pub proof fn law_artifact_bytes_is_read_from_its_parts(
    journey: Seq<char>,
    reference: Seq<char>,
    signed_exit: Seq<char>,
)
    ensures
        ({
            let read = artifact_bytes_reading(journey, reference, signed_exit);
            let given = read->Ok_0;
            &&& read is Ok <==> {
                &&& reference == artifact_reference(journey)
                &&& hex_reading(signed_exit) is Ok
            }
            &&& read is Ok ==> {
                &&& given == hex_reading(signed_exit)->Ok_0
            }
        }),
{
}

/// The signed exit that a reference names.
pub fn load_liquid_broadcast_artifact(journey_name: &str, artifact_ref: &str, signed_exit: &str) -> (bytes:
    Result<Vec<u8>, String>)
    ensures
        crate::hex::told_bytes(bytes) == artifact_bytes_reading(
            journey_name@,
            artifact_ref@,
            signed_exit@,
        ),
{
    if !same_text(artifact_ref, signed_exit_reference(journey_name).as_str()) {
        return Err("Liquid broadcast artifact reference differs from its lab journey".to_owned());
    }
    decode_hex(signed_exit)
}

/// What a request to broadcast on Liquid reads as: the identifier that a node must answer with.
pub open spec fn liquid_broadcast_reading(
    request: LiquidBroadcast,
    local_network: Seq<char>,
    network: Seq<char>,
    genesis: Seq<char>,
    journey: Seq<char>,
    signed_exit: Seq<char>,
    sha256: Seq<u8>,
    parsed: Result<Vec<u8>, String>,
) -> Result<Seq<char>, Seq<char>> {
    if request.rpc_method@ != "sendrawtransaction"@ || request.network_id@ != local_network
        || request.network_id@ != network || request.genesis_hash@ != genesis {
        Err("Liquid broadcast request differs from the local elementsd network"@)
    } else {
        match artifact_bytes_reading(journey, request.transaction_artifact_ref@, signed_exit) {
            Err(message) => Err(message),
            Ok(_) => if hex_text(sha256) != request.transaction_sha256@ {
                Err("Liquid broadcast request differs from its transaction digest"@)
            } else {
                match parsed {
                    Err(message) => Err("Liquid broadcast transaction is invalid: "@ + message@),
                    Ok(id) => Ok(hex_text(id@)),
                }
            },
        }
    }
}

/// What a request to broadcast on Liquid reads as: it can be had exactly where every part that it
/// rests on can, and each part of it is the one that its name says.
pub proof fn law_liquid_broadcast_is_read_from_its_parts(
    request: LiquidBroadcast,
    local_network: Seq<char>,
    network: Seq<char>,
    genesis: Seq<char>,
    journey: Seq<char>,
    signed_exit: Seq<char>,
    sha256: Seq<u8>,
    parsed: Result<Vec<u8>, String>,
)
    ensures
        ({
            let read = liquid_broadcast_reading(
                request,
                local_network,
                network,
                genesis,
                journey,
                signed_exit,
                sha256,
                parsed,
            );
            let given = read->Ok_0;
            &&& read is Ok <==> {
                &&& request.rpc_method@ == "sendrawtransaction"@
                &&& request.network_id@ == local_network
                &&& request.network_id@ == network
                &&& request.genesis_hash@ == genesis
                &&& artifact_bytes_reading(
                    journey,
                    request.transaction_artifact_ref@,
                    signed_exit,
                ) is Ok
                &&& hex_text(sha256) == request.transaction_sha256@
                &&& parsed is Ok
            }
            &&& read is Ok ==> {
                &&& given == hex_text(parsed->Ok_0@)
            }
        }),
{
}

/// Checks a request to broadcast on Liquid, given the digest of the signed exit and the identifier
/// that it has.
pub fn check_liquid_broadcast(
    request: &LiquidBroadcast,
    local_network_id: &str,
    network_id: &str,
    genesis_hash: &str,
    journey_name: &str,
    signed_exit: &str,
    sha256: &Vec<u8>,
    parsed: &Result<Vec<u8>, String>,
) -> (id: Result<String, String>)
    ensures
        told_text(id) == liquid_broadcast_reading(
            *request,
            local_network_id@,
            network_id@,
            genesis_hash@,
            journey_name@,
            signed_exit@,
            sha256@,
            *parsed,
        ),
{
    if !same_text(request.rpc_method.as_str(), "sendrawtransaction") || !same_text(
        request.network_id.as_str(),
        local_network_id,
    ) || !same_text(request.network_id.as_str(), network_id) || !same_text(
        request.genesis_hash.as_str(),
        genesis_hash,
    ) {
        return Err("Liquid broadcast request differs from the local elementsd network".to_owned());
    }
    let _raw: Vec<u8> = load_liquid_broadcast_artifact(
        journey_name,
        request.transaction_artifact_ref.as_str(),
        signed_exit,
    )?;
    if !same_text(lower_hex(sha256.as_slice()).as_str(), request.transaction_sha256.as_str()) {
        return Err("Liquid broadcast request differs from its transaction digest".to_owned());
    }
    match parsed {
        Err(message) => Err(join("Liquid broadcast transaction is invalid: ", message.as_str())),
        Ok(id) => Ok(lower_hex(id.as_slice())),
    }
}

/// Checks that an Elements node answered with the identifier of the transaction that it was handed.
pub fn check_liquid_receipt(observed: &str, transaction_id: &str) -> (checked: Result<(), String>)
    ensures
        told(checked) == (if observed@ == transaction_id@ {
            Ok(())
        } else {
            Err("elementsd returned another Liquid transaction ID"@)
        }),
{
    if same_text(observed, transaction_id) {
        Ok(())
    } else {
        Err("elementsd returned another Liquid transaction ID".to_owned())
    }
}

/// What the end of a claim by the wallet on Liquid reads as.
pub open spec fn wallet_claim_reading(
    retained: Option<Seq<char>>,
    signed: Seq<char>,
    broadcast_id: Seq<char>,
    recorded_id: Seq<char>,
    stored: Seq<char>,
    parsed: Result<Vec<u8>, String>,
) -> Result<(), Seq<char>> {
    if retained is Some && retained != Some(signed) {
        Err("retained Liquid wallet claim differs from the verified exit"@)
    } else if recorded_id != broadcast_id {
        Err("recorded Liquid broadcast effect differs from elementsd"@)
    } else {
        match hex_reading(stored) {
            Err(message) => Err(message),
            Ok(_) => match parsed {
                Err(message) => Err("signed Liquid wallet claim is invalid: "@ + message@),
                Ok(id) => if hex_text(id@) != broadcast_id {
                    Err("elementsd accepted another Liquid wallet claim"@)
                } else {
                    Ok(())
                },
            },
        }
    }
}

/// What the end of a claim by the wallet on Liquid reads as: it holds exactly where every one of
/// these conditions does.
pub proof fn law_wallet_claim_holds_by_its_parts(
    retained: Option<Seq<char>>,
    signed: Seq<char>,
    broadcast_id: Seq<char>,
    recorded_id: Seq<char>,
    stored: Seq<char>,
    parsed: Result<Vec<u8>, String>,
)
    ensures
        ({
            let read = wallet_claim_reading(
                retained,
                signed,
                broadcast_id,
                recorded_id,
                stored,
                parsed,
            );
            &&& read is Ok <==> {
                &&& !(retained is Some && retained != Some(signed))
                &&& recorded_id == broadcast_id
                &&& hex_reading(stored) is Ok
                &&& parsed is Ok
                &&& hex_text(parsed->Ok_0@) == broadcast_id
            }
        }),
{
}

/// Checks that a retained claim is the one that was verified.
pub fn check_retained_claim(retained: Option<&str>, signed: &str) -> (checked: Result<(), String>)
    ensures
        told(checked) == (if retained is Some && retained->0@ != signed@ {
            Err("retained Liquid wallet claim differs from the verified exit"@)
        } else {
            Ok(())
        }),
{
    match retained {
        Some(retained) => if !same_text(retained, signed) {
            Err("retained Liquid wallet claim differs from the verified exit".to_owned())
        } else {
            Ok(())
        },
        None => Ok(()),
    }
}

/// Checks the end of a claim by the wallet on Liquid: what was signed, recorded and stored is what
/// the node took.
pub fn check_wallet_claim(
    retained: Option<&str>,
    signed: &str,
    broadcast_id: &str,
    recorded_id: &str,
    stored: &str,
    parsed: &Result<Vec<u8>, String>,
) -> (checked: Result<(), String>)
    ensures
        told(checked) == wallet_claim_reading(
            crate::text::maybe_str(retained),
            signed@,
            broadcast_id@,
            recorded_id@,
            stored@,
            *parsed,
        ),
{
    check_retained_claim(retained, signed)?;
    if !same_text(recorded_id, broadcast_id) {
        return Err("recorded Liquid broadcast effect differs from elementsd".to_owned());
    }
    let _raw: Vec<u8> = decode_hex(stored)?;
    match parsed {
        Err(message) => Err(join("signed Liquid wallet claim is invalid: ", message.as_str())),
        Ok(id) => if !same_text(lower_hex(id.as_slice()).as_str(), broadcast_id) {
            Err("elementsd accepted another Liquid wallet claim".to_owned())
        } else {
            Ok(())
        },
    }
}

/// A settlement transaction is found on both Bitcoin nodes exactly where both report the same
/// hexadecimal text and that text reads as the transaction that was looked for; it is waited for
/// exactly as long as a node that answered does not know it and time is left.
pub proof fn law_propagation_is_agreed_by_both_nodes(
    first: NodeReply,
    second: NodeReply,
    parsed: Result<ParsedTransaction, String>,
    transaction_id: Seq<char>,
    expired: bool,
)
    ensures
        ({
            let read = propagation_reading(first, second, parsed, transaction_id, expired);
            let left = node_reading(first, 0);
            let right = node_reading(second, 1);
            let id = shown_id(
                parsed,
                "propagated settlement transaction is invalid: "@,
                "settlement transaction txid failed: "@,
            );
            &&& read == Ok::<bool, Seq<char>>(true) <==> {
                &&& left is Ok && left->Ok_0 is Some
                &&& right is Ok && right->Ok_0 == left->Ok_0
                &&& hex_reading(left->Ok_0->0) is Ok
                &&& id == Ok::<Seq<char>, Seq<char>>(transaction_id)
            }
            &&& read == Ok::<bool, Seq<char>>(false) <==> {
                &&& !expired
                &&& left is Ok
                &&& left->Ok_0 is None || (right is Ok && right->Ok_0 is None)
            }
        }),
{
}

/// What a Bitcoin node says of a transaction is the text that it was answered with; a node that does not
/// know it says nothing, and one that failed or answered with anything else is refused.
pub proof fn law_node_answers_with_a_text(reply: NodeReply, index: nat)
    ensures
        ({
            let read = node_reading(reply, index);
            match reply {
                NodeReply::Found(document) => {
                    &&& read is Ok <==> document@ is Text
                    &&& read is Ok ==> read->Ok_0 == Some(document@->Text_0)
                },
                NodeReply::Missing => read is Ok && read->Ok_0 is None,
                NodeReply::Failed(_) => read is Err,
            }
        }),
{
}

} // verus!
