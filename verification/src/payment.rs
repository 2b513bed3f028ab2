//! Payments over Lightning as the requester's node lists them.

use vstd::prelude::*;
use crate::contract::find_place;
use crate::hex::{is_lower_hex_32, require_lower_hex_32};
use crate::json::{Json, JsonView, items_of, items_view, lemma_items_view, member, member_text};
use crate::record::{lemma_filter_empty, lemma_filter_step};
use crate::text::{join, same_text, told};

verus! {

/// A payment as the node reports it, its amounts in thousandths of a satoshi.
pub struct PaymentResult {
    pub payment_hash: String,
    pub status: String,
    pub amount_msat: u64,
    pub amount_sent_msat: u64,
}

/// What a payment is.
#[verifier::ext_equal]
pub struct PaymentResultView {
    pub payment_hash: Seq<char>,
    pub status: Seq<char>,
    pub amount_msat: u64,
    pub amount_sent_msat: u64,
}

impl View for PaymentResult {
    type V = PaymentResultView;

    open spec fn view(&self) -> PaymentResultView {
        PaymentResultView {
            payment_hash: self.payment_hash@,
            status: self.status@,
            amount_msat: self.amount_msat,
            amount_sent_msat: self.amount_sent_msat,
        }
    }
}

/// The payments that a node lists.
pub open spec fn listed_payments(response: JsonView) -> Option<Seq<JsonView>> {
    items_of(member(response, "pays"@))
}

/// The entries of a payment.
pub open spec fn of_payment(hash: Seq<char>) -> spec_fn(JsonView) -> bool {
    |entry: JsonView| member_text(entry, "payment_hash"@) == Some(hash)
}

fn find_payments<'a>(response: &'a Json) -> (payments: Option<&'a Vec<Json>>)
    ensures
        match payments {
            Some(payments) => listed_payments(response@) == Some(items_view(payments@)),
            None => listed_payments(response@) is None,
        },
{
    match response.get("pays") {
        Some(value) => value.as_array(),
        None => None,
    }
}

fn count_payments(entries: &Vec<Json>, hash: &str) -> (count: usize)
    ensures
        count == items_view(entries@).filter(of_payment(hash@)).len(),
        count <= entries@.len(),
{
    let ghost views = items_view(entries@);
    let ghost keep = of_payment(hash@);
    let mut count: usize = 0;
    let mut i: usize = 0;
    proof {
        lemma_items_view(entries@);
        lemma_filter_empty(views, keep);
    }
    while i < entries.len()
        invariant
            i <= entries@.len(),
            views == items_view(entries@),
            views.len() == entries@.len(),
            keep == of_payment(hash@),
            forall|j: int| 0 <= j < entries@.len() ==> #[trigger] views[j] == entries@[j]@,
            count <= i,
            count == views.subrange(0, i as int).filter(keep).len(),
        decreases entries@.len() - i,
    {
        proof {
            lemma_filter_step(views, keep, i as int);
            assert(views[i as int] == entries@[i as int]@);
        }
        if entries[i].says("payment_hash", hash) {
            count = count + 1;
        }
        i = i + 1;
    }
    assert(views.subrange(0, i as int) =~= views);
    count
}

/// What a list of payments reads as: how many it has, and how many are of one payment.
pub open spec fn entries_reading(response: JsonView, hash: Seq<char>) -> Result<
    (nat, nat),
    Seq<char>,
> {
    match listed_payments(response) {
        None => Err("CLN listpays response has no pays array"@),
        Some(entries) => Ok((entries.len(), entries.filter(of_payment(hash)).len())),
    }
}

/// What a list of payments reads as: it can be had exactly where every part that it rests on can,
/// and each part of it is the one that its name says.
pub proof fn law_entries_is_read_from_its_parts(response: JsonView, hash: Seq<char>)
    ensures
        ({
            let read = entries_reading(response, hash);
            let entries = listed_payments(response)->0;
            let given = read->Ok_0;
            &&& read is Ok <==> {
                &&& listed_payments(response) is Some
            }
            &&& read is Ok ==> {
                &&& given.0 == entries.len()
                &&& given.1 == entries.filter(of_payment(hash)).len()
            }
        }),
{
}

/// How many payments a node lists, and how many of them are of one payment.
pub fn payment_entries(response: &Json, payment_hash: &str) -> (counted: Result<
    (usize, usize),
    String,
>)
    ensures
        (match counted {
            Ok((total, matching)) => Ok((total as nat, matching as nat)),
            Err(message) => Err(message@),
        }) == entries_reading(response@, payment_hash@),
{
    match find_payments(response) {
        None => Err("CLN listpays response has no pays array".to_owned()),
        Some(entries) => {
            proof {
                lemma_items_view(entries@);
            }
            Ok((entries.len(), count_payments(entries, payment_hash)))
        },
    }
}

/// Whether a payment was tried already: nothing else is listed and it is listed at most once.
pub open spec fn tried_reading(response: JsonView, hash: Seq<char>) -> Result<bool, Seq<char>> {
    match entries_reading(response, hash) {
        Err(message) => Err(message),
        Ok((total, matching)) => if total != matching {
            Err("peer CLN returned another payment for the bound invoice"@)
        } else if matching > 1 {
            Err("peer CLN reports multiple attempts for one bound payment"@)
        } else {
            Ok(matching == 1)
        },
    }
}

/// Whether a payment was tried already: it can be had exactly where every part that it rests on
/// can, and each part of it is the one that its name says.
pub proof fn law_tried_is_read_from_its_parts(response: JsonView, hash: Seq<char>)
    ensures
        ({
            let read = tried_reading(response, hash);
            let matching = entries_reading(response, hash)->Ok_0.1;
            let given = read->Ok_0;
            &&& read is Ok <==> {
                &&& entries_reading(response, hash) is Ok
                &&& entries_reading(response, hash)->Ok_0.0 == matching
                &&& matching <= 1
            }
            &&& read is Ok ==> {
                &&& given == (matching == 1)
            }
        }),
{
}

/// Whether a payment was tried already, so that it is observed instead of paid again.
pub fn payment_was_tried(response: &Json, payment_hash: &str) -> (tried: Result<bool, String>)
    ensures
        told(tried) == tried_reading(response@, payment_hash@),
{
    let (total, matching) = payment_entries(response, payment_hash)?;
    if total != matching {
        return Err("peer CLN returned another payment for the bound invoice".to_owned());
    }
    if matching > 1 {
        return Err("peer CLN reports multiple attempts for one bound payment".to_owned());
    }
    Ok(matching == 1)
}

/// A payment that was never tried is paid, and one that was tried is never paid a second time.
pub proof fn law_paid_at_most_once(response: JsonView, hash: Seq<char>)
    requires
        tried_reading(response, hash) is Ok,
    ensures
        tried_reading(response, hash)->Ok_0 == (listed_payments(response)->0.len() == 1),
        !tried_reading(response, hash)->Ok_0 ==> listed_payments(response)->0.len() == 0,
{
}

/// What the state of a payment that was tried reads as: whether it is complete.
pub open spec fn observed_reading(response: JsonView, hash: Seq<char>) -> Result<bool, Seq<char>> {
    match tried_reading(response, hash) {
        Err(message) => Err(message),
        Ok(tried) => if !tried {
            Ok(false)
        } else {
            let status = member_text(
                listed_payments(response)->0.filter(of_payment(hash))[0],
                "status"@,
            );
            if status == Some("complete"@) {
                Ok(true)
            } else if status == Some("failed"@) {
                Err("reverse payment reached failed state"@)
            } else if status == Some("pending"@) {
                Ok(false)
            } else {
                Err("peer CLN returned an invalid payment status"@)
            }
        },
    }
}

/// What the state of a payment that was tried reads as: it can be had exactly where every part that
/// it rests on can, and each part of it is the one that its name says.
pub proof fn law_observed_is_read_from_its_parts(response: JsonView, hash: Seq<char>)
    ensures
        ({
            let read = observed_reading(response, hash);
            let tried = tried_reading(response, hash)->Ok_0;
            let status = member_text(
                listed_payments(response)->0.filter(of_payment(hash))[0],
                "status"@,
            );
            let given = read->Ok_0;
            let case_1 = !tried;
            let case_2 = {
                &&& tried
                &&& status == Some("complete"@)
            };
            let case_3 = {
                &&& tried
                &&& status != Some("complete"@)
                &&& status != Some("failed"@)
                &&& status == Some("pending"@)
            };
            &&& read is Ok <==> {
                &&& tried_reading(response, hash) is Ok
                &&& case_1 || case_2 || case_3
            }
            &&& read is Ok && case_1 ==> {
                &&& !given
            }
            &&& read is Ok && case_2 ==> {
                &&& given
            }
            &&& read is Ok && case_3 ==> {
                &&& !given
            }
        }),
{
}

/// The entry of a payment in a list, where it is the only one.
pub fn payment_entry<'a>(response: &'a Json, payment_hash: &str) -> (entry: Option<&'a Json>)
    ensures
        match entry {
            Some(entry) => {
                &&& listed_payments(response@) is Some
                &&& listed_payments(response@)->0.filter(of_payment(payment_hash@)).len() == 1
                &&& listed_payments(response@)->0.filter(of_payment(payment_hash@))[0] == entry@
            },
            None => listed_payments(response@) is None || listed_payments(response@)->0.filter(
                of_payment(payment_hash@),
            ).len() != 1,
        },
{
    match find_payments(response) {
        None => None,
        Some(entries) => {
            if count_payments(entries, payment_hash) != 1 {
                return None;
            }
            let ghost views = items_view(entries@);
            let ghost keep = of_payment(payment_hash@);
            match find_place(entries, "payment_hash", payment_hash) {
                Some(i) => {
                    proof {
                        lemma_items_view(entries@);
                        lemma_first_kept(views, keep, i as int);
                    }
                    Some(&entries[i])
                },
                None => {
                    proof {
                        lemma_items_view(entries@);
                        lemma_none_kept(views, keep);
                    }
                    None
                },
            }
        },
    }
}

proof fn lemma_none_kept(items: Seq<JsonView>, keep: spec_fn(JsonView) -> bool)
    requires
        forall|j: int| 0 <= j < items.len() ==> !keep(#[trigger] items[j]),
    ensures
        items.filter(keep).len() == 0,
    decreases items.len(),
{
    reveal(Seq::filter);
    if items.len() > 0 {
        assert(!keep(items[items.len() - 1]));
        let front = items.drop_last();
        assert forall|j: int| 0 <= j < front.len() implies !keep(#[trigger] front[j]) by {
            assert(!keep(items[j]));
        }
        lemma_none_kept(front, keep);
    }
}

proof fn lemma_first_kept(items: Seq<JsonView>, keep: spec_fn(JsonView) -> bool, place: int)
    requires
        0 <= place < items.len(),
        keep(items[place]),
        forall|j: int| 0 <= j < place ==> !keep(#[trigger] items[j]),
    ensures
        items.filter(keep).len() > 0,
        items.filter(keep)[0] == items[place],
    decreases items.len(),
{
    reveal(Seq::filter);
    let front = items.drop_last();
    if place < items.len() - 1 {
        assert forall|j: int| 0 <= j < place implies !keep(#[trigger] front[j]) by {
            assert(!keep(items[j]));
        }
        lemma_first_kept(front, keep, place);
    } else {
        assert forall|j: int| 0 <= j < front.len() implies !keep(#[trigger] front[j]) by {
            assert(!keep(items[j]));
        }
        lemma_none_kept(front, keep);
    }
}

/// Whether a payment that was tried is complete.
pub fn observe_payment(response: &Json, payment_hash: &str) -> (complete: Result<bool, String>)
    ensures
        told(complete) == observed_reading(response@, payment_hash@),
{
    let tried: bool = payment_was_tried(response, payment_hash)?;
    if !tried {
        return Ok(false);
    }
    match payment_entry(response, payment_hash) {
        Some(entry) => {
            if entry.says("status", "complete") {
                Ok(true)
            } else if entry.says("status", "failed") {
                Err("reverse payment reached failed state".to_owned())
            } else if entry.says("status", "pending") {
                Ok(false)
            } else {
                Err("peer CLN returned an invalid payment status".to_owned())
            }
        },
        None => Ok(false),
    }
}

/// Whether a text is a status that a payment can have.
pub open spec fn is_payment_status(status: Seq<char>) -> bool {
    status == "complete"@ || status == "pending"@ || status == "failed"@
}

/// An amount that was parsed, or why it could not be.
pub open spec fn amount_view(amount: Result<u64, String>) -> Result<u64, Seq<char>> {
    match amount {
        Ok(amount) => Ok(amount),
        Err(message) => Err(message@),
    }
}

/// An amount that was parsed, or why it could not be: it can be had exactly where every part that
/// it rests on can, and each part of it is the one that its name says.
pub proof fn law_amount_view_is_read_from_its_parts(amount: Result<u64, String>)
    ensures
        ({
            let read = amount_view(amount);
            let given = read->Ok_0;
            &&& read is Ok <==> {
                &&& amount is Ok
            }
            &&& read is Ok ==> {
                &&& given == amount->Ok_0
            }
        }),
{
}

/// What an entry of a payment reads as.
pub open spec fn payment_reading(
    entry: JsonView,
    amount: Result<u64, Seq<char>>,
    amount_sent: Result<u64, Seq<char>>,
) -> Result<PaymentResultView, Seq<char>> {
    match member_text(entry, "payment_hash"@) {
        None => Err("CLN payment has no payment hash"@),
        Some(hash) => if !is_lower_hex_32(hash) {
            Err("CLN payment hash"@ + " is not lowercase 32-byte hex"@)
        } else {
            match member_text(entry, "status"@) {
                Some(status) if is_payment_status(status) => if member(entry, "amount_msat"@) is None {
                    Err("CLN payment has no amount"@)
                } else {
                    match amount {
                        Err(message) => Err("CLN payment amount is invalid: "@ + message),
                        Ok(amount) => if member(entry, "amount_sent_msat"@) is None {
                            Err("CLN payment has no sent amount"@)
                        } else {
                            match amount_sent {
                                Err(message) => Err(
                                    "CLN payment sent amount is invalid: "@ + message,
                                ),
                                Ok(sent) => if sent < amount {
                                    Err("CLN payment sent amount is below its delivered amount"@)
                                } else {
                                    Ok(
                                        PaymentResultView {
                                            payment_hash: hash,
                                            status,
                                            amount_msat: amount,
                                            amount_sent_msat: sent,
                                        },
                                    )
                                },
                            }
                        },
                    }
                },
                _ => Err("CLN payment has an invalid status"@),
            }
        },
    }
}

/// What an entry of a payment reads as: it can be had exactly where every part that it rests on
/// can, and each part of it is the one that its name says.
pub proof fn law_payment_is_read_from_its_parts(
    entry: JsonView,
    amount: Result<u64, Seq<char>>,
    amount_sent: Result<u64, Seq<char>>,
)
    ensures
        ({
            let read = payment_reading(entry, amount, amount_sent);
            let hash = member_text(entry, "payment_hash"@)->0;
            let status = member_text(entry, "status"@)->0;
            let read_amount = amount->Ok_0;
            let sent = amount_sent->Ok_0;
            let given = read->Ok_0;
            &&& read is Ok <==> {
                &&& member_text(entry, "payment_hash"@) is Some
                &&& is_lower_hex_32(hash)
                &&& member_text(entry, "status"@) is Some
                &&& is_payment_status(status)
                &&& member(entry, "amount_msat"@) is Some
                &&& amount is Ok
                &&& member(entry, "amount_sent_msat"@) is Some
                &&& amount_sent is Ok
                &&& sent >= read_amount
            }
            &&& read is Ok ==> {
                &&& given.payment_hash == hash
                &&& given.status == status
                &&& given.amount_msat == read_amount
                &&& given.amount_sent_msat == sent
            }
        }),
{
}

/// The payment that an entry reports. The amounts are those of its members, parsed.
pub fn parse_payment_result(
    value: &Json,
    amount: &Result<u64, String>,
    amount_sent: &Result<u64, String>,
) -> (payment: Result<PaymentResult, String>)
    ensures
        (match payment {
            Ok(payment) => Ok(payment@),
            Err(message) => Err(message@),
        }) == payment_reading(value@, amount_view(*amount), amount_view(*amount_sent)),
{
    let hash: &str = match value.text_at("payment_hash") {
        Some(hash) => hash,
        None => {
            return Err("CLN payment has no payment hash".to_owned());
        },
    };
    require_lower_hex_32(hash, "CLN payment hash")?;
    let status: &str = match value.text_at("status") {
        Some(status) if same_text(status, "complete") || same_text(status, "pending") || same_text(
            status,
            "failed",
        ) => status,
        _ => {
            return Err("CLN payment has an invalid status".to_owned());
        },
    };
    if value.get("amount_msat").is_none() {
        return Err("CLN payment has no amount".to_owned());
    }
    let amount_msat: u64 = match amount {
        Ok(amount) => *amount,
        Err(message) => {
            return Err(join("CLN payment amount is invalid: ", message.as_str()));
        },
    };
    if value.get("amount_sent_msat").is_none() {
        return Err("CLN payment has no sent amount".to_owned());
    }
    let amount_sent_msat: u64 = match amount_sent {
        Ok(amount) => *amount,
        Err(message) => {
            return Err(join("CLN payment sent amount is invalid: ", message.as_str()));
        },
    };
    if amount_sent_msat < amount_msat {
        return Err("CLN payment sent amount is below its delivered amount".to_owned());
    }
    Ok(
        PaymentResult {
            payment_hash: hash.to_owned(),
            status: status.to_owned(),
            amount_msat,
            amount_sent_msat,
        },
    )
}

/// Whether a payment that is waited for has come far enough.
pub open spec fn has_come(payment: PaymentResultView, terminal: bool) -> bool {
    !terminal || payment.status == "complete"@ || payment.status == "failed"@
}

/// What one look at the list of payments shows to someone who waits for a payment.
pub open spec fn waited_reading(
    response: JsonView,
    hash: Seq<char>,
    amount: Result<u64, Seq<char>>,
    amount_sent: Result<u64, Seq<char>>,
    terminal: bool,
) -> Result<Option<PaymentResultView>, Seq<char>> {
    let matching = match listed_payments(response) {
        Some(entries) => entries.filter(of_payment(hash)),
        None => Seq::empty(),
    };
    if matching.len() > 1 {
        Err("doomsday payment has multiple matching attempts"@)
    } else if matching.len() == 0 {
        Ok(None)
    } else {
        match payment_reading(matching[0], amount, amount_sent) {
            Err(message) => Err(message),
            Ok(payment) => if has_come(payment, terminal) {
                Ok(Some(payment))
            } else {
                Ok(None)
            },
        }
    }
}

/// What one look at the list of payments shows to someone who waits for a payment: it can be had
/// exactly where every part that it rests on can, and each part of it is the one that its name
/// says.
pub proof fn law_waited_is_read_from_its_parts(
    response: JsonView,
    hash: Seq<char>,
    amount: Result<u64, Seq<char>>,
    amount_sent: Result<u64, Seq<char>>,
    terminal: bool,
)
    ensures
        ({
            let read = waited_reading(response, hash, amount, amount_sent, terminal);
            let matching = (
                match listed_payments(response) {
                    Some(entries) => entries.filter(of_payment(hash)), None => Seq::empty(),
                }
            );
            let payment = payment_reading(matching[0], amount, amount_sent)->Ok_0;
            let given = read->Ok_0;
            let case_1 = matching.len() == 0;
            let case_2 = {
                &&& matching.len() != 0
                &&& payment_reading(matching[0], amount, amount_sent) is Ok
                &&& has_come(payment, terminal)
            };
            let case_3 = {
                &&& matching.len() != 0
                &&& payment_reading(matching[0], amount, amount_sent) is Ok
                &&& !(has_come(payment, terminal))
            };
            &&& read is Ok <==> {
                &&& matching.len() <= 1
                &&& case_1 || case_2 || case_3
            }
            &&& read is Ok && case_1 ==> {
                &&& given is None
            }
            &&& read is Ok && case_2 ==> {
                &&& given == Some(payment)
            }
            &&& read is Ok && case_3 ==> {
                &&& given is None
            }
        }),
{
}

/// One look at the list of payments by someone who waits for a payment. The amounts are those of
/// the entry of the payment, parsed.
pub fn wait_for_lightning_payment_status(
    response: &Json,
    payment_hash: &str,
    amount: &Result<u64, String>,
    amount_sent: &Result<u64, String>,
    terminal: bool,
) -> (seen: Result<Option<PaymentResult>, String>)
    ensures
        (match seen {
            Ok(Some(payment)) => Ok(Some(payment@)),
            Ok(None) => Ok(None),
            Err(message) => Err(message@),
        }) == waited_reading(
            response@,
            payment_hash@,
            amount_view(*amount),
            amount_view(*amount_sent),
            terminal,
        ),
{
    let count: usize = match find_payments(response) {
        Some(entries) => count_payments(entries, payment_hash),
        None => 0,
    };
    if count > 1 {
        return Err("doomsday payment has multiple matching attempts".to_owned());
    }
    if count == 0 {
        return Ok(None);
    }
    match payment_entry(response, payment_hash) {
        Some(entry) => {
            let payment: PaymentResult = parse_payment_result(entry, amount, amount_sent)?;
            if !terminal || same_text(payment.status.as_str(), "complete") || same_text(
                payment.status.as_str(),
                "failed",
            ) {
                Ok(Some(payment))
            } else {
                Ok(None)
            }
        },
        None => Ok(None),
    }
}

/// What the removal of an unpaid invoice reads as.
pub open spec fn removal_reading(deleted: JsonView, remaining: JsonView, hash: Seq<char>) -> Result<
    (),
    Seq<char>,
> {
    if member_text(deleted, "payment_hash"@) != Some(hash) || member_text(deleted, "status"@)
        != Some("unpaid"@) {
        Err("deleted requester invoice differs from the exact unpaid invoice"@)
    } else {
        match items_of(member(remaining, "invoices"@)) {
            Some(invoices) if invoices.len() == 0 => Ok(()),
            _ => Err("requester invoice remained payable after unpaid finalization"@),
        }
    }
}

/// What the removal of an unpaid invoice reads as: it holds exactly where every one of these
/// conditions does.
pub proof fn law_removal_holds_by_its_parts(deleted: JsonView, remaining: JsonView, hash: Seq<char>)
    ensures
        ({
            let read = removal_reading(deleted, remaining, hash);
            &&& read is Ok <==> {
                &&& member_text(deleted, "payment_hash"@) == Some(hash)
                &&& member_text(deleted, "status"@) == Some("unpaid"@)
                &&& items_of(member(remaining, "invoices"@)) is Some
                &&& items_of(member(remaining, "invoices"@))->0.len() == 0
            }
        }),
{
}

/// Checks that an invoice was removed unpaid and is listed no more.
pub fn finalize_invoice_unpaid(deleted: &Json, remaining: &Json, payment_hash: &str) -> (checked:
    Result<(), String>)
    ensures
        told(checked) == removal_reading(deleted@, remaining@, payment_hash@),
{
    if !deleted.says("payment_hash", payment_hash) || !deleted.says("status", "unpaid") {
        return Err("deleted requester invoice differs from the exact unpaid invoice".to_owned());
    }
    let gone: bool = match remaining.get("invoices") {
        Some(value) => match value.as_array() {
            Some(invoices) => {
                proof {
                    lemma_items_view(invoices@);
                }
                invoices.len() == 0
            },
            None => false,
        },
        None => false,
    };
    if gone {
        Ok(())
    } else {
        Err("requester invoice remained payable after unpaid finalization".to_owned())
    }
}

/// A payment that is waited for to its end has come only once it is no longer pending; one that is not
/// has come at once.
pub proof fn law_ended_payment_is_not_pending(payment: PaymentResultView)
    ensures
        has_come(payment, false),
        has_come(payment, true) ==> payment.status != "pending"@,
        is_payment_status(payment.status) && payment.status != "pending"@ ==> has_come(
            payment,
            true,
        ),
{
    reveal_strlit("complete");
    reveal_strlit("pending");
    reveal_strlit("failed");
    assert("complete"@.len() == 8);
    assert("pending"@.len() == 7);
    assert("failed"@.len() == 6);
}

} // verus!
