//! Broadcasting a refund without any key: the request, its checks and its result.

use vstd::prelude::*;
use vstd::string::*;
use vstd::utf8::*;
use crate::control::{said, told_json};
use crate::hex::{all_nibbles, is_lower_hex_32, nibble, require_lower_hex_32};
use crate::http::{EsploraBroadcastRequest, endpoint_reading, parse_loopback_http_url};
use crate::json::{
    Json, JsonObject, JsonView, bool_of, complete_by, member, member_text, members_of, name_views,
    no_members, text_doc,
};
use crate::terminal::{ParsedTransaction, show_id, shown_id};
use crate::text::{
    contains_text, has_prefix, holds_text, join, maybe_str, same_text, starts_with, told, utf8_text,
};

verus! {

/// The most bytes that a keyless document may have.
pub const DOOMSDAY_KEYLESS_MAX_BYTES: usize = 65_536;

/// Whether a name of the environment looks like that of a credential.
pub open spec fn is_credential_name(name: Seq<char>) -> bool {
    ||| holds_text(name, "PASSWORD"@)
    ||| holds_text(name, "MACAROON"@)
    ||| holds_text(name, "PREIMAGE"@)
    ||| holds_text(name, "PRIVATE_KEY"@)
    ||| holds_text(name, "REFUND_KEY"@)
    ||| holds_text(name, "CLAIM_KEY"@)
    ||| holds_text(name, "SEED"@)
    ||| holds_text(name, "RPC_USER"@)
    ||| holds_text(name, "RPC_PASSWORD"@)
    ||| holds_text(name, "IDENTITY_SECRET"@)
    ||| holds_text(name, "WALLET"@)
}

fn credential_name(name: &str) -> (is: bool)
    ensures
        is == is_credential_name(name@),
{
    contains_text(name, "PASSWORD") || contains_text(name, "MACAROON") || contains_text(
        name,
        "PREIMAGE",
    ) || contains_text(name, "PRIVATE_KEY") || contains_text(name, "REFUND_KEY") || contains_text(
        name,
        "CLAIM_KEY",
    ) || contains_text(name, "SEED") || contains_text(name, "RPC_USER") || contains_text(
        name,
        "RPC_PASSWORD",
    ) || contains_text(name, "IDENTITY_SECRET") || contains_text(name, "WALLET")
}

/// What the names of an environment read as: each is free of credentials, or the first that is not
/// is named. A name that is no text stands as nothing.
pub open spec fn environment_reading(names: Seq<Option<String>>) -> Result<(), Seq<char>>
    decreases names.len(),
{
    if names.len() == 0 {
        Ok(())
    } else {
        match names[0] {
            None => Err("keyless process environment name is not Unicode"@),
            Some(name) => if is_credential_name(name@) {
                Err(
                    "keyless process environment contains forbidden credential-shaped variable "@
                        + name@,
                )
            } else {
                environment_reading(names.drop_first())
            },
        }
    }
}

/// Checks that no variable of the environment looks like a credential. A name that is no text
/// stands as nothing.
pub fn reject_keyless_process_credentials(names: &Vec<Option<String>>) -> (checked: Result<
    (),
    String,
>)
    ensures
        told(checked) == environment_reading(names@),
{
    let mut i: usize = 0;
    assert(names@.subrange(0, names@.len() as int) =~= names@);
    while i < names.len()
        invariant
            i <= names@.len(),
            environment_reading(names@) == environment_reading(
                names@.subrange(i as int, names@.len() as int),
            ),
        decreases names@.len() - i,
    {
        let ghost rest = names@.subrange(i as int, names@.len() as int);
        assert(rest[0] == names@[i as int]);
        assert(rest.drop_first() =~= names@.subrange(i + 1, names@.len() as int));
        match &names[i] {
            None => {
                return Err("keyless process environment name is not Unicode".to_owned());
            },
            Some(name) => {
                if credential_name(name.as_str()) {
                    return Err(
                        join(
                            "keyless process environment contains forbidden credential-shaped variable ",
                            name.as_str(),
                        ),
                    );
                }
            },
        }
        i = i + 1;
    }
    Ok(())
}

/// An environment passes only where none of its names looks like that of a credential.
pub proof fn law_no_credentials_pass(names: Seq<Option<String>>, place: int)
    requires
        environment_reading(names) is Ok,
        0 <= place < names.len(),
    ensures
        names[place] is Some,
        !is_credential_name(names[place]->0@),
    decreases names.len(),
{
    if place > 0 {
        law_no_credentials_pass(names.drop_first(), place - 1);
    }
}

/// Whether a body is transaction bytes in lowercase hexadecimal, within its bound.
pub open spec fn is_transaction_body(body: Seq<char>) -> bool {
    let bytes = encode_utf8(body);
    0 < bytes.len() <= DOOMSDAY_KEYLESS_MAX_BYTES && bytes.len() % 2 == 0 && all_nibbles(bytes)
}

/// What a keyless request reads as.
pub open spec fn keyless_request_reading(
    request: EsploraBroadcastRequest,
    transaction_id: Seq<char>,
    parsed: Result<ParsedTransaction, String>,
) -> Result<(), Seq<char>> {
    if request.method@ != "POST"@ || request.content_type@ != "text/plain"@ || encode_utf8(
        request.effect_id@,
    ).len() != 64 {
        Err("keyless request method, content type, or effect ID is invalid"@)
    } else if !is_lower_hex_32(request.effect_id@) {
        Err("keyless effect ID"@ + " is not lowercase 32-byte hex"@)
    } else if !is_transaction_body(request.body@) {
        Err("keyless request body is not bounded lowercase transaction hex"@)
    } else {
        match shown_id(
            parsed,
            "keyless request body is not a transaction: "@,
            "could not derive keyless transaction ID: "@,
        ) {
            Err(message) => Err(message),
            Ok(derived) => if derived != transaction_id {
                Err("keyless request transaction ID is non-canonical"@)
            } else {
                match endpoint_reading(request.url@) {
                    Err(message) => Err(message),
                    Ok((authority, path)) => if path != "/api/tx"@ || !has_prefix(
                        authority,
                        "127.0.0.1:"@,
                    ) {
                        Err("keyless request URL is not the configured loopback Esplora path"@)
                    } else {
                        Ok(())
                    },
                }
            },
        }
    }
}

/// What a keyless request reads as: it holds exactly where every one of these conditions does.
pub proof fn law_keyless_request_holds_by_its_parts(
    request: EsploraBroadcastRequest,
    transaction_id: Seq<char>,
    parsed: Result<ParsedTransaction, String>,
)
    ensures
        ({
            let read = keyless_request_reading(request, transaction_id, parsed);
            &&& read is Ok <==> {
                &&& request.method@ == "POST"@
                &&& request.content_type@ == "text/plain"@
                &&& encode_utf8(request.effect_id@).len() == 64
                &&& is_lower_hex_32(request.effect_id@)
                &&& is_transaction_body(request.body@)
                &&& shown_id(
                    parsed,
                    "keyless request body is not a transaction: "@,
                    "could not derive keyless transaction ID: "@,
                ) is Ok
                &&& shown_id(
                    parsed,
                    "keyless request body is not a transaction: "@,
                    "could not derive keyless transaction ID: "@,
                )->Ok_0 == transaction_id
                &&& endpoint_reading(request.url@) is Ok
                &&& endpoint_reading(request.url@)->Ok_0.1 == "/api/tx"@
                &&& has_prefix(endpoint_reading(request.url@)->Ok_0.0, "127.0.0.1:"@)
            }
        }),
{
}

fn transaction_body(body: &str) -> (is: bool)
    ensures
        is == is_transaction_body(body@),
{
    let bytes: &[u8] = body.as_bytes();
    if bytes.len() == 0 || bytes.len() > DOOMSDAY_KEYLESS_MAX_BYTES || bytes.len() % 2 != 0 {
        return false;
    }
    let mut i: usize = 0;
    while i < bytes.len()
        invariant
            i <= bytes@.len(),
            bytes@ == encode_utf8(body@),
            0 < bytes@.len() <= DOOMSDAY_KEYLESS_MAX_BYTES,
            bytes@.len() % 2 == 0,
            forall|j: int| 0 <= j < i ==> nibble(#[trigger] bytes@[j]) is Some,
        decreases bytes@.len() - i,
    {
        let byte: u8 = bytes[i];
        if !((48 <= byte && byte <= 57) || (97 <= byte && byte <= 102)) {
            assert(nibble(bytes@[i as int]) is None);
            return false;
        }
        i = i + 1;
    }
    true
}

/// Checks a keyless request. `parsed` is the parsed transaction of its body.
pub fn validate_doomsday_keyless_http_request(
    request: &EsploraBroadcastRequest,
    transaction_id: &str,
    parsed: &Result<ParsedTransaction, String>,
) -> (checked: Result<(), String>)
    ensures
        told(checked) == keyless_request_reading(*request, transaction_id@, *parsed),
{
    if !same_text(request.method.as_str(), "POST") || !same_text(
        request.content_type.as_str(),
        "text/plain",
    ) || request.effect_id.as_str().as_bytes().len() != 64 {
        return Err("keyless request method, content type, or effect ID is invalid".to_owned());
    }
    require_lower_hex_32(request.effect_id.as_str(), "keyless effect ID")?;
    if !transaction_body(request.body.as_str()) {
        return Err("keyless request body is not bounded lowercase transaction hex".to_owned());
    }
    let derived: String = show_id(
        parsed,
        "keyless request body is not a transaction: ",
        "could not derive keyless transaction ID: ",
    )?;
    if !same_text(derived.as_str(), transaction_id) {
        return Err("keyless request transaction ID is non-canonical".to_owned());
    }
    let (authority, path) = parse_loopback_http_url(request.url.as_str())?;
    if !same_text(path.as_str(), "/api/tx") || !starts_with(authority.as_str(), "127.0.0.1:") {
        return Err("keyless request URL is not the configured loopback Esplora path".to_owned());
    }
    Ok(())
}

/// The document that a request is kept in.
pub open spec fn keyless_request_doc(transaction_id: Seq<char>, request: JsonView) -> JsonView {
    JsonView::Object(
        no_members().insert(
            "schema"@,
            text_doc("openagents.immortal.doomsday-keyless-request.v1"@),
        ).insert("transaction_id"@, text_doc(transaction_id)).insert("request"@, request),
    )
}

/// The document that a request is kept in: what stands under each of its names.
pub proof fn law_keyless_request_says_each_part_by_its_name(
    transaction_id: Seq<char>,
    request: JsonView,
)
    ensures
        ({
            let document = keyless_request_doc(transaction_id, request);
            &&& member_text(document, "schema"@) == Some(
                "openagents.immortal.doomsday-keyless-request.v1"@,
            )
            &&& member_text(document, "transaction_id"@) == Some(transaction_id)
            &&& member(document, "request"@) == Some(request)
        }),
{
    reveal_strlit("schema");
    reveal_strlit("transaction_id");
    reveal_strlit("request");
    assert("schema"@.len() == 6);
    assert("transaction_id"@.len() == 14);
    assert("request"@.len() == 7);
}

/// The document that a request is kept in.
pub fn keyless_request_document(transaction_id: &str, request: Json) -> (document: Json)
    ensures
        document@ == keyless_request_doc(transaction_id@, request@),
{
    Json::object(
        JsonObject::new().with_text(
            "schema",
            "openagents.immortal.doomsday-keyless-request.v1",
        ).with_text("transaction_id", transaction_id).with("request", request),
    )
}

/// What a kept request reads as: the transaction it broadcasts and the request itself.
pub open spec fn kept_request_reading(document: JsonView, custody: Option<Seq<char>>) -> Result<
    (Seq<char>, JsonView),
    Seq<char>,
> {
    if custody is Some {
        Err("keyless request contains custody material: "@ + custody->0)
    } else {
        match members_of(Some(document)) {
            Some(members) if complete_by(
                members,
                seq!["schema"@, "transaction_id"@, "request"@],
            ) => if said(members, "schema"@) != Some(
                "openagents.immortal.doomsday-keyless-request.v1"@,
            ) {
                Err("keyless request schema is unsupported"@)
            } else {
                match said(members, "transaction_id"@) {
                    None => Err("keyless request has no transaction ID"@),
                    Some(id) => if !is_lower_hex_32(id) {
                        Err("keyless transaction ID"@ + " is not lowercase 32-byte hex"@)
                    } else {
                        Ok((id, members["request"@]))
                    },
                }
            },
            _ => Err("keyless request has unknown or missing members"@),
        }
    }
}

/// What a kept request reads as: it can be had exactly where every part that it rests on can, and
/// each part of it is the one that its name says.
pub proof fn law_kept_request_is_read_from_its_parts(document: JsonView, custody: Option<Seq<char>>)
    ensures
        ({
            let read = kept_request_reading(document, custody);
            let members = members_of(Some(document))->0;
            let id = said(members, "transaction_id"@)->0;
            let given = read->Ok_0;
            &&& read is Ok <==> {
                &&& custody is None
                &&& members_of(Some(document)) is Some
                &&& complete_by(members, seq!["schema"@, "transaction_id"@, "request"@])
                &&& said(members, "schema"@) == Some("openagents.immortal.doomsday-keyless-request.v1"@)
                &&& said(members, "transaction_id"@) is Some
                &&& is_lower_hex_32(id)
            }
            &&& read is Ok ==> {
                &&& given.0 == id
                &&& given.1 == members["request"@]
            }
        }),
{
}

/// The transaction that a kept request broadcasts, and the request itself. `custody` is the finding
/// of the custody scan of the document, where it made one.
pub fn read_kept_request(document: &Json, custody: Option<&str>) -> (loaded: Result<
    (String, Json),
    String,
>)
    ensures
        (match loaded {
            Ok((id, request)) => Ok((id@, request@)),
            Err(message) => Err(message@),
        }) == kept_request_reading(document@, maybe_str(custody)),
{
    if let Some(finding) = custody {
        return Err(join("keyless request contains custody material: ", finding));
    }
    let names: Vec<&'static str> = vec!["schema", "transaction_id", "request"];
    assert(name_views(names@) =~= seq!["schema"@, "transaction_id"@, "request"@]);
    let members: &JsonObject = match document.as_object() {
        Some(members) => members,
        None => {
            return Err("keyless request has unknown or missing members".to_owned());
        },
    };
    if !members.is_complete(&names) {
        return Err("keyless request has unknown or missing members".to_owned());
    }
    if !members.says("schema", "openagents.immortal.doomsday-keyless-request.v1") {
        return Err("keyless request schema is unsupported".to_owned());
    }
    let id: &str = match members.text_at("transaction_id") {
        Some(id) => id,
        None => {
            return Err("keyless request has no transaction ID".to_owned());
        },
    };
    require_lower_hex_32(id, "keyless transaction ID")?;
    assert(seq!["schema"@, "transaction_id"@, "request"@][2] == "request"@);
    match members.get("request") {
        Some(request) => Ok((id.to_owned(), request.copy())),
        None => Err("keyless request has no HTTP request".to_owned()),
    }
}

/// What a file of limited size reads as: neither empty nor too long, text, and the document that
/// the parse which refuses repeated names makes of it.
pub open spec fn bounded_document_reading(
    name: Seq<char>,
    bytes: Seq<u8>,
    maximum: usize,
    unique: Result<JsonView, Seq<char>>,
) -> Result<JsonView, Seq<char>> {
    if bytes.len() == 0 || bytes.len() > maximum {
        Err(name + " is empty or exceeds its bound"@)
    } else if !valid_utf8(bytes) {
        Err(name + " is not UTF-8"@)
    } else {
        unique
    }
}

/// The document of a file of limited size. `unique` is what the parse which refuses repeated names
/// makes of the text of the file.
pub fn read_bounded_unique_json<'a>(
    name: &str,
    bytes: &[u8],
    maximum: usize,
    unique: &'a Result<Json, String>,
) -> (document: Result<&'a Json, String>)
    ensures
        (match document {
            Ok(document) => Ok(document@),
            Err(message) => Err(message@),
        }) == bounded_document_reading(name@, bytes@, maximum, told_json(*unique)),
{
    if bytes.len() == 0 || bytes.len() > maximum {
        return Err(join(name, " is empty or exceeds its bound"));
    }
    if utf8_text(bytes).is_none() {
        return Err(join(name, " is not UTF-8"));
    }
    match unique {
        Ok(document) => Ok(document),
        Err(message) => Err(message.as_str().to_owned()),
    }
}

/// What the file of a request reads as: the request, and the transaction that it broadcasts.
pub open spec fn loaded_request_reading(
    name: Seq<char>,
    bytes: Seq<u8>,
    unique: Result<JsonView, Seq<char>>,
    custody: Option<Seq<char>>,
    request: Result<EsploraBroadcastRequest, String>,
    parsed: Result<ParsedTransaction, String>,
) -> Result<(EsploraBroadcastRequest, Seq<char>), Seq<char>> {
    match bounded_document_reading(name, bytes, DOOMSDAY_KEYLESS_MAX_BYTES, unique) {
        Err(message) => Err(message),
        Ok(document) => match kept_request_reading(document, custody) {
            Err(message) => Err(message),
            Ok((id, _)) => match request {
                Err(message) => Err("keyless HTTP request is invalid: "@ + message@),
                Ok(request) => match keyless_request_reading(request, id, parsed) {
                    Err(message) => Err(message),
                    Ok(_) => Ok((request, id)),
                },
            },
        },
    }
}

/// What the file of a request reads as: it can be had exactly where every part that it rests on
/// can, and each part of it is the one that its name says.
pub proof fn law_loaded_request_is_read_from_its_parts(
    name: Seq<char>,
    bytes: Seq<u8>,
    unique: Result<JsonView, Seq<char>>,
    custody: Option<Seq<char>>,
    request: Result<EsploraBroadcastRequest, String>,
    parsed: Result<ParsedTransaction, String>,
)
    ensures
        ({
            let read = loaded_request_reading(name, bytes, unique, custody, request, parsed);
            let document = bounded_document_reading(
                name,
                bytes,
                DOOMSDAY_KEYLESS_MAX_BYTES,
                unique,
            )->Ok_0;
            let id = kept_request_reading(document, custody)->Ok_0.0;
            let read_request = request->Ok_0;
            let given = read->Ok_0;
            &&& read is Ok <==> {
                &&& bounded_document_reading(name, bytes, DOOMSDAY_KEYLESS_MAX_BYTES, unique) is Ok
                &&& kept_request_reading(document, custody) is Ok
                &&& request is Ok
                &&& keyless_request_reading(read_request, id, parsed) is Ok
            }
            &&& read is Ok ==> {
                &&& given.0 == read_request
                &&& given.1 == id
            }
        }),
{
}

/// The request that a file holds, and the transaction that it broadcasts. `unique` is what the
/// parse which refuses repeated names makes of the file, `custody` the finding of the custody scan
/// of that document where it made one, `request` what its member of that name decodes to, and
/// `parsed` the parsed transaction of the body.
pub fn load_doomsday_keyless_request(
    name: &str,
    bytes: &[u8],
    unique: &Result<Json, String>,
    custody: Option<&str>,
    request: Result<EsploraBroadcastRequest, String>,
    parsed: &Result<ParsedTransaction, String>,
) -> (loaded: Result<(EsploraBroadcastRequest, String), String>)
    ensures
        (match loaded {
            Ok((request, id)) => Ok((request, id@)),
            Err(message) => Err(message@),
        }) == loaded_request_reading(
            name@,
            bytes@,
            told_json(*unique),
            maybe_str(custody),
            request,
            *parsed,
        ),
{
    let document: &Json = read_bounded_unique_json(
        name,
        bytes,
        DOOMSDAY_KEYLESS_MAX_BYTES,
        unique,
    )?;
    let (id, _) = read_kept_request(document, custody)?;
    match request {
        Err(message) => Err(join("keyless HTTP request is invalid: ", message.as_str())),
        Ok(request) => {
            validate_doomsday_keyless_http_request(&request, id.as_str(), parsed)?;
            Ok((request, id))
        },
    }
}

/// A request that was loaded came from a file within its bound, free of repeated names, of custody
/// material and of unknown members, and passed every check for the transaction that the file names.
pub proof fn law_loaded_request_is_checked(
    name: Seq<char>,
    bytes: Seq<u8>,
    unique: Result<JsonView, Seq<char>>,
    custody: Option<Seq<char>>,
    request: Result<EsploraBroadcastRequest, String>,
    parsed: Result<ParsedTransaction, String>,
)
    requires
        loaded_request_reading(name, bytes, unique, custody, request, parsed) is Ok,
        unique->Ok_0->Object_0.dom().finite(),
    ensures
        0 < bytes.len() <= 65_536,
        valid_utf8(bytes),
        custody is None,
        unique matches Ok(JsonView::Object(_)),
        unique->Ok_0->Object_0.dom() == set!["schema"@, "transaction_id"@, "request"@],
        ({
            let (loaded, id) = loaded_request_reading(
                name,
                bytes,
                unique,
                custody,
                request,
                parsed,
            )->Ok_0;
            &&& request == Ok::<EsploraBroadcastRequest, String>(loaded)
            &&& member_text(unique->Ok_0, "transaction_id"@) == Some(id)
            &&& keyless_request_reading(loaded, id, parsed) is Ok
        }),
{
    let members = unique->Ok_0->Object_0;
    let names = seq!["schema"@, "transaction_id"@, "request"@];
    reveal_strlit("schema");
    reveal_strlit("transaction_id");
    reveal_strlit("request");
    assert("schema"@.len() == 6 && "transaction_id"@.len() == 14 && "request"@.len() == 7);
    assert(members.dom().contains(names[0]));
    assert(members.dom().contains(names[1]));
    assert(members.dom().contains(names[2]));
    let expected = set!["schema"@, "transaction_id"@, "request"@];
    assert(expected.len() == 3);
    assert(expected.subset_of(members.dom()));
    vstd::set_lib::lemma_subset_equality(expected, members.dom());
}

/// A request that was kept is read back as it was, for a transaction that has an identifier.
pub proof fn law_kept_request_reads_back(transaction_id: Seq<char>, request: JsonView)
    requires
        is_lower_hex_32(transaction_id),
    ensures
        kept_request_reading(keyless_request_doc(transaction_id, request), None) == Ok::<
            (Seq<char>, JsonView),
            Seq<char>,
        >((transaction_id, request)),
{
    reveal_strlit("schema");
    reveal_strlit("transaction_id");
    reveal_strlit("request");
    assert("schema"@.len() == 6 && "transaction_id"@.len() == 14 && "request"@.len() == 7);
    let document = keyless_request_doc(transaction_id, request);
    let members = document->Object_0;
    let names = seq!["schema"@, "transaction_id"@, "request"@];
    assert(no_members().dom() =~= Set::<Seq<char>>::empty());
    assert(members.dom().len() == 3);
    assert forall|i: int| 0 <= i < names.len() implies members.dom().contains(
        #[trigger] names[i],
    ) by {}
}

/// The result of a keyless broadcast.
pub open spec fn keyless_result_doc(
    effect_id: Seq<char>,
    transaction_id: Seq<char>,
    request_sha256: Seq<char>,
) -> JsonView {
    JsonView::Object(
        no_members().insert(
            "schema"@,
            text_doc("openagents.immortal.doomsday-keyless-result.v1"@),
        ).insert("effect_id"@, text_doc(effect_id)).insert(
            "transaction_id"@,
            text_doc(transaction_id),
        ).insert("request_sha256"@, text_doc(request_sha256)).insert(
            "broadcast_accepted"@,
            JsonView::Bool(true),
        ),
    )
}

/// The result of a keyless broadcast: what stands under each of its names.
pub proof fn law_keyless_result_says_each_part_by_its_name(
    effect_id: Seq<char>,
    transaction_id: Seq<char>,
    request_sha256: Seq<char>,
)
    ensures
        ({
            let document = keyless_result_doc(effect_id, transaction_id, request_sha256);
            &&& member_text(document, "schema"@) == Some(
                "openagents.immortal.doomsday-keyless-result.v1"@,
            )
            &&& member_text(document, "effect_id"@) == Some(effect_id)
            &&& member_text(document, "transaction_id"@) == Some(transaction_id)
            &&& member_text(document, "request_sha256"@) == Some(request_sha256)
            &&& member(document, "broadcast_accepted"@) == Some(JsonView::Bool(true))
        }),
{
    reveal_strlit("schema");
    reveal_strlit("effect_id");
    reveal_strlit("transaction_id");
    reveal_strlit("request_sha256");
    reveal_strlit("broadcast_accepted");
    assert("schema"@.len() == 6);
    assert("effect_id"@.len() == 9);
    assert("transaction_id"@.len() == 14);
    assert("request_sha256"@.len() == 14);
    assert("broadcast_accepted"@.len() == 18);
    assert("transaction_id"@[0] == 't');
    assert("request_sha256"@[0] == 'r');
}

/// The result of a keyless broadcast, once the endpoint has answered with the same transaction.
pub fn keyless_result(
    effect_id: &str,
    transaction_id: &str,
    response_transaction_id: &str,
    request_sha256: &str,
) -> (result: Result<Json, String>)
    ensures
        told_json(result) == (if response_transaction_id@ == transaction_id@ {
            Ok(keyless_result_doc(effect_id@, transaction_id@, request_sha256@))
        } else {
            Err("Esplora response returned another transaction ID"@)
        }),
{
    if !same_text(response_transaction_id, transaction_id) {
        return Err("Esplora response returned another transaction ID".to_owned());
    }
    Ok(
        Json::object(
            JsonObject::new().with_text(
                "schema",
                "openagents.immortal.doomsday-keyless-result.v1",
            ).with_text("effect_id", effect_id).with_text("transaction_id", transaction_id).with_text(
                "request_sha256",
                request_sha256,
            ).with_bool("broadcast_accepted", true),
        ),
    )
}

/// The members of a keyless result.
pub open spec fn keyless_result_names() -> Seq<Seq<char>> {
    seq!["schema"@, "effect_id"@, "transaction_id"@, "request_sha256"@, "broadcast_accepted"@]
}

/// What a keyless result reads as, held against the request it answers.
pub open spec fn keyless_result_reading(
    result: JsonView,
    effect_id: Seq<char>,
    transaction_id: Seq<char>,
    request_sha256: Seq<char>,
) -> Result<(), Seq<char>> {
    match members_of(Some(result)) {
        Some(members) if complete_by(members, keyless_result_names()) => if said(
            members,
            "schema"@,
        ) == Some("openagents.immortal.doomsday-keyless-result.v1"@) && said(members, "effect_id"@)
            == Some(effect_id) && said(members, "transaction_id"@) == Some(transaction_id) && said(
            members,
            "request_sha256"@,
        ) == Some(request_sha256) && bool_of(
            member(JsonView::Object(members), "broadcast_accepted"@),
        ) == Some(true) {
            Ok(())
        } else {
            Err("keyless result does not bind the exact accepted request"@)
        },
        _ => Err("keyless result has unknown or missing members"@),
    }
}

/// What a keyless result reads as, held against the request it answers: it holds exactly where
/// every one of these conditions does.
pub proof fn law_keyless_result_holds_by_its_parts(
    result: JsonView,
    effect_id: Seq<char>,
    transaction_id: Seq<char>,
    request_sha256: Seq<char>,
)
    ensures
        ({
            let read = keyless_result_reading(result, effect_id, transaction_id, request_sha256);
            let members = members_of(Some(result))->0;
            &&& read is Ok <==> {
                &&& members_of(Some(result)) is Some
                &&& complete_by(members, keyless_result_names())
                &&& said(members, "schema"@) == Some("openagents.immortal.doomsday-keyless-result.v1"@)
                &&& said(members, "effect_id"@) == Some(effect_id)
                &&& said(members, "transaction_id"@) == Some(transaction_id)
                &&& said(members, "request_sha256"@) == Some(request_sha256)
                &&& bool_of(member(JsonView::Object(members), "broadcast_accepted"@)) == Some(true)
            }
        }),
{
}

/// Checks that a keyless result answers exactly this request.
pub fn check_keyless_result(
    result: &Json,
    effect_id: &str,
    transaction_id: &str,
    request_sha256: &str,
) -> (checked: Result<(), String>)
    ensures
        told(checked) == keyless_result_reading(
            result@,
            effect_id@,
            transaction_id@,
            request_sha256@,
        ),
{
    let names: Vec<&'static str> =
        vec!["schema", "effect_id", "transaction_id", "request_sha256", "broadcast_accepted"];
    assert(name_views(names@) =~= keyless_result_names());
    let members: &JsonObject = match result.as_object() {
        Some(members) => members,
        None => {
            return Err("keyless result has unknown or missing members".to_owned());
        },
    };
    if !members.is_complete(&names) {
        return Err("keyless result has unknown or missing members".to_owned());
    }
    let accepted: bool = match members.bool_at("broadcast_accepted") {
        Some(accepted) => accepted,
        None => false,
    };
    if !members.says("schema", "openagents.immortal.doomsday-keyless-result.v1")
        || !members.says("effect_id", effect_id) || !members.says("transaction_id", transaction_id)
        || !members.says("request_sha256", request_sha256) || !accepted {
        return Err("keyless result does not bind the exact accepted request".to_owned());
    }
    Ok(())
}

/// A result of a broadcast that was accepted answers the request it was made for.
pub proof fn law_keyless_result_answers_its_request(
    effect_id: Seq<char>,
    transaction_id: Seq<char>,
    request_sha256: Seq<char>,
)
    ensures
        keyless_result_reading(
            keyless_result_doc(effect_id, transaction_id, request_sha256),
            effect_id,
            transaction_id,
            request_sha256,
        ) is Ok,
{
    reveal_strlit("schema");
    reveal_strlit("effect_id");
    reveal_strlit("transaction_id");
    reveal_strlit("request_sha256");
    reveal_strlit("broadcast_accepted");
    assert("schema"@.len() == 6 && "effect_id"@.len() == 9 && "transaction_id"@.len() == 14
        && "request_sha256"@.len() == 14 && "broadcast_accepted"@.len() == 18);
    assert("transaction_id"@[0] == 't' && "request_sha256"@[0] == 'r');
    let members = keyless_result_doc(effect_id, transaction_id, request_sha256)->Object_0;
    assert(no_members().dom() =~= Set::<Seq<char>>::empty());
    assert(members.dom().len() == 5);
    let names = keyless_result_names();
    assert forall|i: int| 0 <= i < names.len() implies members.dom().contains(
        #[trigger] names[i],
    ) by {}
}

/// The summary of a planned keyless broadcast.
pub fn keyless_plan_summary(effect_id: &str, transaction_id: &str) -> (summary: Json)
    ensures
        summary@ == JsonView::Object(
            no_members().insert(
                "schema"@,
                text_doc("openagents.immortal.doomsday-keyless-request.v1"@),
            ).insert("case_id"@, text_doc("doomsday-keyless-esplora-broadcast"@)).insert(
                "effect_id"@,
                text_doc(effect_id@),
            ).insert("transaction_id"@, text_doc(transaction_id@)).insert(
                "planner_authorized"@,
                JsonView::Bool(true),
            ).insert("signed_before_contract"@, JsonView::Bool(true)).insert(
                "broadcast"@,
                JsonView::Bool(false),
            ),
        ),
{
    Json::object(
        JsonObject::new().with_text(
            "schema",
            "openagents.immortal.doomsday-keyless-request.v1",
        ).with_text("case_id", "doomsday-keyless-esplora-broadcast").with_text(
            "effect_id",
            effect_id,
        ).with_text("transaction_id", transaction_id).with_bool(
            "planner_authorized",
            true,
        ).with_bool("signed_before_contract", true).with_bool("broadcast", false),
    )
}

} // verus!
