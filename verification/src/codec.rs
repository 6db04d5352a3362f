//! The wire format: how a reply is taken apart into its envelope and its
//! payload, and how the body of a signed request is put together.

use vstd::prelude::*;
use vstd::string::StringExecFns;
use crate::address::{ip_of, lemma_ip_text_is_read_back, IpAddress};
use crate::error::{Error, ErrorView};
use crate::json::{
    lemma_list_view, lemma_member_at, lemma_member_inserted, lemma_member_missing, parse,
    parsed_json, quote, quoted_json, Json, JsonView,
};
use crate::record::{optional_text, Record, RecordType, Status};

verus! {

/// How an operation reads a reply. The replies to a ping, a create and an
/// edit have one fixed shape each, and one that does not fit is reported
/// with what was expected of it. The reply to a listing is read member by
/// member, and one that does not fit is reported as it is.
#[derive(Clone, Copy, Debug, PartialEq, Eq, Structural)]
pub enum Reading {
    Strict,
    Lenient,
}

/// What is expected of the status of a reply.
pub open spec fn status_expected() -> Seq<char> {
    "expected `status` to be \"SUCCESS\" or \"ERROR\""@
}

/// What is expected of the message of a reply that states an error.
pub open spec fn message_expected() -> Seq<char> {
    "expected `message` to be a string"@
}

/// What is expected of the payload of a ping.
pub open spec fn address_expected() -> Seq<char> {
    "expected `yourIp` to be an IP address"@
}

/// What is expected of the payload of a create.
pub open spec fn id_expected() -> Seq<char> {
    "expected `id` to be an unsigned 32-bit integer"@
}

/// What is expected of the payload of a listing.
pub open spec fn records_expected() -> Seq<char> {
    "expected `records` to be a list of records"@
}

/// The report that a reply is JSON but not what the operation expects:
/// with what was expected where the reply is read strictly, with the
/// reply alone where it is read leniently.
pub open spec fn misfit(reading: Reading, expected: Seq<char>, response: Seq<char>) -> ErrorView {
    match reading {
        Reading::Strict => ErrorView::MalformedApiSerde { error: expected, response },
        Reading::Lenient => ErrorView::MalformedApi { response },
    }
}

/// The status that a reply states: the word held by its member `status`,
/// where the reply is an object, the member is a string, and the word is
/// one of the two of the protocol.
pub open spec fn status_of(value: JsonView) -> Option<Status> {
    match value.text_field("status"@) {
        Some(word) => Status::named(word),
        None => None,
    }
}

/// What the envelope of a reply says. A reply without a readable status
/// does not fit. One that reports an error carries the provider's message,
/// and does not fit where it gives none. One that reports success lets the
/// payload be read.
pub open spec fn envelope(value: JsonView, response: Seq<char>, reading: Reading) -> Result<
    (),
    ErrorView,
> {
    match status_of(value) {
        None => Err(misfit(reading, status_expected(), response)),
        Some(Status::Error) => match value.text_field("message"@) {
            Some(message) => Err(ErrorView::Api { message }),
            None => Err(misfit(reading, message_expected(), response)),
        },
        Some(Status::Success) => Ok(()),
    }
}

/// What a reply that was read as JSON amounts to, given the payload that
/// was found in it, if any: the envelope's failure, else the payload, else
/// the report that the payload is not what was expected.
pub open spec fn reply<T>(
    value: JsonView,
    payload: Option<T>,
    reading: Reading,
    expected: Seq<char>,
    response: Seq<char>,
) -> Result<T, ErrorView> {
    match envelope(value, response, reading) {
        Err(e) => Err(e),
        Ok(_) => match payload {
            Some(p) => Ok(p),
            None => Err(misfit(reading, expected, response)),
        },
    }
}

/// What the text of a reply amounts to, for an operation that reads the
/// JSON value of a reply with `read`: three questions in a row, each with
/// a failure of its own. Is the text JSON? Does its envelope state
/// success? Is the payload what the operation expects? A text that is not
/// JSON is reported with the parser's message.
pub open spec fn decoded<T>(
    response: Seq<char>,
    read: spec_fn(JsonView) -> Result<T, ErrorView>,
) -> Result<T, ErrorView> {
    match parsed_json(response) {
        Err(error) => Err(ErrorView::MalformedApiSerde { error, response }),
        Ok(value) => read(value),
    }
}

/// The payload of a ping: the address held by the member `yourIp`.
/// `Some(None)` where the member is missing or null; `None` where it is
/// neither that nor the text of an address.
pub open spec fn address_payload(value: JsonView) -> Option<Option<IpAddress>> {
    match value.field("yourIp"@) {
        None => Some(None),
        Some(JsonView::Null) => Some(None),
        Some(JsonView::Text(s)) => match ip_of(s) {
            Some(a) => Some(Some(a)),
            None => None,
        },
        _ => None,
    }
}

/// The payload of a create: the number held by the member `id`.
/// `Some(None)` where the member is missing or null; `None` where it is
/// neither that nor an unsigned integer of 32 bits.
pub open spec fn id_payload(value: JsonView) -> Option<Option<u32>> {
    match value.field("id"@) {
        None => Some(None),
        Some(JsonView::Null) => Some(None),
        Some(JsonView::Number(Some(n))) => if n <= u32::MAX {
            Some(Some(n as u32))
        } else {
            None
        },
        _ => None,
    }
}

/// The records that a list of JSON values describes, where each value
/// describes one.
pub open spec fn described_all<R: Record>(items: Seq<JsonView>) -> Option<Seq<R::V>> {
    if forall|i: int| 0 <= i < items.len() ==> R::described(#[trigger] items[i]) is Some {
        Some(Seq::new(items.len(), |i: int| R::described(items[i]).unwrap()))
    } else {
        None
    }
}

/// The payload of a listing: the records held by the member `records`,
/// which must be there, be a list, and hold nothing but records.
pub open spec fn records_payload<R: Record>(value: JsonView) -> Option<Seq<R::V>> {
    match value.field("records"@) {
        Some(JsonView::List(items)) => described_all::<R>(items),
        _ => None,
    }
}

/// What the JSON value of a reply to a ping amounts to. The reply is read
/// strictly.
pub open spec fn ping_read(value: JsonView, response: Seq<char>) -> Result<
    Option<IpAddress>,
    ErrorView,
> {
    reply(value, address_payload(value), Reading::Strict, address_expected(), response)
}

/// What the JSON value of a reply to a create amounts to. The reply is
/// read strictly.
pub open spec fn create_read(value: JsonView, response: Seq<char>) -> Result<
    Option<u32>,
    ErrorView,
> {
    reply(value, id_payload(value), Reading::Strict, id_expected(), response)
}

/// What the JSON value of a reply to an edit amounts to: what its
/// envelope says, read strictly. There is no payload.
pub open spec fn edit_read(value: JsonView, response: Seq<char>) -> Result<(), ErrorView> {
    envelope(value, response, Reading::Strict)
}

/// What the JSON value of a reply to a listing amounts to. The reply is
/// read leniently.
pub open spec fn records_read<R: Record>(value: JsonView, response: Seq<char>) -> Result<
    Seq<R::V>,
    ErrorView,
> {
    reply(value, records_payload::<R>(value), Reading::Lenient, records_expected(), response)
}

/// What the text of a reply to a ping amounts to.
pub open spec fn ping_result(response: Seq<char>) -> Result<Option<IpAddress>, ErrorView> {
    decoded(response, |value: JsonView| ping_read(value, response))
}

/// What the text of a reply to a create amounts to.
pub open spec fn create_result(response: Seq<char>) -> Result<Option<u32>, ErrorView> {
    decoded(response, |value: JsonView| create_read(value, response))
}

/// What the text of a reply to an edit amounts to.
pub open spec fn edit_result(response: Seq<char>) -> Result<(), ErrorView> {
    decoded(response, |value: JsonView| edit_read(value, response))
}

/// What the text of a reply to a listing amounts to.
pub open spec fn records_result<R: Record>(response: Seq<char>) -> Result<Seq<R::V>, ErrorView> {
    decoded(response, |value: JsonView| records_read::<R>(value, response))
}

/// A reply that reports success and holds one payload member.
pub open spec fn success_envelope(name: Seq<char>, payload: JsonView) -> JsonView {
    JsonView::Object(seq![("status"@, JsonView::Text("SUCCESS"@)), (name, payload)])
}

/// A reply that reports an error, with the provider's message or without
/// one.
pub open spec fn error_envelope(message: Option<Seq<char>>) -> JsonView {
    match message {
        Some(m) => JsonView::Object(
            seq![("status"@, JsonView::Text("ERROR"@)), ("message"@, JsonView::Text(m))],
        ),
        None => JsonView::Object(seq![("status"@, JsonView::Text("ERROR"@))]),
    }
}

/// The JSON values that describe the given records, in order.
pub open spec fn written_all<R: Record>(records: Seq<R::V>) -> Seq<JsonView> {
    Seq::new(records.len(), |i: int| R::written(records[i]))
}

/// The views of the items of a sequence, in order.
pub open spec fn views_of<T: View>(items: Seq<T>) -> Seq<T::V> {
    Seq::new(items.len(), |i: int| items[i]@)
}

/// A reply that does not fit is malformed, however it is read, and is
/// never taken for a refusal by the provider.
pub proof fn lemma_misfit_is_malformed(reading: Reading, expected: Seq<char>, response: Seq<char>)
    ensures
        misfit(reading, expected, response).is_malformed(),
        !(misfit(reading, expected, response) is Api),
        reading == Reading::Strict ==> misfit(reading, expected, response) == (
        ErrorView::MalformedApiSerde { error: expected, response }),
        reading == Reading::Lenient ==> misfit(reading, expected, response) == (
        ErrorView::MalformedApi { response }),
{
}

/// A success envelope states success and holds its payload.
pub proof fn lemma_success_envelope(name: Seq<char>, payload: JsonView)
    requires
        name != "status"@,
    ensures
        status_of(success_envelope(name, payload)) == Some(Status::Success),
        success_envelope(name, payload).field(name) == Some(payload),
{
    let members = success_envelope(name, payload)->Object_0;
    lemma_member_at(members, name, 1);
}

/// An error envelope states an error, and holds the message that it was
/// given and no other.
pub proof fn lemma_error_envelope(message: Option<Seq<char>>)
    ensures
        status_of(error_envelope(message)) == Some(Status::Error),
        error_envelope(message).text_field("message"@) == message,
{
    reveal_strlit("SUCCESS");
    reveal_strlit("ERROR");
    reveal_strlit("status");
    reveal_strlit("message");
    assert("SUCCESS"@.len() != "ERROR"@.len());
    assert("status"@.len() != "message"@.len());
    let members = error_envelope(message)->Object_0;
    match message {
        Some(m) => {
            lemma_member_at(members, "message"@, 1);
        },
        None => {
            lemma_member_missing(members, "message"@);
        },
    }
}

/// A reply that states an error with a message amounts to the provider's
/// refusal with exactly that message, whatever payload it holds and
/// however it is read. One that states an error without a message does
/// not fit: it is malformed, and no empty message is put in its place.
pub proof fn lemma_error_reply<T>(
    value: JsonView,
    payload: Option<T>,
    reading: Reading,
    expected: Seq<char>,
    response: Seq<char>,
)
    requires
        value.text_field("status"@) == Some("ERROR"@),
    ensures
        match value.text_field("message"@) {
            Some(message) => reply(value, payload, reading, expected, response) == Err::<
                T,
                ErrorView,
            >(ErrorView::Api { message }),
            None => reply(value, payload, reading, expected, response) == Err::<T, ErrorView>(
                misfit(reading, message_expected(), response),
            ) && misfit(reading, message_expected(), response).is_malformed(),
        },
{
    reveal_strlit("SUCCESS");
    reveal_strlit("ERROR");
    assert("SUCCESS"@.len() != "ERROR"@.len());
}

/// The same of the text of a reply that is read as such a value, for every
/// operation.
pub proof fn lemma_error_decoded<R: Record>(response: Seq<char>, value: JsonView)
    requires
        value.text_field("status"@) == Some("ERROR"@),
    ensures
        parsed_json(response) == Ok::<JsonView, Seq<char>>(value) ==> match value.text_field(
            "message"@,
        ) {
            Some(message) => {
                &&& ping_result(response) == Err::<Option<IpAddress>, ErrorView>(
                    ErrorView::Api { message },
                )
                &&& create_result(response) == Err::<Option<u32>, ErrorView>(
                    ErrorView::Api { message },
                )
                &&& edit_result(response) == Err::<(), ErrorView>(ErrorView::Api { message })
                &&& records_result::<R>(response) == Err::<Seq<R::V>, ErrorView>(
                    ErrorView::Api { message },
                )
            },
            None => {
                &&& ping_result(response) matches Err(e) && e.is_malformed()
                &&& create_result(response) matches Err(e) && e.is_malformed()
                &&& edit_result(response) matches Err(e) && e.is_malformed()
                &&& records_result::<R>(response) matches Err(e) && e.is_malformed()
            },
        },
{
    lemma_error_reply(
        value,
        address_payload(value),
        Reading::Strict,
        address_expected(),
        response,
    );
    lemma_error_reply(value, id_payload(value), Reading::Strict, id_expected(), response);
    lemma_error_reply(value, Some(()), Reading::Strict, message_expected(), response);
    lemma_error_reply(
        value,
        records_payload::<R>(value),
        Reading::Lenient,
        records_expected(),
        response,
    );
}

/// A reply to a ping, a create or an edit that is JSON but does not fit
/// is reported with the reply's text and with what was expected; a reply
/// to a listing that does not fit is reported with the reply's text
/// alone.
pub proof fn lemma_misfits<R: Record>(value: JsonView, response: Seq<char>)
    ensures
        status_of(value) is None ==> {
            &&& ping_read(value, response) == Err::<Option<IpAddress>, ErrorView>(
                ErrorView::MalformedApiSerde { error: status_expected(), response },
            )
            &&& create_read(value, response) == Err::<Option<u32>, ErrorView>(
                ErrorView::MalformedApiSerde { error: status_expected(), response },
            )
            &&& edit_read(value, response) == Err::<(), ErrorView>(
                ErrorView::MalformedApiSerde { error: status_expected(), response },
            )
            &&& records_read::<R>(value, response) == Err::<Seq<R::V>, ErrorView>(
                ErrorView::MalformedApi { response },
            )
        },
        status_of(value) == Some(Status::Success) ==> {
            &&& address_payload(value) is None ==> ping_read(value, response) == Err::<
                Option<IpAddress>,
                ErrorView,
            >(ErrorView::MalformedApiSerde { error: address_expected(), response })
            &&& id_payload(value) is None ==> create_read(value, response) == Err::<
                Option<u32>,
                ErrorView,
            >(ErrorView::MalformedApiSerde { error: id_expected(), response })
            &&& edit_read(value, response) == Ok::<(), ErrorView>(())
            &&& records_payload::<R>(value) is None ==> records_read::<R>(value, response)
                == Err::<Seq<R::V>, ErrorView>(ErrorView::MalformedApi { response })
        },
{
}

/// A reply that states success and holds the text of an address amounts
/// to that address.
pub proof fn lemma_address_round_trip(value: JsonView, ip: IpAddress, response: Seq<char>)
    requires
        status_of(value) == Some(Status::Success),
        value.field("yourIp"@) == Some(JsonView::Text(ip.text())),
    ensures
        ping_read(value, response) == Ok::<Option<IpAddress>, ErrorView>(Some(ip)),
        parsed_json(response) == Ok::<JsonView, Seq<char>>(value) ==> ping_result(response)
            == Ok::<Option<IpAddress>, ErrorView>(Some(ip)),
{
    lemma_ip_text_is_read_back(ip);
}

/// A reply that states success and holds a number of 32 bits amounts to
/// that number.
pub proof fn lemma_id_round_trip(value: JsonView, id: u32, response: Seq<char>)
    requires
        status_of(value) == Some(Status::Success),
        value.field("id"@) == Some(JsonView::Number(Some(id as u64))),
    ensures
        create_read(value, response) == Ok::<Option<u32>, ErrorView>(Some(id)),
        parsed_json(response) == Ok::<JsonView, Seq<char>>(value) ==> create_result(response)
            == Ok::<Option<u32>, ErrorView>(Some(id)),
{
}

/// A reply that states success and holds the JSON values that describe
/// some records amounts to those records, unchanged and in order.
pub proof fn lemma_records_round_trip<R: Record>(
    value: JsonView,
    records: Seq<R::V>,
    response: Seq<char>,
)
    requires
        status_of(value) == Some(Status::Success),
        value.field("records"@) == Some(JsonView::List(written_all::<R>(records))),
    ensures
        records_read::<R>(value, response) == Ok::<Seq<R::V>, ErrorView>(records),
        parsed_json(response) == Ok::<JsonView, Seq<char>>(value) ==> records_result::<R>(
            response,
        ) == Ok::<Seq<R::V>, ErrorView>(records),
{
    let items = written_all::<R>(records);
    assert forall|i: int| 0 <= i < items.len() implies R::described(#[trigger] items[i]) == Some(
        records[i],
    ) by {
        R::lemma_written_is_read_back(records[i]);
    }
    assert(Seq::new(items.len(), |i: int| R::described(items[i]).unwrap()) =~= records);
}

/// The name of every payload member differs from that of the status.
pub proof fn lemma_payload_names()
    ensures
        "yourIp"@ != "status"@,
        "id"@ != "status"@,
        "records"@ != "status"@,
{
    reveal_strlit("yourIp");
    reveal_strlit("id");
    reveal_strlit("records");
    reveal_strlit("status");
    assert("id"@.len() != "status"@.len());
    assert("records"@.len() != "status"@.len());
    assert("yourIp"@[0] != "status"@[0]);
}

/// The reply that states success and holds the text of an address is read
/// as that address.
pub proof fn lemma_ping_envelope(ip: IpAddress, response: Seq<char>)
    ensures
        ping_read(success_envelope("yourIp"@, JsonView::Text(ip.text())), response) == Ok::<
            Option<IpAddress>,
            ErrorView,
        >(Some(ip)),
{
    let value = success_envelope("yourIp"@, JsonView::Text(ip.text()));
    lemma_payload_names();
    lemma_success_envelope("yourIp"@, JsonView::Text(ip.text()));
    lemma_address_round_trip(value, ip, response);
}

/// The reply that states success and holds a number of 32 bits is read as
/// that number.
pub proof fn lemma_create_envelope(id: u32, response: Seq<char>)
    ensures
        create_read(success_envelope("id"@, JsonView::Number(Some(id as u64))), response) == Ok::<
            Option<u32>,
            ErrorView,
        >(Some(id)),
{
    let value = success_envelope("id"@, JsonView::Number(Some(id as u64)));
    lemma_payload_names();
    lemma_success_envelope("id"@, JsonView::Number(Some(id as u64)));
    lemma_id_round_trip(value, id, response);
}

/// The reply that states success and holds the JSON values that describe
/// some records is read as those records.
pub proof fn lemma_records_envelope<R: Record>(records: Seq<R::V>, response: Seq<char>)
    ensures
        records_read::<R>(
            success_envelope("records"@, JsonView::List(written_all::<R>(records))),
            response,
        ) == Ok::<Seq<R::V>, ErrorView>(records),
{
    let value = success_envelope("records"@, JsonView::List(written_all::<R>(records)));
    lemma_payload_names();
    lemma_success_envelope("records"@, JsonView::List(written_all::<R>(records)));
    lemma_records_round_trip::<R>(value, records, response);
}

/// The reply that states an error with a message is read as the
/// provider's refusal with that message; the one that states an error
/// without a message is read as a reply that does not fit.
pub proof fn lemma_refusal_envelope<T>(
    message: Option<Seq<char>>,
    payload: Option<T>,
    reading: Reading,
    expected: Seq<char>,
    response: Seq<char>,
)
    ensures
        reply(error_envelope(message), payload, reading, expected, response) == Err::<
            T,
            ErrorView,
        >(
            match message {
                Some(message) => ErrorView::Api { message },
                None => misfit(reading, message_expected(), response),
            },
        ),
{
    lemma_error_envelope(message);
}

/// A member that no operation reads, put in anywhere in a reply, changes
/// nothing about what the reply amounts to.
pub proof fn lemma_other_member<R: Record>(
    members: Seq<(Seq<char>, JsonView)>,
    i: int,
    name: Seq<char>,
    value: JsonView,
    response: Seq<char>,
)
    requires
        0 <= i <= members.len(),
        name != "status"@,
        name != "message"@,
        name != "yourIp"@,
        name != "id"@,
        name != "records"@,
    ensures
        ({
            let with = JsonView::Object(members.insert(i, (name, value)));
            let without = JsonView::Object(members);
            &&& ping_read(with, response) == ping_read(without, response)
            &&& create_read(with, response) == create_read(without, response)
            &&& edit_read(with, response) == edit_read(without, response)
            &&& records_read::<R>(with, response) == records_read::<R>(without, response)
        }),
{
    lemma_member_inserted(members, i, name, value, "status"@);
    lemma_member_inserted(members, i, name, value, "message"@);
    lemma_member_inserted(members, i, name, value, "yourIp"@);
    lemma_member_inserted(members, i, name, value, "id"@);
    lemma_member_inserted(members, i, name, value, "records"@);
}

/// The report that a reply is JSON but not what the operation expects.
fn report_misfit(reading: Reading, expected: &str, response: &str) -> (e: Error)
    ensures
        e@ == misfit(reading, expected@, response@),
{
    match reading {
        Reading::Strict => Error::MalformedApiSerde {
            error: expected.to_owned(),
            response: response.to_owned(),
        },
        Reading::Lenient => Error::MalformedApi { response: response.to_owned() },
    }
}

/// Reads the envelope of a reply.
pub fn check_envelope(value: &Json, response: &str, reading: Reading) -> (r: Result<(), Error>)
    ensures
        match r {
            Ok(_) => envelope(value@, response@, reading) is Ok,
            Err(e) => envelope(value@, response@, reading) == Err::<(), ErrorView>(e@),
        },
{
    let status = match value.text_field("status") {
        Some(word) => Status::from_name(word.as_str()),
        None => None,
    };
    match status {
        None => Err(
            report_misfit(reading, "expected `status` to be \"SUCCESS\" or \"ERROR\"", response),
        ),
        Some(Status::Error) => match value.text_field("message") {
            Some(message) => Err(Error::Api { message }),
            None => Err(report_misfit(reading, "expected `message` to be a string", response)),
        },
        Some(Status::Success) => Ok(()),
    }
}

/// Reads the payload of a ping.
pub fn read_address(value: &Json) -> (r: Option<Option<IpAddress>>)
    ensures
        r == address_payload(value@),
{
    match value.get("yourIp") {
        None => Some(None),
        Some(Json::Null) => Some(None),
        Some(Json::Text(s)) => match IpAddress::parse(s.as_str()) {
            Some(a) => Some(Some(a)),
            None => None,
        },
        _ => None,
    }
}

/// Reads the payload of a create.
pub fn read_id(value: &Json) -> (r: Option<Option<u32>>)
    ensures
        r == id_payload(value@),
{
    match value.get("id") {
        None => Some(None),
        Some(Json::Null) => Some(None),
        Some(Json::Number(Some(n))) => if *n <= u32::MAX as u64 {
            Some(Some(*n as u32))
        } else {
            None
        },
        _ => None,
    }
}

/// Reads the payload of a listing.
pub fn read_records<R: Record>(value: &Json) -> (r: Option<Vec<R>>)
    ensures
        match r {
            Some(records) => records_payload::<R>(value@) == Some(views_of(records@)),
            None => records_payload::<R>(value@) is None,
        },
{
    match value.get("records") {
        Some(Json::List(items)) => {
            let ghost views = Json::List(*items)@->List_0;
            proof {
                lemma_list_view(*items);
            }
            let mut records: Vec<R> = Vec::new();
            let mut i: usize = 0;
            while i < items.len()
                invariant
                    i <= items.len(),
                    views.len() == items.len(),
                    value@.field("records"@) == Some(JsonView::List(views)),
                    forall|j: int| 0 <= j < views.len() ==> #[trigger] views[j] == items@[j]@,
                    records.len() == i,
                    forall|j: int|
                        0 <= j < i ==> R::described(#[trigger] views[j]) == Some(records@[j]@),
                decreases items.len() - i,
            {
                match R::from_json(&items[i]) {
                    Some(record) => {
                        records.push(record);
                    },
                    None => {
                        assert(R::described(views[i as int]) is None);
                        return None;
                    },
                }
                i += 1;
            }
            Some(records)
        },
        _ => None,
    }
}

/// Reads a reply to a ping that was read as JSON.
pub fn ping_reply(value: &Json, response: &str) -> (r: Result<Option<IpAddress>, Error>)
    ensures
        match r {
            Ok(p) => ping_read(value@, response@) == Ok::<Option<IpAddress>, ErrorView>(p),
            Err(e) => ping_read(value@, response@) == Err::<Option<IpAddress>, ErrorView>(e@),
        },
{
    match check_envelope(value, response, Reading::Strict) {
        Err(e) => Err(e),
        Ok(_) => match read_address(value) {
            Some(p) => Ok(p),
            None => Err(
                report_misfit(Reading::Strict, "expected `yourIp` to be an IP address", response),
            ),
        },
    }
}

/// Reads a reply to a create that was read as JSON.
pub fn create_reply(value: &Json, response: &str) -> (r: Result<Option<u32>, Error>)
    ensures
        match r {
            Ok(p) => create_read(value@, response@) == Ok::<Option<u32>, ErrorView>(p),
            Err(e) => create_read(value@, response@) == Err::<Option<u32>, ErrorView>(e@),
        },
{
    match check_envelope(value, response, Reading::Strict) {
        Err(e) => Err(e),
        Ok(_) => match read_id(value) {
            Some(p) => Ok(p),
            None => Err(
                report_misfit(
                    Reading::Strict,
                    "expected `id` to be an unsigned 32-bit integer",
                    response,
                ),
            ),
        },
    }
}

/// Reads a reply to an edit that was read as JSON.
pub fn edit_reply(value: &Json, response: &str) -> (r: Result<(), Error>)
    ensures
        match r {
            Ok(p) => edit_read(value@, response@) == Ok::<(), ErrorView>(p),
            Err(e) => edit_read(value@, response@) == Err::<(), ErrorView>(e@),
        },
{
    check_envelope(value, response, Reading::Strict)
}

/// Reads a reply to a listing that was read as JSON.
pub fn records_reply<R: Record>(value: &Json, response: &str) -> (r: Result<Vec<R>, Error>)
    ensures
        match r {
            Ok(p) => records_read::<R>(value@, response@) == Ok::<Seq<R::V>, ErrorView>(
                views_of(p@),
            ),
            Err(e) => records_read::<R>(value@, response@) == Err::<Seq<R::V>, ErrorView>(e@),
        },
{
    match check_envelope(value, response, Reading::Lenient) {
        Err(e) => Err(e),
        Ok(_) => match read_records::<R>(value) {
            Some(p) => Ok(p),
            None => Err(
                report_misfit(
                    Reading::Lenient,
                    "expected `records` to be a list of records",
                    response,
                ),
            ),
        },
    }
}

/// Reads the text of a reply as JSON. A text that is not JSON is reported
/// with the parser's message.
pub fn decode_json(response: &str) -> (r: Result<Json, Error>)
    ensures
        match r {
            Ok(value) => parsed_json(response@) == Ok::<JsonView, Seq<char>>(value@),
            Err(e) => parsed_json(response@) matches Err(error) && e@ == (
            ErrorView::MalformedApiSerde { error, response: response@ }),
        },
{
    match parse(response) {
        Ok(value) => Ok(value),
        Err(error) => Err(Error::MalformedApiSerde { error, response: response.to_owned() }),
    }
}

/// Reads the reply to a ping.
pub fn decode_ping(response: &str) -> (r: Result<Option<IpAddress>, Error>)
    ensures
        match r {
            Ok(p) => ping_result(response@) == Ok::<Option<IpAddress>, ErrorView>(p),
            Err(e) => ping_result(response@) == Err::<Option<IpAddress>, ErrorView>(e@),
        },
{
    match decode_json(response) {
        Err(e) => Err(e),
        Ok(value) => ping_reply(&value, response),
    }
}

/// Reads the reply to a create.
pub fn decode_create(response: &str) -> (r: Result<Option<u32>, Error>)
    ensures
        match r {
            Ok(p) => create_result(response@) == Ok::<Option<u32>, ErrorView>(p),
            Err(e) => create_result(response@) == Err::<Option<u32>, ErrorView>(e@),
        },
{
    match decode_json(response) {
        Err(e) => Err(e),
        Ok(value) => create_reply(&value, response),
    }
}

/// Reads the reply to an edit.
pub fn decode_edit(response: &str) -> (r: Result<(), Error>)
    ensures
        match r {
            Ok(p) => edit_result(response@) == Ok::<(), ErrorView>(p),
            Err(e) => edit_result(response@) == Err::<(), ErrorView>(e@),
        },
{
    match decode_json(response) {
        Err(e) => Err(e),
        Ok(value) => edit_reply(&value, response),
    }
}

/// Reads the reply to a listing.
pub fn decode_records<R: Record>(response: &str) -> (r: Result<Vec<R>, Error>)
    ensures
        match r {
            Ok(p) => records_result::<R>(response@) == Ok::<Seq<R::V>, ErrorView>(views_of(p@)),
            Err(e) => records_result::<R>(response@) == Err::<Seq<R::V>, ErrorView>(e@),
        },
{
    match decode_json(response) {
        Err(e) => Err(e),
        Ok(value) => records_reply::<R>(&value, response),
    }
}

/// The members that an operation adds to the two keys in the body of its
/// request. A member that is `None` is left out of the body.
#[derive(Clone, Debug, PartialEq, Eq)]
pub struct Fields {
    pub name: Option<String>,
    pub ty: Option<RecordType>,
    pub content: Option<String>,
    pub ttl: Option<String>,
    pub prio: Option<String>,
}

/// The mathematical value of a [`Fields`].
pub struct FieldsView {
    pub name: Option<Seq<char>>,
    pub ty: Option<RecordType>,
    pub content: Option<Seq<char>>,
    pub ttl: Option<Seq<char>>,
    pub prio: Option<Seq<char>>,
}

impl View for Fields {
    type V = FieldsView;

    open spec fn view(&self) -> FieldsView {
        FieldsView {
            name: optional_text(self.name),
            ty: self.ty,
            content: optional_text(self.content),
            ttl: optional_text(self.ttl),
            prio: optional_text(self.prio),
        }
    }
}

/// A member as it stands in a body after the first one: a comma, the name
/// between quotes, a colon and the value's literal. Nothing for a member
/// that is left out.
pub open spec fn member_text(name: Seq<char>, literal: Option<Seq<char>>) -> Seq<char> {
    match literal {
        Some(l) => ",\""@ + name + "\":"@ + l,
        None => Seq::empty(),
    }
}

/// The literal of a record type: its word between quotes.
pub open spec fn type_literal(ty: Option<RecordType>) -> Option<Seq<char>> {
    match ty {
        Some(t) => Some("\""@ + t.name() + "\""@),
        None => None,
    }
}

/// The body of a signed request, given the JSON literals of its strings:
/// an object with the two keys first and the operation's members after
/// them.
pub open spec fn framed_body(
    secret: Seq<char>,
    api: Seq<char>,
    name: Option<Seq<char>>,
    ty: Option<RecordType>,
    content: Option<Seq<char>>,
    ttl: Option<Seq<char>>,
    prio: Option<Seq<char>>,
) -> Seq<char> {
    "{\"secretapikey\":"@ + secret + ",\"apikey\":"@ + api + member_text("name"@, name)
        + member_text("type"@, type_literal(ty)) + member_text("content"@, content) + member_text(
        "ttl"@,
        ttl,
    ) + member_text("prio"@, prio) + "}"@
}

/// The JSON literal of an optional text.
pub open spec fn quoted_optional(text: Option<Seq<char>>) -> Option<Seq<char>> {
    match text {
        None => None,
        Some(t) => Some(quoted_json(t)),
    }
}

/// The body of a signed request: a JSON object that holds the two keys
/// first and after them the members that the operation adds, each string
/// as the literal that the serializer writes for it.
pub open spec fn authenticated_body(
    secret: Seq<char>,
    api: Seq<char>,
    fields: FieldsView,
) -> Seq<char> {
    framed_body(
        quoted_json(secret),
        quoted_json(api),
        quoted_optional(fields.name),
        fields.ty,
        quoted_optional(fields.content),
        quoted_optional(fields.ttl),
        quoted_optional(fields.prio),
    )
}

/// Writes a member after the first one of a body.
fn write_member(out: &mut String, name: &str, literal: &Option<String>)
    ensures
        final(out)@ == old(out)@ + member_text(name@, optional_text(*literal)),
{
    if let Some(l) = literal {
        out.append(",\"");
        out.append(name);
        out.append("\":");
        out.append(l.as_str());
    }
}

/// The literal of a record type.
fn quote_type(ty: Option<RecordType>) -> (r: Option<String>)
    ensures
        optional_text(r) == type_literal(ty),
{
    match ty {
        Some(t) => {
            let mut out = "\"".to_owned();
            out.append(t.as_str());
            out.append("\"");
            Some(out)
        },
        None => None,
    }
}

/// Puts the body of a signed request together from the JSON literals of
/// its strings.
pub fn frame_body(
    secret: &str,
    api: &str,
    name: &Option<String>,
    ty: Option<RecordType>,
    content: &Option<String>,
    ttl: &Option<String>,
    prio: &Option<String>,
) -> (r: String)
    ensures
        r@ == framed_body(
            secret@,
            api@,
            optional_text(*name),
            ty,
            optional_text(*content),
            optional_text(*ttl),
            optional_text(*prio),
        ),
{
    let mut out = "{\"secretapikey\":".to_owned();
    out.append(secret);
    out.append(",\"apikey\":");
    out.append(api);
    write_member(&mut out, "name", name);
    let word = quote_type(ty);
    write_member(&mut out, "type", &word);
    write_member(&mut out, "content", content);
    write_member(&mut out, "ttl", ttl);
    write_member(&mut out, "prio", prio);
    out.append("}");
    out
}

/// The JSON literal of an optional text.
fn quote_optional(text: &Option<String>) -> (r: Option<String>)
    ensures
        optional_text(r) == quoted_optional(optional_text(*text)),
{
    match text {
        None => None,
        Some(t) => Some(quote(t.as_str())),
    }
}

/// Writes the body of a signed request: a JSON object that holds the two
/// keys and the members that the operation adds.
pub fn encode_authenticated_body(secret_api_key: &str, api_key: &str, fields: &Fields) -> (r:
    String)
    ensures
        r@ == authenticated_body(secret_api_key@, api_key@, fields@),
{
    let secret = quote(secret_api_key);
    let api = quote(api_key);
    let name = quote_optional(&fields.name);
    let content = quote_optional(&fields.content);
    let ttl = quote_optional(&fields.ttl);
    let prio = quote_optional(&fields.prio);
    frame_body(secret.as_str(), api.as_str(), &name, fields.ty, &content, &ttl, &prio)
}

} // verus!
