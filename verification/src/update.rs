//! One update of one address family, as steps between requests: each step
//! takes what came back from the last request and says what to send next,
//! or how the update ended and what to report.

use vstd::prelude::*;
use vstd::string::StringExecFns;
use crate::address::Address;
use crate::client::{
    create_request, edit_request, family_ping_url, narrowed, retrieve_by_name_type_url, Client,
    ClientView, Request, RequestView,
};
use crate::codec::{create_result, edit_result, ping_result, records_result, views_of};
use crate::error::{Error, ErrorView};
use crate::reconcile::{decision, reconcile, record_name, target_name, Decision, DecisionView};
use crate::record::{optional_text, AddressRecord, AddressRecordView};

verus! {

/// What an update is asked to do.
#[derive(Clone, Debug, PartialEq, Eq)]
pub struct Config {
    /// The domain whose record is kept up to date.
    pub domain: String,
    /// The subdomain, if the record is not that of the domain itself.
    pub subdomain: Option<String>,
    /// Whether the lines that report success are left out.
    pub silent: bool,
}

/// The mathematical value of a [`Config`].
pub struct ConfigView {
    pub domain: Seq<char>,
    pub subdomain: Option<Seq<char>>,
    pub silent: bool,
}

impl View for Config {
    type V = ConfigView;

    open spec fn view(&self) -> ConfigView {
        ConfigView {
            domain: self.domain@,
            subdomain: optional_text(self.subdomain),
            silent: self.silent,
        }
    }
}

/// How a line is reported.
#[derive(Clone, Copy, Debug, PartialEq, Eq, Structural)]
pub enum Level {
    Info,
    Error,
}

/// A line of the report.
#[derive(Clone, Debug, PartialEq, Eq)]
pub struct Line {
    pub level: Level,
    pub text: String,
}

/// The mathematical value of a [`Line`].
pub struct LineView {
    pub level: Level,
    pub text: Seq<char>,
}

impl View for Line {
    type V = LineView;

    open spec fn view(&self) -> LineView {
        LineView { level: self.level, text: self.text@ }
    }
}

/// The request whose reply an update waits for, with the observed address
/// once it is known.
#[derive(Clone, Copy, Debug, PartialEq, Eq)]
pub enum Waiting<A> {
    Ping,
    Fetch { address: A },
    Edit { address: A },
    Create { address: A },
}

/// What an update does next.
#[derive(Clone, Debug, PartialEq, Eq)]
pub enum Step<A> {
    /// Send the request, and come back with what it brought.
    Send { request: Request, waiting: Waiting<A> },
    /// The update has ended, well or not, with a line to report, if any.
    Done { ok: bool, line: Option<Line> },
}

/// The mathematical value of a [`Step`].
pub enum StepView<A> {
    Send { request: RequestView, waiting: Waiting<A> },
    Done { ok: bool, line: Option<LineView> },
}

/// The view of an optional line.
pub open spec fn optional_line(line: Option<Line>) -> Option<LineView> {
    match line {
        Some(l) => Some(l@),
        None => None,
    }
}

impl<A> View for Step<A> {
    type V = StepView<A>;

    open spec fn view(&self) -> StepView<A> {
        match self {
            Step::Send { request, waiting } => StepView::Send {
                request: request@,
                waiting: *waiting,
            },
            Step::Done { ok, line } => StepView::Done { ok: *ok, line: optional_line(*line) },
        }
    }
}

/// The end of an update that failed at `what`, for the reason `e`.
pub open spec fn failed<A>(what: Seq<char>, e: ErrorView) -> StepView<A> {
    StepView::Done {
        ok: false,
        line: Some(LineView { level: Level::Error, text: what + ": "@ + e.text() }),
    }
}

/// The end of an update that went well: `text` is reported unless the
/// update is silent.
pub open spec fn succeeded<A>(silent: bool, text: Seq<char>) -> StepView<A> {
    StepView::Done {
        ok: true,
        line: if silent {
            None
        } else {
            Some(LineView { level: Level::Info, text })
        },
    }
}

/// What the ping failed at.
pub open spec fn ping_failure<A: Address>() -> Seq<char> {
    "failed to retrieve public "@ + A::label() + " address"@
}

/// What the listing failed at.
pub open spec fn fetch_failure<A: Address>() -> Seq<char> {
    "failed to retrieve previous "@ + A::label() + " address"@
}

/// What the edit failed at.
pub open spec fn edit_failure<A: Address>() -> Seq<char> {
    "failed to edit "@ + A::label() + " address"@
}

/// What the create failed at.
pub open spec fn create_failure<A: Address>() -> Seq<char> {
    "failed to create "@ + A::label() + " record"@
}

/// The first step: the ping that finds the address of the family.
pub open spec fn begun<A: Address>(client: ClientView) -> StepView<A> {
    StepView::Send {
        request: RequestView { url: family_ping_url::<A>(), body: client.key_file },
        waiting: Waiting::Ping,
    }
}

/// The step after the ping. With an address, the records are asked for;
/// without one, or after a failure, the update ends badly.
pub open spec fn pinged<A: Address>(
    client: ClientView,
    config: ConfigView,
    found: Result<Option<A>, ErrorView>,
) -> StepView<A> {
    match found {
        Err(e) => failed(ping_failure::<A>(), e),
        Ok(None) => StepView::Done {
            ok: false,
            line: Some(
                LineView { level: Level::Error, text: A::label() + " address is not present"@ },
            ),
        },
        Ok(Some(address)) => StepView::Send {
            request: RequestView {
                url: retrieve_by_name_type_url(config.domain, A::kind(), config.subdomain),
                body: client.key_file,
            },
            waiting: Waiting::Fetch { address },
        },
    }
}

/// The step after the listing. Where the published address is the
/// observed one the update ends well and nothing is written; where it is
/// another the record is edited; where there is none a record is created,
/// with the observed address and the provider's own ttl and priority.
pub open spec fn fetched<A: Address>(
    client: ClientView,
    config: ConfigView,
    address: A,
    listed: Result<Seq<AddressRecordView<A>>, ErrorView>,
) -> StepView<A> {
    match listed {
        Err(e) => failed(fetch_failure::<A>(), e),
        Ok(published) => match decision(
            address,
            published,
            target_name(config.domain, config.subdomain),
        ) {
            DecisionView::Unchanged => succeeded(
                config.silent,
                "current "@ + A::label() + " record matches public ip address"@,
            ),
            DecisionView::Stale { .. } => StepView::Send {
                request: edit_request::<A>(client, config.domain, config.subdomain, address),
                waiting: Waiting::Edit { address },
            },
            DecisionView::Absent => StepView::Send {
                request: create_request(
                    client,
                    config.domain,
                    config.subdomain,
                    A::kind(),
                    address.text(),
                    None,
                    None,
                ),
                waiting: Waiting::Create { address },
            },
        },
    }
}

/// The step after the edit: the end of the update.
pub open spec fn edited<A: Address>(
    config: ConfigView,
    address: A,
    done: Result<(), ErrorView>,
) -> StepView<A> {
    match done {
        Err(e) => failed(edit_failure::<A>(), e),
        Ok(_) => succeeded(
            config.silent,
            "successfully updated "@ + A::label() + " record to "@ + address.text(),
        ),
    }
}

/// The step after the create: the end of the update.
pub open spec fn created<A: Address>(
    config: ConfigView,
    address: A,
    done: Result<Option<u32>, ErrorView>,
) -> StepView<A> {
    match done {
        Err(e) => failed(create_failure::<A>(), e),
        Ok(_) => succeeded(
            config.silent,
            "successfully created "@ + A::label() + " record: "@ + address.text(),
        ),
    }
}

/// What a request brought, read with `read` where a reply came back; the
/// failure to send it or to receive the reply otherwise.
pub open spec fn received<T>(
    outcome: Result<Seq<char>, Seq<char>>,
    read: spec_fn(Seq<char>) -> Result<T, ErrorView>,
) -> Result<T, ErrorView> {
    match outcome {
        Ok(response) => read(response),
        Err(message) => Err(ErrorView::Request { message }),
    }
}

/// The step that follows what the awaited request brought.
pub open spec fn resumed<A: Address>(
    client: ClientView,
    config: ConfigView,
    waiting: Waiting<A>,
    outcome: Result<Seq<char>, Seq<char>>,
) -> StepView<A> {
    match waiting {
        Waiting::Ping => pinged(
            client,
            config,
            received(outcome, |response: Seq<char>| narrowed::<A>(ping_result(response))),
        ),
        Waiting::Fetch { address } => fetched(
            client,
            config,
            address,
            received(
                outcome,
                |response: Seq<char>| records_result::<AddressRecord<A>>(response),
            ),
        ),
        Waiting::Edit { address } => edited(
            config,
            address,
            received(outcome, |response: Seq<char>| edit_result(response)),
        ),
        Waiting::Create { address } => created(
            config,
            address,
            received(outcome, |response: Seq<char>| create_result(response)),
        ),
    }
}

/// The number of requests that an update may still send, the awaited one
/// included.
pub open spec fn requests_left<A>(waiting: Waiting<A>) -> nat {
    match waiting {
        Waiting::Ping => 3,
        Waiting::Fetch { .. } => 2,
        Waiting::Edit { .. } => 1,
        Waiting::Create { .. } => 1,
    }
}

/// The address that an update has observed, once it has.
pub open spec fn observed<A>(waiting: Waiting<A>) -> Option<A> {
    match waiting {
        Waiting::Ping => None,
        Waiting::Fetch { address } => Some(address),
        Waiting::Edit { address } => Some(address),
        Waiting::Create { address } => Some(address),
    }
}

/// An update ends after three requests at most: whatever a request
/// brings, the update either ends or goes on to a request that is nearer
/// the end. The address that it has observed stays the one it works with,
/// and a record is written only after the listing was read.
pub proof fn lemma_update_ends<A: Address>(
    client: ClientView,
    config: ConfigView,
    waiting: Waiting<A>,
    outcome: Result<Seq<char>, Seq<char>>,
)
    ensures
        resumed(client, config, waiting, outcome) matches StepView::Send { waiting: next, .. }
            ==> {
            &&& requests_left(next) < requests_left(waiting)
            &&& observed(waiting) is Some ==> observed(next) == observed(waiting)
            &&& (next is Edit || next is Create) ==> waiting is Fetch
        },
{
}

/// An update that finds the observed address published ends well, and
/// sends nothing more: no record is written.
pub proof fn lemma_unchanged_writes_nothing<A: Address>(
    client: ClientView,
    config: ConfigView,
    address: A,
    published: Seq<AddressRecordView<A>>,
)
    requires
        decision(address, published, target_name(config.domain, config.subdomain))
            == DecisionView::Unchanged,
    ensures
        fetched(client, config, address, Ok(published)) matches StepView::Done { ok, .. } && ok,
{
}

/// An update that fails at any request ends badly, with a line that
/// reports the failure, whether it is silent or not.
pub proof fn lemma_failure_is_reported<A: Address>(
    client: ClientView,
    config: ConfigView,
    waiting: Waiting<A>,
    message: Seq<char>,
)
    ensures
        resumed(client, config, waiting, Err(message)) matches StepView::Done { ok, line } && !ok
            && (line matches Some(l) && l.level == Level::Error),
{
}

/// The number of families whose update was asked for and failed. `None`
/// stands for a family that was not asked for.
pub open spec fn failures(ipv4: Option<bool>, ipv6: Option<bool>) -> int {
    (if ipv4 == Some(false) {
        1int
    } else {
        0int
    }) + (if ipv6 == Some(false) {
        1int
    } else {
        0int
    })
}

/// A borrowed view of an optional text.
fn borrowed(text: &Option<String>) -> (r: Option<&str>)
    ensures
        crate::client::optional_str(r) == optional_text(*text),
{
    match text {
        Some(s) => Some(s.as_str()),
        None => None,
    }
}

/// The end of an update that failed at `what`.
fn fail<A: Address>(before: &str, after: &str, e: &Error) -> (r: Step<A>)
    ensures
        r@ == failed::<A>(before@ + A::label() + after@, e@),
{
    let mut text = before.to_owned();
    text.append(A::family());
    text.append(after);
    text.append(": ");
    let reason = e.message();
    text.append(reason.as_str());
    Step::Done { ok: false, line: Some(Line { level: Level::Error, text }) }
}

/// The end of an update that went well.
fn succeed<A: Address>(silent: bool, text: String) -> (r: Step<A>)
    ensures
        r@ == succeeded::<A>(silent, text@),
{
    if silent {
        Step::Done { ok: true, line: None }
    } else {
        Step::Done { ok: true, line: Some(Line { level: Level::Info, text }) }
    }
}

/// The text that names the family between `before` and `after`, and ends
/// with the address where one is given.
fn family_text<A: Address>(before: &str, after: &str, address: Option<&A>) -> (r: String)
    ensures
        r@ == before@ + A::label() + after@ + match address {
            Some(a) => a.text(),
            None => Seq::empty(),
        },
{
    let mut text = before.to_owned();
    text.append(A::family());
    text.append(after);
    if let Some(a) = address {
        let written = a.format();
        text.append(written.as_str());
    }
    text
}

/// The first step of an update: the ping that finds the address of the
/// family.
pub fn begin<A: Address>(client: &Client) -> (r: Step<A>)
    ensures
        r@ == begun::<A>(client@),
{
    Step::Send { request: client.family_ping_request::<A>(), waiting: Waiting::Ping }
}

/// The step after the ping, given what the ping found.
pub fn after_ping<A: Address>(
    client: &Client,
    config: &Config,
    found: Result<Option<A>, Error>,
) -> (r: Step<A>)
    ensures
        match found {
            Ok(p) => r@ == pinged::<A>(client@, config@, Ok(p)),
            Err(e) => r@ == pinged::<A>(client@, config@, Err(e@)),
        },
{
    match found {
        Err(e) => fail::<A>("failed to retrieve public ", " address", &e),
        Ok(None) => {
            let text = family_text::<A>("", " address is not present", None);
            proof {
                reveal_strlit("");
            }
            Step::Done { ok: false, line: Some(Line { level: Level::Error, text }) }
        },
        Ok(Some(address)) => Step::Send {
            request: client.fetch_address_records_request::<A>(
                config.domain.as_str(),
                borrowed(&config.subdomain),
            ),
            waiting: Waiting::Fetch { address },
        },
    }
}

/// The step after the listing, given the records that it brought.
pub fn after_fetch<A: Address>(
    client: &Client,
    config: &Config,
    address: A,
    listed: Result<Vec<AddressRecord<A>>, Error>,
) -> (r: Step<A>)
    ensures
        match listed {
            Ok(published) => r@ == fetched::<A>(
                client@,
                config@,
                address,
                Ok(views_of(published@)),
            ),
            Err(e) => r@ == fetched::<A>(client@, config@, address, Err(e@)),
        },
{
    match listed {
        Err(e) => fail::<A>("failed to retrieve previous ", " address", &e),
        Ok(published) => {
            let subdomain = borrowed(&config.subdomain);
            let target = record_name(config.domain.as_str(), subdomain);
            match reconcile(&address, &published, target) {
                Decision::Unchanged => {
                    let text = family_text::<A>(
                        "current ",
                        " record matches public ip address",
                        None,
                    );
                    succeed::<A>(config.silent, text)
                },
                Decision::Stale { .. } => Step::Send {
                    request: client.edit_address_request::<A>(
                        config.domain.as_str(),
                        subdomain,
                        &address,
                    ),
                    waiting: Waiting::Edit { address },
                },
                Decision::Absent => {
                    let content = address.format();
                    Step::Send {
                        request: client.create_record_request(
                            config.domain.as_str(),
                            subdomain,
                            A::record_type(),
                            content.as_str(),
                            None,
                            None,
                        ),
                        waiting: Waiting::Create { address },
                    }
                },
            }
        },
    }
}

/// The step after the edit, given how it went.
pub fn after_edit<A: Address>(config: &Config, address: A, done: Result<(), Error>) -> (r: Step<A>)
    ensures
        match done {
            Ok(p) => r@ == edited::<A>(config@, address, Ok(p)),
            Err(e) => r@ == edited::<A>(config@, address, Err(e@)),
        },
{
    match done {
        Err(e) => fail::<A>("failed to edit ", " address", &e),
        Ok(_) => succeed::<A>(
            config.silent,
            family_text::<A>("successfully updated ", " record to ", Some(&address)),
        ),
    }
}

/// The step after the create, given how it went.
pub fn after_create<A: Address>(
    config: &Config,
    address: A,
    done: Result<Option<u32>, Error>,
) -> (r: Step<A>)
    ensures
        match done {
            Ok(p) => r@ == created::<A>(config@, address, Ok(p)),
            Err(e) => r@ == created::<A>(config@, address, Err(e@)),
        },
{
    match done {
        Err(e) => fail::<A>("failed to create ", " record", &e),
        Ok(_) => succeed::<A>(
            config.silent,
            family_text::<A>("successfully created ", " record: ", Some(&address)),
        ),
    }
}

/// The step that follows what the awaited request brought: the text of
/// the reply, or the reason why none came.
pub fn resume<A: Address>(
    client: &Client,
    config: &Config,
    waiting: Waiting<A>,
    outcome: Result<String, String>,
) -> (r: Step<A>)
    ensures
        match outcome {
            Ok(response) => r@ == resumed::<A>(client@, config@, waiting, Ok(response@)),
            Err(message) => r@ == resumed::<A>(client@, config@, waiting, Err(message@)),
        },
{
    match waiting {
        Waiting::Ping => {
            let found = match outcome {
                Ok(response) => client.family_ping::<A>(response.as_str()),
                Err(message) => Err(Error::Request { message }),
            };
            after_ping::<A>(client, config, found)
        },
        Waiting::Fetch { address } => {
            let listed = match outcome {
                Ok(response) => client.fetch_address_records::<A>(response.as_str()),
                Err(message) => Err(Error::Request { message }),
            };
            after_fetch::<A>(client, config, address, listed)
        },
        Waiting::Edit { address } => {
            let done = match outcome {
                Ok(response) => client.edit_address(response.as_str()),
                Err(message) => Err(Error::Request { message }),
            };
            after_edit::<A>(config, address, done)
        },
        Waiting::Create { address } => {
            let done = match outcome {
                Ok(response) => client.create_record(response.as_str()),
                Err(message) => Err(Error::Request { message }),
            };
            after_create::<A>(config, address, done)
        },
    }
}

/// The exit code of a run: the number of families whose update was asked
/// for and failed.
pub fn exit_code(ipv4: Option<bool>, ipv6: Option<bool>) -> (r: i32)
    ensures
        r == failures(ipv4, ipv6),
{
    let mut count: i32 = 0;
    match ipv4 {
        Some(false) => {
            count += 1;
        },
        _ => {},
    }
    match ipv6 {
        Some(false) => {
            count += 1;
        },
        _ => {},
    }
    count
}

} // verus!
