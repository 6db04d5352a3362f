//! The client: the keys of an account, the request that each operation
//! sends, and what each reply amounts to.

use vstd::prelude::*;
use vstd::string::StringExecFns;
use crate::address::{Address, IpAddress};
use crate::codec::{
    authenticated_body, create_result, decode_create, decode_edit, decode_ping, decode_records,
    edit_result, encode_authenticated_body, ping_result, records_result, views_of, Fields,
    FieldsView,
};
use crate::error::{Error, ErrorView};
use crate::ipv4::Ipv4Address;
use crate::ipv6::Ipv6Address;
use crate::json::{parse, parsed_json, Json, JsonView};
use crate::record::{
    AddressRecord, AddressRecordView, DnsRecord, DnsRecordView, Ipv4Record, Ipv6Record, RecordType,
};

verus! {

/// The keys of an account, and the text of the key file that they were
/// read from. The text is kept because it is the body of every request
/// that adds nothing to the keys.
#[derive(Clone, Debug)]
pub struct Client {
    key_file: String,
    secret_api_key: String,
    api_key: String,
}

/// The mathematical value of a [`Client`].
pub struct ClientView {
    pub key_file: Seq<char>,
    pub secret_api_key: Seq<char>,
    pub api_key: Seq<char>,
}

impl View for Client {
    type V = ClientView;

    closed spec fn view(&self) -> ClientView {
        ClientView {
            key_file: self.key_file@,
            secret_api_key: self.secret_api_key@,
            api_key: self.api_key@,
        }
    }
}

/// A request: the address that it is posted to, and its body.
#[derive(Clone, Debug, PartialEq, Eq)]
pub struct Request {
    pub url: String,
    pub body: String,
}

/// The mathematical value of a [`Request`].
pub struct RequestView {
    pub url: Seq<char>,
    pub body: Seq<char>,
}

impl View for Request {
    type V = RequestView;

    open spec fn view(&self) -> RequestView {
        RequestView { url: self.url@, body: self.body@ }
    }
}

/// The key held by the member `name` of a key file read as JSON. A member
/// that is missing and a member that is no string are told apart.
pub open spec fn key_of(value: JsonView, name: Seq<char>) -> Result<Seq<char>, ErrorView> {
    match value.field(name) {
        None => Err(ErrorView::Json { message: "missing field `"@ + name + "`"@ }),
        Some(JsonView::Text(key)) => Ok(key),
        Some(_) => Err(
            ErrorView::Json {
                message: "invalid type for field `"@ + name + "`: expected a string"@,
            },
        ),
    }
}

/// The client that a key file read as JSON gives: the file must be an
/// object whose members `apikey` and `secretapikey` are strings. The
/// first of the two that is not is reported, `apikey` before
/// `secretapikey`.
pub open spec fn keys_of(value: JsonView, key_file: Seq<char>) -> Result<ClientView, ErrorView> {
    if !(value is Object) {
        Err(ErrorView::Json { message: "invalid type: expected an object"@ })
    } else {
        match key_of(value, "apikey"@) {
            Err(e) => Err(e),
            Ok(api_key) => match key_of(value, "secretapikey"@) {
                Err(e) => Err(e),
                Ok(secret_api_key) => Ok(ClientView { key_file, secret_api_key, api_key }),
            },
        }
    }
}

/// The client that the text of a key file gives.
pub open spec fn opened(key_file: Seq<char>) -> Result<ClientView, ErrorView> {
    match parsed_json(key_file) {
        Err(message) => Err(ErrorView::Json { message }),
        Ok(value) => keys_of(value, key_file),
    }
}

/// Where a ping goes that may arrive over either family.
pub open spec fn ping_url() -> Seq<char> {
    "https://api.porkbun.com/api/json/v3/ping"@
}

/// Where a ping goes that must arrive over IPv4.
pub open spec fn ping_ipv4_url() -> Seq<char> {
    "https://api-ipv4.porkbun.com/api/json/v3/ping"@
}

/// Where the ping goes that finds the address of the family `A`.
pub open spec fn family_ping_url<A: Address>() -> Seq<char> {
    if A::kind() == RecordType::A {
        ping_ipv4_url()
    } else {
        ping_url()
    }
}

/// Where the listing of all records of a domain is asked for.
pub open spec fn retrieve_url(domain: Seq<char>) -> Seq<char> {
    "https://api.porkbun.com/api/json/v3/dns/retrieve/"@ + domain
}

/// Where a record is created in a domain.
pub open spec fn create_url(domain: Seq<char>) -> Seq<char> {
    "https://api.porkbun.com/api/json/v3/dns/create/"@ + domain
}

/// The end of an address that names records by domain, type and
/// subdomain: the subdomain, where there is one, is the last segment as
/// it stands, and the segment is empty where there is none.
pub open spec fn name_type_path(
    domain: Seq<char>,
    ty: RecordType,
    subdomain: Option<Seq<char>>,
) -> Seq<char> {
    domain + "/"@ + ty.name() + "/"@ + match subdomain {
        Some(s) => s,
        None => Seq::empty(),
    }
}

/// Where the records of one type, and of one subdomain if one is given,
/// are asked for.
pub open spec fn retrieve_by_name_type_url(
    domain: Seq<char>,
    ty: RecordType,
    subdomain: Option<Seq<char>>,
) -> Seq<char> {
    "https://api.porkbun.com/api/json/v3/dns/retrieveByNameType/"@ + name_type_path(
        domain,
        ty,
        subdomain,
    )
}

/// Where the records of one type, and of one subdomain if one is given,
/// are edited.
pub open spec fn edit_by_name_type_url(
    domain: Seq<char>,
    ty: RecordType,
    subdomain: Option<Seq<char>>,
) -> Seq<char> {
    "https://api.porkbun.com/api/json/v3/dns/editByNameType/"@ + name_type_path(
        domain,
        ty,
        subdomain,
    )
}

/// The view of an optional borrowed text.
pub open spec fn optional_str(text: Option<&str>) -> Option<Seq<char>> {
    match text {
        Some(s) => Some(s@),
        None => None,
    }
}

/// The members that a create adds to the keys.
pub open spec fn create_fields(
    name: Option<Seq<char>>,
    ty: RecordType,
    content: Seq<char>,
    ttl: Option<Seq<char>>,
    prio: Option<Seq<char>>,
) -> FieldsView {
    FieldsView { name, ty: Some(ty), content: Some(content), ttl, prio }
}

/// The members that an edit of an address adds to the keys.
pub open spec fn edit_fields<A: Address>(address: A) -> FieldsView {
    FieldsView {
        name: None,
        ty: Some(A::kind()),
        content: Some(address.text()),
        ttl: None,
        prio: None,
    }
}

/// The request that creates a record in a domain: the keys and the
/// record's members, posted to the domain's address for creating.
pub open spec fn create_request(
    client: ClientView,
    domain: Seq<char>,
    name: Option<Seq<char>>,
    ty: RecordType,
    content: Seq<char>,
    ttl: Option<Seq<char>>,
    prio: Option<Seq<char>>,
) -> RequestView {
    RequestView {
        url: create_url(domain),
        body: authenticated_body(
            client.secret_api_key,
            client.api_key,
            create_fields(name, ty, content, ttl, prio),
        ),
    }
}

/// The request that puts `address` in place of the content of the record
/// of the family's type under a domain, and under a subdomain if one is
/// given: the keys, the type and the text of the address, posted to the
/// address that names the record by domain, type and subdomain.
pub open spec fn edit_request<A: Address>(
    client: ClientView,
    domain: Seq<char>,
    subdomain: Option<Seq<char>>,
    address: A,
) -> RequestView {
    RequestView {
        url: edit_by_name_type_url(domain, A::kind(), subdomain),
        body: authenticated_body(client.secret_api_key, client.api_key, edit_fields(address)),
    }
}

/// What a ping for the family `A` amounts to, given what the ping
/// amounts to for either family: an address of the family is handed on,
/// one of the other family is reported as unexpected, and everything else
/// stays as it is.
pub open spec fn narrowed<A: Address>(found: Result<Option<IpAddress>, ErrorView>) -> Result<
    Option<A>,
    ErrorView,
> {
    match found {
        Err(e) => Err(e),
        Ok(None) => Ok(None),
        Ok(Some(ip)) => match A::pick(ip) {
            Ok(a) => Ok(Some(a)),
            Err(e) => Err(e),
        },
    }
}

/// A ping for a family succeeds on an address of that family, and fails
/// on an address of the other family, which it reports as unexpected.
pub proof fn lemma_ping_family(found: IpAddress)
    ensures
        found matches IpAddress::V4(a) ==> narrowed::<Ipv4Address>(Ok(Some(found))) == Ok::<
            Option<Ipv4Address>,
            ErrorView,
        >(Some(a)) && narrowed::<Ipv6Address>(Ok(Some(found))) == Err::<
            Option<Ipv6Address>,
            ErrorView,
        >(ErrorView::UnexpectedIpv4(a)),
        found matches IpAddress::V6(a) ==> narrowed::<Ipv6Address>(Ok(Some(found))) == Ok::<
            Option<Ipv6Address>,
            ErrorView,
        >(Some(a)) && narrowed::<Ipv4Address>(Ok(Some(found))) == Err::<
            Option<Ipv4Address>,
            ErrorView,
        >(ErrorView::UnexpectedIpv6(a)),
{
}

/// An owned copy of an optional borrowed text.
fn owned(text: Option<&str>) -> (r: Option<String>)
    ensures
        crate::record::optional_text(r) == optional_str(text),
{
    match text {
        Some(s) => Some(s.to_owned()),
        None => None,
    }
}

/// Writes the end of an address that names records by domain, type and
/// subdomain.
fn write_name_type_path(out: &mut String, domain: &str, ty: RecordType, subdomain: Option<&str>)
    ensures
        final(out)@ == old(out)@ + name_type_path(domain@, ty, optional_str(subdomain)),
{
    out.append(domain);
    out.append("/");
    out.append(ty.as_str());
    out.append("/");
    if let Some(s) = subdomain {
        out.append(s);
    }
}

/// Reads the key held by the member `name` of a key file read as JSON.
fn read_key(value: &Json, name: &str) -> (r: Result<String, Error>)
    ensures
        match r {
            Ok(key) => key_of(value@, name@) == Ok::<Seq<char>, ErrorView>(key@),
            Err(e) => key_of(value@, name@) == Err::<Seq<char>, ErrorView>(e@),
        },
{
    match value.get(name) {
        None => {
            let mut message = "missing field `".to_owned();
            message.append(name);
            message.append("`");
            Err(Error::Json { message })
        },
        Some(Json::Text(key)) => Ok(key.clone()),
        Some(_) => {
            let mut message = "invalid type for field `".to_owned();
            message.append(name);
            message.append("`: expected a string");
            Err(Error::Json { message })
        },
    }
}

/// Narrows what a ping found to the family `A`.
pub fn narrow_ping<A: Address>(found: Result<Option<IpAddress>, Error>) -> (r: Result<
    Option<A>,
    Error,
>)
    ensures
        match (found, r) {
            (Err(e), Err(f)) => f@ == e@,
            (Ok(None), Ok(None)) => true,
            (Ok(Some(ip)), Ok(Some(a))) => A::pick(ip) == Ok::<A, ErrorView>(a),
            (Ok(Some(ip)), Err(f)) => A::pick(ip) == Err::<A, ErrorView>(f@),
            _ => false,
        },
{
    match found {
        Err(e) => Err(e),
        Ok(None) => Ok(None),
        Ok(Some(ip)) => match A::narrow(ip) {
            Ok(a) => Ok(Some(a)),
            Err(e) => Err(e),
        },
    }
}

impl Client {
    /// The client that a key file read as JSON gives.
    pub fn from_keys(value: &Json, key_file: String) -> (r: Result<Client, Error>)
        ensures
            match r {
                Ok(client) => keys_of(value@, key_file@) == Ok::<ClientView, ErrorView>(client@),
                Err(e) => keys_of(value@, key_file@) == Err::<ClientView, ErrorView>(e@),
            },
    {
        match value {
            Json::Object(_) => match read_key(value, "apikey") {
                Err(e) => Err(e),
                Ok(api_key) => match read_key(value, "secretapikey") {
                    Err(e) => Err(e),
                    Ok(secret_api_key) => Ok(Client { key_file, secret_api_key, api_key }),
                },
            },
            _ => Err(Error::Json { message: "invalid type: expected an object".to_owned() }),
        }
    }

    /// Opens the keys of an account from the text of its key file: a JSON
    /// object with the two strings `apikey` and `secretapikey`.
    pub fn open_keys(key_file: String) -> (r: Result<Client, Error>)
        ensures
            match r {
                Ok(client) => opened(key_file@) == Ok::<ClientView, ErrorView>(client@),
                Err(e) => opened(key_file@) == Err::<ClientView, ErrorView>(e@),
            },
    {
        match parse(key_file.as_str()) {
            Err(message) => Err(Error::Json { message }),
            Ok(value) => Client::from_keys(&value, key_file),
        }
    }

    /// The request whose body is the key file as it was read.
    fn post_keys(&self, url: String) -> (r: Request)
        ensures
            r@ == (RequestView { url: url@, body: self@.key_file }),
    {
        Request { url, body: self.key_file.clone() }
    }

    /// The ping that may arrive over either family.
    pub fn ping_request(&self) -> (r: Request)
        ensures
            r@ == (RequestView { url: ping_url(), body: self@.key_file }),
    {
        self.post_keys("https://api.porkbun.com/api/json/v3/ping".to_owned())
    }

    /// The ping that finds the address of the family `A`. There is a host
    /// that answers over IPv4 only, and none for IPv6: that ping goes to
    /// the host that answers over either.
    pub fn family_ping_request<A: Address>(&self) -> (r: Request)
        ensures
            r@ == (RequestView { url: family_ping_url::<A>(), body: self@.key_file }),
    {
        match A::record_type() {
            RecordType::A => self.post_keys(
                "https://api-ipv4.porkbun.com/api/json/v3/ping".to_owned(),
            ),
            _ => self.ping_request(),
        }
    }

    /// The ping that must arrive over IPv4.
    pub fn ping_ipv4_request(&self) -> (r: Request)
        ensures
            r@ == (RequestView { url: ping_ipv4_url(), body: self@.key_file }),
    {
        self.family_ping_request::<Ipv4Address>()
    }

    /// The ping that is expected to arrive over IPv6.
    pub fn ping_ipv6_request(&self) -> (r: Request)
        ensures
            r@ == (RequestView { url: ping_url(), body: self@.key_file }),
    {
        self.family_ping_request::<Ipv6Address>()
    }

    /// The address that the provider saw the ping come from, if the reply
    /// holds one.
    pub fn ping(&self, response: &str) -> (r: Result<Option<IpAddress>, Error>)
        ensures
            match r {
                Ok(p) => ping_result(response@) == Ok::<
                    Option<IpAddress>,
                    ErrorView,
                >(p),
                Err(e) => ping_result(response@) == Err::<
                    Option<IpAddress>,
                    ErrorView,
                >(e@),
            },
    {
        decode_ping(response)
    }

    /// The address of the family `A` that the provider saw the ping come
    /// from, if the reply holds one. An address of the other family is a
    /// failure.
    pub fn family_ping<A: Address>(&self, response: &str) -> (r: Result<Option<A>, Error>)
        ensures
            match r {
                Ok(p) => narrowed::<A>(ping_result(response@))
                    == Ok::<Option<A>, ErrorView>(p),
                Err(e) => narrowed::<A>(ping_result(response@))
                    == Err::<Option<A>, ErrorView>(e@),
            },
    {
        narrow_ping::<A>(decode_ping(response))
    }

    /// The IPv4 address that the provider saw the ping come from.
    pub fn ping_ipv4(&self, response: &str) -> (r: Result<Option<Ipv4Address>, Error>)
        ensures
            match r {
                Ok(p) => narrowed::<Ipv4Address>(
                    ping_result(response@),
                ) == Ok::<Option<Ipv4Address>, ErrorView>(p),
                Err(e) => narrowed::<Ipv4Address>(
                    ping_result(response@),
                ) == Err::<Option<Ipv4Address>, ErrorView>(e@),
            },
    {
        self.family_ping::<Ipv4Address>(response)
    }

    /// The IPv6 address that the provider saw the ping come from.
    pub fn ping_ipv6(&self, response: &str) -> (r: Result<Option<Ipv6Address>, Error>)
        ensures
            match r {
                Ok(p) => narrowed::<Ipv6Address>(
                    ping_result(response@),
                ) == Ok::<Option<Ipv6Address>, ErrorView>(p),
                Err(e) => narrowed::<Ipv6Address>(
                    ping_result(response@),
                ) == Err::<Option<Ipv6Address>, ErrorView>(e@),
            },
    {
        self.family_ping::<Ipv6Address>(response)
    }

    /// The request for all records of a domain.
    pub fn fetch_records_request(&self, domain: &str) -> (r: Request)
        ensures
            r@ == (RequestView { url: retrieve_url(domain@), body: self@.key_file }),
    {
        let mut url = "https://api.porkbun.com/api/json/v3/dns/retrieve/".to_owned();
        url.append(domain);
        self.post_keys(url)
    }

    /// The request for the address records of the family `A` in a domain,
    /// and of one subdomain if one is given.
    pub fn fetch_address_records_request<A: Address>(
        &self,
        domain: &str,
        subdomain: Option<&str>,
    ) -> (r: Request)
        ensures
            r@ == (RequestView {
                url: retrieve_by_name_type_url(domain@, A::kind(), optional_str(subdomain)),
                body: self@.key_file,
            }),
    {
        let mut url = "https://api.porkbun.com/api/json/v3/dns/retrieveByNameType/".to_owned();
        write_name_type_path(&mut url, domain, A::record_type(), subdomain);
        self.post_keys(url)
    }

    /// The request for the A records of a domain.
    pub fn fetch_ipv4_records_request(&self, domain: &str, subdomain: Option<&str>) -> (r: Request)
        ensures
            r@ == (RequestView {
                url: retrieve_by_name_type_url(domain@, RecordType::A, optional_str(subdomain)),
                body: self@.key_file,
            }),
    {
        self.fetch_address_records_request::<Ipv4Address>(domain, subdomain)
    }

    /// The request for the AAAA records of a domain.
    pub fn fetch_ipv6_records_request(&self, domain: &str, subdomain: Option<&str>) -> (r: Request)
        ensures
            r@ == (RequestView {
                url: retrieve_by_name_type_url(domain@, RecordType::Aaaa, optional_str(subdomain)),
                body: self@.key_file,
            }),
    {
        self.fetch_address_records_request::<Ipv6Address>(domain, subdomain)
    }

    /// The records that a reply to a listing holds.
    pub fn fetch_records(&self, response: &str) -> (r: Result<Vec<DnsRecord>, Error>)
        ensures
            match r {
                Ok(p) => records_result::<DnsRecord>(response@) == Ok::<
                    Seq<DnsRecordView>,
                    ErrorView,
                >(views_of(p@)),
                Err(e) => records_result::<DnsRecord>(response@)
                    == Err::<Seq<DnsRecordView>, ErrorView>(e@),
            },
    {
        decode_records::<DnsRecord>(response)
    }

    /// The address records of the family `A` that a reply to a listing
    /// holds.
    pub fn fetch_address_records<A: Address>(&self, response: &str) -> (r: Result<
        Vec<AddressRecord<A>>,
        Error,
    >)
        ensures
            match r {
                Ok(p) => records_result::<AddressRecord<A>>(response@)
                    == Ok::<Seq<AddressRecordView<A>>, ErrorView>(views_of(p@)),
                Err(e) => records_result::<AddressRecord<A>>(response@)
                    == Err::<Seq<AddressRecordView<A>>, ErrorView>(e@),
            },
    {
        decode_records::<AddressRecord<A>>(response)
    }

    /// The A records that a reply to a listing holds.
    pub fn fetch_ipv4_records(&self, response: &str) -> (r: Result<Vec<Ipv4Record>, Error>)
        ensures
            match r {
                Ok(p) => records_result::<Ipv4Record>(response@)
                    == Ok::<Seq<AddressRecordView<Ipv4Address>>, ErrorView>(views_of(p@)),
                Err(e) => records_result::<Ipv4Record>(response@)
                    == Err::<Seq<AddressRecordView<Ipv4Address>>, ErrorView>(e@),
            },
    {
        self.fetch_address_records::<Ipv4Address>(response)
    }

    /// The AAAA records that a reply to a listing holds.
    pub fn fetch_ipv6_records(&self, response: &str) -> (r: Result<Vec<Ipv6Record>, Error>)
        ensures
            match r {
                Ok(p) => records_result::<Ipv6Record>(response@)
                    == Ok::<Seq<AddressRecordView<Ipv6Address>>, ErrorView>(views_of(p@)),
                Err(e) => records_result::<Ipv6Record>(response@)
                    == Err::<Seq<AddressRecordView<Ipv6Address>>, ErrorView>(e@),
            },
    {
        self.fetch_address_records::<Ipv6Address>(response)
    }

    /// The request that creates a record in a domain.
    pub fn create_record_request(
        &self,
        domain: &str,
        name: Option<&str>,
        ty: RecordType,
        content: &str,
        ttl: Option<&str>,
        prio: Option<&str>,
    ) -> (r: Request)
        ensures
            r@ == create_request(
                self@,
                domain@,
                optional_str(name),
                ty,
                content@,
                optional_str(ttl),
                optional_str(prio),
            ),
    {
        let fields = Fields {
            name: owned(name),
            ty: Some(ty),
            content: Some(content.to_owned()),
            ttl: owned(ttl),
            prio: owned(prio),
        };
        let body = encode_authenticated_body(
            self.secret_api_key.as_str(),
            self.api_key.as_str(),
            &fields,
        );
        let mut url = "https://api.porkbun.com/api/json/v3/dns/create/".to_owned();
        url.append(domain);
        Request { url, body }
    }

    /// The number that the provider gave the record that was created, if
    /// the reply holds one.
    pub fn create_record(&self, response: &str) -> (r: Result<Option<u32>, Error>)
        ensures
            match r {
                Ok(p) => create_result(response@) == Ok::<
                    Option<u32>,
                    ErrorView,
                >(p),
                Err(e) => create_result(response@) == Err::<
                    Option<u32>,
                    ErrorView,
                >(e@),
            },
    {
        decode_create(response)
    }

    /// The request that puts `address` in place of the content of the
    /// record of the family's type under a domain, and under a subdomain
    /// if one is given.
    pub fn edit_address_request<A: Address>(
        &self,
        domain: &str,
        subdomain: Option<&str>,
        address: &A,
    ) -> (r: Request)
        ensures
            r@ == edit_request::<A>(self@, domain@, optional_str(subdomain), *address),
    {
        let fields = Fields {
            name: None,
            ty: Some(A::record_type()),
            content: Some(address.format()),
            ttl: None,
            prio: None,
        };
        let body = encode_authenticated_body(
            self.secret_api_key.as_str(),
            self.api_key.as_str(),
            &fields,
        );
        let mut url = "https://api.porkbun.com/api/json/v3/dns/editByNameType/".to_owned();
        write_name_type_path(&mut url, domain, A::record_type(), subdomain);
        Request { url, body }
    }

    /// The request that edits the A record of a name.
    pub fn edit_ipv4_address_request(
        &self,
        domain: &str,
        subdomain: Option<&str>,
        address: &Ipv4Address,
    ) -> (r: Request)
        ensures
            r@ == edit_request::<Ipv4Address>(self@, domain@, optional_str(subdomain), *address),
    {
        self.edit_address_request::<Ipv4Address>(domain, subdomain, address)
    }

    /// The request that edits the AAAA record of a name.
    pub fn edit_ipv6_address_request(
        &self,
        domain: &str,
        subdomain: Option<&str>,
        address: &Ipv6Address,
    ) -> (r: Request)
        ensures
            r@ == edit_request::<Ipv6Address>(self@, domain@, optional_str(subdomain), *address),
    {
        self.edit_address_request::<Ipv6Address>(domain, subdomain, address)
    }

    /// Whether the provider carried the edit out.
    pub fn edit_address(&self, response: &str) -> (r: Result<(), Error>)
        ensures
            match r {
                Ok(p) => edit_result(response@) == Ok::<(), ErrorView>(p),
                Err(e) => edit_result(response@) == Err::<(), ErrorView>(
                    e@,
                ),
            },
    {
        decode_edit(response)
    }

    /// Whether the provider carried the edit of an A record out.
    pub fn edit_ipv4_address(&self, response: &str) -> (r: Result<(), Error>)
        ensures
            match r {
                Ok(p) => edit_result(response@) == Ok::<(), ErrorView>(p),
                Err(e) => edit_result(response@) == Err::<(), ErrorView>(
                    e@,
                ),
            },
    {
        self.edit_address(response)
    }

    /// Whether the provider carried the edit of an AAAA record out.
    pub fn edit_ipv6_address(&self, response: &str) -> (r: Result<(), Error>)
        ensures
            match r {
                Ok(p) => edit_result(response@) == Ok::<(), ErrorView>(p),
                Err(e) => edit_result(response@) == Err::<(), ErrorView>(
                    e@,
                ),
            },
    {
        self.edit_address(response)
    }
}

} // verus!
