//! The records that the provider lists, and how each is read from JSON.

use vstd::prelude::*;
use crate::address::Address;
use crate::ipv4::Ipv4Address;
use crate::ipv6::Ipv6Address;
use crate::json::{lemma_member_at, lemma_member_inserted, Json, JsonView};
use crate::text::same_text;

verus! {

/// Whether the provider carried a request out.
#[derive(Clone, Copy, Debug, PartialEq, Eq, Structural)]
pub enum Status {
    Success,
    Error,
}

/// The type of a DNS record.
#[derive(Clone, Copy, Debug, PartialEq, Eq, Structural)]
pub enum RecordType {
    A,
    Mx,
    Cname,
    Alias,
    Txt,
    Ns,
    Aaaa,
    Srv,
    Tlsa,
    Caa,
    Https,
    Svcb,
}

impl Status {
    /// The status that a word of the protocol names.
    pub open spec fn named(word: Seq<char>) -> Option<Status> {
        if word == "SUCCESS"@ {
            Some(Status::Success)
        } else if word == "ERROR"@ {
            Some(Status::Error)
        } else {
            None
        }
    }

    /// The status that a word of the protocol names.
    pub fn from_name(word: &str) -> (r: Option<Status>)
        ensures
            r == Status::named(word@),
    {
        if same_text(word, "SUCCESS") {
            Some(Status::Success)
        } else if same_text(word, "ERROR") {
            Some(Status::Error)
        } else {
            None
        }
    }
}

impl RecordType {
    /// The word that the protocol uses for the type.
    pub open spec fn name(self) -> Seq<char> {
        match self {
            RecordType::A => "A"@,
            RecordType::Mx => "MX"@,
            RecordType::Cname => "CNAME"@,
            RecordType::Alias => "ALIAS"@,
            RecordType::Txt => "TXT"@,
            RecordType::Ns => "NS"@,
            RecordType::Aaaa => "AAAA"@,
            RecordType::Srv => "SRV"@,
            RecordType::Tlsa => "TLSA"@,
            RecordType::Caa => "CAA"@,
            RecordType::Https => "HTTPS"@,
            RecordType::Svcb => "SVCB"@,
        }
    }

    /// The type that a word of the protocol names.
    pub open spec fn named(word: Seq<char>) -> Option<RecordType> {
        if word == "A"@ {
            Some(RecordType::A)
        } else if word == "MX"@ {
            Some(RecordType::Mx)
        } else if word == "CNAME"@ {
            Some(RecordType::Cname)
        } else if word == "ALIAS"@ {
            Some(RecordType::Alias)
        } else if word == "TXT"@ {
            Some(RecordType::Txt)
        } else if word == "NS"@ {
            Some(RecordType::Ns)
        } else if word == "AAAA"@ {
            Some(RecordType::Aaaa)
        } else if word == "SRV"@ {
            Some(RecordType::Srv)
        } else if word == "TLSA"@ {
            Some(RecordType::Tlsa)
        } else if word == "CAA"@ {
            Some(RecordType::Caa)
        } else if word == "HTTPS"@ {
            Some(RecordType::Https)
        } else if word == "SVCB"@ {
            Some(RecordType::Svcb)
        } else {
            None
        }
    }

    /// Every type is named by its own word and by no other.
    pub proof fn lemma_name_is_read_back(self)
        ensures
            RecordType::named(self.name()) == Some(self),
    {
        reveal_strlit("A");
        reveal_strlit("MX");
        reveal_strlit("CNAME");
        reveal_strlit("ALIAS");
        reveal_strlit("TXT");
        reveal_strlit("NS");
        reveal_strlit("AAAA");
        reveal_strlit("SRV");
        reveal_strlit("TLSA");
        reveal_strlit("CAA");
        reveal_strlit("HTTPS");
        reveal_strlit("SVCB");
        assert("A"@.len() == 1 && "MX"@.len() == 2 && "NS"@.len() == 2);
        assert("TXT"@.len() == 3 && "SRV"@.len() == 3 && "CAA"@.len() == 3);
        assert("AAAA"@.len() == 4 && "TLSA"@.len() == 4 && "SVCB"@.len() == 4);
        assert("MX"@[0] != "NS"@[0]);
        assert("TXT"@[0] != "SRV"@[0] && "TXT"@[0] != "CAA"@[0] && "SRV"@[0] != "CAA"@[0]);
        assert("AAAA"@[0] != "TLSA"@[0] && "AAAA"@[0] != "SVCB"@[0] && "TLSA"@[0] != "SVCB"@[0]);
        assert("CNAME"@[0] != "ALIAS"@[0] && "CNAME"@[0] != "HTTPS"@[0] && "ALIAS"@[0]
            != "HTTPS"@[0]);
    }

    /// The word that the protocol uses for the type.
    pub fn as_str(&self) -> (r: &'static str)
        ensures
            r@ == self.name(),
    {
        match self {
            RecordType::A => "A",
            RecordType::Mx => "MX",
            RecordType::Cname => "CNAME",
            RecordType::Alias => "ALIAS",
            RecordType::Txt => "TXT",
            RecordType::Ns => "NS",
            RecordType::Aaaa => "AAAA",
            RecordType::Srv => "SRV",
            RecordType::Tlsa => "TLSA",
            RecordType::Caa => "CAA",
            RecordType::Https => "HTTPS",
            RecordType::Svcb => "SVCB",
        }
    }

    /// The type that a word of the protocol names.
    pub fn from_name(word: &str) -> (r: Option<RecordType>)
        ensures
            r == RecordType::named(word@),
    {
        if same_text(word, "A") {
            Some(RecordType::A)
        } else if same_text(word, "MX") {
            Some(RecordType::Mx)
        } else if same_text(word, "CNAME") {
            Some(RecordType::Cname)
        } else if same_text(word, "ALIAS") {
            Some(RecordType::Alias)
        } else if same_text(word, "TXT") {
            Some(RecordType::Txt)
        } else if same_text(word, "NS") {
            Some(RecordType::Ns)
        } else if same_text(word, "AAAA") {
            Some(RecordType::Aaaa)
        } else if same_text(word, "SRV") {
            Some(RecordType::Srv)
        } else if same_text(word, "TLSA") {
            Some(RecordType::Tlsa)
        } else if same_text(word, "CAA") {
            Some(RecordType::Caa)
        } else if same_text(word, "HTTPS") {
            Some(RecordType::Https)
        } else if same_text(word, "SVCB") {
            Some(RecordType::Svcb)
        } else {
            None
        }
    }
}

/// A DNS record of any type, with its content as the provider wrote it.
#[derive(Clone, Debug, PartialEq, Eq)]
pub struct DnsRecord {
    pub id: String,
    pub name: String,
    pub ty: RecordType,
    pub content: String,
    pub ttl: String,
    pub prio: String,
    pub notes: Option<String>,
}

/// The mathematical value of a [`DnsRecord`].
pub struct DnsRecordView {
    pub id: Seq<char>,
    pub name: Seq<char>,
    pub ty: RecordType,
    pub content: Seq<char>,
    pub ttl: Seq<char>,
    pub prio: Seq<char>,
    pub notes: Option<Seq<char>>,
}

/// The view of an optional text.
pub open spec fn optional_text(text: Option<String>) -> Option<Seq<char>> {
    match text {
        Some(s) => Some(s@),
        None => None,
    }
}

impl View for DnsRecord {
    type V = DnsRecordView;

    open spec fn view(&self) -> DnsRecordView {
        DnsRecordView {
            id: self.id@,
            name: self.name@,
            ty: self.ty,
            content: self.content@,
            ttl: self.ttl@,
            prio: self.prio@,
            notes: optional_text(self.notes),
        }
    }
}

impl DnsRecordView {
    /// The record that a JSON value describes: an object whose members
    /// `id`, `name`, `type`, `content`, `ttl` and `prio` are strings, with
    /// `type` one of the words of the protocol, and whose member `notes`,
    /// if it has one, is a string or null. Other members are passed over.
    pub open spec fn of_json(value: JsonView) -> Option<DnsRecordView> {
        match (
            value.text_field("id"@),
            value.text_field("name"@),
            value.text_field("type"@),
            value.text_field("content"@),
            value.text_field("ttl"@),
            value.text_field("prio"@),
            value.optional_text_field("notes"@),
        ) {
            (Some(id), Some(name), Some(word), Some(content), Some(ttl), Some(prio), Some(notes)) =>
                match RecordType::named(word) {
                    Some(ty) => Some(DnsRecordView { id, name, ty, content, ttl, prio, notes }),
                    None => None,
                },
            _ => None,
        }
    }
}

/// A kind of record that can be read from the JSON value that describes
/// it.
pub trait Record: Sized + View {
    /// The record that a JSON value describes, if it describes one.
    spec fn described(value: JsonView) -> Option<Self::V>;

    /// The JSON value that describes a record: an object with the
    /// record's members, in the order in which the provider lists them.
    spec fn written(record: Self::V) -> JsonView;

    /// Every record is read back from the JSON value that describes it.
    proof fn lemma_written_is_read_back(record: Self::V)
        ensures
            Self::described(Self::written(record)) == Some(record),
    ;

    /// Reads a record from the JSON value that describes it.
    fn from_json(value: &Json) -> (r: Option<Self>)
        ensures
            match r {
                Some(record) => Self::described(value@) == Some(record@),
                None => Self::described(value@) is None,
            },
    ;
}

/// The names of the members of a record are all different.
pub proof fn lemma_member_names()
    ensures
        "id"@ != "name"@,
        "id"@ != "type"@,
        "id"@ != "content"@,
        "id"@ != "ttl"@,
        "id"@ != "prio"@,
        "id"@ != "notes"@,
        "name"@ != "type"@,
        "name"@ != "content"@,
        "name"@ != "ttl"@,
        "name"@ != "prio"@,
        "name"@ != "notes"@,
        "type"@ != "content"@,
        "type"@ != "ttl"@,
        "type"@ != "prio"@,
        "type"@ != "notes"@,
        "content"@ != "ttl"@,
        "content"@ != "prio"@,
        "content"@ != "notes"@,
        "ttl"@ != "prio"@,
        "ttl"@ != "notes"@,
        "prio"@ != "notes"@,
{
    reveal_strlit("id");
    reveal_strlit("name");
    reveal_strlit("type");
    reveal_strlit("content");
    reveal_strlit("ttl");
    reveal_strlit("prio");
    reveal_strlit("notes");
    assert("id"@.len() == 2 && "name"@.len() == 4 && "type"@.len() == 4);
    assert("content"@.len() == 7 && "ttl"@.len() == 3 && "prio"@.len() == 4);
    assert("name"@[0] != "type"@[0] && "name"@[0] != "prio"@[0] && "type"@[0] != "prio"@[0]);
}

impl DnsRecordView {
    /// The JSON value that describes the record.
    pub open spec fn to_json(self) -> JsonView {
        JsonView::Object(
            seq![
                ("id"@, JsonView::Text(self.id)),
                ("name"@, JsonView::Text(self.name)),
                ("type"@, JsonView::Text(self.ty.name())),
                ("content"@, JsonView::Text(self.content)),
                ("ttl"@, JsonView::Text(self.ttl)),
                ("prio"@, JsonView::Text(self.prio)),
                ("notes"@, JsonView::optional(self.notes)),
            ],
        )
    }
}

/// A member that is not one of a record's own, put in anywhere in the
/// JSON value that describes the record, changes nothing about the record
/// that is read, of any type or of an address family.
pub proof fn lemma_other_member<A: Address>(
    members: Seq<(Seq<char>, JsonView)>,
    i: int,
    name: Seq<char>,
    value: JsonView,
)
    requires
        0 <= i <= members.len(),
        name != "id"@,
        name != "name"@,
        name != "type"@,
        name != "content"@,
        name != "ttl"@,
        name != "prio"@,
        name != "notes"@,
    ensures
        DnsRecordView::of_json(JsonView::Object(members.insert(i, (name, value))))
            == DnsRecordView::of_json(JsonView::Object(members)),
        AddressRecordView::<A>::of_json(JsonView::Object(members.insert(i, (name, value))))
            == AddressRecordView::<A>::of_json(JsonView::Object(members)),
{
    lemma_member_inserted(members, i, name, value, "id"@);
    lemma_member_inserted(members, i, name, value, "name"@);
    lemma_member_inserted(members, i, name, value, "type"@);
    lemma_member_inserted(members, i, name, value, "content"@);
    lemma_member_inserted(members, i, name, value, "ttl"@);
    lemma_member_inserted(members, i, name, value, "prio"@);
    lemma_member_inserted(members, i, name, value, "notes"@);
}

impl Record for DnsRecord {
    open spec fn described(value: JsonView) -> Option<DnsRecordView> {
        DnsRecordView::of_json(value)
    }

    open spec fn written(record: DnsRecordView) -> JsonView {
        record.to_json()
    }

    proof fn lemma_written_is_read_back(record: DnsRecordView) {
        let members = record.to_json()->Object_0;
        lemma_member_names();
        lemma_member_at(members, "name"@, 1);
        lemma_member_at(members, "type"@, 2);
        lemma_member_at(members, "content"@, 3);
        lemma_member_at(members, "ttl"@, 4);
        lemma_member_at(members, "prio"@, 5);
        lemma_member_at(members, "notes"@, 6);
        record.ty.lemma_name_is_read_back();
    }

    fn from_json(value: &Json) -> (r: Option<DnsRecord>) {
        let id = value.text_field("id");
        let name = value.text_field("name");
        let word = value.text_field("type");
        let content = value.text_field("content");
        let ttl = value.text_field("ttl");
        let prio = value.text_field("prio");
        let notes = value.optional_text_field("notes");
        match (id, name, word, content, ttl, prio, notes) {
            (Some(id), Some(name), Some(word), Some(content), Some(ttl), Some(prio), Some(notes)) =>
                match RecordType::from_name(word.as_str()) {
                    Some(ty) => Some(DnsRecord { id, name, ty, content, ttl, prio, notes }),
                    None => None,
                },
            _ => None,
        }
    }
}

/// An address record: a record of type A or AAAA, with its content read
/// as an address of the family `A`.
#[derive(Clone, Debug, PartialEq, Eq)]
pub struct AddressRecord<A> {
    pub id: String,
    pub name: String,
    pub address: A,
    pub ttl: String,
    pub prio: String,
    pub notes: Option<String>,
}

/// A record of type A.
pub type Ipv4Record = AddressRecord<Ipv4Address>;

/// A record of type AAAA.
pub type Ipv6Record = AddressRecord<Ipv6Address>;

/// The mathematical value of an [`AddressRecord`].
pub struct AddressRecordView<A> {
    pub id: Seq<char>,
    pub name: Seq<char>,
    pub address: A,
    pub ttl: Seq<char>,
    pub prio: Seq<char>,
    pub notes: Option<Seq<char>>,
}

impl<A> View for AddressRecord<A> {
    type V = AddressRecordView<A>;

    open spec fn view(&self) -> AddressRecordView<A> {
        AddressRecordView {
            id: self.id@,
            name: self.name@,
            address: self.address,
            ttl: self.ttl@,
            prio: self.prio@,
            notes: optional_text(self.notes),
        }
    }
}

impl<A: Address> AddressRecordView<A> {
    /// The record that a JSON value describes: an object whose members
    /// `id`, `name`, `content`, `ttl` and `prio` are strings, with
    /// `content` the text of an address of the family, and whose member
    /// `notes`, if it has one, is a string or null. Other members are
    /// passed over.
    pub open spec fn of_json(value: JsonView) -> Option<AddressRecordView<A>> {
        match (
            value.text_field("id"@),
            value.text_field("name"@),
            value.text_field("content"@),
            value.text_field("ttl"@),
            value.text_field("prio"@),
            value.optional_text_field("notes"@),
        ) {
            (Some(id), Some(name), Some(content), Some(ttl), Some(prio), Some(notes)) =>
                match A::of_text(content) {
                    Some(address) => Some(
                        AddressRecordView { id, name, address, ttl, prio, notes },
                    ),
                    None => None,
                },
            _ => None,
        }
    }
}

impl<A: Address> AddressRecordView<A> {
    /// The JSON value that describes the record.
    pub open spec fn to_json(self) -> JsonView {
        JsonView::Object(
            seq![
                ("id"@, JsonView::Text(self.id)),
                ("name"@, JsonView::Text(self.name)),
                ("type"@, JsonView::Text(A::kind().name())),
                ("content"@, JsonView::Text(self.address.text())),
                ("ttl"@, JsonView::Text(self.ttl)),
                ("prio"@, JsonView::Text(self.prio)),
                ("notes"@, JsonView::optional(self.notes)),
            ],
        )
    }
}

impl<A: Address> Record for AddressRecord<A> {
    open spec fn described(value: JsonView) -> Option<AddressRecordView<A>> {
        AddressRecordView::<A>::of_json(value)
    }

    open spec fn written(record: AddressRecordView<A>) -> JsonView {
        record.to_json()
    }

    proof fn lemma_written_is_read_back(record: AddressRecordView<A>) {
        let members = record.to_json()->Object_0;
        lemma_member_names();
        lemma_member_at(members, "name"@, 1);
        lemma_member_at(members, "content"@, 3);
        lemma_member_at(members, "ttl"@, 4);
        lemma_member_at(members, "prio"@, 5);
        lemma_member_at(members, "notes"@, 6);
        record.address.lemma_text_is_read_back();
    }

    fn from_json(value: &Json) -> (r: Option<AddressRecord<A>>) {
        let id = value.text_field("id");
        let name = value.text_field("name");
        let content = value.text_field("content");
        let ttl = value.text_field("ttl");
        let prio = value.text_field("prio");
        let notes = value.optional_text_field("notes");
        match (id, name, content, ttl, prio, notes) {
            (Some(id), Some(name), Some(content), Some(ttl), Some(prio), Some(notes)) =>
                match A::parse(content.as_str()) {
                    Some(address) => Some(AddressRecord { id, name, address, ttl, prio, notes }),
                    None => None,
                },
            _ => None,
        }
    }
}

} // verus!
