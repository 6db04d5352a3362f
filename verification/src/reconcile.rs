//! The rule that compares the observed address with the published one.

use vstd::prelude::*;
use crate::address::Address;
use crate::codec::views_of;
use crate::record::{AddressRecord, AddressRecordView};
use crate::text::same_text;

verus! {

/// What has to be done for a name.
#[derive(Clone, Debug, PartialEq, Eq)]
pub enum Decision {
    /// The published address is the observed one.
    Unchanged,
    /// Another address is published, in the record with this id.
    Stale { id: String },
    /// No record is published for the name.
    Absent,
}

/// The mathematical value of a [`Decision`].
pub enum DecisionView {
    Unchanged,
    Stale { id: Seq<char> },
    Absent,
}

impl View for Decision {
    type V = DecisionView;

    open spec fn view(&self) -> DecisionView {
        match self {
            Decision::Unchanged => DecisionView::Unchanged,
            Decision::Stale { id } => DecisionView::Stale { id: id@ },
            Decision::Absent => DecisionView::Absent,
        }
    }
}

/// The index of the first record whose name is `target`, letter for
/// letter.
pub open spec fn first_named<A>(published: Seq<AddressRecordView<A>>, target: Seq<char>) -> Option<
    int,
>
    decreases published.len(),
{
    if published.len() == 0 {
        None
    } else if published[0].name == target {
        Some(0int)
    } else {
        match first_named(published.drop_first(), target) {
            Some(i) => Some(i + 1),
            None => None,
        }
    }
}

/// What has to be done for the name `target`, given the observed address
/// and the published records: nothing where the first record of that name
/// holds the observed address, an update where it holds another, and a new
/// record where no record has that name.
pub open spec fn decision<A>(
    observed: A,
    published: Seq<AddressRecordView<A>>,
    target: Seq<char>,
) -> DecisionView {
    match first_named(published, target) {
        None => DecisionView::Absent,
        Some(i) => if published[i].address == observed {
            DecisionView::Unchanged
        } else {
            DecisionView::Stale { id: published[i].id }
        },
    }
}

/// The name that an update is about: the subdomain where one is given,
/// else the domain.
pub open spec fn target_name(domain: Seq<char>, subdomain: Option<Seq<char>>) -> Seq<char> {
    match subdomain {
        Some(s) => s,
        None => domain,
    }
}

/// The first record of a name has that name, and no record before it has;
/// where there is no first, no record has the name.
pub proof fn lemma_first_named<A>(published: Seq<AddressRecordView<A>>, target: Seq<char>)
    ensures
        match first_named(published, target) {
            Some(i) => 0 <= i < published.len() && published[i].name == target && forall|j: int|
                0 <= j < i ==> (#[trigger] published[j]).name != target,
            None => forall|j: int| 0 <= j < published.len() ==> (#[trigger] published[j]).name
                != target,
        },
    decreases published.len(),
{
    if published.len() > 0 && published[0].name != target {
        let rest = published.drop_first();
        lemma_first_named(rest, target);
        assert forall|j: int| 0 < j < published.len() implies published[j] == rest[j - 1] by {}
    }
}

/// With nothing published, the record is absent, whatever was observed.
pub proof fn lemma_nothing_published<A>(observed: A, target: Seq<char>)
    ensures
        decision(observed, Seq::<AddressRecordView<A>>::empty(), target) == DecisionView::Absent,
{
}

/// The record is absent exactly when no published record has the target
/// name, letter for letter: a name that only ends in the target, or holds
/// it, does not count.
pub proof fn lemma_absent<A>(observed: A, published: Seq<AddressRecordView<A>>, target: Seq<char>)
    ensures
        decision(observed, published, target) == DecisionView::Absent <==> forall|j: int|
            0 <= j < published.len() ==> (#[trigger] published[j]).name != target,
{
    lemma_first_named(published, target);
}

/// Where a record has the target name, what is decided depends on the
/// first such record alone: unchanged where its address is the observed
/// one, stale with its id where it is not.
pub proof fn lemma_first_match_decides<A>(
    observed: A,
    published: Seq<AddressRecordView<A>>,
    target: Seq<char>,
    i: int,
)
    requires
        0 <= i < published.len(),
        published[i].name == target,
        forall|j: int| 0 <= j < i ==> (#[trigger] published[j]).name != target,
    ensures
        published[i].address == observed ==> decision(observed, published, target)
            == DecisionView::Unchanged,
        published[i].address != observed ==> decision(observed, published, target)
            == (DecisionView::Stale { id: published[i].id }),
{
    lemma_first_named(published, target);
}

/// The name that an update is about.
pub fn record_name<'a>(domain: &'a str, subdomain: Option<&'a str>) -> (r: &'a str)
    ensures
        r@ == target_name(domain@, crate::client::optional_str(subdomain)),
{
    match subdomain {
        Some(s) => s,
        None => domain,
    }
}

/// Decides what has to be done for the name `target`.
pub fn reconcile<A: Address>(observed: &A, published: &Vec<AddressRecord<A>>, target: &str) -> (r:
    Decision)
    ensures
        r@ == decision(*observed, views_of(published@), target@),
{
    let ghost views = views_of(published@);
    proof {
        lemma_first_named(views, target@);
    }
    let mut i: usize = 0;
    while i < published.len()
        invariant
            i <= published.len(),
            views == views_of(published@),
            forall|j: int| 0 <= j < i ==> (#[trigger] views[j]).name != target@,
        decreases published.len() - i,
    {
        let record = &published[i];
        if same_text(record.name.as_str(), target) {
            proof {
                lemma_first_match_decides(*observed, views, target@, i as int);
            }
            if record.address.equals(observed) {
                return Decision::Unchanged;
            } else {
                return Decision::Stale { id: record.id.clone() };
            }
        }
        i += 1;
    }
    Decision::Absent
}

} // verus!
