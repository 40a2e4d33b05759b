use crate::request::PendingRequestView;
use crate::store::{
    is_first_at, is_item_of, lemma_position_is, lemma_position_none, lemma_remove_keeps_unique,
    spec_holds, spec_rebuild, spec_remove, spec_unique, spec_upsert, spec_upsert_all,
};
use vstd::prelude::*;

verus! {

/// Every request of the list carries at least one identifier.
pub open spec fn spec_all_present(requests: Seq<PendingRequestView>) -> bool {
    forall|i: int| 0 <= i < requests.len() ==> (#[trigger] requests[i]).ids.spec_is_present()
}

/// Offering a request keeps the requests of the store distinct.
pub proof fn lemma_upsert_keeps_unique(
    requests: Seq<PendingRequestView>,
    request: PendingRequestView,
)
    requires
        spec_unique(requests),
    ensures
        spec_unique(spec_upsert(requests, request)),
{
    if !spec_holds(requests, request.media_type, request.ids) {
        let after = requests.push(request);
        assert forall|i: int, j: int| 0 <= i < j < after.len() implies !(
        #[trigger] after[i]).same_item(#[trigger] after[j]) by {
            assert(after[i] == requests[i]);
            if j < requests.len() {
                assert(after[j] == requests[j]);
            } else {
                assert(!requests[i].names(request.media_type, request.ids));
            }
        }
    }
}

/// Offering the same media item twice is the same as offering it once, for
/// every request that carries an identifier: the second offer changes
/// nothing. Where the item was not pending before, the store has grown by
/// the one request, and that request alone is for the item.
pub proof fn lemma_upsert_idempotent(
    requests: Seq<PendingRequestView>,
    request: PendingRequestView,
    again: PendingRequestView,
)
    requires
        request.ids.spec_is_present(),
        again.media_type == request.media_type,
        again.ids == request.ids,
    ensures
        spec_upsert(spec_upsert(requests, request), again) == spec_upsert(requests, request),
        spec_holds(spec_upsert(requests, request), request.media_type, request.ids),
        !spec_holds(requests, request.media_type, request.ids) ==> {
            let after = spec_upsert(spec_upsert(requests, request), again);
            &&& after == requests.push(request)
            &&& forall|i: int|
                0 <= i < after.len() ==> ((#[trigger] after[i]).same_item(request) <==> i
                    == requests.len())
        },
{
    let once = spec_upsert(requests, request);
    if spec_holds(requests, request.media_type, request.ids) {
        assert(once == requests);
    } else {
        assert(once[requests.len() as int] == request);
        assert(once[requests.len() as int].names(request.media_type, request.ids));
        assert forall|i: int| 0 <= i < once.len() implies ((#[trigger] once[i]).same_item(
            request,
        ) <==> i == requests.len()) by {
            if i < requests.len() {
                assert(once[i] == requests[i]);
                assert(!requests[i].names(request.media_type, request.ids));
            }
        }
    }
}

/// A movie and a show are never the same media item, whatever their
/// identifiers: offering the one does not keep the other out, and taking the
/// one out leaves the other.
pub proof fn lemma_types_apart(movie: PendingRequestView, show: PendingRequestView)
    requires
        movie.media_type != show.media_type,
    ensures
        !movie.same_item(show),
        spec_upsert(seq![movie], show) == seq![movie, show],
        spec_remove(seq![movie], show.media_type, show.ids) == seq![movie],
{
    let one = seq![movie];
    assert forall|i: int| 0 <= i < one.len() implies !(#[trigger] one[i]).names(
        show.media_type,
        show.ids,
    ) by {}
    assert(one.push(show) =~= seq![movie, show]);
    assert forall|j: int| 0 <= j < one.len() implies !is_item_of(show.media_type, show.ids)(
        #[trigger] one[j],
    ) by {}
    lemma_position_none(one, is_item_of(show.media_type, show.ids));
}

/// Offering requests one after another keeps the store distinct.
pub proof fn lemma_upsert_all_keeps_unique(
    requests: Seq<PendingRequestView>,
    source: Seq<PendingRequestView>,
)
    requires
        spec_unique(requests),
    ensures
        spec_unique(spec_upsert_all(requests, source)),
    decreases source.len(),
{
    if source.len() > 0 {
        lemma_upsert_all_keeps_unique(requests, source.drop_last());
        lemma_upsert_keeps_unique(spec_upsert_all(requests, source.drop_last()), source.last());
    }
}

/// A rebuild from a source whose requests are for distinct media items
/// leaves exactly the requests of the source, in their order.
pub proof fn lemma_rebuild_of_distinct(source: Seq<PendingRequestView>)
    requires
        spec_unique(source),
    ensures
        spec_rebuild(source) == source,
    decreases source.len(),
{
    if source.len() == 0 {
        assert(spec_rebuild(source) =~= source);
    } else {
        let rest = source.drop_last();
        assert forall|i: int, j: int| 0 <= i < j < rest.len() implies !(
        #[trigger] rest[i]).same_item(#[trigger] rest[j]) by {
            assert(rest[i] == source[i]);
            assert(rest[j] == source[j]);
        }
        lemma_rebuild_of_distinct(rest);
        assert forall|i: int| 0 <= i < rest.len() implies !(#[trigger] rest[i]).names(
            source.last().media_type,
            source.last().ids,
        ) by {
            assert(rest[i] == source[i]);
            assert(source.last() == source[source.len() - 1]);
            assert(!source[i].same_item(source[source.len() - 1]));
        }
        assert(rest.push(source.last()) =~= source);
    }
}

/// Taking out the media item of a pending request that carries an identifier
/// takes out that request and no other, and the item is pending no more.
pub proof fn lemma_remove_own(requests: Seq<PendingRequestView>, k: int)
    requires
        spec_unique(requests),
        0 <= k < requests.len(),
        requests[k].ids.spec_is_present(),
    ensures
        spec_remove(requests, requests[k].media_type, requests[k].ids) == requests.remove(k),
        !spec_holds(requests.remove(k), requests[k].media_type, requests[k].ids),
{
    let own = requests[k];
    let test = is_item_of(own.media_type, own.ids);
    assert forall|j: int| 0 <= j < requests.len() && j != k implies !(
    #[trigger] requests[j]).names(own.media_type, own.ids) by {
        if j < k {
            assert(!requests[j].same_item(requests[k]));
        } else {
            assert(!requests[k].same_item(requests[j]));
        }
    }
    assert(is_first_at(requests, test, k));
    lemma_position_is(requests, test, k);
    let left = requests.remove(k);
    assert forall|i: int| 0 <= i < left.len() implies !(#[trigger] left[i]).names(
        own.media_type,
        own.ids,
    ) by {
        if i < k {
            assert(left[i] == requests[i]);
        } else {
            assert(left[i] == requests[i + 1]);
        }
    }
}

/// One approved request as the source of truth holds it: the request, and
/// whether what it asks for can be watched by now.
pub struct SourceRecord {
    pub request: PendingRequestView,
    pub satisfied: bool,
}

/// The request of a record, as a function value.
pub open spec fn request_of() -> spec_fn(SourceRecord) -> PendingRequestView {
    |record: SourceRecord| record.request
}

/// The request of a record that is not satisfied, as a function value.
pub open spec fn outstanding_of() -> spec_fn(SourceRecord) -> Option<PendingRequestView> {
    |record: SourceRecord|
        if record.satisfied {
            None
        } else {
            Some(record.request)
        }
}

/// Every approved request, in the order of the source.
pub open spec fn spec_approved(records: Seq<SourceRecord>) -> Seq<PendingRequestView> {
    records.map_values(request_of())
}

/// The approved requests that are not satisfied: what a rebuild is fed.
pub open spec fn spec_outstanding(records: Seq<SourceRecord>) -> Seq<PendingRequestView> {
    records.filter_map(outstanding_of())
}

/// The store after the availability of every satisfied record was worked
/// off, in the order of the source: each takes its request out.
pub open spec fn spec_settle_all(requests: Seq<PendingRequestView>, records: Seq<SourceRecord>)
    -> Seq<PendingRequestView>
    decreases records.len(),
{
    if records.len() == 0 {
        requests
    } else {
        let before = spec_settle_all(requests, records.drop_last());
        if records.last().satisfied {
            spec_remove(before, records.last().request.media_type, records.last().request.ids)
        } else {
            before
        }
    }
}

/// The store half way through: the first `n` records settled, the others
/// still as approved.
pub open spec fn spec_settled_to(records: Seq<SourceRecord>, n: int) -> Seq<PendingRequestView> {
    spec_outstanding(records.take(n)) + spec_approved(records).skip(n)
}

proof fn lemma_settle_prefix(records: Seq<SourceRecord>, n: int)
    requires
        spec_unique(spec_approved(records)),
        spec_all_present(spec_approved(records)),
        0 <= n <= records.len(),
    ensures
        spec_settle_all(spec_approved(records), records.take(n)) == spec_settled_to(records, n),
        spec_unique(spec_settled_to(records, n)),
    decreases n,
{
    let approved = spec_approved(records);
    if n == 0 {
        assert(records.take(0) =~= Seq::<SourceRecord>::empty());
        assert(spec_settled_to(records, 0) =~= approved);
    } else {
        let m = n - 1;
        lemma_settle_prefix(records, m);
        let done = spec_outstanding(records.take(m));
        let middle = spec_settled_to(records, m);
        let record = records[m];
        assert(records.take(n).drop_last() =~= records.take(m));
        assert(records.take(n).last() == record);
        records.lemma_filter_map_take_succ(outstanding_of(), m);
        assert(approved[m] == record.request);
        assert(middle[done.len() as int] == approved.skip(m)[0]);
        assert(middle[done.len() as int] == record.request);
        if record.satisfied {
            assert(spec_settled_to(records, n) =~= middle.remove(done.len() as int));
            assert(record.request.ids.spec_is_present());
            lemma_remove_own(middle, done.len() as int);
            lemma_remove_keeps_unique(middle, done.len() as int);
        } else {
            assert(spec_settled_to(records, n) =~= middle);
        }
    }
}

/// A rebuild converges on the source of truth. Whatever the store held
/// before, and whatever events were lost or came out of order, the rebuild
/// leaves what comes of taking up every approved request in the order of
/// the source and then working off the availability that holds by now,
/// where the approved requests name distinct media items and each carries
/// an identifier.
pub proof fn lemma_rebuild_converges(records: Seq<SourceRecord>)
    requires
        spec_unique(spec_approved(records)),
        spec_all_present(spec_approved(records)),
    ensures
        spec_rebuild(spec_outstanding(records)) == spec_settle_all(
            spec_rebuild(spec_approved(records)),
            records,
        ),
        spec_rebuild(spec_outstanding(records)) == spec_outstanding(records),
{
    let n = records.len() as int;
    lemma_settle_prefix(records, n);
    assert(records.take(n) =~= records);
    assert(spec_settled_to(records, n) =~= spec_outstanding(records));
    lemma_rebuild_of_distinct(spec_approved(records));
    lemma_rebuild_of_distinct(spec_outstanding(records));
}

} // verus!
