use crate::identity::MediaIdentifiers;
use crate::request::{MediaType, PendingRequest, PendingRequestView};
use vstd::prelude::*;

verus! {

/// No two requests of the list are for the same media item.
pub open spec fn spec_unique(requests: Seq<PendingRequestView>) -> bool {
    forall|i: int, j: int|
        0 <= i < j < requests.len() ==> !(#[trigger] requests[i]).same_item(
            #[trigger] requests[j],
        )
}

/// Some request of the list is for the media item of the given type that
/// `ids` names.
pub open spec fn spec_holds(
    requests: Seq<PendingRequestView>,
    media_type: MediaType,
    ids: MediaIdentifiers,
) -> bool {
    exists|i: int| 0 <= i < requests.len() && (#[trigger] requests[i]).names(media_type, ids)
}

/// The list after `request` was offered to it: unchanged where its media
/// item is pending already, with the request at the end otherwise.
pub open spec fn spec_upsert(requests: Seq<PendingRequestView>, request: PendingRequestView) -> Seq<
    PendingRequestView,
> {
    if spec_holds(requests, request.media_type, request.ids) {
        requests
    } else {
        requests.push(request)
    }
}

/// The request is for the media item of the given type that `ids` names.
pub open spec fn is_item_of(media_type: MediaType, ids: MediaIdentifiers) -> spec_fn(
    PendingRequestView,
) -> bool {
    |request: PendingRequestView| request.names(media_type, ids)
}

/// The request is a show that `ids` names.
pub open spec fn is_show_of(ids: MediaIdentifiers) -> spec_fn(PendingRequestView) -> bool {
    is_item_of(MediaType::TV, ids)
}

/// The request is a movie that `ids` names.
pub open spec fn is_movie_of(ids: MediaIdentifiers) -> spec_fn(PendingRequestView) -> bool {
    is_item_of(MediaType::Movie, ids)
}

/// The request at `k` passes the test and none before it does.
pub open spec fn is_first_at(
    requests: Seq<PendingRequestView>,
    test: spec_fn(PendingRequestView) -> bool,
    k: int,
) -> bool {
    &&& 0 <= k < requests.len()
    &&& test(requests[k])
    &&& forall|j: int| 0 <= j < k ==> !test(#[trigger] requests[j])
}

/// The place of the first request that passes the test.
pub open spec fn spec_position(
    requests: Seq<PendingRequestView>,
    test: spec_fn(PendingRequestView) -> bool,
) -> Option<int> {
    if exists|k: int| is_first_at(requests, test, k) {
        Some(choose|k: int| is_first_at(requests, test, k))
    } else {
        None
    }
}

/// The first request that passes the test.
pub open spec fn spec_find(
    requests: Seq<PendingRequestView>,
    test: spec_fn(PendingRequestView) -> bool,
) -> Option<PendingRequestView> {
    match spec_position(requests, test) {
        Some(k) => Some(requests[k]),
        None => None,
    }
}

/// The list without the first request for the media item of the given type
/// that `ids` names.
pub open spec fn spec_remove(
    requests: Seq<PendingRequestView>,
    media_type: MediaType,
    ids: MediaIdentifiers,
) -> Seq<PendingRequestView> {
    match spec_position(requests, is_item_of(media_type, ids)) {
        Some(k) => requests.remove(k),
        None => requests,
    }
}

/// The list that comes of offering every request of `source`, in order, to
/// `requests`.
pub open spec fn spec_upsert_all(
    requests: Seq<PendingRequestView>,
    source: Seq<PendingRequestView>,
) -> Seq<PendingRequestView>
    decreases source.len(),
{
    if source.len() == 0 {
        requests
    } else {
        spec_upsert(spec_upsert_all(requests, source.drop_last()), source.last())
    }
}

/// The list that a full rebuild from `source` leaves.
pub open spec fn spec_rebuild(source: Seq<PendingRequestView>) -> Seq<PendingRequestView> {
    spec_upsert_all(Seq::empty(), source)
}

/// The first place that passes a test is the only first place.
pub proof fn lemma_first_at_unique(
    requests: Seq<PendingRequestView>,
    test: spec_fn(PendingRequestView) -> bool,
    a: int,
    b: int,
)
    requires
        is_first_at(requests, test, a),
        is_first_at(requests, test, b),
    ensures
        a == b,
{
}

/// Where the request at `k` is the first to pass, `k` is its position.
pub proof fn lemma_position_is(
    requests: Seq<PendingRequestView>,
    test: spec_fn(PendingRequestView) -> bool,
    k: int,
)
    requires
        is_first_at(requests, test, k),
    ensures
        spec_position(requests, test) == Some(k),
{
    let chosen = choose|c: int| is_first_at(requests, test, c);
    lemma_first_at_unique(requests, test, chosen, k);
}

/// Where no request passes, there is no position.
pub proof fn lemma_position_none(
    requests: Seq<PendingRequestView>,
    test: spec_fn(PendingRequestView) -> bool,
)
    requires
        forall|j: int| 0 <= j < requests.len() ==> !test(#[trigger] requests[j]),
    ensures
        spec_position(requests, test) is None,
{
}

/// The outstanding requests: at most one for each media item.
pub struct PendingStore {
    requests: Vec<PendingRequest>,
}

impl View for PendingStore {
    type V = Seq<PendingRequestView>;

    closed spec fn view(&self) -> Seq<PendingRequestView> {
        self.requests.deep_view()
    }
}

impl PendingStore {
    #[verifier::type_invariant]
    spec fn unique(&self) -> bool {
        spec_unique(self.requests.deep_view())
    }

    /// An empty store.
    pub fn new() -> (store: PendingStore)
        ensures
            store@ == Seq::<PendingRequestView>::empty(),
    {
        let store = PendingStore { requests: Vec::new() };
        assert(store.requests.deep_view() =~= Seq::<PendingRequestView>::empty());
        store
    }

    /// How many requests are outstanding.
    pub fn len(&self) -> (count: usize)
        ensures
            count == self@.len(),
    {
        self.requests.len()
    }

    /// Whether no request is outstanding.
    pub fn is_empty(&self) -> (empty: bool)
        ensures
            empty == (self@.len() == 0),
    {
        self.requests.len() == 0
    }

    /// States what every store is held to: no two of its requests name the
    /// same media item.
    pub fn uniqueness(&self)
        ensures
            spec_unique(self@),
    {
        proof {
            use_type_invariant(self);
        }
    }

    /// Hands out the list of requests and leaves the store empty.
    fn take_requests(&mut self) -> (requests: Vec<PendingRequest>)
        ensures
            requests.deep_view() == old(self)@,
            final(self)@ == Seq::<PendingRequestView>::empty(),
    {
        let mut taken = PendingStore { requests: Vec::new() };
        assert(taken.requests.deep_view() =~= Seq::<PendingRequestView>::empty());
        core::mem::swap(self, &mut taken);
        taken.requests
    }

    /// Finds the place of the first request for the media item of the given
    /// type that `ids` names.
    fn position(&self, media_type: MediaType, ids: MediaIdentifiers) -> (place: Option<usize>)
        ensures
            match place {
                Some(k) => is_first_at(self@, is_item_of(media_type, ids), k as int),
                None => forall|j: int|
                    0 <= j < self@.len() ==> !(#[trigger] self@[j]).names(media_type, ids),
            },
    {
        let ghost test = is_item_of(media_type, ids);
        let mut i: usize = 0;
        while i < self.requests.len()
            invariant
                i <= self.requests.len(),
                test == is_item_of(media_type, ids),
                forall|j: int| 0 <= j < i ==> !test(#[trigger] self@[j]),
            decreases self.requests.len() - i,
        {
            let request = &self.requests[i];
            assert(self@[i as int] == request@);
            if request.media_type == media_type && crate::identity::matches(request.ids, ids) {
                return Some(i);
            }
            i += 1;
        }
        proof {
            assert forall|j: int| 0 <= j < self@.len() implies !(#[trigger] self@[j]).names(
                media_type,
                ids,
            ) by {
                assert(!test(self@[j]));
            }
        }
        None
    }

    /// Offers a request to the store. The store takes it unless its media
    /// item is pending already, and says whether it did.
    pub fn upsert(&mut self, request: PendingRequest) -> (inserted: bool)
        ensures
            inserted == !spec_holds(old(self)@, request@.media_type, request@.ids),
            final(self)@ == spec_upsert(old(self)@, request@),
            spec_unique(final(self)@),
    {
        proof {
            use_type_invariant(&*self);
        }
        let ghost before = self@;
        match self.position(request.media_type, request.ids) {
            Some(k) => {
                proof {
                    assert(before[k as int].names(request@.media_type, request@.ids));
                }
                false
            },
            None => {
                let ghost added = request@;
                let mut requests = self.take_requests();
                requests.push(request);
                proof {
                    let after = before.push(added);
                    assert(requests.deep_view() =~= after);
                    assert forall|i: int, j: int| 0 <= i < j < after.len() implies !(
                    #[trigger] after[i]).same_item(#[trigger] after[j]) by {
                        assert(after[i] == before[i]);
                        if j < before.len() {
                            assert(after[j] == before[j]);
                        } else {
                            assert(!before[i].names(added.media_type, added.ids));
                        }
                    }
                }
                *self = PendingStore { requests };
                true
            },
        }
    }

    /// Finds the pending show that the identifiers name: the first show in
    /// the store that shares a present identifier with them.
    pub fn find_tv(&self, primary_id: Option<i32>, secondary_id: Option<i32>) -> (found: Option<
        PendingRequest,
    >)
        ensures
            found.deep_view() == spec_find(
                self@,
                is_show_of(MediaIdentifiers { primary_id, secondary_id }),
            ),
    {
        let ids = MediaIdentifiers { primary_id, secondary_id };
        match self.position(MediaType::TV, ids) {
            Some(k) => {
                proof {
                    lemma_position_is(self@, is_show_of(ids), k as int);
                }
                assert(self@[k as int] == self.requests[k as int]@);
                Some(self.requests[k].clone())
            },
            None => {
                proof {
                    lemma_position_none(self@, is_show_of(ids));
                }
                None
            },
        }
    }

    /// Finds the pending movie that the primary identifier names.
    pub fn find_movie(&self, primary_id: Option<i32>) -> (found: Option<PendingRequest>)
        ensures
            found.deep_view() == spec_find(
                self@,
                is_movie_of(MediaIdentifiers { primary_id, secondary_id: None }),
            ),
    {
        let ids = MediaIdentifiers { primary_id, secondary_id: None };
        match self.position(MediaType::Movie, ids) {
            Some(k) => {
                proof {
                    lemma_position_is(self@, is_movie_of(ids), k as int);
                }
                assert(self@[k as int] == self.requests[k as int]@);
                Some(self.requests[k].clone())
            },
            None => {
                proof {
                    lemma_position_none(self@, is_movie_of(ids));
                }
                None
            },
        }
    }

    /// Takes the first request for the media item of the given type that
    /// `ids` names out of the store, and says whether there was one. A
    /// request of the other type stays, whatever its identifiers.
    pub fn remove(&mut self, media_type: MediaType, ids: MediaIdentifiers) -> (removed: bool)
        ensures
            removed == spec_holds(old(self)@, media_type, ids),
            final(self)@ == spec_remove(old(self)@, media_type, ids),
            spec_unique(final(self)@),
    {
        proof {
            use_type_invariant(&*self);
        }
        let ghost before = self@;
        match self.position(media_type, ids) {
            Some(k) => {
                let mut requests = self.take_requests();
                requests.remove(k);
                proof {
                    assert(requests.deep_view() =~= before.remove(k as int));
                    assert(before[k as int].names(media_type, ids));
                    lemma_position_is(before, is_item_of(media_type, ids), k as int);
                    lemma_remove_keeps_unique(before, k as int);
                }
                *self = PendingStore { requests };
                true
            },
            None => {
                proof {
                    lemma_position_none(before, is_item_of(media_type, ids));
                }
                false
            },
        }
    }

    /// Empties the store.
    pub fn clear(&mut self)
        ensures
            final(self)@ == Seq::<PendingRequestView>::empty(),
    {
        let _ = self.take_requests();
    }

    /// A copy of every outstanding request, in the order of the store.
    pub fn snapshot(&self) -> (copy: Vec<PendingRequest>)
        ensures
            copy.deep_view() == self@,
    {
        let mut copy: Vec<PendingRequest> = Vec::new();
        let mut i: usize = 0;
        while i < self.requests.len()
            invariant
                i <= self.requests.len(),
                copy.len() == i,
                forall|j: int| 0 <= j < i ==> (#[trigger] copy@[j])@ == self.requests@[j]@,
            decreases self.requests.len() - i,
        {
            copy.push(self.requests[i].clone());
            i += 1;
        }
        proof {
            assert(copy.deep_view() =~= self.requests.deep_view());
        }
        copy
    }

    /// Rebuilds the store in full: forgets what it holds and takes the
    /// requests of `source` in their order, each unless its media item is
    /// pending already.
    pub fn rebuild(&mut self, source: &Vec<PendingRequest>)
        ensures
            final(self)@ == spec_rebuild(source.deep_view()),
            spec_unique(final(self)@),
    {
        self.clear();
        let ghost all = source.deep_view();
        let mut i: usize = 0;
        while i < source.len()
            invariant
                i <= source.len(),
                all == source.deep_view(),
                self@ == spec_upsert_all(Seq::empty(), all.take(i as int)),
            decreases source.len() - i,
        {
            proof {
                assert(all.take(i as int + 1).drop_last() =~= all.take(i as int));
                assert(all.take(i as int + 1).last() == source@[i as int]@);
            }
            self.upsert(source[i].clone());
            i += 1;
        }
        proof {
            assert(all.take(source.len() as int) =~= all);
            use_type_invariant(&*self);
        }
    }
}

/// Taking a request out leaves the others as distinct as they were.
pub proof fn lemma_remove_keeps_unique(requests: Seq<PendingRequestView>, k: int)
    requires
        spec_unique(requests),
        0 <= k < requests.len(),
    ensures
        spec_unique(requests.remove(k)),
{
    let left = requests.remove(k);
    assert forall|i: int, j: int| 0 <= i < j < left.len() implies !(
    #[trigger] left[i]).same_item(#[trigger] left[j]) by {
        let a = if i < k {
            i
        } else {
            i + 1
        };
        let b = if j < k {
            j
        } else {
            j + 1
        };
        assert(left[i] == requests[a]);
        assert(left[j] == requests[b]);
    }
}

} // verus!
