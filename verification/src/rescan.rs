use crate::controller::RequestHandler;
use crate::intake::{
    build_request, plan_request, resolve_requester, spec_available_seasons, spec_build_request,
    spec_has_missing, spec_plan_request, spec_requester, MediaDetails, MediaDetailsView,
    RequestError, RequestRecord, RequestRecordView, UserProfile, UserProfileView, STATUS_AVAILABLE,
};
use crate::request::{MediaType, PendingRequest, PendingRequestView};
use crate::store::{spec_rebuild, spec_unique, spec_upsert, spec_upsert_all};
use crate::store_proofs::lemma_rebuild_of_distinct;
use vstd::prelude::*;

verus! {

/// One approved request as the portal lists it, with what the portal
/// answered when asked for its requester and for its media. An answer is
/// absent where the question was not asked or was not answered.
#[derive(Debug)]
pub struct ListedRequest {
    pub record: RequestRecord,
    pub user: Option<UserProfile>,
    pub details: Option<MediaDetails>,
}

/// The mathematical value of a [`ListedRequest`].
pub struct ListedRequestView {
    pub record: RequestRecordView,
    pub user: Option<UserProfileView>,
    pub details: Option<MediaDetailsView>,
}

impl View for ListedRequest {
    type V = ListedRequestView;

    open spec fn view(&self) -> ListedRequestView {
        ListedRequestView {
            record: self.record@,
            user: match self.user {
                Some(user) => Some(user@),
                None => None,
            },
            details: match self.details {
                Some(details) => Some(details@),
                None => None,
            },
        }
    }
}

impl DeepView for ListedRequest {
    type V = ListedRequestView;

    open spec fn deep_view(&self) -> ListedRequestView {
        self@
    }
}

/// What a listed request comes to: an error where something is missing, in
/// the order in which it is looked at; nothing where the media can be
/// watched already, where every requested season of a show can, or where
/// the media is neither show nor movie; the request to track otherwise.
pub open spec fn spec_listed_request(entry: ListedRequestView) -> Result<
    Option<PendingRequestView>,
    RequestError,
> {
    match spec_plan_request(entry.record) {
        Err(error) => Err(error),
        Ok(None) => Ok(None),
        Ok(Some(plan)) => match entry.user {
            None => Err(RequestError::UserNotFound),
            Some(user) => match spec_requester(user) {
                Err(error) => Err(error),
                Ok(requester) => if plan.media_type is None {
                    Ok(None)
                } else {
                    match entry.details {
                        None => Err(RequestError::MediaNotFound),
                        Some(details) => Ok(spec_build_request(plan, requester, details)),
                    }
                },
            },
        },
    }
}

/// The mathematical value of what a listed request comes to.
pub open spec fn listed_view(outcome: Result<Option<PendingRequest>, RequestError>) -> Result<
    Option<PendingRequestView>,
    RequestError,
> {
    match outcome {
        Ok(Some(request)) => Ok(Some(request@)),
        Ok(None) => Ok(None),
        Err(error) => Err(error),
    }
}

/// The first error among the listed requests, in their order.
pub open spec fn spec_fetch_failure(listed: Seq<ListedRequestView>) -> Option<RequestError>
    decreases listed.len(),
{
    if listed.len() == 0 {
        None
    } else {
        match spec_fetch_failure(listed.drop_last()) {
            Some(error) => Some(error),
            None => match spec_listed_request(listed.last()) {
                Err(error) => Some(error),
                Ok(_) => None,
            },
        }
    }
}

/// The store after a rebuild from the listed requests: each request to
/// track is offered in the order of the list, up to the first error.
pub open spec fn spec_fetch_store(listed: Seq<ListedRequestView>) -> Seq<PendingRequestView>
    decreases listed.len(),
{
    if listed.len() == 0 {
        Seq::empty()
    } else {
        let before = spec_fetch_store(listed.drop_last());
        if spec_fetch_failure(listed.drop_last()) is Some {
            before
        } else {
            match spec_listed_request(listed.last()) {
                Ok(Some(request)) => spec_upsert(before, request),
                _ => before,
            }
        }
    }
}

/// The request to track of a listed request, as a function value.
pub open spec fn outstanding_of() -> spec_fn(ListedRequestView) -> Option<PendingRequestView> {
    |entry: ListedRequestView|
        match spec_listed_request(entry) {
            Ok(Some(request)) => Some(request),
            _ => None,
        }
}

/// The requests to track among the listed ones, in the order of the list.
pub open spec fn spec_outstanding(listed: Seq<ListedRequestView>) -> Seq<PendingRequestView> {
    listed.filter_map(outstanding_of())
}

/// Works out what a listed request comes to.
pub fn listed_request(entry: &ListedRequest) -> (outcome: Result<
    Option<PendingRequest>,
    RequestError,
>)
    ensures
        listed_view(outcome) == spec_listed_request(entry@),
{
    let plan = match plan_request(&entry.record) {
        Err(error) => {
            return Err(error);
        },
        Ok(None) => {
            return Ok(None);
        },
        Ok(Some(plan)) => plan,
    };
    let user = match &entry.user {
        None => {
            return Err(RequestError::UserNotFound);
        },
        Some(user) => user,
    };
    let requester = match resolve_requester(user) {
        Err(error) => {
            return Err(error);
        },
        Ok(requester) => requester,
    };
    if plan.media_type.is_none() {
        return Ok(None);
    }
    match &entry.details {
        None => Err(RequestError::MediaNotFound),
        Some(details) => Ok(build_request(&plan, requester, details)),
    }
}

impl RequestHandler {
    /// Takes up one listed request: where it comes to a request to track,
    /// that request is offered to the store. Says whether the store took it.
    pub fn take_up(&mut self, entry: &ListedRequest) -> (taken: Result<bool, RequestError>)
        ensures
            match spec_listed_request(entry@) {
                Ok(Some(request)) => final(self)@ == spec_upsert(old(self)@, request) && taken
                    == Ok::<bool, RequestError>(final(self)@ != old(self)@),
                Ok(None) => final(self)@ == old(self)@ && taken == Ok::<bool, RequestError>(false),
                Err(error) => final(self)@ == old(self)@ && taken == Err::<bool, RequestError>(
                    error,
                ),
            },
            spec_unique(old(self)@) ==> spec_unique(final(self)@),
    {
        match listed_request(entry) {
            Ok(Some(request)) => {
                let took = self.requested.upsert(request);
                proof {
                    if took {
                        assert(self@.len() == old(self)@.len() + 1);
                    }
                }
                Ok(took)
            },
            Ok(None) => Ok(false),
            Err(error) => Err(error),
        }
    }

    /// Rebuilds the store from the approved requests that the portal lists.
    /// The store forgets what it held and takes up the listed requests in
    /// their order. The first error ends the rebuild and is returned; the
    /// store then holds what the requests before it came to.
    pub fn fetch_requests(&mut self, listed: &Vec<ListedRequest>) -> (outcome: Result<
        (),
        RequestError,
    >)
        ensures
            final(self)@ == spec_fetch_store(listed.deep_view()),
            outcome == match spec_fetch_failure(listed.deep_view()) {
                Some(error) => Err::<(), RequestError>(error),
                None => Ok::<(), RequestError>(()),
            },
    {
        self.requested.clear();
        let ghost all = listed.deep_view();
        let mut i: usize = 0;
        while i < listed.len()
            invariant
                i <= listed.len(),
                all == listed.deep_view(),
                self@ == spec_fetch_store(all.take(i as int)),
                spec_fetch_failure(all.take(i as int)) is None,
            decreases listed.len() - i,
        {
            proof {
                assert(all.take(i as int + 1).drop_last() =~= all.take(i as int));
                assert(all.take(i as int + 1).last() == listed@[i as int]@);
            }
            match self.take_up(&listed[i]) {
                Ok(_) => {},
                Err(error) => {
                    proof {
                        lemma_failure_ends_the_fetch(all, i as int + 1);
                    }
                    return Err(error);
                },
            }
            i += 1;
        }
        proof {
            assert(all.take(listed.len() as int) =~= all);
        }
        Ok(())
    }
}

/// Once a listed request has failed, the rest of the list changes neither
/// the error nor the store.
pub proof fn lemma_failure_ends_the_fetch(listed: Seq<ListedRequestView>, n: int)
    requires
        0 <= n <= listed.len(),
        spec_fetch_failure(listed.take(n)) is Some,
    ensures
        spec_fetch_failure(listed) == spec_fetch_failure(listed.take(n)),
        spec_fetch_store(listed) == spec_fetch_store(listed.take(n)),
    decreases listed.len() - n,
{
    if n == listed.len() {
        assert(listed.take(n) =~= listed);
    } else {
        assert(listed.take(n + 1).drop_last() =~= listed.take(n));
        lemma_failure_ends_the_fetch(listed, n + 1);
    }
}

/// What it means that a listed request is to be tracked: its media is not
/// filed as available, and a show among them has a requested season that
/// cannot be watched in full yet. The other way round, media that is filed
/// as available is never tracked.
pub proof fn lemma_outstanding_meaning(entry: ListedRequestView)
    ensures
        spec_listed_request(entry) matches Ok(Some(request)) ==> {
            &&& entry.record.media is Some
            &&& entry.record.media->0.status != Some(STATUS_AVAILABLE)
            &&& entry.details is Some
            &&& request.well_formed()
            &&& request.media_type == MediaType::TV ==> spec_has_missing(
                request.requested_seasons->0,
                spec_available_seasons(entry.details->0.seasons),
            )
        },
        entry.record.media_type is Some && entry.record.media is Some
            && entry.record.media->0.status == Some(STATUS_AVAILABLE) ==> spec_listed_request(
            entry,
        ) == Ok::<Option<PendingRequestView>, RequestError>(None),
{
}

/// Where every listed request can be worked out, a rebuild leaves the
/// requests to track and nothing else: every request in the store is one of
/// them, they stand in the order of the list, and each media item has the
/// first request that was listed for it. Where the requests to track are for
/// distinct media items, the store holds every one of them.
pub proof fn lemma_fetch_holds_the_outstanding(listed: Seq<ListedRequestView>)
    requires
        spec_fetch_failure(listed) is None,
    ensures
        spec_fetch_store(listed) == spec_rebuild(spec_outstanding(listed)),
        forall|k: int|
            0 <= k < spec_fetch_store(listed).len() ==> exists|i: int|
                0 <= i < listed.len() && spec_listed_request(#[trigger] listed[i]) == Ok::<
                    Option<PendingRequestView>,
                    RequestError,
                >(Some(#[trigger] spec_fetch_store(listed)[k])),
        spec_unique(spec_outstanding(listed)) ==> spec_fetch_store(listed) == spec_outstanding(
            listed,
        ),
    decreases listed.len(),
{
    let store = spec_fetch_store(listed);
    if listed.len() == 0 {
        assert(spec_rebuild(spec_outstanding(listed)) =~= store);
    } else {
        let rest = listed.drop_last();
        let last = listed.last();
        lemma_fetch_holds_the_outstanding(rest);
        let before = spec_fetch_store(rest);
        let kept = spec_outstanding(rest);
        match spec_listed_request(last) {
            Ok(Some(request)) => {
                let grown = kept + seq![request];
                assert(spec_outstanding(listed) == grown);
                assert(grown.drop_last() =~= kept);
                assert(grown.last() == request);
                assert(spec_upsert_all(Seq::empty(), grown) == spec_upsert(
                    spec_upsert_all(Seq::empty(), kept),
                    request,
                ));
            },
            _ => {
                assert(spec_outstanding(listed) == kept);
            },
        }
        assert forall|k: int| 0 <= k < store.len() implies exists|i: int|
            0 <= i < listed.len() && spec_listed_request(#[trigger] listed[i]) == Ok::<
                Option<PendingRequestView>,
                RequestError,
            >(Some(#[trigger] store[k])) by {
            if k < before.len() && store[k] == before[k] {
                let i = choose|i: int|
                    0 <= i < rest.len() && spec_listed_request(#[trigger] rest[i]) == Ok::<
                        Option<PendingRequestView>,
                        RequestError,
                    >(Some(before[k]));
                assert(listed[i] == rest[i]);
            } else {
                assert(listed[listed.len() - 1] == last);
            }
        }
        if spec_unique(spec_outstanding(listed)) {
            lemma_rebuild_of_distinct(spec_outstanding(listed));
        }
    }
}

} // verus!
