use crate::controller::{
    spec_process_movie, spec_process_show, spec_settle, spec_settle_movie, SeriesLookupView,
};
use crate::events::{MovieDownload, ShowDownloadView};
use crate::notification::NotificationView;
use crate::request::PendingRequestView;
use crate::store::{
    is_first_at, is_movie_of, is_show_of, spec_find, spec_holds, spec_position, spec_unique,
};
use crate::store_proofs::lemma_remove_own;
use vstd::prelude::*;

verus! {

/// A download event of a show changes the store in one case only: it reports
/// full availability, and then the one request that it reports leaves. No
/// error and no report on a running season takes a request out.
pub proof fn lemma_show_leaves_only_when_available(
    requests: Seq<PendingRequestView>,
    event: ShowDownloadView,
    lookup: SeriesLookupView,
)
    ensures
        ({
            let decision = spec_process_show(requests, event, lookup);
            let after = spec_settle(requests, decision);
            after != requests ==> {
                &&& decision matches Ok(Some(NotificationView::MediaAvailable { request, seasons }))
                &&& seasons is Some
                &&& spec_find(requests, is_show_of(event.ids)) == Some(request)
                &&& after.len() == requests.len() - 1
            }
        }),
{
    let decision = spec_process_show(requests, event, lookup);
    let after = spec_settle(requests, decision);
    if after != requests {
        let test = is_show_of(event.ids);
        assert(spec_position(requests, test) is Some);
    }
}

/// Once a pending show was reported as available, its media item is pending
/// no more, so the same availability cannot be reported for it again.
pub proof fn lemma_settled_show_is_gone(
    requests: Seq<PendingRequestView>,
    event: ShowDownloadView,
    lookup: SeriesLookupView,
)
    requires
        spec_unique(requests),
    ensures
        spec_process_show(requests, event, lookup) matches Ok(
            Some(NotificationView::MediaAvailable { request, .. }),
        ) ==> !spec_holds(
            spec_settle(requests, spec_process_show(requests, event, lookup)),
            request.media_type,
            request.ids,
        ),
{
    let decision = spec_process_show(requests, event, lookup);
    if decision matches Ok(Some(NotificationView::MediaAvailable { .. })) {
        let request = decision->Ok_0->0.request();
        let test = is_show_of(event.ids);
        let k = spec_position(requests, test)->0;
        assert(is_first_at(requests, test, k));
        assert(requests[k] == request);
        assert(request.ids.spec_matches(event.ids));
        lemma_remove_own(requests, k);
    }
}

/// A download event of a movie reports the pending movie that it names and
/// takes it out of the store; after that the movie is pending no more. An
/// event that names no pending movie changes nothing.
pub proof fn lemma_settled_movie_is_gone(requests: Seq<PendingRequestView>, event: MovieDownload)
    requires
        spec_unique(requests),
    ensures
        match spec_process_movie(requests, event) {
            Some(notification) => {
                &&& notification.request().ids.spec_matches(event.spec_ids())
                &&& spec_settle_movie(requests, event).len() == requests.len() - 1
                &&& !spec_holds(
                    spec_settle_movie(requests, event),
                    notification.request().media_type,
                    notification.request().ids,
                )
            },
            None => spec_settle_movie(requests, event) == requests,
        },
{
    let test = is_movie_of(event.spec_ids());
    if spec_position(requests, test) is Some {
        let k = spec_position(requests, test)->0;
        assert(is_first_at(requests, test, k));
        lemma_remove_own(requests, k);
    }
}

} // verus!
