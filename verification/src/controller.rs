use crate::decision::{decide_show, decision_view, spec_decide_show, Decision, ProcessError};
use crate::events::{MovieDownload, ShowDownload, ShowDownloadView};
use crate::notification::{Notification, NotificationView};
use crate::request::{PendingRequest, PendingRequestView};
use crate::seasons::{
    derive_availability, has_monitored, spec_derive_availability, spec_has_monitored,
    SeasonAvailability, SeasonResource, SeasonResourceView,
};
use crate::store::{
    is_movie_of, is_show_of, spec_find, spec_rebuild, spec_remove, spec_unique, PendingStore,
};
use crate::webhooks::radarr::RadarrEvent;
use crate::webhooks::sonarr::SonarrEvent;
use vstd::prelude::*;

verus! {

/// How the question for the seasons of a series was answered.
#[derive(Debug)]
pub enum SeriesLookup {
    /// No download manager knows the series.
    NotFound,
    /// The series is known, its list of seasons is not.
    WithoutSeasons,
    /// The seasons of the series, monitored or not.
    Seasons(Vec<SeasonResource>),
}

/// The mathematical value of a [`SeriesLookup`].
pub enum SeriesLookupView {
    NotFound,
    WithoutSeasons,
    Seasons(Seq<SeasonResourceView>),
}

impl View for SeriesLookup {
    type V = SeriesLookupView;

    open spec fn view(&self) -> SeriesLookupView {
        match self {
            SeriesLookup::NotFound => SeriesLookupView::NotFound,
            SeriesLookup::WithoutSeasons => SeriesLookupView::WithoutSeasons,
            SeriesLookup::Seasons(seasons) => SeriesLookupView::Seasons(seasons.deep_view()),
        }
    }
}

/// What a download event of a show asks for before it can be decided.
#[derive(Debug)]
pub enum ShowStep {
    /// The event is of no concern: not a first acquisition, or of a series
    /// that nobody waits for.
    Ignore,
    /// The event cannot be worked off.
    Failed(ProcessError),
    /// The seasons of the series are to be asked for, and handed back with
    /// the request and the seasons of the event.
    FetchSeries { series_id: i32, request: PendingRequest, event_seasons: Vec<i32> },
}

/// The mathematical value of a [`ShowStep`].
pub enum ShowStepView {
    Ignore,
    Failed(ProcessError),
    FetchSeries { series_id: i32, request: PendingRequestView, event_seasons: Seq<i32> },
}

impl View for ShowStep {
    type V = ShowStepView;

    open spec fn view(&self) -> ShowStepView {
        match self {
            ShowStep::Ignore => ShowStepView::Ignore,
            ShowStep::Failed(error) => ShowStepView::Failed(*error),
            ShowStep::FetchSeries { series_id, request, event_seasons } => {
                ShowStepView::FetchSeries {
                    series_id: *series_id,
                    request: request@,
                    event_seasons: event_seasons@,
                }
            },
        }
    }
}

/// The first step for a download event of a show.
pub open spec fn spec_begin_show(requests: Seq<PendingRequestView>, event: ShowDownloadView)
    -> ShowStepView {
    if !event.is_first_acquisition() {
        ShowStepView::Ignore
    } else {
        match spec_find(requests, is_show_of(event.ids)) {
            None => ShowStepView::Ignore,
            Some(request) => match request.requested_seasons {
                None => ShowStepView::Failed(ProcessError::RequestWithoutSeasons),
                Some(_) => ShowStepView::FetchSeries {
                    series_id: event.series_id,
                    request,
                    event_seasons: event.seasons(),
                },
            },
        }
    }
}

/// The state of the monitored seasons that an answer gives, or the reason
/// why it gives none.
pub open spec fn spec_lookup_availability(lookup: SeriesLookupView) -> Result<
    Seq<SeasonAvailability>,
    ProcessError,
> {
    match lookup {
        SeriesLookupView::NotFound => Err(ProcessError::SeriesNotFound),
        SeriesLookupView::WithoutSeasons => Err(ProcessError::SeasonsMissing),
        SeriesLookupView::Seasons(seasons) => if spec_has_monitored(seasons) {
            Ok(spec_derive_availability(seasons))
        } else {
            Err(ProcessError::NoMonitoredSeasons)
        },
    }
}

/// The decision for a request once the answer on its series is in.
pub open spec fn spec_finish_show(
    request: PendingRequestView,
    event_seasons: Seq<i32>,
    lookup: SeriesLookupView,
) -> Result<Option<NotificationView>, ProcessError> {
    match spec_lookup_availability(lookup) {
        Err(error) => Err(error),
        Ok(seasons) => spec_decide_show(request, event_seasons, seasons),
    }
}

/// The store after a decision: without the request where the decision
/// settles it, as it was otherwise.
pub open spec fn spec_settle(
    requests: Seq<PendingRequestView>,
    decision: Result<Option<NotificationView>, ProcessError>,
) -> Seq<PendingRequestView> {
    match decision {
        Ok(Some(notification)) => if notification.settles_request() {
            spec_remove(
                requests,
                notification.request().media_type,
                notification.request().ids,
            )
        } else {
            requests
        },
        _ => requests,
    }
}

/// The decision for a download event of a show, from the event to the end.
pub open spec fn spec_process_show(
    requests: Seq<PendingRequestView>,
    event: ShowDownloadView,
    lookup: SeriesLookupView,
) -> Result<Option<NotificationView>, ProcessError> {
    match spec_begin_show(requests, event) {
        ShowStepView::Ignore => Ok(None),
        ShowStepView::Failed(error) => Err(error),
        ShowStepView::FetchSeries { series_id, request, event_seasons } => spec_finish_show(
            request,
            event_seasons,
            lookup,
        ),
    }
}

/// The notification for a download event of a movie: one where the movie is
/// pending, none otherwise.
pub open spec fn spec_process_movie(requests: Seq<PendingRequestView>, event: MovieDownload)
    -> Option<NotificationView> {
    match spec_find(requests, is_movie_of(event.spec_ids())) {
        Some(request) => Some(NotificationView::MediaAvailable { request, seasons: None }),
        None => None,
    }
}

/// The store after a download event of a movie.
pub open spec fn spec_settle_movie(requests: Seq<PendingRequestView>, event: MovieDownload) -> Seq<
    PendingRequestView,
> {
    match spec_find(requests, is_movie_of(event.spec_ids())) {
        Some(request) => spec_remove(requests, request.media_type, request.ids),
        None => requests,
    }
}

/// An upgrade or an import never leads to a notification nor to an error,
/// whatever the store holds and whatever the download manager answers.
pub proof fn lemma_upgrade_or_import_is_silent(
    requests: Seq<PendingRequestView>,
    event: ShowDownloadView,
    lookup: SeriesLookupView,
)
    requires
        event.is_upgrade || event.is_import,
    ensures
        spec_begin_show(requests, event) == ShowStepView::Ignore,
        spec_process_show(requests, event, lookup) == Ok::<
            Option<NotificationView>,
            ProcessError,
        >(None),
        spec_settle(requests, spec_process_show(requests, event, lookup)) == requests,
{
}

/// An event that names no pending show leads to nothing.
pub proof fn lemma_unmatched_show_is_silent(
    requests: Seq<PendingRequestView>,
    event: ShowDownloadView,
    lookup: SeriesLookupView,
)
    requires
        forall|i: int|
            0 <= i < requests.len() ==> !is_show_of(event.ids)(#[trigger] requests[i]),
    ensures
        spec_process_show(requests, event, lookup) == Ok::<
            Option<NotificationView>,
            ProcessError,
        >(None),
{
    crate::store::lemma_position_none(requests, is_show_of(event.ids));
}

/// Works the events off against the outstanding requests. It is the one
/// writer of the store.
pub struct RequestHandler {
    pub requested: PendingStore,
}

impl View for RequestHandler {
    type V = Seq<PendingRequestView>;

    open spec fn view(&self) -> Seq<PendingRequestView> {
        self.requested@
    }
}

impl RequestHandler {
    /// A handler with nothing outstanding.
    pub fn new() -> (handler: RequestHandler)
        ensures
            handler@ == Seq::<PendingRequestView>::empty(),
    {
        RequestHandler { requested: PendingStore::new() }
    }

    /// Rebuilds the store in full from the requests that the portal holds as
    /// approved and not yet satisfied, in the order of the portal. What the
    /// store held before plays no part.
    pub fn rebuild(&mut self, source: &Vec<PendingRequest>)
        ensures
            final(self)@ == spec_rebuild(source.deep_view()),
            spec_unique(final(self)@),
    {
        self.requested.rebuild(source);
    }

    /// Takes the first step for a download event of a show: decides whether
    /// the seasons of the series are to be asked for. The store is only read.
    pub fn begin_show(&self, event: &ShowDownload) -> (step: ShowStep)
        ensures
            step@ == spec_begin_show(self@, event@),
    {
        if !event.is_first_acquisition() {
            return ShowStep::Ignore;
        }
        match self.requested.find_tv(event.ids.primary_id, event.ids.secondary_id) {
            None => ShowStep::Ignore,
            Some(request) => {
                if request.requested_seasons.is_none() {
                    ShowStep::Failed(ProcessError::RequestWithoutSeasons)
                } else {
                    ShowStep::FetchSeries {
                        series_id: event.series_id,
                        request,
                        event_seasons: event.seasons(),
                    }
                }
            },
        }
    }

    /// Applies a decision to the store: a request that it settles leaves.
    fn settle(&mut self, decision: &Decision)
        ensures
            final(self)@ == spec_settle(old(self)@, decision_view(*decision)),
    {
        match decision {
            Ok(Some(notification)) => match notification {
                Notification::MediaAvailable { request, .. } => {
                    self.requested.remove(request.media_type, request.ids);
                },
                _ => {},
            },
            _ => {},
        }
    }

    /// Decides a download event of a show from the state of its monitored
    /// seasons, and takes the request out of the store where it is settled.
    pub fn resolve_show(
        &mut self,
        request: &PendingRequest,
        event_seasons: &Vec<i32>,
        seasons: &Vec<SeasonAvailability>,
    ) -> (decision: Decision)
        ensures
            decision_view(decision) == spec_decide_show(request@, event_seasons@, seasons@),
            final(self)@ == spec_settle(old(self)@, decision_view(decision)),
    {
        let decision = decide_show(request, event_seasons, seasons);
        self.settle(&decision);
        decision
    }

    /// Takes the second step for a download event of a show, with the answer
    /// of the download manager on the series.
    pub fn finish_show(
        &mut self,
        request: &PendingRequest,
        event_seasons: &Vec<i32>,
        lookup: &SeriesLookup,
    ) -> (decision: Decision)
        ensures
            decision_view(decision) == spec_finish_show(request@, event_seasons@, lookup@),
            final(self)@ == spec_settle(old(self)@, decision_view(decision)),
    {
        match lookup {
            SeriesLookup::NotFound => Err(ProcessError::SeriesNotFound),
            SeriesLookup::WithoutSeasons => Err(ProcessError::SeasonsMissing),
            SeriesLookup::Seasons(seasons) => {
                if !has_monitored(seasons) {
                    return Err(ProcessError::NoMonitoredSeasons);
                }
                let derived = derive_availability(seasons);
                self.resolve_show(request, event_seasons, &derived)
            },
        }
    }

    /// Works a download event of a show off against the answer that the
    /// download manager gives on its series.
    pub fn process_show(&mut self, event: &ShowDownload, lookup: &SeriesLookup) -> (decision:
        Decision)
        ensures
            decision_view(decision) == spec_process_show(old(self)@, event@, lookup@),
            final(self)@ == spec_settle(old(self)@, decision_view(decision)),
            !event@.is_first_acquisition() ==> decision_view(decision) == Ok::<
                Option<NotificationView>,
                ProcessError,
            >(None) && final(self)@ == old(self)@,
    {
        match self.begin_show(event) {
            ShowStep::Ignore => Ok(None),
            ShowStep::Failed(error) => Err(error),
            ShowStep::FetchSeries { series_id, request, event_seasons } => self.finish_show(
                &request,
                &event_seasons,
                lookup,
            ),
        }
    }

    /// Works an event of the series download manager off. Only a download
    /// event can lead to anything.
    pub fn process_sonarr(&mut self, event: &SonarrEvent, lookup: &SeriesLookup) -> (decision:
        Decision)
        ensures
            decision_view(decision) == match event.spec_download() {
                Some(download) => spec_process_show(old(self)@, download, lookup@),
                None => Ok(None),
            },
            final(self)@ == spec_settle(old(self)@, decision_view(decision)),
    {
        match event.download() {
            Some(download) => self.process_show(&download, lookup),
            None => Ok(None),
        }
    }

    /// Works a download event of a movie off: where the movie is pending,
    /// its availability is reported and the request leaves the store.
    pub fn process_movie(&mut self, event: MovieDownload) -> (notification: Option<Notification>)
        ensures
            notification.deep_view() == spec_process_movie(old(self)@, event),
            final(self)@ == spec_settle_movie(old(self)@, event),
    {
        match self.requested.find_movie(event.primary_id) {
            Some(request) => {
                self.requested.remove(request.media_type, request.ids);
                Some(Notification::MediaAvailable { request, seasons: None })
            },
            None => None,
        }
    }

    /// Works an event of the movie download manager off. Only a download
    /// event can lead to anything.
    pub fn process_radarr(&mut self, event: &RadarrEvent) -> (notification: Option<Notification>)
        ensures
            notification.deep_view() == match event.spec_download() {
                Some(download) => spec_process_movie(old(self)@, download),
                None => None,
            },
            final(self)@ == match event.spec_download() {
                Some(download) => spec_settle_movie(old(self)@, download),
                None => old(self)@,
            },
    {
        match event.download() {
            Some(download) => self.process_movie(download),
            None => None,
        }
    }
}

} // verus!
