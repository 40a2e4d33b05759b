use crate::config::should_stop;
use crate::controller::{
    spec_begin_show, spec_process_movie, spec_settle_movie, RequestHandler, ShowStep, ShowStepView,
};
use crate::decision::ProcessError;
use crate::notification::{Notification, NotificationView};
use crate::request::{PendingRequest, PendingRequestView};
use crate::webhooks::jellyseerr::JellyseerrEvent;
use crate::webhooks::radarr::RadarrEvent;
use crate::webhooks::sonarr::SonarrEvent;
use vstd::prelude::*;

verus! {

/// What the loop can wake up to. It takes one input at a time and works it
/// off in full before it takes the next.
#[derive(Debug)]
pub enum LoopInput {
    /// The portal has sent an event.
    Portal(JellyseerrEvent),
    /// The series download manager has sent an event.
    Series(SonarrEvent),
    /// The movie download manager has sent an event.
    Movies(RadarrEvent),
    /// The time for the next full rebuild has come.
    RescanDue,
    /// The shutdown signal has changed: whether it could be read, and
    /// whether it is raised.
    Shutdown { read: bool, raised: bool },
}

/// What the loop is to do for an input.
#[derive(Debug)]
pub enum LoopAction {
    /// Nothing; wait for the next input.
    Wait,
    /// Ask the portal for the request of this id and take it up.
    FetchRequest { request_id: String },
    /// Ask the download managers for the seasons of the series and decide
    /// the event with the answer.
    FetchSeries { series_id: i32, request: PendingRequest, event_seasons: Vec<i32> },
    /// Hand the notification to the sinks.
    Notify(Notification),
    /// Rebuild the store in full and set the time of the next rebuild.
    Rebuild,
    /// Log the error and go on.
    Report(ProcessError),
    /// End the loop.
    Stop,
}

/// The mathematical value of a [`LoopAction`].
pub enum LoopActionView {
    Wait,
    FetchRequest { request_id: Seq<char> },
    FetchSeries { series_id: i32, request: PendingRequestView, event_seasons: Seq<i32> },
    Notify(NotificationView),
    Rebuild,
    Report(ProcessError),
    Stop,
}

impl View for LoopAction {
    type V = LoopActionView;

    open spec fn view(&self) -> LoopActionView {
        match self {
            LoopAction::Wait => LoopActionView::Wait,
            LoopAction::FetchRequest { request_id } => LoopActionView::FetchRequest {
                request_id: request_id@,
            },
            LoopAction::FetchSeries { series_id, request, event_seasons } => {
                LoopActionView::FetchSeries {
                    series_id: *series_id,
                    request: request@,
                    event_seasons: event_seasons@,
                }
            },
            LoopAction::Notify(notification) => LoopActionView::Notify(notification@),
            LoopAction::Rebuild => LoopActionView::Rebuild,
            LoopAction::Report(error) => LoopActionView::Report(*error),
            LoopAction::Stop => LoopActionView::Stop,
        }
    }
}

/// The action for an input, given what is pending.
pub open spec fn spec_next_action(requests: Seq<PendingRequestView>, input: LoopInput)
    -> LoopActionView {
    match input {
        LoopInput::Portal(event) => match event.spec_approved_request() {
            Some(request_id) => LoopActionView::FetchRequest { request_id },
            None => LoopActionView::Wait,
        },
        LoopInput::Series(event) => match event.spec_download() {
            Some(download) => match spec_begin_show(requests, download) {
                ShowStepView::Ignore => LoopActionView::Wait,
                ShowStepView::Failed(error) => LoopActionView::Report(error),
                ShowStepView::FetchSeries { series_id, request, event_seasons } => {
                    LoopActionView::FetchSeries { series_id, request, event_seasons }
                },
            },
            None => LoopActionView::Wait,
        },
        LoopInput::Movies(event) => match event.spec_download() {
            Some(download) => match spec_process_movie(requests, download) {
                Some(notification) => LoopActionView::Notify(notification),
                None => LoopActionView::Wait,
            },
            None => LoopActionView::Wait,
        },
        LoopInput::RescanDue => LoopActionView::Rebuild,
        LoopInput::Shutdown { read, raised } => if read && raised {
            LoopActionView::Stop
        } else {
            LoopActionView::Wait
        },
    }
}

/// What is pending after an input was taken: only a download event of a
/// movie changes the store by itself.
pub open spec fn spec_after_input(requests: Seq<PendingRequestView>, input: LoopInput) -> Seq<
    PendingRequestView,
> {
    match input {
        LoopInput::Movies(event) => match event.spec_download() {
            Some(download) => spec_settle_movie(requests, download),
            None => requests,
        },
        _ => requests,
    }
}

impl RequestHandler {
    /// Takes one input of the loop and says what is to be done for it.
    pub fn next_action(&mut self, input: &LoopInput) -> (action: LoopAction)
        ensures
            action@ == spec_next_action(old(self)@, *input),
            final(self)@ == spec_after_input(old(self)@, *input),
    {
        match input {
            LoopInput::Portal(event) => match event.approved_request() {
                Some(request_id) => LoopAction::FetchRequest { request_id },
                None => LoopAction::Wait,
            },
            LoopInput::Series(event) => match event.download() {
                Some(download) => match self.begin_show(&download) {
                    ShowStep::Ignore => LoopAction::Wait,
                    ShowStep::Failed(error) => LoopAction::Report(error),
                    ShowStep::FetchSeries { series_id, request, event_seasons } => {
                        LoopAction::FetchSeries { series_id, request, event_seasons }
                    },
                },
                None => LoopAction::Wait,
            },
            LoopInput::Movies(event) => match self.process_radarr(event) {
                Some(notification) => LoopAction::Notify(notification),
                None => LoopAction::Wait,
            },
            LoopInput::RescanDue => LoopAction::Rebuild,
            LoopInput::Shutdown { read, raised } => if should_stop(*read, *raised) {
                LoopAction::Stop
            } else {
                LoopAction::Wait
            },
        }
    }
}

/// No input but a download event of a movie changes the store by itself,
/// and an upgrade or an import of episodes asks for nothing.
pub proof fn lemma_quiet_inputs(requests: Seq<PendingRequestView>, input: LoopInput)
    ensures
        !(input is Movies) ==> spec_after_input(requests, input) == requests,
        input matches LoopInput::Series(event) ==> (event.spec_download() matches Some(download)
            ==> (!download.is_first_acquisition() ==> spec_next_action(requests, input)
            == LoopActionView::Wait)),
{
}

} // verus!
