use crate::request::{clone_seasons, PendingRequest, PendingRequestView};
use vstd::prelude::*;

verus! {

/// The three milestones that a requester is told about.
#[derive(Clone, Copy, Debug, PartialEq, Eq, Structural)]
pub enum NotificationType {
    /// Everything that was asked for can be watched.
    MediaAvailable,
    /// A running season has been caught up from its first episode on.
    OngoingSeasonAvailable,
    /// The newest episode of a running season has arrived.
    OngoingEpisodeAvailable,
}

/// A decision to notify, with the request it is about and what the
/// milestone needs beside it.
#[derive(Debug)]
pub enum Notification {
    /// A movie is there (`seasons` absent), or the listed seasons of a show.
    MediaAvailable { request: PendingRequest, seasons: Option<Vec<i32>> },
    /// Episodes 1 to `episode_number` of the season are there.
    OngoingSeasonAvailable { request: PendingRequest, season_number: i32, episode_number: i32 },
    /// Episode `episode_number` of the season is there.
    OngoingEpisodeAvailable { request: PendingRequest, season_number: i32, episode_number: i32 },
}

/// The mathematical value of a [`Notification`].
pub enum NotificationView {
    MediaAvailable { request: PendingRequestView, seasons: Option<Seq<i32>> },
    OngoingSeasonAvailable { request: PendingRequestView, season_number: i32, episode_number: i32 },
    OngoingEpisodeAvailable {
        request: PendingRequestView,
        season_number: i32,
        episode_number: i32,
    },
}

impl NotificationView {
    /// The milestone that the notification reports.
    pub open spec fn kind(self) -> NotificationType {
        match self {
            NotificationView::MediaAvailable { .. } => NotificationType::MediaAvailable,
            NotificationView::OngoingSeasonAvailable { .. } => {
                NotificationType::OngoingSeasonAvailable
            },
            NotificationView::OngoingEpisodeAvailable { .. } => {
                NotificationType::OngoingEpisodeAvailable
            },
        }
    }

    /// The request that the notification is about.
    pub open spec fn request(self) -> PendingRequestView {
        match self {
            NotificationView::MediaAvailable { request, .. } => request,
            NotificationView::OngoingSeasonAvailable { request, .. } => request,
            NotificationView::OngoingEpisodeAvailable { request, .. } => request,
        }
    }

    /// Only full availability settles a request; a running season leaves it
    /// pending.
    pub open spec fn settles_request(self) -> bool {
        self is MediaAvailable
    }
}

impl View for Notification {
    type V = NotificationView;

    open spec fn view(&self) -> NotificationView {
        match self {
            Notification::MediaAvailable { request, seasons } => NotificationView::MediaAvailable {
                request: request@,
                seasons: seasons.deep_view(),
            },
            Notification::OngoingSeasonAvailable { request, season_number, episode_number } => {
                NotificationView::OngoingSeasonAvailable {
                    request: request@,
                    season_number: *season_number,
                    episode_number: *episode_number,
                }
            },
            Notification::OngoingEpisodeAvailable { request, season_number, episode_number } => {
                NotificationView::OngoingEpisodeAvailable {
                    request: request@,
                    season_number: *season_number,
                    episode_number: *episode_number,
                }
            },
        }
    }
}

impl DeepView for Notification {
    type V = NotificationView;

    open spec fn deep_view(&self) -> NotificationView {
        self@
    }
}

impl Clone for Notification {
    fn clone(&self) -> (copy: Self)
        ensures
            copy@ == self@,
    {
        match self {
            Notification::MediaAvailable { request, seasons } => Notification::MediaAvailable {
                request: request.clone(),
                seasons: clone_seasons(seasons),
            },
            Notification::OngoingSeasonAvailable { request, season_number, episode_number } => {
                Notification::OngoingSeasonAvailable {
                    request: request.clone(),
                    season_number: *season_number,
                    episode_number: *episode_number,
                }
            },
            Notification::OngoingEpisodeAvailable { request, season_number, episode_number } => {
                Notification::OngoingEpisodeAvailable {
                    request: request.clone(),
                    season_number: *season_number,
                    episode_number: *episode_number,
                }
            },
        }
    }
}

impl Notification {
    /// The milestone that the notification reports.
    pub fn kind(&self) -> (kind: NotificationType)
        ensures
            kind == self@.kind(),
    {
        match self {
            Notification::MediaAvailable { .. } => NotificationType::MediaAvailable,
            Notification::OngoingSeasonAvailable { .. } => NotificationType::OngoingSeasonAvailable,
            Notification::OngoingEpisodeAvailable { .. } => {
                NotificationType::OngoingEpisodeAvailable
            },
        }
    }

    /// The request that the notification is about.
    pub fn request(&self) -> (request: &PendingRequest)
        ensures
            request@ == self@.request(),
    {
        match self {
            Notification::MediaAvailable { request, .. } => request,
            Notification::OngoingSeasonAvailable { request, .. } => request,
            Notification::OngoingEpisodeAvailable { request, .. } => request,
        }
    }
}

} // verus!
