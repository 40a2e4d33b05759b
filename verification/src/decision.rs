use crate::classify::{contains_number, partition, spec_partition};
use crate::notification::{Notification, NotificationView};
use crate::request::{PendingRequest, PendingRequestView};
use crate::seasons::SeasonAvailability;
use vstd::prelude::*;

verus! {

/// Why a download event could not be worked off. The store is left as it was.
#[derive(Clone, Copy, Debug, PartialEq, Eq, Structural)]
pub enum ProcessError {
    /// The matching request names no seasons.
    RequestWithoutSeasons,
    /// No download manager knows the series of the event.
    SeriesNotFound,
    /// The series came without its list of seasons.
    SeasonsMissing,
    /// None of the seasons of the series is monitored.
    NoMonitoredSeasons,
    /// The running season does not say how many episodes have aired.
    MissingEpisodeNumber,
    /// The running season does not say when its latest episode aired.
    MissingAirDate,
}

impl ProcessError {
    /// The error in words.
    pub open spec fn spec_message(self) -> Seq<char> {
        match self {
            ProcessError::RequestWithoutSeasons => "Could not find seasons for requested show"@,
            ProcessError::SeriesNotFound => "Could not find Sonarr series"@,
            ProcessError::SeasonsMissing => {
                "Could not find seasons for the specified Sonarr series"@
            },
            ProcessError::NoMonitoredSeasons => "Could not find monitored Sonarr series seasons"@,
            ProcessError::MissingEpisodeNumber => "Could not get last episode number"@,
            ProcessError::MissingAirDate => "Could not get last episode air date"@,
        }
    }

    /// The error in words.
    pub fn message(&self) -> (message: &'static str)
        ensures
            message@ == self.spec_message(),
    {
        match self {
            ProcessError::RequestWithoutSeasons => "Could not find seasons for requested show",
            ProcessError::SeriesNotFound => "Could not find Sonarr series",
            ProcessError::SeasonsMissing => "Could not find seasons for the specified Sonarr series",
            ProcessError::NoMonitoredSeasons => "Could not find monitored Sonarr series seasons",
            ProcessError::MissingEpisodeNumber => "Could not get last episode number",
            ProcessError::MissingAirDate => "Could not get last episode air date",
        }
    }
}

/// What a download event leads to: a notification, nothing, or an error.
pub type Decision = Result<Option<Notification>, ProcessError>;

/// The mathematical value of a [`Decision`].
pub open spec fn decision_view(decision: Decision) -> Result<
    Option<NotificationView>,
    ProcessError,
> {
    match decision {
        Ok(Some(notification)) => Ok(Some(notification@)),
        Ok(None) => Ok(None),
        Err(error) => Err(error),
    }
}

/// Membership in both lists as a function value.
pub open spec fn member_of_both(first: Seq<i32>, second: Seq<i32>) -> spec_fn(i32) -> bool {
    |number: i32| first.contains(number) && second.contains(number)
}

/// The requested seasons that the event brought an episode of and that are
/// still running, in the order of the request.
pub open spec fn spec_matched_ongoing(
    requested: Seq<i32>,
    event_seasons: Seq<i32>,
    ongoing: Seq<i32>,
) -> Seq<i32> {
    requested.filter(member_of_both(event_seasons, ongoing))
}

/// The season at `k` is running, no running season has a lower number, and
/// no running season before it has the same number.
pub open spec fn is_first_lowest_ongoing(seasons: Seq<SeasonAvailability>, k: int) -> bool {
    &&& 0 <= k < seasons.len()
    &&& seasons[k].is_ongoing
    &&& forall|j: int|
        0 <= j < seasons.len() && (#[trigger] seasons[j]).is_ongoing ==> {
            &&& seasons[k].season_number <= seasons[j].season_number
            &&& j < k ==> seasons[k].season_number < seasons[j].season_number
        }
}

/// The running season with the lowest number, the earliest of them where
/// several share it; `None` where no season is running.
pub open spec fn spec_first_ongoing(seasons: Seq<SeasonAvailability>) -> Option<
    SeasonAvailability,
> {
    if exists|k: int| is_first_lowest_ongoing(seasons, k) {
        Some(seasons[choose|k: int| is_first_lowest_ongoing(seasons, k)])
    } else {
        None
    }
}

/// At most one place holds the first lowest running season.
pub proof fn lemma_first_lowest_ongoing_unique(seasons: Seq<SeasonAvailability>, a: int, b: int)
    requires
        is_first_lowest_ongoing(seasons, a),
        is_first_lowest_ongoing(seasons, b),
    ensures
        a == b,
{
    if a < b {
        assert(seasons[a].is_ongoing);
    }
    if b < a {
        assert(seasons[b].is_ongoing);
    }
}

/// What the newest episode of the first running season leads to, once the
/// season is known to be the one that the event and the request meet in.
///
/// An episode that aired after the request was made, or the first episode of
/// the season, is reported alone; anything else as a backlog from episode 1.
pub open spec fn spec_decide_episode(request: PendingRequestView, first: SeasonAvailability)
    -> Result<Option<NotificationView>, ProcessError> {
    match first.aired_episode_count {
        None => Err(ProcessError::MissingEpisodeNumber),
        Some(episode_number) => match first.last_downloaded_air_date {
            None => Err(ProcessError::MissingAirDate),
            Some(aired_at) => if aired_at > request.created_at || episode_number == 1 {
                Ok(
                    Some(
                        NotificationView::OngoingEpisodeAvailable {
                            request,
                            season_number: first.season_number,
                            episode_number,
                        },
                    ),
                )
            } else {
                Ok(
                    Some(
                        NotificationView::OngoingSeasonAvailable {
                            request,
                            season_number: first.season_number,
                            episode_number,
                        },
                    ),
                )
            },
        },
    }
}

/// The decision for a request that is not yet satisfied.
///
/// Nothing is reported unless the event brought an episode of a requested
/// season that is still running, that season is the lowest running season of
/// the series, and every episode of it that has aired is on disk: its file
/// count equals its count of aired episodes. While episodes are missing the
/// season has not caught up, and the event says nothing.
pub open spec fn spec_decide_ongoing(
    request: PendingRequestView,
    requested: Seq<i32>,
    event_seasons: Seq<i32>,
    seasons: Seq<SeasonAvailability>,
) -> Result<Option<NotificationView>, ProcessError> {
    let matched = spec_matched_ongoing(requested, event_seasons, spec_partition(seasons).ongoing);
    if matched.len() == 0 {
        Ok(None)
    } else {
        match spec_first_ongoing(seasons) {
            None => Ok(None),
            Some(first) => if !matched.contains(first.season_number)
                || first.downloaded_episode_count != first.aired_episode_count {
                Ok(None)
            } else {
                spec_decide_episode(request, first)
            },
        }
    }
}

/// A running season that has caught up is reported. Where the lowest running
/// season is one that the event and the request meet in, and as many of its
/// episodes are on disk as have aired, the latest episode is reported alone if
/// it aired after the request was made or is the first of the season, and as
/// a backlog from episode 1 otherwise.
pub proof fn lemma_caught_up_season_is_reported(
    request: PendingRequestView,
    requested: Seq<i32>,
    event_seasons: Seq<i32>,
    seasons: Seq<SeasonAvailability>,
    first: SeasonAvailability,
    episode_number: i32,
    aired_at: i128,
)
    requires
        spec_first_ongoing(seasons) == Some(first),
        spec_matched_ongoing(requested, event_seasons, spec_partition(seasons).ongoing).contains(
            first.season_number,
        ),
        first.downloaded_episode_count == Some(episode_number),
        first.aired_episode_count == Some(episode_number),
        first.last_downloaded_air_date == Some(aired_at),
    ensures
        spec_decide_ongoing(request, requested, event_seasons, seasons) == Ok::<
            Option<NotificationView>,
            ProcessError,
        >(
            Some(
                if aired_at > request.created_at || episode_number == 1 {
                    NotificationView::OngoingEpisodeAvailable {
                        request,
                        season_number: first.season_number,
                        episode_number,
                    }
                } else {
                    NotificationView::OngoingSeasonAvailable {
                        request,
                        season_number: first.season_number,
                        episode_number,
                    }
                },
            ),
        ),
{
}

/// The decision for a download event of a show, given the request that the
/// event belongs to, the seasons that the event brought episodes of, and the
/// state of the monitored seasons.
pub open spec fn spec_decide_show(
    request: PendingRequestView,
    event_seasons: Seq<i32>,
    seasons: Seq<SeasonAvailability>,
) -> Result<Option<NotificationView>, ProcessError> {
    match request.requested_seasons {
        None => Err(ProcessError::RequestWithoutSeasons),
        Some(requested) => {
            let sorted = spec_partition(seasons);
            if sorted.fully_available(requested) {
                Ok(
                    Some(
                        NotificationView::MediaAvailable {
                            request,
                            seasons: Some(sorted.available_requested(requested)),
                        },
                    ),
                )
            } else {
                spec_decide_ongoing(request, requested, event_seasons, seasons)
            }
        },
    }
}

/// Keeps the requested seasons that stand in both lists.
pub fn matched_ongoing(requested: &Vec<i32>, event_seasons: &Vec<i32>, ongoing: &Vec<i32>) -> (kept:
    Vec<i32>)
    ensures
        kept@ == spec_matched_ongoing(requested@, event_seasons@, ongoing@),
{
    let ghost test = member_of_both(event_seasons@, ongoing@);
    let mut kept: Vec<i32> = Vec::new();
    let mut i: usize = 0;
    while i < requested.len()
        invariant
            i <= requested.len(),
            test == member_of_both(event_seasons@, ongoing@),
            kept@ == requested@.take(i as int).filter(test),
        decreases requested.len() - i,
    {
        let number = requested[i];
        proof {
            requested@.lemma_take_succ_push(i as int);
            requested@.take(i as int).lemma_filter_push(number, test);
        }
        if contains_number(event_seasons, number) && contains_number(ongoing, number) {
            kept.push(number);
        }
        i += 1;
    }
    proof {
        assert(requested@.take(requested.len() as int) =~= requested@);
    }
    kept
}

/// Finds the running season with the lowest number.
pub fn first_ongoing(seasons: &Vec<SeasonAvailability>) -> (first: Option<SeasonAvailability>)
    ensures
        first == spec_first_ongoing(seasons@),
{
    let mut best: Option<usize> = None;
    let mut i: usize = 0;
    while i < seasons.len()
        invariant
            i <= seasons.len(),
            best is None ==> forall|j: int| 0 <= j < i ==> !(#[trigger] seasons@[j]).is_ongoing,
            best matches Some(k) ==> {
                &&& k < i
                &&& seasons@[k as int].is_ongoing
                &&& forall|j: int|
                    0 <= j < i && (#[trigger] seasons@[j]).is_ongoing ==> {
                        &&& seasons@[k as int].season_number <= seasons@[j].season_number
                        &&& j < k ==> seasons@[k as int].season_number < seasons@[j].season_number
                    }
            },
        decreases seasons.len() - i,
    {
        if seasons[i].is_ongoing {
            match best {
                None => {
                    best = Some(i);
                },
                Some(k) => {
                    if seasons[i].season_number < seasons[k].season_number {
                        best = Some(i);
                    }
                },
            }
        }
        i += 1;
    }
    match best {
        None => {
            proof {
                assert forall|k: int| !is_first_lowest_ongoing(seasons@, k) by {}
            }
            None
        },
        Some(k) => {
            proof {
                assert(is_first_lowest_ongoing(seasons@, k as int));
                let chosen = choose|c: int| is_first_lowest_ongoing(seasons@, c);
                lemma_first_lowest_ongoing_unique(seasons@, chosen, k as int);
            }
            Some(seasons[k])
        },
    }
}

/// Decides what the newest episode of the first running season leads to.
pub fn decide_episode(request: &PendingRequest, first: &SeasonAvailability) -> (decision: Decision)
    ensures
        decision_view(decision) == spec_decide_episode(request@, *first),
{
    let episode_number = match first.aired_episode_count {
        Some(number) => number,
        None => {
            return Err(ProcessError::MissingEpisodeNumber);
        },
    };
    let aired_at = match first.last_downloaded_air_date {
        Some(instant) => instant,
        None => {
            return Err(ProcessError::MissingAirDate);
        },
    };
    if aired_at > request.created_at || episode_number == 1 {
        Ok(
            Some(
                Notification::OngoingEpisodeAvailable {
                    request: request.clone(),
                    season_number: first.season_number,
                    episode_number,
                },
            ),
        )
    } else {
        Ok(
            Some(
                Notification::OngoingSeasonAvailable {
                    request: request.clone(),
                    season_number: first.season_number,
                    episode_number,
                },
            ),
        )
    }
}

/// Tells whether two optional counts are the same.
pub fn same_count(left: Option<i32>, right: Option<i32>) -> (same: bool)
    ensures
        same == (left == right),
{
    match (left, right) {
        (Some(a), Some(b)) => a == b,
        (None, None) => true,
        _ => false,
    }
}

/// Decides for a request that is not yet satisfied.
pub fn decide_ongoing(
    request: &PendingRequest,
    requested: &Vec<i32>,
    event_seasons: &Vec<i32>,
    seasons: &Vec<SeasonAvailability>,
) -> (decision: Decision)
    ensures
        decision_view(decision) == spec_decide_ongoing(
            request@,
            requested@,
            event_seasons@,
            seasons@,
        ),
{
    let sorted = partition(seasons);
    let matched = matched_ongoing(requested, event_seasons, &sorted.ongoing);
    if matched.len() == 0 {
        return Ok(None);
    }
    match first_ongoing(seasons) {
        None => Ok(None),
        Some(first) => {
            if !contains_number(&matched, first.season_number) || !same_count(
                first.downloaded_episode_count,
                first.aired_episode_count,
            ) {
                Ok(None)
            } else {
                decide_episode(request, &first)
            }
        },
    }
}

/// Decides what a download event of a show leads to.
pub fn decide_show(
    request: &PendingRequest,
    event_seasons: &Vec<i32>,
    seasons: &Vec<SeasonAvailability>,
) -> (decision: Decision)
    ensures
        decision_view(decision) == spec_decide_show(request@, event_seasons@, seasons@),
{
    match &request.requested_seasons {
        None => Err(ProcessError::RequestWithoutSeasons),
        Some(requested) => {
            assert(request@.requested_seasons == Some(requested@)) by {
                assert(requested.deep_view() =~= requested@);
            }
            let sorted = partition(seasons);
            match sorted.full_availability(requested) {
                Some(available) => {
                    assert(available.deep_view() =~= available@);
                    Ok(
                        Some(
                            Notification::MediaAvailable {
                                request: request.clone(),
                                seasons: Some(available),
                            },
                        ),
                    )
                },
                None => decide_ongoing(request, requested, event_seasons, seasons),
            }
        },
    }
}

} // verus!
