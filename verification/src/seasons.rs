use crate::timestamp::{instant_of, spec_instant};
use vstd::prelude::*;

verus! {

/// The statistics that the download manager keeps for one season.
#[derive(Debug)]
pub struct SeasonStatistics {
    /// How many episode files are on disk.
    pub episode_file_count: Option<i32>,
    /// How many episodes have aired so far.
    pub episode_count: Option<i32>,
    /// How many episodes the season will have in all.
    pub total_episode_count: Option<i32>,
    /// When the next episode airs; present only while the season is running.
    pub next_airing: Option<String>,
    /// When the latest episode aired.
    pub previous_airing: Option<String>,
}

/// The mathematical value of a [`SeasonStatistics`].
pub struct SeasonStatisticsView {
    pub episode_file_count: Option<i32>,
    pub episode_count: Option<i32>,
    pub total_episode_count: Option<i32>,
    pub next_airing: Option<Seq<char>>,
    pub previous_airing: Option<Seq<char>>,
}

impl View for SeasonStatistics {
    type V = SeasonStatisticsView;

    open spec fn view(&self) -> SeasonStatisticsView {
        SeasonStatisticsView {
            episode_file_count: self.episode_file_count,
            episode_count: self.episode_count,
            total_episode_count: self.total_episode_count,
            next_airing: self.next_airing.deep_view(),
            previous_airing: self.previous_airing.deep_view(),
        }
    }
}

impl DeepView for SeasonStatistics {
    type V = SeasonStatisticsView;

    open spec fn deep_view(&self) -> SeasonStatisticsView {
        self@
    }
}

/// One season of a series as the download manager reports it.
#[derive(Debug)]
pub struct SeasonResource {
    pub season_number: Option<i32>,
    pub monitored: Option<bool>,
    pub statistics: Option<SeasonStatistics>,
}

/// The mathematical value of a [`SeasonResource`].
pub struct SeasonResourceView {
    pub season_number: Option<i32>,
    pub monitored: Option<bool>,
    pub statistics: Option<SeasonStatisticsView>,
}

impl View for SeasonResource {
    type V = SeasonResourceView;

    open spec fn view(&self) -> SeasonResourceView {
        SeasonResourceView {
            season_number: self.season_number,
            monitored: self.monitored,
            statistics: self.statistics.deep_view(),
        }
    }
}

impl DeepView for SeasonResource {
    type V = SeasonResourceView;

    open spec fn deep_view(&self) -> SeasonResourceView {
        self@
    }
}

impl SeasonResourceView {
    /// The download manager is set to acquire this season.
    pub open spec fn is_monitored(self) -> bool {
        self.monitored == Some(true)
    }
}

/// The three states a monitored season can be in.
#[derive(Clone, Copy, Debug, PartialEq, Eq, Structural)]
pub enum SeasonState {
    /// The season has finished airing and every episode is on disk.
    Available,
    /// The season has finished airing and episodes are missing.
    CompletedIncomplete,
    /// The season still has an episode to air.
    Ongoing,
}

/// How far one monitored season has come.
#[derive(Clone, Copy, Debug)]
pub struct SeasonAvailability {
    pub season_number: i32,
    /// An episode of the season is still to air.
    pub is_ongoing: bool,
    /// As many files are on disk as the season has episodes in all.
    pub is_fully_downloaded: bool,
    pub downloaded_episode_count: Option<i32>,
    /// How many episodes have aired so far; the number of the latest one.
    pub aired_episode_count: Option<i32>,
    pub total_episode_count: Option<i32>,
    /// When the latest episode aired, in nanoseconds since the Unix epoch.
    pub last_downloaded_air_date: Option<i128>,
}

impl SeasonAvailability {
    /// A season with an airing ahead is ongoing whatever its file counts say;
    /// one without is available when it is fully downloaded.
    pub open spec fn spec_state(self) -> SeasonState {
        if self.is_ongoing {
            SeasonState::Ongoing
        } else if self.is_fully_downloaded {
            SeasonState::Available
        } else {
            SeasonState::CompletedIncomplete
        }
    }

    pub fn state(&self) -> (state: SeasonState)
        ensures
            state == self.spec_state(),
    {
        if self.is_ongoing {
            SeasonState::Ongoing
        } else if self.is_fully_downloaded {
            SeasonState::Available
        } else {
            SeasonState::CompletedIncomplete
        }
    }
}

/// What the statistics of one season say of it. A season that is not
/// monitored, or that lacks its number or its statistics, says nothing.
pub open spec fn spec_availability(season: SeasonResourceView) -> Option<SeasonAvailability> {
    if season.is_monitored() && season.season_number is Some && season.statistics is Some {
        let stats = season.statistics->0;
        Some(
            SeasonAvailability {
                season_number: season.season_number->0,
                is_ongoing: stats.next_airing is Some,
                is_fully_downloaded: stats.episode_file_count is Some && stats.episode_file_count
                    == stats.total_episode_count,
                downloaded_episode_count: stats.episode_file_count,
                aired_episode_count: stats.episode_count,
                total_episode_count: stats.total_episode_count,
                last_downloaded_air_date: spec_instant(stats.previous_airing),
            },
        )
    } else {
        None
    }
}

/// [`spec_availability`] as a function value.
pub open spec fn availability_fn() -> spec_fn(SeasonResourceView) -> Option<SeasonAvailability> {
    |season: SeasonResourceView| spec_availability(season)
}

/// The availability of every season that has one, in the order given.
pub open spec fn spec_derive_availability(seasons: Seq<SeasonResourceView>) -> Seq<
    SeasonAvailability,
> {
    seasons.filter_map(availability_fn())
}

/// At least one of the seasons is monitored.
pub open spec fn spec_has_monitored(seasons: Seq<SeasonResourceView>) -> bool {
    exists|i: int| 0 <= i < seasons.len() && (#[trigger] seasons[i]).is_monitored()
}

/// Reads the availability of one season off its statistics.
pub fn availability_of(season: &SeasonResource) -> (availability: Option<SeasonAvailability>)
    ensures
        availability == spec_availability(season@),
{
    if season.monitored != Some(true) {
        return None;
    }
    match (season.season_number, &season.statistics) {
        (Some(number), Some(stats)) => {
            let fully = match (stats.episode_file_count, stats.total_episode_count) {
                (Some(files), Some(total)) => files == total,
                _ => false,
            };
            Some(
                SeasonAvailability {
                    season_number: number,
                    is_ongoing: stats.next_airing.is_some(),
                    is_fully_downloaded: fully,
                    downloaded_episode_count: stats.episode_file_count,
                    aired_episode_count: stats.episode_count,
                    total_episode_count: stats.total_episode_count,
                    last_downloaded_air_date: instant_of(&stats.previous_airing),
                },
            )
        },
        _ => None,
    }
}

/// Derives the availability of the monitored seasons of a series.
pub fn derive_availability(seasons: &Vec<SeasonResource>) -> (derived: Vec<SeasonAvailability>)
    ensures
        derived@ == spec_derive_availability(seasons.deep_view()),
{
    let ghost all = seasons.deep_view();
    let mut derived: Vec<SeasonAvailability> = Vec::new();
    let mut i: usize = 0;
    while i < seasons.len()
        invariant
            i <= seasons.len(),
            all == seasons.deep_view(),
            derived@ == all.take(i as int).filter_map(availability_fn()),
        decreases seasons.len() - i,
    {
        proof {
            all.lemma_filter_map_take_succ(availability_fn(), i as int);
        }
        match availability_of(&seasons[i]) {
            Some(availability) => {
                derived.push(availability);
            },
            None => {},
        }
        i += 1;
    }
    proof {
        assert(all.take(seasons.len() as int) =~= all);
    }
    derived
}

/// Tells whether any season of the series is monitored.
pub fn has_monitored(seasons: &Vec<SeasonResource>) -> (found: bool)
    ensures
        found == spec_has_monitored(seasons.deep_view()),
{
    let mut i: usize = 0;
    while i < seasons.len()
        invariant
            i <= seasons.len(),
            forall|j: int| 0 <= j < i ==> !(#[trigger] seasons.deep_view()[j]).is_monitored(),
        decreases seasons.len() - i,
    {
        if seasons[i].monitored == Some(true) {
            assert(seasons.deep_view()[i as int].is_monitored());
            return true;
        }
        i += 1;
    }
    false
}

} // verus!
