use crate::identity::MediaIdentifiers;
use vstd::prelude::*;

verus! {

/// One episode that a download event brought.
#[derive(Clone, Copy, Debug)]
pub struct EpisodeRef {
    pub season_number: i32,
    pub episode_number: i32,
}

/// A download event of the series download manager, reduced to what the
/// reconciliation reads of it.
#[derive(Debug)]
pub struct ShowDownload {
    /// The identifiers of the series in the two catalogues.
    pub ids: MediaIdentifiers,
    /// The id under which the download manager itself knows the series.
    pub series_id: i32,
    pub episodes: Vec<EpisodeRef>,
    /// The download replaced a file that was there already.
    pub is_upgrade: bool,
    /// The event reports a finished import rather than a new download.
    pub is_import: bool,
}

/// The mathematical value of a [`ShowDownload`].
pub struct ShowDownloadView {
    pub ids: MediaIdentifiers,
    pub series_id: i32,
    pub episodes: Seq<EpisodeRef>,
    pub is_upgrade: bool,
    pub is_import: bool,
}

impl View for ShowDownload {
    type V = ShowDownloadView;

    open spec fn view(&self) -> ShowDownloadView {
        ShowDownloadView {
            ids: self.ids,
            series_id: self.series_id,
            episodes: self.episodes@,
            is_upgrade: self.is_upgrade,
            is_import: self.is_import,
        }
    }
}

/// The season of an episode, as a function value.
pub open spec fn season_of() -> spec_fn(EpisodeRef) -> i32 {
    |episode: EpisodeRef| episode.season_number
}

impl ShowDownloadView {
    /// The season of each episode of the event, in the order of the episodes.
    pub open spec fn seasons(self) -> Seq<i32> {
        self.episodes.map_values(season_of())
    }

    /// Only a first acquisition counts: neither an upgrade nor an import.
    pub open spec fn is_first_acquisition(self) -> bool {
        !self.is_upgrade && !self.is_import
    }
}

impl ShowDownload {
    /// The season of each episode of the event.
    pub fn seasons(&self) -> (seasons: Vec<i32>)
        ensures
            seasons@ == self@.seasons(),
    {
        let mut seasons: Vec<i32> = Vec::new();
        let mut i: usize = 0;
        while i < self.episodes.len()
            invariant
                i <= self.episodes.len(),
                seasons@ == self.episodes@.take(i as int).map_values(season_of()),
            decreases self.episodes.len() - i,
        {
            proof {
                self.episodes@.lemma_take_succ_push(i as int);
                self.episodes@.take(i as int).lemma_push_map_commute(
                    season_of(),
                    self.episodes@[i as int],
                );
            }
            seasons.push(self.episodes[i].season_number);
            i += 1;
        }
        proof {
            assert(self.episodes@.take(self.episodes.len() as int) =~= self.episodes@);
        }
        seasons
    }

    /// Whether the event is a first acquisition.
    pub fn is_first_acquisition(&self) -> (first: bool)
        ensures
            first == self@.is_first_acquisition(),
    {
        !self.is_upgrade && !self.is_import
    }
}

/// A download event of the movie download manager, reduced to the
/// identifier of the movie.
#[derive(Clone, Copy, Debug)]
pub struct MovieDownload {
    pub primary_id: Option<i32>,
}

impl MovieDownload {
    /// The identifiers under which the movie is looked up.
    pub open spec fn spec_ids(self) -> MediaIdentifiers {
        MediaIdentifiers { primary_id: self.primary_id, secondary_id: None }
    }
}

} // verus!
