use crate::events::{EpisodeRef, ShowDownload, ShowDownloadView};
use crate::identity::MediaIdentifiers;
use vstd::prelude::*;

verus! {

/// A picture of a series.
#[derive(Debug)]
pub struct SeriesImage {
    pub cover_type: String,
    pub remote_url: String,
    pub url: String,
}

/// A language, by id and name.
#[derive(Debug)]
pub struct Language {
    pub id: i32,
    pub name: String,
}

/// The series that an event is about.
#[derive(Debug)]
pub struct Series {
    pub genres: Option<Vec<String>>,
    pub id: i32,
    pub images: Option<Vec<SeriesImage>>,
    pub imdb_id: Option<String>,
    pub original_language: Option<Language>,
    pub path: String,
    pub tags: Option<Vec<String>>,
    pub title: String,
    pub title_slug: Option<String>,
    pub tmdb_id: i32,
    pub tv_maze_id: i32,
    pub tvdb_id: i32,
    /// The value of the field `type` of the payload.
    pub kind: String,
    pub year: i32,
}

/// One episode of a series.
#[derive(Debug)]
pub struct Episode {
    pub episode_number: i32,
    pub id: i32,
    pub season_number: i32,
    pub series_id: i32,
    pub title: String,
    pub tvdb_id: i32,
    pub air_date: Option<String>,
    pub air_date_utc: Option<String>,
    pub overview: Option<String>,
}

/// A custom format that a release matched.
#[derive(Debug)]
pub struct CustomFormat {
    pub id: i32,
    pub name: String,
}

/// The custom formats that a release matched, with their score.
#[derive(Debug)]
pub struct CustomFormatInfo {
    pub custom_format_score: i32,
    pub custom_formats: Vec<CustomFormat>,
}

/// What the download client says of an item.
#[derive(Debug)]
pub struct DownloadClientItem {
    pub quality: String,
    pub quality_version: i32,
    pub size: i64,
    pub title: String,
}

/// A message of the download client on an item.
#[derive(Debug)]
pub struct DownloadStatusMessage {
    pub title: String,
    pub messages: Vec<String>,
}

/// The release that was grabbed or imported.
#[derive(Debug)]
pub struct Release {
    pub custom_format_score: Option<i32>,
    pub custom_formats: Option<Vec<String>>,
    pub indexer: Option<String>,
    pub indexer_flags: Option<Vec<String>>,
    pub languages: Option<Vec<Language>>,
    pub quality: Option<String>,
    pub quality_version: Option<i32>,
    pub release_group: Option<String>,
    pub release_title: Option<String>,
    pub size: Option<i64>,
    pub release_type: Option<String>,
}

/// The technical data of a file, but for its count of audio channels.
#[derive(Debug)]
pub struct MediaInfo {
    pub audio_codec: String,
    pub audio_languages: Vec<String>,
    pub height: i32,
    pub subtitles: Vec<String>,
    pub video_codec: String,
    pub video_dynamic_range: String,
    pub video_dynamic_range_type: String,
    pub width: i32,
}

/// A file that holds an episode.
#[derive(Debug)]
pub struct EpisodeFile {
    pub date_added: String,
    pub id: i32,
    pub languages: Vec<Language>,
    pub media_info: MediaInfo,
    pub path: String,
    pub quality: Option<String>,
    pub quality_version: Option<i32>,
    pub relative_path: Option<String>,
    pub release_group: Option<String>,
    pub scene_name: Option<String>,
    pub size: Option<i64>,
    pub source_path: Option<String>,
}

/// Where an episode file was before it was renamed.
#[derive(Debug)]
pub struct RenamedEpisodeFile {
    pub previous_relative_path: String,
    pub previous_path: String,
}

/// The event that the download manager sends to try the webhook.
#[derive(Debug)]
pub struct TestEvent {
    pub application_url: String,
    pub instance_name: String,
    pub series: Series,
    pub episodes: Vec<Episode>,
}

/// A release was handed to the download client.
#[derive(Debug)]
pub struct GrabEvent {
    pub application_url: String,
    pub instance_name: String,
    pub custom_format_info: CustomFormatInfo,
    pub download_client: String,
    pub download_client_type: String,
    pub download_id: String,
    pub series: Series,
    pub episodes: Vec<Episode>,
    pub release: Release,
}

/// A download was imported.
#[derive(Debug)]
pub struct DownloadEvent {
    pub application_url: String,
    pub custom_format_info: Option<CustomFormatInfo>,
    pub deleted_files: Option<Vec<EpisodeFile>>,
    pub destination_path: Option<String>,
    pub download_client_type: Option<String>,
    pub download_client: Option<String>,
    pub download_id: Option<String>,
    pub episode_file: Option<EpisodeFile>,
    pub episode_files: Option<Vec<EpisodeFile>>,
    pub episodes: Vec<Episode>,
    pub file_count: Option<i32>,
    pub instance_name: String,
    pub is_upgrade: bool,
    pub release: Release,
    pub series: Series,
    pub source_path: Option<String>,
}

/// An episode file was deleted.
#[derive(Debug)]
pub struct EpisodeFileDeleteEvent {
    pub application_url: String,
    pub delete_reason: String,
    pub episode_file: EpisodeFile,
    pub episodes: Vec<Episode>,
    pub instance_name: String,
    pub series: Series,
}

/// A series was added.
#[derive(Debug)]
pub struct SeriesAddEvent {
    pub application_url: String,
    pub instance_name: String,
    pub series: Series,
}

/// A series was deleted.
#[derive(Debug)]
pub struct SeriesDeleteEvent {
    pub application_url: String,
    pub instance_name: String,
    pub series: Series,
    pub deleted_files: bool,
}

/// Files were renamed.
#[derive(Debug)]
pub struct RenameEvent {
    pub application_url: String,
    pub instance_name: String,
    pub series: Series,
    pub renamed_episode_files: Vec<RenamedEpisodeFile>,
}

/// The download manager reports a problem.
#[derive(Debug)]
pub struct HealthEvent {
    pub instance_name: String,
    pub level: String,
    pub message: String,
    /// The value of the field `type` of the payload.
    pub kind: String,
    pub wiki_url: String,
}

/// A problem that was reported is gone.
#[derive(Debug)]
pub struct HealthRestoredEvent {
    pub instance_name: String,
    pub level: String,
    pub message: String,
    /// The value of the field `type` of the payload.
    pub kind: String,
    pub wiki_url: String,
}

/// The download manager was updated.
#[derive(Debug)]
pub struct ApplicationUpdateEvent {
    pub application_url: String,
    pub instance_name: String,
    pub message: String,
    pub new_version: String,
    pub previous_version: String,
}

/// A download waits for a decision by hand.
#[derive(Debug)]
pub struct ManualInteractionRequiredEvent {
    pub application_url: String,
    pub custom_format_info: CustomFormatInfo,
    pub download_client_type: Option<String>,
    pub download_client: Option<String>,
    pub download_id: Option<String>,
    pub download_info: Option<DownloadClientItem>,
    pub download_status_messages: Vec<DownloadStatusMessage>,
    pub download_status: Option<String>,
    pub episodes: Vec<Episode>,
    pub instance_name: String,
    pub release: Release,
}

/// Every event that the series download manager sends.
#[derive(Debug)]
pub enum SonarrEvent {
    Grab(GrabEvent),
    Download(DownloadEvent),
    EpisodeFileDelete(EpisodeFileDeleteEvent),
    SeriesAdd(SeriesAddEvent),
    SeriesDelete(SeriesDeleteEvent),
    Rename(RenameEvent),
    Health(HealthEvent),
    HealthRestored(HealthRestoredEvent),
    ApplicationUpdate(ApplicationUpdateEvent),
    ManualInteractionRequired(ManualInteractionRequiredEvent),
    Test(TestEvent),
}

impl SonarrEvent {
    /// The name of the kind of event, as the download manager spells it.
    pub open spec fn spec_name(&self) -> Seq<char> {
        match self {
            SonarrEvent::Grab(_) => "Grab"@,
            SonarrEvent::Download(_) => "Download"@,
            SonarrEvent::EpisodeFileDelete(_) => "EpisodeFileDelete"@,
            SonarrEvent::SeriesAdd(_) => "SeriesAdd"@,
            SonarrEvent::SeriesDelete(_) => "SeriesDelete"@,
            SonarrEvent::Rename(_) => "Rename"@,
            SonarrEvent::Health(_) => "Health"@,
            SonarrEvent::HealthRestored(_) => "HealthRestored"@,
            SonarrEvent::ApplicationUpdate(_) => "ApplicationUpdate"@,
            SonarrEvent::ManualInteractionRequired(_) => "ManualInteractionRequired"@,
            SonarrEvent::Test(_) => "Test"@,
        }
    }

    /// The name of the kind of event.
    pub fn name(&self) -> (name: &'static str)
        ensures
            name@ == self.spec_name(),
    {
        match self {
            SonarrEvent::Grab(_) => "Grab",
            SonarrEvent::Download(_) => "Download",
            SonarrEvent::EpisodeFileDelete(_) => "EpisodeFileDelete",
            SonarrEvent::SeriesAdd(_) => "SeriesAdd",
            SonarrEvent::SeriesDelete(_) => "SeriesDelete",
            SonarrEvent::Rename(_) => "Rename",
            SonarrEvent::Health(_) => "Health",
            SonarrEvent::HealthRestored(_) => "HealthRestored",
            SonarrEvent::ApplicationUpdate(_) => "ApplicationUpdate",
            SonarrEvent::ManualInteractionRequired(_) => "ManualInteractionRequired",
            SonarrEvent::Test(_) => "Test",
        }
    }

    /// What the reconciliation reads of the event: something for a download
    /// event, nothing for any other.
    pub open spec fn spec_download(&self) -> Option<ShowDownloadView> {
        match self {
            SonarrEvent::Download(event) => Some(event.spec_show_download()),
            _ => None,
        }
    }

    /// Reduces a download event to what the reconciliation reads of it.
    pub fn download(&self) -> (download: Option<ShowDownload>)
        ensures
            match download {
                Some(d) => self.spec_download() == Some(d@),
                None => self.spec_download() is None,
            },
    {
        match self {
            SonarrEvent::Download(event) => Some(event.show_download()),
            _ => None,
        }
    }
}

impl Series {
    /// The series under both its catalogue identifiers.
    pub open spec fn spec_identifiers(&self) -> MediaIdentifiers {
        MediaIdentifiers { primary_id: Some(self.tmdb_id), secondary_id: Some(self.tvdb_id) }
    }

    /// The series under both its catalogue identifiers.
    pub fn identifiers(&self) -> (ids: MediaIdentifiers)
        ensures
            ids == self.spec_identifiers(),
    {
        MediaIdentifiers { primary_id: Some(self.tmdb_id), secondary_id: Some(self.tvdb_id) }
    }
}

/// Season and number of an episode of the payload, as a function value.
pub open spec fn episode_ref_of() -> spec_fn(Episode) -> EpisodeRef {
    |episode: Episode|
        EpisodeRef { season_number: episode.season_number, episode_number: episode.episode_number }
}

impl DownloadEvent {
    /// The event reports a finished import: it lists the imported files.
    pub open spec fn spec_is_import(&self) -> bool {
        self.episode_files is Some
    }

    /// What the reconciliation reads of the event.
    pub open spec fn spec_show_download(&self) -> ShowDownloadView {
        ShowDownloadView {
            ids: self.series.spec_identifiers(),
            series_id: self.series.id,
            episodes: self.episodes@.map_values(episode_ref_of()),
            is_upgrade: self.is_upgrade,
            is_import: self.spec_is_import(),
        }
    }

    /// Reduces the event to what the reconciliation reads of it.
    pub fn show_download(&self) -> (download: ShowDownload)
        ensures
            download@ == self.spec_show_download(),
    {
        let mut episodes: Vec<EpisodeRef> = Vec::new();
        let mut i: usize = 0;
        while i < self.episodes.len()
            invariant
                i <= self.episodes.len(),
                episodes@ == self.episodes@.take(i as int).map_values(episode_ref_of()),
            decreases self.episodes.len() - i,
        {
            proof {
                self.episodes@.lemma_take_succ_push(i as int);
                self.episodes@.take(i as int).lemma_push_map_commute(
                    episode_ref_of(),
                    self.episodes@[i as int],
                );
            }
            let episode = &self.episodes[i];
            episodes.push(
                EpisodeRef {
                    season_number: episode.season_number,
                    episode_number: episode.episode_number,
                },
            );
            i += 1;
        }
        proof {
            assert(self.episodes@.take(self.episodes.len() as int) =~= self.episodes@);
        }
        ShowDownload {
            ids: self.series.identifiers(),
            series_id: self.series.id,
            episodes,
            is_upgrade: self.is_upgrade,
            is_import: self.episode_files.is_some(),
        }
    }
}

} // verus!
