use crate::events::MovieDownload;
use vstd::prelude::*;

verus! {

/// The movie that an event is about.
#[derive(Debug)]
pub struct Movie {
    pub folder_path: String,
    pub genres: Option<Vec<String>>,
    pub id: i32,
    pub images: Option<Vec<Image>>,
    pub imdb_id: Option<String>,
    pub original_language: Option<Language>,
    pub overview: Option<String>,
    pub release_date: String,
    pub tags: Vec<String>,
    pub title: String,
    pub tmdb_id: i32,
    pub year: i32,
}

/// The movie as the indexer knows it.
#[derive(Debug)]
pub struct RemoteMovie {
    pub title: String,
    pub images: Option<Vec<Image>>,
    pub imdb_id: Option<String>,
    pub tmdb_id: Option<i32>,
}

/// Where a movie file was before it was renamed.
#[derive(Debug)]
pub struct RenamedMovieFile {
    pub previous_relative_path: String,
    pub previous_path: String,
}

/// A custom format that a release matched.
#[derive(Debug)]
pub struct CustomFormat {
    pub id: i32,
    pub name: String,
}

/// The custom formats that a release matched, with their score.
#[derive(Debug)]
pub struct CustomFormatInfo {
    pub custom_format_score: i32,
    pub custom_formats: Vec<CustomFormat>,
}

/// A picture of a movie.
#[derive(Debug)]
pub struct Image {
    pub cover_type: String,
    pub remote_url: String,
    pub url: String,
}

/// A language, by id and name.
#[derive(Debug)]
pub struct Language {
    pub id: i32,
    pub name: String,
}

/// The release that was grabbed or imported.
#[derive(Debug)]
pub struct Release {
    pub custom_format_score: Option<i32>,
    pub custom_formats: Option<Vec<String>>,
    pub indexer: Option<String>,
    pub indexer_flags: Option<Vec<String>>,
    pub languages: Option<Vec<Language>>,
    pub quality: Option<String>,
    pub quality_version: Option<i32>,
    pub release_group: Option<String>,
    pub release_title: Option<String>,
    pub size: Option<i64>,
    pub release_type: Option<String>,
}

/// A file that holds a movie.
#[derive(Debug)]
pub struct MovieFile {
    pub date_added: String,
    pub id: i32,
    pub indexer_flags: String,
    pub languages: Vec<Language>,
    pub media_info: MediaInfo,
    pub path: String,
    pub quality: Option<String>,
    pub quality_version: Option<i32>,
    pub relative_path: String,
    pub release_group: Option<String>,
    pub scene_name: Option<String>,
    pub size: i64,
    pub source_path: Option<String>,
}

/// The technical data of a file, but for its count of audio channels.
#[derive(Debug)]
pub struct MediaInfo {
    pub audio_codec: String,
    pub audio_languages: Vec<String>,
    pub height: i32,
    pub subtitles: Vec<String>,
    pub video_codec: String,
    pub video_dynamic_range: String,
    pub video_dynamic_range_type: String,
    pub width: i32,
}

/// A release was handed to the download client.
#[derive(Debug)]
pub struct GrabEvent {
    pub application_url: String,
    pub custom_format_info: CustomFormatInfo,
    pub download_client_type: String,
    pub download_client: String,
    pub download_id: String,
    pub instance_name: String,
    pub movie: Movie,
    pub release: Release,
    pub remote_movie: Option<RemoteMovie>,
}

/// A download was imported.
#[derive(Debug)]
pub struct DownloadEvent {
    pub application_url: String,
    pub custom_format_info: CustomFormatInfo,
    pub download_client_type: Option<String>,
    pub download_client: Option<String>,
    pub download_id: Option<String>,
    pub deleted_files: Option<Vec<MovieFile>>,
    pub instance_name: String,
    pub is_upgrade: bool,
    pub movie_file: MovieFile,
    pub movie: Movie,
    pub release: Release,
    pub remote_movie: Option<RemoteMovie>,
}

/// What the download client says of an item.
#[derive(Debug)]
pub struct DownloadClientItem {
    pub quality: String,
    pub quality_version: i32,
    pub title: String,
    pub indexer: Option<String>,
    pub size: i64,
}

/// A message of the download client on an item.
#[derive(Debug)]
pub struct DownloadStatusMessage {
    pub title: String,
    pub messages: Vec<String>,
}

/// A movie was added.
#[derive(Debug)]
pub struct MovieAddedEvent {
    pub add_method: String,
    pub application_url: String,
    pub instance_name: String,
    pub movie: Movie,
}

/// A movie file was deleted.
#[derive(Debug)]
pub struct MovieFileDeleteEvent {
    pub application_url: String,
    pub delete_reason: String,
    pub instance_name: String,
    pub movie_file: MovieFile,
    pub movie: Movie,
}

/// A movie was deleted.
#[derive(Debug)]
pub struct MovieDeleteEvent {
    pub application_url: String,
    pub instance_name: String,
    pub movie: Movie,
    pub movie_folder_size: i64,
    pub deleted_files: bool,
}

/// Files were renamed.
#[derive(Debug)]
pub struct RenameEvent {
    pub application_url: String,
    pub instance_name: String,
    pub movie: Movie,
    pub renamed_movie_files: Vec<RenamedMovieFile>,
}

/// The download manager reports a problem.
#[derive(Debug)]
pub struct HealthEvent {
    pub application_url: String,
    pub instance_name: String,
    pub level: String,
    pub message: String,
    /// The value of the field `type` of the payload.
    pub kind: String,
    pub wiki_url: String,
}

/// A problem that was reported is gone.
#[derive(Debug)]
pub struct HealthRestoredEvent {
    pub instance_name: String,
    pub level: String,
    pub message: String,
    /// The value of the field `type` of the payload.
    pub kind: String,
    pub wiki_url: String,
}

/// The download manager was updated.
#[derive(Debug)]
pub struct ApplicationUpdateEvent {
    pub application_url: String,
    pub instance_name: String,
    pub message: String,
    pub new_version: String,
    pub previous_version: String,
}

/// A download waits for a decision by hand.
#[derive(Debug)]
pub struct ManualInteractionRequiredEvent {
    pub application_url: String,
    pub custom_format_info: CustomFormatInfo,
    pub download_client_type: Option<String>,
    pub download_client: Option<String>,
    pub download_id: Option<String>,
    pub download_info: Option<DownloadClientItem>,
    pub download_status_message: Option<Vec<DownloadStatusMessage>>,
    pub download_status: Option<String>,
    pub instance_name: String,
    pub movie: Option<Movie>,
    pub release: Release,
}

/// The event that the download manager sends to try the webhook.
#[derive(Debug)]
pub struct TestEvent {
    pub application_url: String,
    pub instance_name: String,
    pub movie: Movie,
    pub release: Release,
    pub remote_movie: RemoteMovie,
}

/// Every event that the movie download manager sends.
#[derive(Debug)]
pub enum RadarrEvent {
    Grab(GrabEvent),
    Download(DownloadEvent),
    MovieAdded(MovieAddedEvent),
    MovieFileDelete(MovieFileDeleteEvent),
    MovieDelete(MovieDeleteEvent),
    Rename(RenameEvent),
    Health(HealthEvent),
    HealthRestored(HealthRestoredEvent),
    ApplicationUpdate(ApplicationUpdateEvent),
    ManualInteractionRequired(ManualInteractionRequiredEvent),
    Test(TestEvent),
}

impl RadarrEvent {
    /// The name of the kind of event, as the download manager spells it.
    pub open spec fn spec_name(&self) -> Seq<char> {
        match self {
            RadarrEvent::Grab(_) => "Grab"@,
            RadarrEvent::Download(_) => "Download"@,
            RadarrEvent::MovieAdded(_) => "MovieAdded"@,
            RadarrEvent::MovieFileDelete(_) => "MovieFileDelete"@,
            RadarrEvent::MovieDelete(_) => "MovieDelete"@,
            RadarrEvent::Rename(_) => "Rename"@,
            RadarrEvent::Health(_) => "Health"@,
            RadarrEvent::HealthRestored(_) => "HealthRestored"@,
            RadarrEvent::ApplicationUpdate(_) => "ApplicationUpdate"@,
            RadarrEvent::ManualInteractionRequired(_) => "ManualInteractionRequired"@,
            RadarrEvent::Test(_) => "Test"@,
        }
    }

    /// The name of the kind of event.
    pub fn name(&self) -> (name: &'static str)
        ensures
            name@ == self.spec_name(),
    {
        match self {
            RadarrEvent::Grab(_) => "Grab",
            RadarrEvent::Download(_) => "Download",
            RadarrEvent::MovieAdded(_) => "MovieAdded",
            RadarrEvent::MovieFileDelete(_) => "MovieFileDelete",
            RadarrEvent::MovieDelete(_) => "MovieDelete",
            RadarrEvent::Rename(_) => "Rename",
            RadarrEvent::Health(_) => "Health",
            RadarrEvent::HealthRestored(_) => "HealthRestored",
            RadarrEvent::ApplicationUpdate(_) => "ApplicationUpdate",
            RadarrEvent::ManualInteractionRequired(_) => "ManualInteractionRequired",
            RadarrEvent::Test(_) => "Test",
        }
    }

    /// What the reconciliation reads of the event: the movie of a download
    /// event, nothing for any other.
    pub open spec fn spec_download(&self) -> Option<MovieDownload> {
        match self {
            RadarrEvent::Download(event) => Some(
                MovieDownload { primary_id: Some(event.movie.tmdb_id) },
            ),
            _ => None,
        }
    }

    /// Reduces a download event to the movie it is about.
    pub fn download(&self) -> (download: Option<MovieDownload>)
        ensures
            download == self.spec_download(),
    {
        match self {
            RadarrEvent::Download(event) => Some(
                MovieDownload { primary_id: Some(event.movie.tmdb_id) },
            ),
            _ => None,
        }
    }
}

} // verus!
