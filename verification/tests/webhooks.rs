use informarr::controller::{RequestHandler, SeriesLookup};
use informarr::identity::MediaIdentifiers;
use informarr::notification::NotificationType as Milestone;
use informarr::request::{MediaType, PendingRequest, Requester};
use informarr::seasons::{SeasonResource, SeasonStatistics};
use informarr::webhooks::jellyseerr::{JellyseerrEvent, NotificationType, Request};
use informarr::webhooks::radarr;
use informarr::webhooks::radarr::RadarrEvent;
use informarr::webhooks::sonarr;
use informarr::webhooks::sonarr::SonarrEvent;

fn series() -> sonarr::Series {
    sonarr::Series {
        genres: None,
        id: 77,
        images: None,
        imdb_id: None,
        original_language: None,
        path: "/tv/show".to_string(),
        tags: None,
        title: "The Show".to_string(),
        title_slug: None,
        tmdb_id: 100,
        tv_maze_id: 0,
        tvdb_id: 200,
        kind: "standard".to_string(),
        year: 2020,
    }
}

fn episode(season: i32, number: i32) -> sonarr::Episode {
    sonarr::Episode {
        episode_number: number,
        id: 1,
        season_number: season,
        series_id: 77,
        title: "Pilot".to_string(),
        tvdb_id: 0,
        air_date: None,
        air_date_utc: None,
        overview: None,
    }
}

fn sonarr_release() -> sonarr::Release {
    sonarr::Release {
        custom_format_score: None,
        custom_formats: None,
        indexer: None,
        indexer_flags: None,
        languages: None,
        quality: None,
        quality_version: None,
        release_group: None,
        release_title: None,
        size: None,
        release_type: None,
    }
}

fn sonarr_download(episodes: Vec<sonarr::Episode>) -> sonarr::DownloadEvent {
    sonarr::DownloadEvent {
        application_url: String::new(),
        custom_format_info: None,
        deleted_files: None,
        destination_path: None,
        download_client_type: None,
        download_client: None,
        download_id: None,
        episode_file: None,
        episode_files: None,
        episodes,
        file_count: None,
        instance_name: "sonarr".to_string(),
        is_upgrade: false,
        release: sonarr_release(),
        series: series(),
        source_path: None,
    }
}

fn movie(tmdb_id: i32) -> radarr::Movie {
    radarr::Movie {
        folder_path: "/movies/m".to_string(),
        genres: None,
        id: 3,
        images: None,
        imdb_id: None,
        original_language: None,
        overview: None,
        release_date: "2020-01-01".to_string(),
        tags: Vec::new(),
        title: "The Movie".to_string(),
        tmdb_id,
        year: 2020,
    }
}

fn radarr_release() -> radarr::Release {
    radarr::Release {
        custom_format_score: None,
        custom_formats: None,
        indexer: None,
        indexer_flags: None,
        languages: None,
        quality: None,
        quality_version: None,
        release_group: None,
        release_title: None,
        size: None,
        release_type: None,
    }
}

fn radarr_download(tmdb_id: i32, is_upgrade: bool) -> radarr::DownloadEvent {
    radarr::DownloadEvent {
        application_url: String::new(),
        custom_format_info: radarr::CustomFormatInfo { custom_format_score: 0, custom_formats: Vec::new() },
        download_client_type: None,
        download_client: None,
        download_id: None,
        deleted_files: None,
        instance_name: "radarr".to_string(),
        is_upgrade,
        movie_file: radarr::MovieFile {
            date_added: String::new(),
            id: 1,
            indexer_flags: String::new(),
            languages: Vec::new(),
            media_info: radarr::MediaInfo {
                audio_codec: String::new(),
                audio_languages: Vec::new(),
                height: 1080,
                subtitles: Vec::new(),
                video_codec: String::new(),
                video_dynamic_range: String::new(),
                video_dynamic_range_type: String::new(),
                width: 1920,
            },
            path: String::new(),
            quality: None,
            quality_version: None,
            relative_path: String::new(),
            release_group: None,
            scene_name: None,
            size: 0,
            source_path: None,
        },
        movie: movie(tmdb_id),
        release: radarr_release(),
        remote_movie: None,
    }
}

fn pending(media_type: MediaType, primary: i32, secondary: Option<i32>) -> PendingRequest {
    PendingRequest {
        media_type,
        ids: MediaIdentifiers::new(Some(primary), secondary),
        title: "title".to_string(),
        overview: String::new(),
        image_url: None,
        created_at: 0,
        requested_seasons: match media_type {
            MediaType::TV => Some(vec![1]),
            MediaType::Movie => None,
        },
        requested_by: Requester { display_name: "ann".to_string(), discord_id: None },
    }
}

fn jellyseerr_event(kind: NotificationType, request_id: Option<&str>) -> JellyseerrEvent {
    JellyseerrEvent {
        notification_type: kind,
        event: String::new(),
        subject: String::new(),
        message: String::new(),
        image: String::new(),
        media: None,
        request: request_id.map(|id| Request {
            request_id: id.to_string(),
            requested_by_email: String::new(),
            requested_by_username: String::new(),
            requested_by_avatar: String::new(),
            requested_by_settings_discord_id: String::new(),
            requested_by_settings_telegram_chat_id: String::new(),
        }),
        issue: None,
        comment: None,
        extra: Vec::new(),
    }
}

#[test]
fn sonarr_event_names() {
    assert_eq!(SonarrEvent::Download(sonarr_download(vec![])).name(), "Download");
    assert_eq!(
        SonarrEvent::SeriesAdd(sonarr::SeriesAddEvent {
            application_url: String::new(),
            instance_name: String::new(),
            series: series(),
        })
        .name(),
        "SeriesAdd"
    );
    assert_eq!(
        SonarrEvent::Test(sonarr::TestEvent {
            application_url: String::new(),
            instance_name: String::new(),
            series: series(),
            episodes: vec![],
        })
        .name(),
        "Test"
    );
    assert_eq!(
        SonarrEvent::HealthRestored(sonarr::HealthRestoredEvent {
            instance_name: String::new(),
            level: String::new(),
            message: String::new(),
            kind: String::new(),
            wiki_url: String::new(),
        })
        .name(),
        "HealthRestored"
    );
}

#[test]
fn radarr_event_names() {
    assert_eq!(RadarrEvent::Download(radarr_download(1, false)).name(), "Download");
    assert_eq!(
        RadarrEvent::MovieAdded(radarr::MovieAddedEvent {
            add_method: String::new(),
            application_url: String::new(),
            instance_name: String::new(),
            movie: movie(1),
        })
        .name(),
        "MovieAdded"
    );
    assert_eq!(
        RadarrEvent::ApplicationUpdate(radarr::ApplicationUpdateEvent {
            application_url: String::new(),
            instance_name: String::new(),
            message: String::new(),
            new_version: String::new(),
            previous_version: String::new(),
        })
        .name(),
        "ApplicationUpdate"
    );
}

#[test]
fn jellyseerr_notification_names() {
    assert_eq!(NotificationType::Unspecified.name(), "None");
    assert_eq!(NotificationType::MediaApproved.name(), "MediaApproved");
    assert_eq!(NotificationType::MediaAutoRequested.name(), "MediaAutoRequested");
    assert_eq!(NotificationType::IssueReopened.name(), "IssueReopened");
}

#[test]
fn only_approvals_with_a_request_are_taken_up() {
    assert_eq!(
        jellyseerr_event(NotificationType::MediaApproved, Some("12")).approved_request(),
        Some("12".to_string())
    );
    assert_eq!(
        jellyseerr_event(NotificationType::MediaAutoApproved, Some("13")).approved_request(),
        Some("13".to_string())
    );
    assert_eq!(jellyseerr_event(NotificationType::MediaApproved, None).approved_request(), None);
    assert_eq!(jellyseerr_event(NotificationType::MediaPending, Some("12")).approved_request(), None);
    assert_eq!(jellyseerr_event(NotificationType::MediaAvailable, Some("12")).approved_request(), None);
    assert!(NotificationType::MediaApproved.is_approval());
    assert!(!NotificationType::MediaAutoRequested.is_approval());
}

#[test]
fn sonarr_download_is_reduced_to_what_is_read() {
    let mut event = sonarr_download(vec![episode(2, 5), episode(3, 1)]);
    let reduced = event.show_download();
    assert_eq!(reduced.ids.primary_id, Some(100));
    assert_eq!(reduced.ids.secondary_id, Some(200));
    assert_eq!(reduced.series_id, 77);
    assert_eq!(reduced.seasons(), vec![2, 3]);
    assert_eq!(reduced.episodes[0].episode_number, 5);
    assert!(!reduced.is_upgrade);
    assert!(!reduced.is_import);
    assert!(reduced.is_first_acquisition());
    event.episode_files = Some(Vec::new());
    let reduced = event.show_download();
    assert!(reduced.is_import);
    assert!(!reduced.is_first_acquisition());
    event.episode_files = None;
    event.is_upgrade = true;
    assert!(!event.show_download().is_first_acquisition());
    assert_eq!(series().identifiers().primary_id, Some(100));
}

#[test]
fn only_download_events_are_reduced() {
    assert!(SonarrEvent::Download(sonarr_download(vec![])).download().is_some());
    let other = SonarrEvent::SeriesDelete(sonarr::SeriesDeleteEvent {
        application_url: String::new(),
        instance_name: String::new(),
        series: series(),
        deleted_files: true,
    });
    assert!(other.download().is_none());
    assert_eq!(RadarrEvent::Download(radarr_download(9, true)).download().unwrap().primary_id, Some(9));
    let other = RadarrEvent::MovieDelete(radarr::MovieDeleteEvent {
        application_url: String::new(),
        instance_name: String::new(),
        movie: movie(9),
        movie_folder_size: 0,
        deleted_files: false,
    });
    assert!(other.download().is_none());
}

#[test]
fn process_sonarr_works_download_events_off() {
    let mut handler = RequestHandler::new();
    handler.requested.upsert(pending(MediaType::TV, 100, Some(200)));
    let lookup = SeriesLookup::Seasons(vec![SeasonResource {
        season_number: Some(1),
        monitored: Some(true),
        statistics: Some(SeasonStatistics {
            episode_file_count: Some(6),
            episode_count: Some(6),
            total_episode_count: Some(6),
            next_airing: None,
            previous_airing: None,
        }),
    }]);
    let other = SonarrEvent::SeriesAdd(sonarr::SeriesAddEvent {
        application_url: String::new(),
        instance_name: String::new(),
        series: series(),
    });
    assert!(handler.process_sonarr(&other, &lookup).unwrap().is_none());
    let mut upgrade = sonarr_download(vec![episode(1, 6)]);
    upgrade.is_upgrade = true;
    assert!(handler.process_sonarr(&SonarrEvent::Download(upgrade), &lookup).unwrap().is_none());
    let mut import = sonarr_download(vec![episode(1, 6)]);
    import.episode_files = Some(Vec::new());
    assert!(handler.process_sonarr(&SonarrEvent::Download(import), &lookup).unwrap().is_none());
    assert_eq!(handler.requested.len(), 1);
    let first = SonarrEvent::Download(sonarr_download(vec![episode(1, 6)]));
    let notification = handler.process_sonarr(&first, &lookup).unwrap().unwrap();
    assert_eq!(notification.kind(), Milestone::MediaAvailable);
    assert_eq!(handler.requested.len(), 0);
}

#[test]
fn process_radarr_works_download_events_off() {
    let mut handler = RequestHandler::new();
    handler.requested.upsert(pending(MediaType::Movie, 9, None));
    let other = RadarrEvent::MovieAdded(radarr::MovieAddedEvent {
        add_method: String::new(),
        application_url: String::new(),
        instance_name: String::new(),
        movie: movie(9),
    });
    assert!(handler.process_radarr(&other).is_none());
    assert!(handler.process_radarr(&RadarrEvent::Download(radarr_download(8, false))).is_none());
    assert_eq!(handler.requested.len(), 1);
    let notification = handler.process_radarr(&RadarrEvent::Download(radarr_download(9, false))).unwrap();
    assert_eq!(notification.kind(), Milestone::MediaAvailable);
    assert_eq!(handler.requested.len(), 0);
    assert!(handler.process_radarr(&RadarrEvent::Download(radarr_download(9, false))).is_none());
}
