use informarr::decision::{
    decide_episode, decide_ongoing, decide_show, first_ongoing, matched_ongoing, ProcessError,
};
use informarr::identity::MediaIdentifiers;
use informarr::notification::{Notification, NotificationType};
use informarr::request::{MediaType, PendingRequest, Requester};
use informarr::seasons::SeasonAvailability;

const NEW_YEAR_2024: i128 = 1_704_067_200_000_000_000;
const DAY: i128 = 86_400_000_000_000;

fn show(requested: Vec<i32>, created_at: i128) -> PendingRequest {
    PendingRequest {
        media_type: MediaType::TV,
        ids: MediaIdentifiers::new(Some(100), Some(200)),
        title: "The Show".to_string(),
        overview: "About the show.".to_string(),
        image_url: None,
        created_at,
        requested_seasons: Some(requested),
        requested_by: Requester { display_name: "ann".to_string(), discord_id: None },
    }
}

fn finished(number: i32, complete: bool) -> SeasonAvailability {
    SeasonAvailability {
        season_number: number,
        is_ongoing: false,
        is_fully_downloaded: complete,
        downloaded_episode_count: Some(if complete { 10 } else { 7 }),
        aired_episode_count: Some(10),
        total_episode_count: Some(10),
        last_downloaded_air_date: None,
    }
}

fn ongoing(number: i32, files: Option<i32>, aired: Option<i32>, aired_at: Option<i128>) -> SeasonAvailability {
    SeasonAvailability {
        season_number: number,
        is_ongoing: true,
        is_fully_downloaded: false,
        downloaded_episode_count: files,
        aired_episode_count: aired,
        total_episode_count: Some(12),
        last_downloaded_air_date: aired_at,
    }
}

fn seasons_of(notification: &Notification) -> Option<Vec<i32>> {
    match notification {
        Notification::MediaAvailable { seasons, .. } => seasons.clone(),
        _ => None,
    }
}

#[test]
fn all_requested_seasons_available_gives_media_available() {
    let request = show(vec![1, 2], NEW_YEAR_2024);
    let seasons = vec![finished(1, true), finished(2, true)];
    let decision = decide_show(&request, &vec![2], &seasons).unwrap().unwrap();
    assert_eq!(decision.kind(), NotificationType::MediaAvailable);
    assert_eq!(seasons_of(&decision), Some(vec![1, 2]));
    assert_eq!(decision.request().title, "The Show");
}

#[test]
fn an_incomplete_finished_season_holds_the_notification_back() {
    let request = show(vec![1, 2], NEW_YEAR_2024);
    let seasons = vec![finished(1, true), finished(2, false)];
    assert!(decide_show(&request, &vec![1, 2], &seasons).unwrap().is_none());
    assert!(decide_show(&request, &vec![1], &seasons).unwrap().is_none());
}

#[test]
fn media_available_lists_the_seasons_in_the_order_of_the_request() {
    let request = show(vec![2, 1, 3], NEW_YEAR_2024);
    let seasons = vec![finished(1, true), finished(2, true), ongoing(3, Some(1), Some(2), Some(NEW_YEAR_2024))];
    let decision = decide_show(&request, &vec![1], &seasons).unwrap().unwrap();
    assert_eq!(seasons_of(&decision), Some(vec![2, 1]));
}

#[test]
fn a_request_without_seasons_is_an_error() {
    let mut request = show(vec![1], NEW_YEAR_2024);
    request.requested_seasons = None;
    let seasons = vec![finished(1, true)];
    assert_eq!(decide_show(&request, &vec![1], &seasons).unwrap_err(), ProcessError::RequestWithoutSeasons);
}

#[test]
fn first_episode_of_a_running_season_is_reported_alone() {
    let request = show(vec![3], NEW_YEAR_2024);
    let seasons = vec![ongoing(3, Some(1), Some(1), Some(NEW_YEAR_2024 + DAY))];
    match decide_show(&request, &vec![3], &seasons).unwrap().unwrap() {
        Notification::OngoingEpisodeAvailable { season_number, episode_number, .. } => {
            assert_eq!(season_number, 3);
            assert_eq!(episode_number, 1);
        }
        other => panic!("{:?}", other),
    }
}

#[test]
fn first_episode_is_reported_alone_even_when_it_aired_before_the_request() {
    let request = show(vec![3], NEW_YEAR_2024);
    let seasons = vec![ongoing(3, Some(1), Some(1), Some(NEW_YEAR_2024 - DAY))];
    let decision = decide_show(&request, &vec![3], &seasons).unwrap().unwrap();
    assert_eq!(decision.kind(), NotificationType::OngoingEpisodeAvailable);
}

#[test]
fn an_episode_aired_after_the_request_is_reported_alone() {
    let request = show(vec![3], NEW_YEAR_2024);
    let seasons = vec![ongoing(3, Some(5), Some(5), Some(NEW_YEAR_2024 + 1))];
    match decide_show(&request, &vec![3], &seasons).unwrap().unwrap() {
        Notification::OngoingEpisodeAvailable { season_number, episode_number, .. } => {
            assert_eq!((season_number, episode_number), (3, 5));
        }
        other => panic!("{:?}", other),
    }
}

#[test]
fn a_backlog_is_reported_from_the_first_episode() {
    let request = show(vec![3], NEW_YEAR_2024);
    let seasons = vec![ongoing(3, Some(5), Some(5), Some(NEW_YEAR_2024 - DAY))];
    match decide_show(&request, &vec![3], &seasons).unwrap().unwrap() {
        Notification::OngoingSeasonAvailable { season_number, episode_number, request } => {
            assert_eq!((season_number, episode_number), (3, 5));
            assert_eq!(request.created_at, NEW_YEAR_2024);
        }
        other => panic!("{:?}", other),
    }
}

#[test]
fn an_episode_aired_at_the_instant_of_the_request_counts_as_backlog() {
    let request = show(vec![3], NEW_YEAR_2024);
    let seasons = vec![ongoing(3, Some(5), Some(5), Some(NEW_YEAR_2024))];
    let decision = decide_show(&request, &vec![3], &seasons).unwrap().unwrap();
    assert_eq!(decision.kind(), NotificationType::OngoingSeasonAvailable);
}

#[test]
fn an_event_for_another_season_says_nothing() {
    let request = show(vec![3], NEW_YEAR_2024);
    let seasons = vec![ongoing(3, Some(5), Some(5), Some(NEW_YEAR_2024 + DAY))];
    assert!(decide_show(&request, &vec![2], &seasons).unwrap().is_none());
    assert!(decide_show(&request, &vec![], &seasons).unwrap().is_none());
}

#[test]
fn an_event_for_a_season_that_was_not_requested_says_nothing() {
    let request = show(vec![1], NEW_YEAR_2024);
    let seasons = vec![finished(1, false), ongoing(3, Some(5), Some(5), Some(NEW_YEAR_2024 + DAY))];
    assert!(decide_show(&request, &vec![3], &seasons).unwrap().is_none());
}

#[test]
fn only_the_lowest_running_season_is_reported() {
    let request = show(vec![4], NEW_YEAR_2024);
    let seasons = vec![
        ongoing(3, Some(5), Some(5), Some(NEW_YEAR_2024 + DAY)),
        ongoing(4, Some(2), Some(2), Some(NEW_YEAR_2024 + DAY)),
    ];
    assert!(decide_show(&request, &vec![4], &seasons).unwrap().is_none());
    let both = show(vec![4, 3], NEW_YEAR_2024);
    match decide_show(&both, &vec![3, 4], &seasons).unwrap().unwrap() {
        Notification::OngoingEpisodeAvailable { season_number, episode_number, .. } => {
            assert_eq!((season_number, episode_number), (3, 5));
        }
        other => panic!("{:?}", other),
    }
}

#[test]
fn missing_episodes_say_nothing() {
    let request = show(vec![3], NEW_YEAR_2024);
    let behind = vec![ongoing(3, Some(4), Some(5), Some(NEW_YEAR_2024 + DAY))];
    assert!(decide_show(&request, &vec![3], &behind).unwrap().is_none());
    let nothing_yet = vec![ongoing(3, Some(0), Some(1), Some(NEW_YEAR_2024 + DAY))];
    assert!(decide_show(&request, &vec![3], &nothing_yet).unwrap().is_none());
    let uncounted_files = vec![ongoing(3, None, Some(5), Some(NEW_YEAR_2024 + DAY))];
    assert!(decide_show(&request, &vec![3], &uncounted_files).unwrap().is_none());
    let unknown_aired = vec![ongoing(3, Some(5), None, None)];
    assert!(decide_show(&request, &vec![3], &unknown_aired).unwrap().is_none());
}

#[test]
fn a_caught_up_season_without_its_numbers_is_an_error() {
    let request = show(vec![3], NEW_YEAR_2024);
    let no_date = vec![ongoing(3, Some(1), Some(1), None)];
    assert_eq!(decide_show(&request, &vec![3], &no_date).unwrap_err(), ProcessError::MissingAirDate);
    let no_count = vec![ongoing(3, None, None, Some(NEW_YEAR_2024 + DAY))];
    assert_eq!(decide_show(&request, &vec![3], &no_count).unwrap_err(), ProcessError::MissingEpisodeNumber);
    let neither = vec![ongoing(3, None, None, None)];
    assert_eq!(decide_show(&request, &vec![3], &neither).unwrap_err(), ProcessError::MissingEpisodeNumber);
}

#[test]
fn full_availability_comes_before_the_running_season() {
    let request = show(vec![1, 3], NEW_YEAR_2024);
    let seasons = vec![finished(1, true), ongoing(3, Some(0), Some(1), Some(NEW_YEAR_2024 + DAY))];
    let decision = decide_show(&request, &vec![3], &seasons).unwrap().unwrap();
    assert_eq!(decision.kind(), NotificationType::MediaAvailable);
    assert_eq!(seasons_of(&decision), Some(vec![1]));
}

#[test]
fn first_ongoing_is_the_earliest_of_the_lowest() {
    let mut twin = ongoing(2, Some(9), Some(9), None);
    twin.total_episode_count = Some(99);
    let seasons = vec![finished(1, true), ongoing(5, None, None, None), ongoing(2, Some(1), Some(2), None), twin];
    let first = first_ongoing(&seasons).unwrap();
    assert_eq!(first.season_number, 2);
    assert_eq!(first.total_episode_count, Some(12));
    assert!(first_ongoing(&vec![finished(1, true)]).is_none());
    assert!(first_ongoing(&Vec::new()).is_none());
}

#[test]
fn matched_ongoing_needs_event_and_running_season() {
    assert_eq!(matched_ongoing(&vec![1, 2, 3, 4], &vec![2, 3, 9], &vec![3, 4, 2]), vec![2, 3]);
    assert_eq!(matched_ongoing(&vec![1, 2], &vec![1, 2], &vec![]), Vec::<i32>::new());
}

#[test]
fn decide_ongoing_and_decide_episode_agree_with_the_whole() {
    let request = show(vec![3], NEW_YEAR_2024);
    let season = ongoing(3, Some(5), Some(5), Some(NEW_YEAR_2024 - 1));
    let part = decide_episode(&request, &season).unwrap().unwrap();
    assert_eq!(part.kind(), NotificationType::OngoingSeasonAvailable);
    let whole = decide_ongoing(&request, &vec![3], &vec![3], &vec![season]).unwrap().unwrap();
    assert_eq!(whole.kind(), NotificationType::OngoingSeasonAvailable);
}

#[test]
fn errors_in_words() {
    assert_eq!(ProcessError::RequestWithoutSeasons.message(), "Could not find seasons for requested show");
    assert_eq!(ProcessError::SeriesNotFound.message(), "Could not find Sonarr series");
    assert_eq!(ProcessError::SeasonsMissing.message(), "Could not find seasons for the specified Sonarr series");
    assert_eq!(ProcessError::NoMonitoredSeasons.message(), "Could not find monitored Sonarr series seasons");
    assert_eq!(ProcessError::MissingEpisodeNumber.message(), "Could not get last episode number");
    assert_eq!(ProcessError::MissingAirDate.message(), "Could not get last episode air date");
}
