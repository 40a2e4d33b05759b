use informarr::classify::{partition, requested_in, same_numbers, Classification};
use informarr::seasons::{
    availability_of, derive_availability, has_monitored, SeasonAvailability, SeasonResource,
    SeasonState, SeasonStatistics,
};

fn stats(files: Option<i32>, aired: Option<i32>, total: Option<i32>, next: Option<&str>, previous: Option<&str>) -> SeasonStatistics {
    SeasonStatistics {
        episode_file_count: files,
        episode_count: aired,
        total_episode_count: total,
        next_airing: next.map(|t| t.to_string()),
        previous_airing: previous.map(|t| t.to_string()),
    }
}

fn season(number: i32, ongoing: bool, full: bool) -> SeasonAvailability {
    SeasonAvailability {
        season_number: number,
        is_ongoing: ongoing,
        is_fully_downloaded: full,
        downloaded_episode_count: None,
        aired_episode_count: None,
        total_episode_count: None,
        last_downloaded_air_date: None,
    }
}

#[test]
fn availability_reads_the_statistics() {
    let resource = SeasonResource {
        season_number: Some(2),
        monitored: Some(true),
        statistics: Some(stats(Some(8), Some(8), Some(10), Some("2024-03-01T00:00:00Z"), Some("2024-01-01T00:00:00Z"))),
    };
    let derived = availability_of(&resource).unwrap();
    assert_eq!(derived.season_number, 2);
    assert!(derived.is_ongoing);
    assert!(!derived.is_fully_downloaded);
    assert_eq!(derived.downloaded_episode_count, Some(8));
    assert_eq!(derived.aired_episode_count, Some(8));
    assert_eq!(derived.total_episode_count, Some(10));
    assert_eq!(derived.last_downloaded_air_date, Some(1_704_067_200_000_000_000));
    assert_eq!(derived.state(), SeasonState::Ongoing);
}

#[test]
fn air_date_is_read_as_an_instant() {
    let with_offset = SeasonResource {
        season_number: Some(1),
        monitored: Some(true),
        statistics: Some(stats(None, None, None, None, Some("2024-01-01T01:00:00.5+01:00"))),
    };
    assert_eq!(
        availability_of(&with_offset).unwrap().last_downloaded_air_date,
        Some(1_704_067_200_500_000_000)
    );
    let before_epoch = SeasonResource {
        season_number: Some(1),
        monitored: Some(true),
        statistics: Some(stats(None, None, None, None, Some("1969-12-31T23:59:59Z"))),
    };
    assert_eq!(
        availability_of(&before_epoch).unwrap().last_downloaded_air_date,
        Some(-1_000_000_000)
    );
    let no_date = SeasonResource {
        season_number: Some(1),
        monitored: Some(true),
        statistics: Some(stats(None, None, None, None, Some("yesterday"))),
    };
    assert_eq!(availability_of(&no_date).unwrap().last_downloaded_air_date, None);
}

#[test]
fn a_season_with_an_airing_ahead_is_ongoing_whatever_its_counts() {
    let resource = SeasonResource {
        season_number: Some(1),
        monitored: Some(true),
        statistics: Some(stats(Some(10), Some(10), Some(10), Some("2030-01-01T00:00:00Z"), None)),
    };
    let derived = availability_of(&resource).unwrap();
    assert!(derived.is_fully_downloaded);
    assert_eq!(derived.state(), SeasonState::Ongoing);
}

#[test]
fn finished_seasons_are_available_only_when_complete() {
    let complete = SeasonResource {
        season_number: Some(1),
        monitored: Some(true),
        statistics: Some(stats(Some(10), Some(10), Some(10), None, None)),
    };
    let short = SeasonResource {
        season_number: Some(2),
        monitored: Some(true),
        statistics: Some(stats(Some(9), Some(10), Some(10), None, None)),
    };
    let uncounted = SeasonResource {
        season_number: Some(3),
        monitored: Some(true),
        statistics: Some(stats(None, None, None, None, None)),
    };
    assert_eq!(availability_of(&complete).unwrap().state(), SeasonState::Available);
    assert_eq!(availability_of(&short).unwrap().state(), SeasonState::CompletedIncomplete);
    assert_eq!(availability_of(&uncounted).unwrap().state(), SeasonState::CompletedIncomplete);
}

#[test]
fn seasons_that_say_nothing_are_passed_over() {
    let seasons = vec![
        SeasonResource { season_number: Some(1), monitored: Some(false), statistics: Some(stats(Some(1), Some(1), Some(1), None, None)) },
        SeasonResource { season_number: Some(2), monitored: None, statistics: Some(stats(Some(1), Some(1), Some(1), None, None)) },
        SeasonResource { season_number: None, monitored: Some(true), statistics: Some(stats(Some(1), Some(1), Some(1), None, None)) },
        SeasonResource { season_number: Some(4), monitored: Some(true), statistics: None },
        SeasonResource { season_number: Some(5), monitored: Some(true), statistics: Some(stats(Some(1), Some(1), Some(1), None, None)) },
    ];
    assert!(has_monitored(&seasons));
    let derived = derive_availability(&seasons);
    assert_eq!(derived.len(), 1);
    assert_eq!(derived[0].season_number, 5);
    let unmonitored = vec![SeasonResource { season_number: Some(1), monitored: Some(false), statistics: None }];
    assert!(!has_monitored(&unmonitored));
    assert!(!has_monitored(&Vec::new()));
}

#[test]
fn partition_sorts_by_state_in_order() {
    let seasons = vec![
        season(3, true, false),
        season(1, false, true),
        season(2, false, false),
        season(4, true, true),
        season(0, false, true),
    ];
    let sorted = partition(&seasons);
    assert_eq!(sorted.available, vec![1, 0]);
    assert_eq!(sorted.completed_incomplete, vec![2]);
    assert_eq!(sorted.ongoing, vec![3, 4]);
}

#[test]
fn requested_in_keeps_order_and_repeats() {
    assert_eq!(requested_in(&vec![3, 1, 3, 2], &vec![1, 3]), vec![3, 1, 3]);
    assert_eq!(requested_in(&vec![3, 1], &vec![]), Vec::<i32>::new());
    assert!(same_numbers(&vec![1, 2], &vec![1, 2]));
    assert!(!same_numbers(&vec![1, 2], &vec![2, 1]));
    assert!(!same_numbers(&vec![1], &vec![1, 1]));
}

#[test]
fn full_availability_when_every_finished_season_is_complete() {
    let sorted = Classification { available: vec![1, 2], completed_incomplete: vec![], ongoing: vec![] };
    assert_eq!(sorted.available_requested(&vec![1, 2]), vec![1, 2]);
    assert_eq!(sorted.completed_requested(&vec![1, 2]), vec![1, 2]);
    assert_eq!(sorted.full_availability(&vec![1, 2]), Some(vec![1, 2]));
}

#[test]
fn no_full_availability_while_a_finished_season_is_incomplete() {
    let sorted = Classification { available: vec![1], completed_incomplete: vec![2], ongoing: vec![] };
    assert_eq!(sorted.available_requested(&vec![1, 2]), vec![1]);
    assert_eq!(sorted.completed_requested(&vec![1, 2]), vec![1, 2]);
    assert_eq!(sorted.full_availability(&vec![1, 2]), None);
}

#[test]
fn no_full_availability_without_a_finished_season() {
    let sorted = Classification { available: vec![], completed_incomplete: vec![], ongoing: vec![1, 2] };
    assert_eq!(sorted.full_availability(&vec![1, 2]), None);
    let other = Classification { available: vec![3], completed_incomplete: vec![], ongoing: vec![] };
    assert_eq!(other.full_availability(&vec![1, 2]), None);
    assert_eq!(other.full_availability(&vec![]), None);
}

#[test]
fn ongoing_seasons_do_not_hold_full_availability_back() {
    let sorted = Classification { available: vec![1], completed_incomplete: vec![], ongoing: vec![2] };
    assert_eq!(sorted.full_availability(&vec![1, 2]), Some(vec![1]));
}
