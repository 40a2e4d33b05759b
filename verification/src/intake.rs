use crate::classify::contains_number;
use crate::controller::RequestHandler;
use crate::identity::MediaIdentifiers;
use crate::link::{poster_url, spec_poster_url};
use crate::request::{clone_text, MediaType, PendingRequest, PendingRequestView, Requester, RequesterView};
use crate::store::spec_upsert;
use crate::timestamp::{instant_of, spec_instant};
use vstd::prelude::*;

verus! {

/// The status under which the portal files what can be watched in full.
pub const STATUS_AVAILABLE: i32 = 5;

/// Why a request of the portal could not be taken up.
#[derive(Clone, Copy, Debug, PartialEq, Eq, Structural)]
pub enum RequestError {
    MissingMediaType,
    MissingMedia,
    MissingTmdbId,
    /// The time of the request is absent or is no RFC 3339 date.
    MissingCreationTime,
    MissingUserId,
    /// The requester has no name of any kind.
    MissingDisplayName,
    /// The portal gave no profile for the requester.
    UserNotFound,
    /// The portal gave no details for the media.
    MediaNotFound,
}

impl RequestError {
    /// The error in words.
    pub open spec fn spec_message(self) -> Seq<char> {
        match self {
            RequestError::MissingMediaType => "Could not get media type"@,
            RequestError::MissingMedia => "Could not get media"@,
            RequestError::MissingTmdbId => "Could not get media tmdb_id"@,
            RequestError::MissingCreationTime => "Could not get request creation time"@,
            RequestError::MissingUserId => "Could not get user id"@,
            RequestError::MissingDisplayName => "Display name not set"@,
            RequestError::UserNotFound => "Could not get user"@,
            RequestError::MediaNotFound => "Could not get media from Jellyseerr"@,
        }
    }

    /// The error in words.
    pub fn message(&self) -> (message: &'static str)
        ensures
            message@ == self.spec_message(),
    {
        match self {
            RequestError::MissingMediaType => "Could not get media type",
            RequestError::MissingMedia => "Could not get media",
            RequestError::MissingTmdbId => "Could not get media tmdb_id",
            RequestError::MissingCreationTime => "Could not get request creation time",
            RequestError::MissingUserId => "Could not get user id",
            RequestError::MissingDisplayName => "Display name not set",
            RequestError::UserNotFound => "Could not get user",
            RequestError::MediaNotFound => "Could not get media from Jellyseerr",
        }
    }
}

/// What a request of the portal says of its media.
#[derive(Clone, Copy, Debug)]
pub struct RequestMedia {
    pub status: Option<i32>,
    pub tmdb_id: Option<i32>,
    pub tvdb_id: Option<i32>,
}

/// A request as the portal lists it.
#[derive(Debug)]
pub struct RequestRecord {
    /// `tv` or `movie`.
    pub media_type: Option<String>,
    pub media: Option<RequestMedia>,
    pub created_at: Option<String>,
    /// The id of the user who made the request.
    pub requested_by: Option<i32>,
    /// The number of each requested season, where it has one.
    pub seasons: Option<Vec<Option<i32>>>,
}

/// The mathematical value of a [`RequestRecord`].
pub struct RequestRecordView {
    pub media_type: Option<Seq<char>>,
    pub media: Option<RequestMedia>,
    pub created_at: Option<Seq<char>>,
    pub requested_by: Option<i32>,
    pub seasons: Option<Seq<Option<i32>>>,
}

impl View for RequestRecord {
    type V = RequestRecordView;

    open spec fn view(&self) -> RequestRecordView {
        RequestRecordView {
            media_type: self.media_type.deep_view(),
            media: self.media,
            created_at: self.created_at.deep_view(),
            requested_by: self.requested_by,
            seasons: match self.seasons {
                Some(list) => Some(list@),
                None => None,
            },
        }
    }
}

/// What is settled of a request before its requester and its media are
/// looked up.
#[derive(Debug)]
pub struct RequestPlan {
    /// `None` for media that is neither a show nor a movie.
    pub media_type: Option<MediaType>,
    pub ids: MediaIdentifiers,
    pub created_at: i128,
    pub user_id: i32,
    pub requested_seasons: Vec<i32>,
}

/// The mathematical value of a [`RequestPlan`].
pub struct RequestPlanView {
    pub media_type: Option<MediaType>,
    pub ids: MediaIdentifiers,
    pub created_at: i128,
    pub user_id: i32,
    pub requested_seasons: Seq<i32>,
}

impl View for RequestPlan {
    type V = RequestPlanView;

    open spec fn view(&self) -> RequestPlanView {
        RequestPlanView {
            media_type: self.media_type,
            ids: self.ids,
            created_at: self.created_at,
            user_id: self.user_id,
            requested_seasons: self.requested_seasons@,
        }
    }
}

/// The media type that the portal's word for it names.
pub open spec fn spec_media_type(word: Seq<char>) -> Option<MediaType> {
    if word == "tv"@ {
        Some(MediaType::TV)
    } else if word == "movie"@ {
        Some(MediaType::Movie)
    } else {
        None
    }
}

/// A number that is there, as a function value.
pub open spec fn present_number() -> spec_fn(Option<i32>) -> Option<i32> {
    |number: Option<i32>| number
}

/// The numbers of the requested seasons that have one, in their order.
pub open spec fn spec_requested_seasons(seasons: Option<Seq<Option<i32>>>) -> Seq<i32> {
    match seasons {
        Some(list) => list.filter_map(present_number()),
        None => Seq::empty(),
    }
}

/// What is settled of a request: an error where something is missing,
/// nothing where the media can be watched already, a plan otherwise.
pub open spec fn spec_plan_request(record: RequestRecordView) -> Result<
    Option<RequestPlanView>,
    RequestError,
> {
    if record.media_type is None {
        Err(RequestError::MissingMediaType)
    } else if record.media is None {
        Err(RequestError::MissingMedia)
    } else if record.media->0.status == Some(STATUS_AVAILABLE) {
        Ok(None)
    } else if record.media->0.tmdb_id is None {
        Err(RequestError::MissingTmdbId)
    } else if spec_instant(record.created_at) is None {
        Err(RequestError::MissingCreationTime)
    } else if record.requested_by is None {
        Err(RequestError::MissingUserId)
    } else {
        Ok(
            Some(
                RequestPlanView {
                    media_type: spec_media_type(record.media_type->0),
                    ids: MediaIdentifiers {
                        primary_id: record.media->0.tmdb_id,
                        secondary_id: record.media->0.tvdb_id,
                    },
                    created_at: spec_instant(record.created_at)->0,
                    user_id: record.requested_by->0,
                    requested_seasons: spec_requested_seasons(record.seasons),
                },
            ),
        )
    }
}

/// The mathematical value of the result of planning.
pub open spec fn plan_view(plan: Result<Option<RequestPlan>, RequestError>) -> Result<
    Option<RequestPlanView>,
    RequestError,
> {
    match plan {
        Ok(Some(plan)) => Ok(Some(plan@)),
        Ok(None) => Ok(None),
        Err(error) => Err(error),
    }
}

/// Tells whether a text is the given word.
pub fn text_is(text: &String, word: &str) -> (same: bool)
    ensures
        same == (text@ == word@),
{
    let other = String::from_str(word);
    text.eq(&other)
}

/// Reads the media type off the portal's word for it.
pub fn media_type_of(word: &String) -> (media_type: Option<MediaType>)
    ensures
        media_type == spec_media_type(word@),
{
    if text_is(word, "tv") {
        Some(MediaType::TV)
    } else if text_is(word, "movie") {
        Some(MediaType::Movie)
    } else {
        None
    }
}

/// Collects the numbers of the requested seasons that have one.
pub fn requested_seasons(seasons: &Option<Vec<Option<i32>>>) -> (numbers: Vec<i32>)
    ensures
        numbers@ == spec_requested_seasons(
            match *seasons {
                Some(list) => Some(list@),
                None => None,
            },
        ),
{
    let mut numbers: Vec<i32> = Vec::new();
    match seasons {
        None => {},
        Some(list) => {
            let mut i: usize = 0;
            while i < list.len()
                invariant
                    i <= list.len(),
                    numbers@ == list@.take(i as int).filter_map(present_number()),
                decreases list.len() - i,
            {
                proof {
                    list@.lemma_filter_map_take_succ(present_number(), i as int);
                }
                match list[i] {
                    Some(number) => numbers.push(number),
                    None => {},
                }
                i += 1;
            }
            proof {
                assert(list@.take(list.len() as int) =~= list@);
            }
        },
    }
    numbers
}

/// Settles what a request of the portal says by itself.
pub fn plan_request(record: &RequestRecord) -> (plan: Result<Option<RequestPlan>, RequestError>)
    ensures
        plan_view(plan) == spec_plan_request(record@),
{
    let word = match &record.media_type {
        Some(word) => word,
        None => {
            return Err(RequestError::MissingMediaType);
        },
    };
    let media = match record.media {
        Some(media) => media,
        None => {
            return Err(RequestError::MissingMedia);
        },
    };
    match media.status {
        Some(status) => {
            if status == STATUS_AVAILABLE {
                return Ok(None);
            }
        },
        None => {},
    }
    let tmdb_id = match media.tmdb_id {
        Some(id) => id,
        None => {
            return Err(RequestError::MissingTmdbId);
        },
    };
    let created_at = match instant_of(&record.created_at) {
        Some(instant) => instant,
        None => {
            return Err(RequestError::MissingCreationTime);
        },
    };
    let user_id = match record.requested_by {
        Some(id) => id,
        None => {
            return Err(RequestError::MissingUserId);
        },
    };
    Ok(
        Some(
            RequestPlan {
                media_type: media_type_of(word),
                ids: MediaIdentifiers { primary_id: Some(tmdb_id), secondary_id: media.tvdb_id },
                created_at,
                user_id,
                requested_seasons: requested_seasons(&record.seasons),
            },
        ),
    )
}

/// What the portal knows of a user.
#[derive(Debug)]
pub struct UserProfile {
    pub display_name: Option<String>,
    pub username: Option<String>,
    pub jellyfin_username: Option<String>,
    pub plex_username: Option<String>,
    pub discord_id: Option<String>,
}

/// The mathematical value of a [`UserProfile`].
pub struct UserProfileView {
    pub display_name: Option<Seq<char>>,
    pub username: Option<Seq<char>>,
    pub jellyfin_username: Option<Seq<char>>,
    pub plex_username: Option<Seq<char>>,
    pub discord_id: Option<Seq<char>>,
}

impl View for UserProfile {
    type V = UserProfileView;

    open spec fn view(&self) -> UserProfileView {
        UserProfileView {
            display_name: self.display_name.deep_view(),
            username: self.username.deep_view(),
            jellyfin_username: self.jellyfin_username.deep_view(),
            plex_username: self.plex_username.deep_view(),
            discord_id: self.discord_id.deep_view(),
        }
    }
}

/// The first of two optional values that is there.
pub open spec fn spec_or(first: Option<Seq<char>>, second: Option<Seq<char>>) -> Option<Seq<char>> {
    if first is Some {
        first
    } else {
        second
    }
}

/// The name to show for a user: the display name or, in its absence, the
/// first that is there of the user name and the names on the two media
/// servers.
pub open spec fn spec_display_name(user: UserProfileView) -> Option<Seq<char>> {
    spec_or(
        user.display_name,
        spec_or(user.username, spec_or(user.jellyfin_username, user.plex_username)),
    )
}

/// The requester that a profile describes.
pub open spec fn spec_requester(user: UserProfileView) -> Result<RequesterView, RequestError> {
    match spec_display_name(user) {
        Some(display_name) => Ok(RequesterView { display_name, discord_id: user.discord_id }),
        None => Err(RequestError::MissingDisplayName),
    }
}

/// The mathematical value of the result of resolving a requester.
pub open spec fn requester_view(requester: Result<Requester, RequestError>) -> Result<
    RequesterView,
    RequestError,
> {
    match requester {
        Ok(requester) => Ok(requester@),
        Err(error) => Err(error),
    }
}

/// Takes the first of two optional texts that is there.
pub fn first_text(first: &Option<String>, second: Option<String>) -> (text: Option<String>)
    ensures
        text.deep_view() == spec_or(first.deep_view(), second.deep_view()),
{
    match first {
        Some(value) => Some(value.clone()),
        None => second,
    }
}

/// Picks the name and the mention id of a requester off their profile.
pub fn resolve_requester(user: &UserProfile) -> (requester: Result<Requester, RequestError>)
    ensures
        requester_view(requester) == spec_requester(user@),
{
    let name = first_text(
        &user.display_name,
        first_text(
            &user.username,
            first_text(&user.jellyfin_username, clone_text(&user.plex_username)),
        ),
    );
    match name {
        Some(display_name) => Ok(Requester { display_name, discord_id: clone_text(&user.discord_id) }),
        None => Err(RequestError::MissingDisplayName),
    }
}

/// What the portal says of one season of a show.
#[derive(Clone, Copy, Debug)]
pub struct SeasonStatus {
    pub season_number: Option<i32>,
    pub status: Option<i32>,
}

/// What the portal knows of a show or a movie.
#[derive(Debug)]
pub struct MediaDetails {
    pub title: Option<String>,
    pub original_title: Option<String>,
    pub overview: Option<String>,
    pub poster_path: Option<String>,
    /// The seasons of a show with their status; empty for a movie.
    pub seasons: Vec<SeasonStatus>,
}

/// The mathematical value of a [`MediaDetails`].
pub struct MediaDetailsView {
    pub title: Option<Seq<char>>,
    pub original_title: Option<Seq<char>>,
    pub overview: Option<Seq<char>>,
    pub poster_path: Option<Seq<char>>,
    pub seasons: Seq<SeasonStatus>,
}

impl View for MediaDetails {
    type V = MediaDetailsView;

    open spec fn view(&self) -> MediaDetailsView {
        MediaDetailsView {
            title: self.title.deep_view(),
            original_title: self.original_title.deep_view(),
            overview: self.overview.deep_view(),
            poster_path: self.poster_path.deep_view(),
            seasons: self.seasons@,
        }
    }
}

/// The number of a season that can be watched in full, as a function value.
pub open spec fn available_number() -> spec_fn(SeasonStatus) -> Option<i32> {
    |season: SeasonStatus|
        if season.status == Some(STATUS_AVAILABLE) {
            season.season_number
        } else {
            None
        }
}

/// The numbers of the seasons that can be watched in full.
pub open spec fn spec_available_seasons(seasons: Seq<SeasonStatus>) -> Seq<i32> {
    seasons.filter_map(available_number())
}

/// Some requested season cannot be watched in full yet.
pub open spec fn spec_has_missing(requested: Seq<i32>, available: Seq<i32>) -> bool {
    exists|i: int| 0 <= i < requested.len() && !available.contains(#[trigger] requested[i])
}

/// A text, or the empty text in its absence.
pub open spec fn spec_or_empty(text: Option<Seq<char>>) -> Seq<char> {
    match text {
        Some(value) => value,
        None => Seq::empty(),
    }
}

/// The request to track for a plan, its requester and its media: none for a
/// show whose requested seasons can all be watched, and none for media that
/// is neither show nor movie.
pub open spec fn spec_build_request(
    plan: RequestPlanView,
    requester: RequesterView,
    details: MediaDetailsView,
) -> Option<PendingRequestView> {
    let base = PendingRequestView {
        media_type: MediaType::Movie,
        ids: plan.ids,
        title: spec_or_empty(spec_or(details.title, details.original_title)),
        overview: spec_or_empty(details.overview),
        image_url: spec_poster_url(details.poster_path),
        created_at: plan.created_at as int,
        requested_seasons: None,
        requested_by: requester,
    };
    match plan.media_type {
        Some(MediaType::Movie) => Some(base),
        Some(MediaType::TV) => if spec_has_missing(
            plan.requested_seasons,
            spec_available_seasons(details.seasons),
        ) {
            Some(
                PendingRequestView {
                    media_type: MediaType::TV,
                    requested_seasons: Some(plan.requested_seasons),
                    ..base
                },
            )
        } else {
            None
        },
        None => None,
    }
}

/// A request that is built names seasons exactly when it is for a show, and
/// carries the primary identifier of its plan.
pub proof fn lemma_built_request_is_well_formed(
    plan: RequestPlanView,
    requester: RequesterView,
    details: MediaDetailsView,
)
    ensures
        spec_build_request(plan, requester, details) matches Some(request) ==> {
            &&& request.well_formed()
            &&& Some(request.media_type) == plan.media_type
            &&& request.ids == plan.ids
        },
{
}

/// Collects the numbers of the seasons that can be watched in full.
pub fn available_seasons(seasons: &Vec<SeasonStatus>) -> (numbers: Vec<i32>)
    ensures
        numbers@ == spec_available_seasons(seasons@),
{
    let mut numbers: Vec<i32> = Vec::new();
    let mut i: usize = 0;
    while i < seasons.len()
        invariant
            i <= seasons.len(),
            numbers@ == seasons@.take(i as int).filter_map(available_number()),
        decreases seasons.len() - i,
    {
        proof {
            seasons@.lemma_filter_map_take_succ(available_number(), i as int);
        }
        let season = seasons[i];
        match (season.status, season.season_number) {
            (Some(status), Some(number)) => {
                if status == STATUS_AVAILABLE {
                    numbers.push(number);
                }
            },
            _ => {},
        }
        i += 1;
    }
    proof {
        assert(seasons@.take(seasons.len() as int) =~= seasons@);
    }
    numbers
}

/// Tells whether some requested season cannot be watched in full yet.
pub fn has_missing(requested: &Vec<i32>, available: &Vec<i32>) -> (missing: bool)
    ensures
        missing == spec_has_missing(requested@, available@),
{
    let mut i: usize = 0;
    while i < requested.len()
        invariant
            i <= requested.len(),
            forall|j: int| 0 <= j < i ==> available@.contains(#[trigger] requested@[j]),
        decreases requested.len() - i,
    {
        if !contains_number(available, requested[i]) {
            return true;
        }
        i += 1;
    }
    false
}

/// Copies a text, or gives the empty text in its absence.
pub fn text_or_empty(text: &Option<String>) -> (copy: String)
    ensures
        copy@ == spec_or_empty(text.deep_view()),
{
    match text {
        Some(value) => value.clone(),
        None => String::new(),
    }
}

/// Builds the request to track, if there is one to track.
pub fn build_request(plan: &RequestPlan, requester: Requester, details: &MediaDetails) -> (request:
    Option<PendingRequest>)
    ensures
        request.deep_view() == spec_build_request(plan@, requester@, details@),
{
    let media_type = match plan.media_type {
        Some(media_type) => media_type,
        None => {
            return None;
        },
    };
    let requested_seasons = match media_type {
        MediaType::Movie => None,
        MediaType::TV => {
            let available = available_seasons(&details.seasons);
            if !has_missing(&plan.requested_seasons, &available) {
                return None;
            }
            let copy = plan.requested_seasons.clone();
            assert(copy@ =~= plan.requested_seasons@);
            assert(copy.deep_view() =~= plan.requested_seasons@);
            Some(copy)
        },
    };
    let title = first_text(&details.title, clone_text(&details.original_title));
    Some(
        PendingRequest {
            media_type,
            ids: plan.ids,
            title: text_or_empty(&title),
            overview: text_or_empty(&details.overview),
            image_url: poster_url(&details.poster_path),
            created_at: plan.created_at,
            requested_seasons,
            requested_by: requester,
        },
    )
}

impl RequestHandler {
    /// Takes up a request of the portal once its requester and its media are
    /// known: where there is something to track, it is offered to the store.
    /// Says whether the store took it.
    pub fn process_request(
        &mut self,
        plan: &RequestPlan,
        requester: Requester,
        details: &MediaDetails,
    ) -> (taken: bool)
        ensures
            final(self)@ == match spec_build_request(plan@, requester@, details@) {
                Some(request) => spec_upsert(old(self)@, request),
                None => old(self)@,
            },
            taken == (final(self)@ != old(self)@),
    {
        match build_request(plan, requester, details) {
            Some(request) => {
                let took = self.requested.upsert(request);
                proof {
                    if took {
                        assert(self@.len() == old(self)@.len() + 1);
                    }
                }
                took
            },
            None => false,
        }
    }
}

} // verus!
