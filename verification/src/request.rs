use crate::identity::MediaIdentifiers;
use vstd::prelude::*;

verus! {

/// What kind of media a request asks for.
#[derive(Clone, Copy, Debug, PartialEq, Eq, Structural)]
pub enum MediaType {
    Movie,
    TV,
}

/// Who asked for the media: the name to show and, where known, the id under
/// which the chat platform can mention them.
#[derive(Debug)]
pub struct Requester {
    pub display_name: String,
    pub discord_id: Option<String>,
}

/// The mathematical value of a [`Requester`].
pub struct RequesterView {
    pub display_name: Seq<char>,
    pub discord_id: Option<Seq<char>>,
}

impl View for Requester {
    type V = RequesterView;

    open spec fn view(&self) -> RequesterView {
        RequesterView {
            display_name: self.display_name@,
            discord_id: self.discord_id.deep_view(),
        }
    }
}

impl Clone for Requester {
    fn clone(&self) -> (copy: Self)
        ensures
            copy@ == self@,
    {
        Requester {
            display_name: self.display_name.clone(),
            discord_id: clone_text(&self.discord_id),
        }
    }
}

/// Copies an optional text.
pub fn clone_text(text: &Option<String>) -> (copy: Option<String>)
    ensures
        copy.deep_view() == text.deep_view(),
{
    match text {
        Some(s) => Some(s.clone()),
        None => None,
    }
}

/// Copies an optional list of season numbers.
pub fn clone_seasons(seasons: &Option<Vec<i32>>) -> (copy: Option<Vec<i32>>)
    ensures
        copy.deep_view() == seasons.deep_view(),
{
    match seasons {
        Some(list) => {
            let copy = list.clone();
            assert(copy.deep_view() =~= list.deep_view());
            Some(copy)
        },
        None => None,
    }
}

/// One outstanding request for one media item.
#[derive(Debug)]
pub struct PendingRequest {
    pub media_type: MediaType,
    pub ids: MediaIdentifiers,
    pub title: String,
    pub overview: String,
    pub image_url: Option<String>,
    /// When the request was approved, in nanoseconds since the Unix epoch.
    pub created_at: i128,
    /// The seasons that were asked for, in the order of the request; absent
    /// for a movie.
    pub requested_seasons: Option<Vec<i32>>,
    pub requested_by: Requester,
}

/// The mathematical value of a [`PendingRequest`].
pub struct PendingRequestView {
    pub media_type: MediaType,
    pub ids: MediaIdentifiers,
    pub title: Seq<char>,
    pub overview: Seq<char>,
    pub image_url: Option<Seq<char>>,
    pub created_at: int,
    pub requested_seasons: Option<Seq<i32>>,
    pub requested_by: RequesterView,
}

impl View for PendingRequest {
    type V = PendingRequestView;

    open spec fn view(&self) -> PendingRequestView {
        PendingRequestView {
            media_type: self.media_type,
            ids: self.ids,
            title: self.title@,
            overview: self.overview@,
            image_url: self.image_url.deep_view(),
            created_at: self.created_at as int,
            requested_seasons: self.requested_seasons.deep_view(),
            requested_by: self.requested_by@,
        }
    }
}

impl DeepView for PendingRequest {
    type V = PendingRequestView;

    open spec fn deep_view(&self) -> PendingRequestView {
        self@
    }
}

impl Clone for PendingRequest {
    fn clone(&self) -> (copy: Self)
        ensures
            copy@ == self@,
    {
        PendingRequest {
            media_type: self.media_type,
            ids: self.ids,
            title: self.title.clone(),
            overview: self.overview.clone(),
            image_url: clone_text(&self.image_url),
            created_at: self.created_at,
            requested_seasons: clone_seasons(&self.requested_seasons),
            requested_by: self.requested_by.clone(),
        }
    }
}

impl PendingRequestView {
    /// The request is for the media item of the given type that `ids` names:
    /// it is of that type and shares a present identifier with `ids`. The
    /// catalogues number movies and shows apart, so the same number under
    /// another type is another item.
    pub open spec fn names(self, media_type: MediaType, ids: MediaIdentifiers) -> bool {
        self.media_type == media_type && self.ids.spec_matches(ids)
    }

    /// The two requests are for the same media item.
    pub open spec fn same_item(self, other: PendingRequestView) -> bool {
        self.names(other.media_type, other.ids)
    }

    /// A movie request names no seasons; a show request names its seasons.
    pub open spec fn well_formed(self) -> bool {
        (self.media_type == MediaType::Movie) == (self.requested_seasons is None)
    }
}

} // verus!
