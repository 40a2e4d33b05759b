use vstd::prelude::*;

verus! {

/// The kind of media, as the portal spells it.
#[derive(Clone, Copy, Debug, PartialEq, Eq, Structural)]
pub enum MediaType {
    TV,
    Movie,
}

/// How far the portal has come with a media item.
#[derive(Clone, Copy, Debug, PartialEq, Eq, Structural)]
pub enum MediaStatus {
    Available,
    Blacklisted,
    Deleted,
    PartiallyAvailable,
    Pending,
    Processing,
    Unknown,
}

/// The media that an event of the portal is about.
#[derive(Debug)]
pub struct Media {
    pub media_type: String,
    pub tmdb_id: Option<i32>,
    pub tvdb_id: Option<i32>,
    pub status: MediaStatus,
    pub status4k: MediaStatus,
}

/// The request that an event of the portal is about.
#[derive(Debug)]
pub struct Request {
    pub request_id: String,
    pub requested_by_email: String,
    pub requested_by_username: String,
    pub requested_by_avatar: String,
    pub requested_by_settings_discord_id: String,
    pub requested_by_settings_telegram_chat_id: String,
}

/// What an issue is about.
#[derive(Clone, Copy, Debug, PartialEq, Eq, Structural)]
pub enum IssueType {
    Video,
    Audio,
    Subtitles,
    Other,
}

/// Whether an issue is still open.
#[derive(Clone, Copy, Debug, PartialEq, Eq, Structural)]
pub enum IssueStatus {
    Open,
    Resolved,
}

/// The issue that an event of the portal is about.
#[derive(Debug)]
pub struct Issue {
    pub issue_id: String,
    pub issue_type: IssueType,
    pub issue_status: IssueStatus,
    pub reported_by_email: String,
    pub reported_by_username: String,
    pub reported_by_avatar: String,
    pub reported_by_settings_discord_id: String,
    pub reported_by_settings_telegram_chat_id: String,
}

/// A comment on an issue.
#[derive(Debug)]
pub struct Comment {
    pub comment_message: String,
    pub commented_by_email: String,
    pub commented_by_username: String,
    pub commented_by_avatar: String,
    pub commented_by_settings_discord_id: String,
    pub commented_by_settings_telegram_chat_id: String,
}

/// A named value that the portal adds to an event.
#[derive(Debug)]
pub struct ExtraData {
    pub name: String,
    pub value: String,
}

/// The kinds of event that the portal sends.
#[derive(Clone, Copy, Debug, PartialEq, Eq, Structural)]
pub enum NotificationType {
    /// No kind was given; the portal spells it `NONE`.
    Unspecified,
    MediaPending,
    MediaApproved,
    MediaAvailable,
    MediaFailed,
    TestNotification,
    MediaDeclined,
    MediaAutoApproved,
    IssueCreated,
    IssueComment,
    IssueResolved,
    IssueReopened,
    MediaAutoRequested,
}

/// An event of the request portal.
#[derive(Debug)]
pub struct JellyseerrEvent {
    pub notification_type: NotificationType,
    pub event: String,
    pub subject: String,
    pub message: String,
    pub image: String,
    pub media: Option<Media>,
    pub request: Option<Request>,
    pub issue: Option<Issue>,
    pub comment: Option<Comment>,
    pub extra: Vec<ExtraData>,
}

impl NotificationType {
    /// The name of the kind of notification.
    pub open spec fn spec_name(&self) -> Seq<char> {
        match self {
            NotificationType::Unspecified => "None"@,
            NotificationType::MediaPending => "MediaPending"@,
            NotificationType::MediaApproved => "MediaApproved"@,
            NotificationType::MediaAvailable => "MediaAvailable"@,
            NotificationType::MediaFailed => "MediaFailed"@,
            NotificationType::TestNotification => "TestNotification"@,
            NotificationType::MediaDeclined => "MediaDeclined"@,
            NotificationType::MediaAutoApproved => "MediaAutoApproved"@,
            NotificationType::IssueCreated => "IssueCreated"@,
            NotificationType::IssueComment => "IssueComment"@,
            NotificationType::IssueResolved => "IssueResolved"@,
            NotificationType::IssueReopened => "IssueReopened"@,
            NotificationType::MediaAutoRequested => "MediaAutoRequested"@,
        }
    }

    /// The name of the kind of notification.
    pub fn name(&self) -> (name: &'static str)
        ensures
            name@ == self.spec_name(),
    {
        match self {
            NotificationType::Unspecified => "None",
            NotificationType::MediaPending => "MediaPending",
            NotificationType::MediaApproved => "MediaApproved",
            NotificationType::MediaAvailable => "MediaAvailable",
            NotificationType::MediaFailed => "MediaFailed",
            NotificationType::TestNotification => "TestNotification",
            NotificationType::MediaDeclined => "MediaDeclined",
            NotificationType::MediaAutoApproved => "MediaAutoApproved",
            NotificationType::IssueCreated => "IssueCreated",
            NotificationType::IssueComment => "IssueComment",
            NotificationType::IssueResolved => "IssueResolved",
            NotificationType::IssueReopened => "IssueReopened",
            NotificationType::MediaAutoRequested => "MediaAutoRequested",
        }
    }

    /// The portal has approved a request, by hand or by rule.
    pub open spec fn spec_is_approval(&self) -> bool {
        *self == NotificationType::MediaApproved || *self == NotificationType::MediaAutoApproved
    }

    /// Whether the notification reports an approval.
    pub fn is_approval(&self) -> (approval: bool)
        ensures
            approval == self.spec_is_approval(),
    {
        match self {
            NotificationType::MediaApproved => true,
            NotificationType::MediaAutoApproved => true,
            _ => false,
        }
    }
}

impl JellyseerrEvent {
    /// The id of the request to track: that of an approval that names its
    /// request, and nothing for any other event.
    pub open spec fn spec_approved_request(&self) -> Option<Seq<char>> {
        if self.notification_type.spec_is_approval() {
            match self.request {
                Some(request) => Some(request.request_id@),
                None => None,
            }
        } else {
            None
        }
    }

    /// Picks the id of the request that an approval event asks to track.
    pub fn approved_request(&self) -> (request_id: Option<String>)
        ensures
            request_id.deep_view() == self.spec_approved_request(),
    {
        if self.notification_type.is_approval() {
            match &self.request {
                Some(request) => Some(request.request_id.clone()),
                None => None,
            }
        } else {
            None
        }
    }
}

} // verus!
