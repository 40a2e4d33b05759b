use crate::config::{DiscordConfig, TelegramConfig};
use crate::notification::{Notification, NotificationView};
use crate::request::{clone_text, MediaType};
use crate::text::{
    decimal, join_numbers, lemma_trimmed_of_clean, spec_decimal, spec_is_white_space,
    spec_join_numbers, spec_trimmed, trimmed,
};
use vstd::prelude::*;

verus! {

/// The colours that the chat server offers for the bar of an embed.
#[derive(Clone, Copy, Debug, PartialEq, Eq, Structural)]
pub enum EmbedColors {
    Default,
    Aqua,
    Green,
    Blue,
    Purple,
    Gold,
    Orange,
    Red,
    Grey,
    DarkerGrey,
    Navy,
    DarkAqua,
    DarkGreen,
    DarkBlue,
    DarkPurple,
    DarkGold,
    DarkOrange,
    DarkRed,
    DarkGrey,
    LightGrey,
    DarkNavy,
    LuminousVividPink,
    DarkVividPink,
}

impl EmbedColors {
    /// The number that the chat server knows the colour by.
    pub open spec fn spec_value(self) -> u64 {
        match self {
            EmbedColors::Default => 0,
            EmbedColors::Aqua => 1752220,
            EmbedColors::Green => 3066993,
            EmbedColors::Blue => 3447003,
            EmbedColors::Purple => 10181046,
            EmbedColors::Gold => 15844367,
            EmbedColors::Orange => 15105570,
            EmbedColors::Red => 15158332,
            EmbedColors::Grey => 9807270,
            EmbedColors::DarkerGrey => 8359053,
            EmbedColors::Navy => 3426654,
            EmbedColors::DarkAqua => 1146986,
            EmbedColors::DarkGreen => 2067276,
            EmbedColors::DarkBlue => 2123412,
            EmbedColors::DarkPurple => 7419530,
            EmbedColors::DarkGold => 12745742,
            EmbedColors::DarkOrange => 11027200,
            EmbedColors::DarkRed => 10038562,
            EmbedColors::DarkGrey => 9936031,
            EmbedColors::LightGrey => 12370112,
            EmbedColors::DarkNavy => 2899536,
            EmbedColors::LuminousVividPink => 16580705,
            EmbedColors::DarkVividPink => 12320855,
        }
    }

    /// The number that the chat server knows the colour by.
    pub fn value(&self) -> (value: u64)
        ensures
            value == self.spec_value(),
    {
        match self {
            EmbedColors::Default => 0,
            EmbedColors::Aqua => 1752220,
            EmbedColors::Green => 3066993,
            EmbedColors::Blue => 3447003,
            EmbedColors::Purple => 10181046,
            EmbedColors::Gold => 15844367,
            EmbedColors::Orange => 15105570,
            EmbedColors::Red => 15158332,
            EmbedColors::Grey => 9807270,
            EmbedColors::DarkerGrey => 8359053,
            EmbedColors::Navy => 3426654,
            EmbedColors::DarkAqua => 1146986,
            EmbedColors::DarkGreen => 2067276,
            EmbedColors::DarkBlue => 2123412,
            EmbedColors::DarkPurple => 7419530,
            EmbedColors::DarkGold => 12745742,
            EmbedColors::DarkOrange => 11027200,
            EmbedColors::DarkRed => 10038562,
            EmbedColors::DarkGrey => 9936031,
            EmbedColors::LightGrey => 12370112,
            EmbedColors::DarkNavy => 2899536,
            EmbedColors::LuminousVividPink => 16580705,
            EmbedColors::DarkVividPink => 12320855,
        }
    }
}

/// `Season` and the number of a season.
pub open spec fn spec_season_label(season_number: i32) -> Seq<char> {
    "Season "@ + spec_decimal(season_number as int)
}

/// `Episode` and the number of an episode.
pub open spec fn spec_episode_label(episode_number: i32) -> Seq<char> {
    "Episode "@ + spec_decimal(episode_number as int)
}

/// The span of episodes from the first to the given one.
pub open spec fn spec_episode_span(episode_number: i32) -> Seq<char> {
    "1 to "@ + spec_decimal(episode_number as int)
}

/// The listed seasons in decimal form, joined by commas; empty where no
/// season is listed.
pub open spec fn spec_seasons_joined(seasons: Option<Seq<i32>>) -> Seq<char> {
    match seasons {
        Some(list) => spec_join_numbers(list),
        None => Seq::empty(),
    }
}

/// The line above the title of a message to the messenger.
pub open spec fn spec_telegram_prefix(notification: NotificationView) -> Seq<char> {
    match notification {
        NotificationView::OngoingEpisodeAvailable { .. } => "New Episode Available"@,
        _ => "New Content Available"@,
    }
}

/// The title of a message to the messenger: the title of the media and, where
/// there is any, what of it has arrived.
pub open spec fn spec_telegram_title(notification: NotificationView) -> Seq<char> {
    match notification {
        NotificationView::MediaAvailable { request, seasons } => {
            let joined = spec_seasons_joined(seasons);
            if joined.len() == 0 {
                request.title
            } else {
                request.title + " - "@ + ("Season "@ + joined)
            }
        },
        NotificationView::OngoingSeasonAvailable { request, season_number, episode_number } => {
            request.title + " - "@ + spec_season_label(season_number) + " "@ + ("Episode "@
                + spec_episode_span(episode_number))
        },
        NotificationView::OngoingEpisodeAvailable { request, season_number, episode_number } => {
            request.title + " - "@ + spec_season_label(season_number) + " "@ + spec_episode_label(
                episode_number,
            )
        },
    }
}

/// The text below the title: the overview, but for a single episode.
pub open spec fn spec_telegram_body(notification: NotificationView) -> Seq<char> {
    match notification {
        NotificationView::OngoingEpisodeAvailable { .. } => Seq::empty(),
        _ => notification.request().overview,
    }
}

/// The picture of a message to the messenger: the poster, for media that
/// has become available in full.
pub open spec fn spec_telegram_photo(notification: NotificationView) -> Option<Seq<char>> {
    match notification {
        NotificationView::MediaAvailable { request, .. } => request.image_url,
        _ => None,
    }
}

/// The text of a message to the messenger as it is put together: the line
/// above the title, the title and the body, in the markup of the messenger.
pub open spec fn spec_telegram_markup(notification: NotificationView) -> Seq<char> {
    "<b>"@ + spec_telegram_prefix(notification) + "</b>\n\n<b>"@ + spec_telegram_title(
        notification,
    ) + "</b>\n\n"@ + spec_telegram_body(notification)
}

/// The text of a message to the messenger: what was put together, without
/// the white space at its two ends.
pub open spec fn spec_telegram_text(notification: NotificationView) -> Seq<char> {
    spec_trimmed(spec_telegram_markup(notification))
}

/// Where what was put together neither begins nor ends with white space, it
/// is the text of the message as it stands.
pub proof fn lemma_telegram_text_of_clean_markup(notification: NotificationView)
    requires
        !spec_is_white_space(spec_telegram_markup(notification).first()),
        !spec_is_white_space(spec_telegram_markup(notification).last()),
    ensures
        spec_telegram_text(notification) == spec_telegram_markup(notification),
{
    lemma_trimmed_of_clean(spec_telegram_markup(notification));
}

/// The address of the messenger's interface for a bot: that for pictures
/// where the message has one, that for plain messages otherwise.
pub open spec fn spec_telegram_url(bot_token: Seq<char>, with_photo: bool) -> Seq<char> {
    "https://api.telegram.org/bot"@ + bot_token + (if with_photo {
        "/sendPhoto"@
    } else {
        "/sendMessage"@
    })
}

/// A message to the messenger, ready to be sent as a form.
#[derive(Debug)]
pub struct TelegramMessage {
    pub chat_id: String,
    pub parse_mode: String,
    /// The address of the picture to show, where there is one.
    pub photo: Option<String>,
    /// The text; the caption of the picture where there is one.
    pub text: String,
    /// The address to send the form to.
    pub url: String,
}

impl TelegramMessage {
    /// The name of the form field that carries the text.
    pub fn text_field(&self) -> (name: &'static str)
        ensures
            name@ == if self.photo is Some {
                "caption"@
            } else {
                "text"@
            },
    {
        if self.photo.is_some() {
            "caption"
        } else {
            "text"
        }
    }
}

/// One named value of an embed.
#[derive(Debug)]
pub struct EmbedField {
    pub name: String,
    pub value: String,
    pub inline: bool,
}

/// The mathematical value of an [`EmbedField`].
pub struct EmbedFieldView {
    pub name: Seq<char>,
    pub value: Seq<char>,
    pub inline: bool,
}

impl View for EmbedField {
    type V = EmbedFieldView;

    open spec fn view(&self) -> EmbedFieldView {
        EmbedFieldView { name: self.name@, value: self.value@, inline: self.inline }
    }
}

impl DeepView for EmbedField {
    type V = EmbedFieldView;

    open spec fn deep_view(&self) -> EmbedFieldView {
        self@
    }
}

/// A message to the chat server: who posts, whom it mentions, and one embed.
#[derive(Debug)]
pub struct DiscordMessage {
    pub username: Option<String>,
    pub avatar_url: Option<String>,
    /// The mention of the requester, or nothing.
    pub content: String,
    pub title: String,
    pub description: String,
    /// The colour of the bar of the embed.
    pub color: EmbedColors,
    /// The line above the title.
    pub author_name: String,
    /// The address of the poster, or nothing; shown as thumbnail and linked
    /// from the line above the title.
    pub image_url: String,
    pub fields: Vec<EmbedField>,
    /// The address to post to.
    pub webhook_url: String,
}

/// The line above the title of an embed.
pub open spec fn spec_discord_author(notification: NotificationView) -> Seq<char> {
    match notification {
        NotificationView::OngoingEpisodeAvailable { .. } => "New Episode Now Available"@,
        _ => "New Content Available"@,
    }
}

/// The mention of the requester, where the chat server knows them.
pub open spec fn spec_discord_content(notification: NotificationView) -> Seq<char> {
    match notification.request().requested_by.discord_id {
        Some(id) => "<@"@ + id + ">"@,
        None => Seq::empty(),
    }
}

/// The address of the poster, or nothing.
pub open spec fn spec_discord_image(notification: NotificationView) -> Seq<char> {
    match notification.request().image_url {
        Some(url) => url,
        None => Seq::empty(),
    }
}

/// A field that stands beside its neighbours.
pub open spec fn spec_inline_field(name: Seq<char>, value: Seq<char>) -> EmbedFieldView {
    EmbedFieldView { name, value, inline: true }
}

/// The fields of an embed: the requester first, then what has arrived.
pub open spec fn spec_discord_fields(notification: NotificationView) -> Seq<EmbedFieldView> {
    let requester = spec_inline_field(
        "Requested By"@,
        notification.request().requested_by.display_name,
    );
    match notification {
        NotificationView::MediaAvailable { request, seasons } => {
            if request.media_type == MediaType::TV && seasons is Some {
                seq![requester, spec_inline_field("Seasons"@, spec_seasons_joined(seasons))]
            } else {
                seq![requester]
            }
        },
        NotificationView::OngoingSeasonAvailable { season_number, episode_number, .. } => {
            seq![
                requester,
                spec_inline_field("Season"@, spec_decimal(season_number as int)),
                spec_inline_field("Episode"@, spec_episode_span(episode_number)),
            ]
        },
        NotificationView::OngoingEpisodeAvailable { season_number, episode_number, .. } => {
            seq![
                requester,
                spec_inline_field("Season"@, spec_season_label(season_number)),
                spec_inline_field("Episode"@, spec_episode_label(episode_number)),
            ]
        },
    }
}

/// Where the notifications go: to the chat server, to the messenger, to
/// both or to neither.
#[derive(Debug)]
pub struct NotificationController {
    pub discord: Option<DiscordConfig>,
    pub telegram: Option<TelegramConfig>,
}

fn inline_field(name: &str, value: String) -> (field: EmbedField)
    ensures
        field@ == spec_inline_field(name@, value@),
{
    EmbedField { name: String::from_str(name), value, inline: true }
}

fn season_label(season_number: i32) -> (label: String)
    ensures
        label@ == spec_season_label(season_number),
{
    let mut label = String::from_str("Season ");
    let number = decimal(season_number);
    label.append(number.as_str());
    label
}

fn episode_label(episode_number: i32) -> (label: String)
    ensures
        label@ == spec_episode_label(episode_number),
{
    let mut label = String::from_str("Episode ");
    let number = decimal(episode_number);
    label.append(number.as_str());
    label
}

fn episode_span(episode_number: i32) -> (label: String)
    ensures
        label@ == spec_episode_span(episode_number),
{
    let mut label = String::from_str("1 to ");
    let number = decimal(episode_number);
    label.append(number.as_str());
    label
}

fn seasons_joined(seasons: &Option<Vec<i32>>) -> (joined: String)
    ensures
        joined@ == spec_seasons_joined(seasons.deep_view()),
{
    match seasons {
        Some(list) => {
            assert(list.deep_view() =~= list@);
            join_numbers(list)
        },
        None => String::new(),
    }
}

/// Writes the title of a message to the messenger.
pub fn telegram_title(notification: &Notification) -> (title: String)
    ensures
        title@ == spec_telegram_title(notification@),
{
    match notification {
        Notification::MediaAvailable { request, seasons } => {
            let joined = seasons_joined(seasons);
            let mut title = request.title.clone();
            if joined.as_str().unicode_len() != 0 {
                title.append(" - ");
                title.append("Season ");
                title.append(joined.as_str());
                assert(title@ =~= request.title@ + " - "@ + ("Season "@ + joined@));
            }
            title
        },
        Notification::OngoingSeasonAvailable { request, season_number, episode_number } => {
            let mut title = request.title.clone();
            title.append(" - ");
            let season = season_label(*season_number);
            title.append(season.as_str());
            title.append(" ");
            title.append("Episode ");
            let span = episode_span(*episode_number);
            title.append(span.as_str());
            assert(title@ =~= spec_telegram_title(notification@));
            title
        },
        Notification::OngoingEpisodeAvailable { request, season_number, episode_number } => {
            let mut title = request.title.clone();
            title.append(" - ");
            let season = season_label(*season_number);
            title.append(season.as_str());
            title.append(" ");
            let episode = episode_label(*episode_number);
            title.append(episode.as_str());
            title
        },
    }
}

/// Writes the text of a message to the messenger.
pub fn telegram_text(notification: &Notification) -> (text: String)
    ensures
        text@ == spec_telegram_text(notification@),
{
    let mut text = String::from_str("<b>");
    match notification {
        Notification::OngoingEpisodeAvailable { .. } => text.append("New Episode Available"),
        _ => text.append("New Content Available"),
    }
    text.append("</b>\n\n<b>");
    let title = telegram_title(notification);
    text.append(title.as_str());
    text.append("</b>\n\n");
    match notification {
        Notification::OngoingEpisodeAvailable { .. } => {},
        _ => text.append(notification.request().overview.as_str()),
    }
    assert(text@ =~= spec_telegram_markup(notification@));
    trimmed(&text)
}

/// Picks the picture of a message to the messenger.
pub fn telegram_photo(notification: &Notification) -> (photo: Option<String>)
    ensures
        photo.deep_view() == spec_telegram_photo(notification@),
{
    match notification {
        Notification::MediaAvailable { request, .. } => clone_text(&request.image_url),
        _ => None,
    }
}

/// Writes the address of the messenger's interface for a bot.
pub fn telegram_url(bot_token: &str, with_photo: bool) -> (url: String)
    ensures
        url@ == spec_telegram_url(bot_token@, with_photo),
{
    let mut url = String::from_str("https://api.telegram.org/bot");
    url.append(bot_token);
    if with_photo {
        url.append("/sendPhoto");
    } else {
        url.append("/sendMessage");
    }
    url
}

/// Writes the fields of an embed.
pub fn discord_fields(notification: &Notification) -> (fields: Vec<EmbedField>)
    ensures
        fields.deep_view() == spec_discord_fields(notification@),
{
    let mut fields: Vec<EmbedField> = Vec::new();
    fields.push(
        inline_field("Requested By", notification.request().requested_by.display_name.clone()),
    );
    match notification {
        Notification::MediaAvailable { request, seasons } => {
            if request.media_type == MediaType::TV && seasons.is_some() {
                fields.push(inline_field("Seasons", seasons_joined(seasons)));
            }
        },
        Notification::OngoingSeasonAvailable { season_number, episode_number, .. } => {
            fields.push(inline_field("Season", decimal(*season_number)));
            fields.push(inline_field("Episode", episode_span(*episode_number)));
        },
        Notification::OngoingEpisodeAvailable { season_number, episode_number, .. } => {
            fields.push(inline_field("Season", season_label(*season_number)));
            fields.push(inline_field("Episode", episode_label(*episode_number)));
        },
    }
    assert(fields.deep_view() =~= spec_discord_fields(notification@));
    fields
}

impl NotificationController {
    /// Sets the two destinations.
    pub fn new(discord: Option<DiscordConfig>, telegram: Option<TelegramConfig>) -> (controller:
        Self)
        ensures
            controller.discord == discord,
            controller.telegram == telegram,
    {
        Self { discord, telegram }
    }

    /// Writes the message to the messenger; none where no messenger is set.
    pub fn telegram_message(&self, notification: &Notification) -> (message: Option<
        TelegramMessage,
    >)
        ensures
            message is Some == self.telegram is Some,
            message matches Some(m) ==> {
                &&& m.chat_id@ == self.telegram->0.chat_id@
                &&& m.parse_mode@ == "HTML"@
                &&& m.photo.deep_view() == spec_telegram_photo(notification@)
                &&& m.text@ == spec_telegram_text(notification@)
                &&& m.url@ == spec_telegram_url(
                    self.telegram->0.bot_token@,
                    spec_telegram_photo(notification@) is Some,
                )
            },
    {
        match &self.telegram {
            None => None,
            Some(config) => {
                let photo = telegram_photo(notification);
                let url = telegram_url(config.bot_token.as_str(), photo.is_some());
                Some(
                    TelegramMessage {
                        chat_id: config.chat_id.clone(),
                        parse_mode: String::from_str("HTML"),
                        photo,
                        text: telegram_text(notification),
                        url,
                    },
                )
            },
        }
    }

    /// Writes the message to the chat server; none where no chat server is
    /// set.
    pub fn discord_message(&self, notification: &Notification) -> (message: Option<DiscordMessage>)
        ensures
            message is Some == self.discord is Some,
            message matches Some(m) ==> {
                &&& m.username.deep_view() == self.discord->0.username.deep_view()
                &&& m.avatar_url.deep_view() == self.discord->0.avatar_url.deep_view()
                &&& m.webhook_url@ == self.discord->0.webhook_url@
                &&& m.content@ == spec_discord_content(notification@)
                &&& m.title@ == notification@.request().title
                &&& m.description@ == spec_telegram_body(notification@)
                &&& m.color == EmbedColors::Green
                &&& m.author_name@ == spec_discord_author(notification@)
                &&& m.image_url@ == spec_discord_image(notification@)
                &&& m.fields.deep_view() == spec_discord_fields(notification@)
            },
    {
        match &self.discord {
            None => None,
            Some(config) => {
                let request = notification.request();
                let content = match &request.requested_by.discord_id {
                    Some(id) => {
                        let mut mention = String::from_str("<@");
                        mention.append(id.as_str());
                        mention.append(">");
                        mention
                    },
                    None => String::new(),
                };
                let image_url = match &request.image_url {
                    Some(url) => url.clone(),
                    None => String::new(),
                };
                let description = match notification {
                    Notification::OngoingEpisodeAvailable { .. } => String::new(),
                    _ => request.overview.clone(),
                };
                let author_name = match notification {
                    Notification::OngoingEpisodeAvailable { .. } => String::from_str(
                        "New Episode Now Available",
                    ),
                    _ => String::from_str("New Content Available"),
                };
                Some(
                    DiscordMessage {
                        username: clone_text(&config.username),
                        avatar_url: clone_text(&config.avatar_url),
                        content,
                        title: request.title.clone(),
                        description,
                        color: EmbedColors::Green,
                        author_name,
                        image_url,
                        fields: discord_fields(notification),
                        webhook_url: config.webhook_url.clone(),
                    },
                )
            },
        }
    }
}

} // verus!
