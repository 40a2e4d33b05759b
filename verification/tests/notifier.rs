use informarr::config::{DiscordConfig, TelegramConfig};
use informarr::identity::MediaIdentifiers;
use informarr::notification::{Notification, NotificationType};
use informarr::notifier::{
    discord_fields, telegram_photo, telegram_text, telegram_title, telegram_url, EmbedColors,
    NotificationController,
};
use informarr::request::{MediaType, PendingRequest, Requester};

fn request(media_type: MediaType) -> PendingRequest {
    PendingRequest {
        media_type,
        ids: MediaIdentifiers::new(Some(1), None),
        title: "The Show".to_string(),
        overview: "About the show.".to_string(),
        image_url: Some("https://image.example/p.jpg".to_string()),
        created_at: 0,
        requested_seasons: None,
        requested_by: Requester { display_name: "ann".to_string(), discord_id: Some("42".to_string()) },
    }
}

fn available(seasons: Option<Vec<i32>>) -> Notification {
    Notification::MediaAvailable { request: request(MediaType::TV), seasons }
}

fn backlog() -> Notification {
    Notification::OngoingSeasonAvailable { request: request(MediaType::TV), season_number: 3, episode_number: 5 }
}

fn episode() -> Notification {
    Notification::OngoingEpisodeAvailable { request: request(MediaType::TV), season_number: 3, episode_number: 12 }
}

fn both() -> NotificationController {
    NotificationController::new(
        Some(DiscordConfig {
            username: Some("bot".to_string()),
            avatar_url: None,
            webhook_url: "https://chat.example/hook".to_string(),
            color: None,
        }),
        Some(TelegramConfig { bot_token: "TOKEN".to_string(), chat_id: "-100".to_string() }),
    )
}

fn field_list(notification: &Notification) -> Vec<(String, String, bool)> {
    discord_fields(notification).into_iter().map(|f| (f.name, f.value, f.inline)).collect()
}

#[test]
fn new_keeps_both_destinations() {
    let controller = both();
    assert_eq!(controller.discord.as_ref().unwrap().webhook_url, "https://chat.example/hook");
    assert_eq!(controller.telegram.as_ref().unwrap().chat_id, "-100");
    let neither = NotificationController::new(None, None);
    assert!(neither.discord.is_none());
    assert!(neither.telegram.is_none());
    assert!(neither.telegram_message(&episode()).is_none());
    assert!(neither.discord_message(&episode()).is_none());
}

#[test]
fn kinds_and_clones() {
    assert_eq!(available(None).kind(), NotificationType::MediaAvailable);
    assert_eq!(backlog().kind(), NotificationType::OngoingSeasonAvailable);
    let copy = episode().clone();
    assert_eq!(copy.kind(), NotificationType::OngoingEpisodeAvailable);
    assert_eq!(copy.request().title, "The Show");
}

#[test]
fn telegram_titles() {
    assert_eq!(telegram_title(&available(Some(vec![1, 2]))), "The Show - Season 1, 2");
    assert_eq!(telegram_title(&available(Some(vec![]))), "The Show");
    assert_eq!(telegram_title(&available(None)), "The Show");
    assert_eq!(telegram_title(&backlog()), "The Show - Season 3 Episode 1 to 5");
    assert_eq!(telegram_title(&episode()), "The Show - Season 3 Episode 12");
}

#[test]
fn telegram_texts() {
    assert_eq!(
        telegram_text(&available(Some(vec![1, 2]))),
        "<b>New Content Available</b>\n\n<b>The Show - Season 1, 2</b>\n\nAbout the show."
    );
    assert_eq!(
        telegram_text(&backlog()),
        "<b>New Content Available</b>\n\n<b>The Show - Season 3 Episode 1 to 5</b>\n\nAbout the show."
    );
    assert_eq!(
        telegram_text(&episode()),
        "<b>New Episode Available</b>\n\n<b>The Show - Season 3 Episode 12</b>"
    );
}

#[test]
fn telegram_photo_only_for_full_availability() {
    assert_eq!(telegram_photo(&available(None)), Some("https://image.example/p.jpg".to_string()));
    assert_eq!(telegram_photo(&backlog()), None);
    assert_eq!(telegram_photo(&episode()), None);
    let mut plain = request(MediaType::Movie);
    plain.image_url = None;
    assert_eq!(telegram_photo(&Notification::MediaAvailable { request: plain, seasons: None }), None);
}

#[test]
fn telegram_addresses() {
    assert_eq!(telegram_url("T", true), "https://api.telegram.org/botT/sendPhoto");
    assert_eq!(telegram_url("T", false), "https://api.telegram.org/botT/sendMessage");
}

#[test]
fn telegram_message_with_and_without_photo() {
    let controller = both();
    let m = controller.telegram_message(&available(Some(vec![2]))).unwrap();
    assert_eq!(m.chat_id, "-100");
    assert_eq!(m.parse_mode, "HTML");
    assert_eq!(m.photo, Some("https://image.example/p.jpg".to_string()));
    assert_eq!(m.text_field(), "caption");
    assert_eq!(m.url, "https://api.telegram.org/botTOKEN/sendPhoto");
    assert_eq!(m.text, "<b>New Content Available</b>\n\n<b>The Show - Season 2</b>\n\nAbout the show.");
    let m = controller.telegram_message(&episode()).unwrap();
    assert_eq!(m.photo, None);
    assert_eq!(m.text_field(), "text");
    assert_eq!(m.url, "https://api.telegram.org/botTOKEN/sendMessage");
}

#[test]
fn discord_fields_by_kind() {
    let t = |a: &str, b: &str| (a.to_string(), b.to_string(), true);
    assert_eq!(field_list(&available(Some(vec![1, 2]))), vec![t("Requested By", "ann"), t("Seasons", "1, 2")]);
    assert_eq!(field_list(&available(Some(vec![]))), vec![t("Requested By", "ann"), t("Seasons", "")]);
    assert_eq!(field_list(&available(None)), vec![t("Requested By", "ann")]);
    let movie = Notification::MediaAvailable { request: request(MediaType::Movie), seasons: Some(vec![1]) };
    assert_eq!(field_list(&movie), vec![t("Requested By", "ann")]);
    assert_eq!(field_list(&backlog()), vec![t("Requested By", "ann"), t("Season", "3"), t("Episode", "1 to 5")]);
    assert_eq!(field_list(&episode()), vec![t("Requested By", "ann"), t("Season", "Season 3"), t("Episode", "Episode 12")]);
}

#[test]
fn discord_message_fields() {
    let controller = both();
    let m = controller.discord_message(&backlog()).unwrap();
    assert_eq!(m.username, Some("bot".to_string()));
    assert_eq!(m.avatar_url, None);
    assert_eq!(m.webhook_url, "https://chat.example/hook");
    assert_eq!(m.content, "<@42>");
    assert_eq!(m.title, "The Show");
    assert_eq!(m.description, "About the show.");
    assert_eq!(m.color, EmbedColors::Green);
    assert_eq!(m.color.value(), 3066993);
    assert_eq!(m.author_name, "New Content Available");
    assert_eq!(m.image_url, "https://image.example/p.jpg");
    assert_eq!(m.fields.len(), 3);
    let m = controller.discord_message(&episode()).unwrap();
    assert_eq!(m.description, "");
    assert_eq!(m.author_name, "New Episode Now Available");
    let mut anonymous = request(MediaType::Movie);
    anonymous.requested_by.discord_id = None;
    anonymous.image_url = None;
    let m = controller
        .discord_message(&Notification::MediaAvailable { request: anonymous, seasons: None })
        .unwrap();
    assert_eq!(m.content, "");
    assert_eq!(m.image_url, "");
    assert_eq!(m.author_name, "New Content Available");
}

#[test]
fn embed_colours() {
    assert_eq!(EmbedColors::Default.value(), 0);
    assert_eq!(EmbedColors::Green.value(), 3066993);
    assert_eq!(EmbedColors::Red.value(), 15158332);
    assert_eq!(EmbedColors::DarkVividPink.value(), 12320855);
    assert_eq!(EmbedColors::LuminousVividPink.value(), 16580705);
}
