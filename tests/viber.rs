use viber_alerts::bitcoin::{btc_price_text, Time};
use viber_alerts::config::{Config, DarkSky};
use viber_alerts::viber::{
    get_default_keyboard, handle_user_message, member_ids, same_text, send_file_message,
    send_picture_message, send_text_message, send_video_message, Command,
    EventTypes, Member, Viber,
};

fn viber() -> Viber {
    Viber::new("SECRET-REDACTED".to_owned(), "admin".to_owned())
}

#[test]
fn default_keyboard_offers_price_and_forecast() {
    let kb = get_default_keyboard();
    assert_eq!(kb._type, "keyboard");
    assert!(kb.default_height);
    assert_eq!(kb.buttons.len(), 2);
    assert_eq!(kb.buttons[0].action_body, "bitcoin");
    assert_eq!(kb.buttons[0].text, "Bitcoin Price");
    assert_eq!(kb.buttons[1].action_body, "forecast_kiev_tomorrow");
    assert_eq!(kb.buttons[1].text, "Weather For Tomorrow");
    for b in &kb.buttons {
        assert_eq!(b.action_type, "reply");
        assert_eq!(b.text_size, "regular");
    }
}

#[test]
fn event_names() {
    assert_eq!(EventTypes::Subscribed.value(), "subscribed");
    assert_eq!(EventTypes::Unsubscribed.value(), "unsubscribed");
    assert_eq!(EventTypes::ConversationStarted.value(), "conversation_started");
    assert_eq!(EventTypes::Delivered.value(), "delivered");
    assert_eq!(EventTypes::Failed.value(), "failed");
    assert_eq!(EventTypes::Message.value(), "message");
    assert_eq!(EventTypes::Seen.value(), "seen");
    assert_eq!(EventTypes::Unknown("webhook".to_owned()).value(), "webhook");
}

#[test]
fn user_messages_map_to_commands() {
    assert_eq!(handle_user_message("location", None), Command::ImmediateTomorrowForecast);
    assert_eq!(handle_user_message("text", Some("bitcoin")), Command::BtcPrice);
    assert_eq!(
        handle_user_message("text", Some("forecast_kiev_tomorrow")),
        Command::TomorrowForecast
    );
    assert_eq!(handle_user_message("text", Some("hello")), Command::UnknownCommand);
    assert_eq!(handle_user_message("text", None), Command::UnknownCommand);
    assert_eq!(handle_user_message("picture", Some("bitcoin")), Command::UnknownCommand);
}

#[test]
fn same_text_compares_characters() {
    assert!(same_text("", ""));
    assert!(same_text("Прогноз", "Прогноз"));
    assert!(!same_text("text", "tex"));
    assert!(!same_text("text", "next"));
}

#[test]
fn text_message_to_user() {
    let m = viber().send_text_to("hi", "u1", Some(get_default_keyboard()));
    assert_eq!(m._type, "text");
    assert_eq!(m.min_api_version, 1);
    assert_eq!(m.receiver, "u1");
    assert_eq!(m.text, "hi");
    assert_eq!(m.sender.name, "Bot");
    assert_eq!(m.sender.avatar, "");
    assert_eq!(m.tracking_data, "");
    assert_eq!(m.keyboard.unwrap().buttons.len(), 2);
}

#[test]
fn text_message_to_admin() {
    let m = viber().send_text_to_admin("report", None);
    assert_eq!(m.receiver, "admin");
    assert_eq!(m.text, "report");
    assert!(m.keyboard.is_none());
}

#[test]
fn file_messages() {
    let v = viber();
    let m = v.send_file_message_to("http://x/f.jpg", "f.jpg", "u2");
    assert_eq!(m._type, "file");
    assert_eq!(m.receiver, "u2");
    assert_eq!(m.media, "http://x/f.jpg");
    assert_eq!(m.file_name, "f.jpg");
    assert_eq!(m.size, 0);
    let a = v.send_file_message_to_admin("http://x/g.jpg", "g.jpg");
    assert_eq!(a.receiver, "admin");
    assert_eq!(a.file_name, "g.jpg");
}

#[test]
fn picture_messages() {
    let v = viber();
    let m = v.send_picture_message_to("http://x/p.jpg", "http://x/pt.jpg", "caption", "u3");
    assert_eq!(m._type, "picture");
    assert_eq!(m.receiver, "u3");
    assert_eq!(m.media, "http://x/p.jpg");
    assert_eq!(m.thumbnail, "caption");
    assert_eq!(m.text, "http://x/pt.jpg");
    let a = v.send_picture_message_to_admin("http://x/p.jpg", "http://x/pt.jpg", "week");
    assert_eq!(a.receiver, "admin");
    assert_eq!(a.thumbnail, "http://x/pt.jpg");
    assert_eq!(a.text, "week");
}

#[test]
fn video_message_fields() {
    let m = send_video_message("http://x/v.mp4", 1024, "u4");
    assert_eq!(m._type, "video");
    assert_eq!(m.size, 1024);
    assert_eq!(m.duration, 0);
    assert_eq!(m.thumbnail, "");
    assert_eq!(m.receiver, "u4");
}

#[test]
fn ids_of_members() {
    let members = vec![
        Member { id: "a".to_owned(), name: "A".to_owned(), avatar: None, role: "admin".to_owned() },
        Member { id: "b".to_owned(), name: "B".to_owned(), avatar: None, role: "member".to_owned() },
    ];
    assert_eq!(member_ids(&members), vec!["a".to_owned(), "b".to_owned()]);
    assert!(member_ids(&Vec::new()).is_empty());
}

#[test]
fn price_message_text() {
    let t = Time {
        updated: "May 9, 2024 15:00:00 UTC".to_owned(),
        updated_iso: "2024-05-09T15:00:00+00:00".to_owned(),
        updateduk: "May 9, 2024 at 16:00 BST".to_owned(),
    };
    assert_eq!(btc_price_text(&t, "61,234.5678"), "May 9, 2024 at 16:00 BST \n1 BTC = 61,234.5678 $");
}

#[test]
fn forecast_client_keeps_its_key() {
    let d = DarkSky::new("k1".to_owned());
    assert_eq!(d.key(), "k1");
}

#[test]
fn config_fields_are_optional() {
    let c = Config {
        viber_api_key: Some("v".to_owned()),
        admin_id: None,
        domain_root_url: None,
        dark_sky_api_key: None,
        hosting_root_url: None,
        database_url: None,
        google_client_id: None,
        google_client_secret: None,
        google_maps_api_key: None,
    };
    assert_eq!(c.clone().viber_api_key.as_deref(), Some("v"));
}

#[test]
fn message_bodies_of_the_raw_senders() {
    let f = send_file_message("http://x/f.pdf", "f.pdf", 4096, "u5");
    assert_eq!(f._type, "file");
    assert_eq!(f.size, 4096);
    assert_eq!(f.file_name, "f.pdf");
    assert_eq!(f.receiver, "u5");
    let p = send_picture_message("http://x/p.jpg", "http://x/pt.jpg", "caption", "u6");
    assert_eq!(p.thumbnail, "http://x/pt.jpg");
    assert_eq!(p.text, "caption");
    assert_eq!(p.receiver, "u6");
    let t = send_text_message("hello", "u7", None);
    assert_eq!(t._type, "text");
    assert_eq!(t.text, "hello");
    assert_eq!(t.receiver, "u7");
    assert!(t.keyboard.is_none());
}
