use vstd::prelude::*;

verus! {

/// A member of the public account, as the account info lists it.
#[derive(Clone, Debug)]
pub struct Member {
    pub id: String,
    pub name: String,
    pub avatar: Option<String>,
    pub role: String,
}

/// The ids of `members`, in order.
pub fn member_ids(members: &Vec<Member>) -> (r: Vec<String>)
    ensures
        r@.len() == members@.len(),
        forall|i: int| 0 <= i < r@.len() ==> (#[trigger] r@[i])@ == members@[i].id@,
{
    let mut r: Vec<String> = Vec::new();
    let mut i: usize = 0;
    while i < members.len()
        invariant
            i <= members@.len(),
            r@.len() == i,
            forall|j: int| 0 <= j < i ==> (#[trigger] r@[j])@ == members@[j].id@,
        decreases members@.len() - i,
    {
        r.push(members[i].id.clone());
        i += 1;
    }
    r
}

/// The kinds of callback events.
#[derive(Clone, Debug)]
pub enum EventTypes {
    Subscribed,
    Unsubscribed,
    ConversationStarted,
    Delivered,
    Failed,
    Message,
    Seen,
    Unknown(String),
}

/// The name of an event on the wire.
pub open spec fn event_name(e: EventTypes) -> Seq<char> {
    match e {
        EventTypes::Subscribed => "subscribed"@,
        EventTypes::Unsubscribed => "unsubscribed"@,
        EventTypes::ConversationStarted => "conversation_started"@,
        EventTypes::Delivered => "delivered"@,
        EventTypes::Failed => "failed"@,
        EventTypes::Message => "message"@,
        EventTypes::Seen => "seen"@,
        EventTypes::Unknown(s) => s@,
    }
}

impl EventTypes {
    /// The event's name on the wire.
    pub fn value(&self) -> (r: &str)
        ensures
            r@ == event_name(*self),
    {
        match self {
            EventTypes::Subscribed => "subscribed",
            EventTypes::Unsubscribed => "unsubscribed",
            EventTypes::ConversationStarted => "conversation_started",
            EventTypes::Delivered => "delivered",
            EventTypes::Failed => "failed",
            EventTypes::Message => "message",
            EventTypes::Seen => "seen",
            EventTypes::Unknown(s) => s.as_str(),
        }
    }
}

/// A reply button of a custom keyboard.
#[derive(Clone, Debug)]
pub struct Button {
    pub action_type: String,
    pub action_body: String,
    pub text: String,
    pub text_size: String,
}

/// A custom keyboard shown under a message.
#[derive(Clone, Debug)]
pub struct Keyboard {
    pub _type: String,
    pub default_height: bool,
    pub buttons: Vec<Button>,
}

/// A reply button that sends `body` and shows `text`, in regular size.
pub open spec fn is_reply_button(b: Button, body: Seq<char>, text: Seq<char>) -> bool {
    &&& b.action_type@ == "reply"@
    &&& b.action_body@ == body
    &&& b.text@ == text
    &&& b.text_size@ == "regular"@
}

/// A reply button that sends `body` and shows `text`, in regular size.
fn reply_button(body: &str, text: &str) -> (r: Button)
    ensures
        is_reply_button(r, body@, text@),
{
    Button {
        action_type: "reply".to_owned(),
        action_body: body.to_owned(),
        text: text.to_owned(),
        text_size: "regular".to_owned(),
    }
}

/// The keyboard offered with every reply: the price and tomorrow's forecast.
pub fn get_default_keyboard() -> (r: Keyboard)
    ensures
        r._type@ == "keyboard"@,
        r.default_height,
        r.buttons@.len() == 2,
        is_reply_button(r.buttons@[0], "bitcoin"@, "Bitcoin Price"@),
        is_reply_button(r.buttons@[1], "forecast_kiev_tomorrow"@, "Weather For Tomorrow"@),
{
    let mut buttons: Vec<Button> = Vec::new();
    buttons.push(reply_button("bitcoin", "Bitcoin Price"));
    buttons.push(reply_button("forecast_kiev_tomorrow", "Weather For Tomorrow"));
    Keyboard { _type: "keyboard".to_owned(), default_height: true, buttons }
}

/// Who a message comes from.
#[derive(Clone, Debug)]
pub struct Sender {
    pub name: String,
    pub avatar: String,
}

/// The sender of every message of the bot: named "Bot", without avatar.
pub open spec fn is_bot_sender(s: Sender) -> bool {
    s.name@ == "Bot"@ && s.avatar@ == ""@
}

fn bot_sender() -> (r: Sender)
    ensures
        is_bot_sender(r),
{
    Sender { name: "Bot".to_owned(), avatar: "".to_owned() }
}

/// A text message.
#[derive(Clone, Debug)]
pub struct TextMessage {
    pub receiver: String,
    pub min_api_version: i64,
    pub sender: Sender,
    pub tracking_data: String,
    pub _type: String,
    pub keyboard: Option<Keyboard>,
    pub text: String,
}

/// A file message.
#[derive(Clone, Debug)]
pub struct FileMessage {
    pub receiver: String,
    pub min_api_version: i64,
    pub sender: Sender,
    pub tracking_data: String,
    pub _type: String,
    pub media: String,
    pub keyboard: Option<Keyboard>,
    pub size: usize,
    pub file_name: String,
}

/// A picture message.
#[derive(Clone, Debug)]
pub struct PictureMessage {
    pub receiver: String,
    pub min_api_version: i64,
    pub sender: Sender,
    pub tracking_data: String,
    pub _type: String,
    pub keyboard: Option<Keyboard>,
    pub media: String,
    pub text: String,
    pub thumbnail: String,
}

/// A video message.
#[derive(Clone, Debug)]
pub struct VideoMessage {
    pub receiver: String,
    pub min_api_version: i64,
    pub sender: Sender,
    pub tracking_data: String,
    pub _type: String,
    pub keyboard: Option<Keyboard>,
    pub media: String,
    pub size: usize,
    pub duration: u16,
    pub thumbnail: String,
}

/// The user that a callback is about.
#[derive(Clone, Debug)]
pub struct User {
    pub id: String,
    pub name: String,
    pub avatar: String,
    pub country: String,
    pub language: String,
    pub api_version: i64,
}

/// The body of a video message of `size` bytes at `url` to `receiver`.
pub fn send_video_message(url: &str, size: usize, receiver: &str) -> (r: VideoMessage)
    ensures
        r._type@ == "video"@,
        r.min_api_version == 1,
        r.receiver@ == receiver@,
        r.media@ == url@,
        is_bot_sender(r.sender),
        r.keyboard is None,
        r.duration == 0,
        r.thumbnail@ == ""@,
        r.size == size,
        r.tracking_data@ == ""@,
{
    VideoMessage {
        _type: "video".to_owned(),
        min_api_version: 1,
        receiver: receiver.to_owned(),
        media: url.to_owned(),
        sender: bot_sender(),
        keyboard: None,
        duration: 0,
        thumbnail: "".to_owned(),
        size,
        tracking_data: "".to_owned(),
    }
}

/// The body of a message with the file `file_name` of `size` bytes at `url` to `receiver`.
pub fn send_file_message(url: &str, file_name: &str, size: usize, receiver: &str) -> (r: FileMessage)
    ensures
        r._type@ == "file"@,
        r.min_api_version == 1,
        r.receiver@ == receiver@,
        r.media@ == url@,
        r.file_name@ == file_name@,
        r.size == size,
        r.keyboard is None,
        is_bot_sender(r.sender),
        r.tracking_data@ == ""@,
{
    FileMessage {
        _type: "file".to_owned(),
        min_api_version: 1,
        receiver: receiver.to_owned(),
        media: url.to_owned(),
        sender: bot_sender(),
        keyboard: None,
        file_name: file_name.to_owned(),
        size,
        tracking_data: "".to_owned(),
    }
}

/// The body of a message with the picture at `url`, thumbnail `thumb` and caption
/// `text`, to `receiver`.
pub fn send_picture_message(url: &str, thumb: &str, text: &str, receiver: &str) -> (r: PictureMessage)
    ensures
        r._type@ == "picture"@,
        r.min_api_version == 1,
        r.receiver@ == receiver@,
        r.media@ == url@,
        r.thumbnail@ == thumb@,
        r.text@ == text@,
        r.keyboard is None,
        is_bot_sender(r.sender),
        r.tracking_data@ == ""@,
{
    PictureMessage {
        _type: "picture".to_owned(),
        min_api_version: 1,
        receiver: receiver.to_owned(),
        media: url.to_owned(),
        sender: bot_sender(),
        keyboard: None,
        text: text.to_owned(),
        thumbnail: thumb.to_owned(),
        tracking_data: "".to_owned(),
    }
}

/// The body of a message with `text` to `receiver`, with the keyboard `kb` if given.
pub fn send_text_message(text: &str, receiver: &str, kb: Option<Keyboard>) -> (r: TextMessage)
    ensures
        r._type@ == "text"@,
        r.min_api_version == 1,
        r.receiver@ == receiver@,
        r.text@ == text@,
        r.keyboard == kb,
        is_bot_sender(r.sender),
        r.tracking_data@ == ""@,
{
    TextMessage {
        _type: "text".to_owned(),
        min_api_version: 1,
        receiver: receiver.to_owned(),
        text: text.to_owned(),
        keyboard: kb,
        sender: bot_sender(),
        tracking_data: "".to_owned(),
    }
}

/// The sending side of the public account: its token and the admin's id.
pub struct Viber {
    pub api_key: String,
    pub admin_id: String,
}

impl Viber {
    pub fn new(api_key: String, admin_id: String) -> (r: Viber)
        ensures
            r.api_key == api_key,
            r.admin_id == admin_id,
    {
        Viber { api_key, admin_id }
    }

    /// The message that sends `text` to `to`, with the keyboard `kb` if given.
    pub fn send_text_to(&self, text: &str, to: &str, kb: Option<Keyboard>) -> (r: TextMessage)
        ensures
            r._type@ == "text"@,
            r.min_api_version == 1,
            r.receiver@ == to@,
            r.text@ == text@,
            r.keyboard == kb,
            is_bot_sender(r.sender),
            r.tracking_data@ == ""@,
    {
        send_text_message(text, to, kb)
    }

    /// The message that sends the file `name` at `url` to `to`, with size 0.
    pub fn send_file_message_to(&self, url: &str, name: &str, to: &str) -> (r: FileMessage)
        ensures
            r._type@ == "file"@,
            r.min_api_version == 1,
            r.receiver@ == to@,
            r.media@ == url@,
            r.file_name@ == name@,
            r.size == 0,
            r.keyboard is None,
            is_bot_sender(r.sender),
            r.tracking_data@ == ""@,
    {
        send_file_message(url, name, 0, to)
    }

    /// The message that sends the file `name` at `url` to the admin, with size 0.
    pub fn send_file_message_to_admin(&self, url: &str, name: &str) -> (r: FileMessage)
        ensures
            r._type@ == "file"@,
            r.min_api_version == 1,
            r.receiver@ == self.admin_id@,
            r.media@ == url@,
            r.file_name@ == name@,
            r.size == 0,
            r.keyboard is None,
            is_bot_sender(r.sender),
            r.tracking_data@ == ""@,
    {
        self.send_file_message_to(url, name, self.admin_id.as_str())
    }

    /// The message that sends the picture at `url` to `to`, with `text` as its
    /// thumbnail and `thumb` as its caption: the two change places on the way.
    pub fn send_picture_message_to(&self, url: &str, thumb: &str, text: &str, to: &str) -> (r: PictureMessage)
        ensures
            r._type@ == "picture"@,
            r.min_api_version == 1,
            r.receiver@ == to@,
            r.media@ == url@,
            r.thumbnail@ == text@,
            r.text@ == thumb@,
            r.keyboard is None,
            is_bot_sender(r.sender),
            r.tracking_data@ == ""@,
    {
        send_picture_message(url, text, thumb, to)
    }

    /// The message that sends the picture at `url`, with thumbnail `thumb` and caption
    /// `text`, to the admin.
    pub fn send_picture_message_to_admin(&self, url: &str, thumb: &str, text: &str) -> (r: PictureMessage)
        ensures
            r._type@ == "picture"@,
            r.min_api_version == 1,
            r.receiver@ == self.admin_id@,
            r.media@ == url@,
            r.thumbnail@ == thumb@,
            r.text@ == text@,
            r.keyboard is None,
            is_bot_sender(r.sender),
            r.tracking_data@ == ""@,
    {
        self.send_picture_message_to(url, text, thumb, self.admin_id.as_str())
    }

    /// The message that sends `text` to the admin, with the keyboard `kb` if given.
    pub fn send_text_to_admin(&self, text: &str, kb: Option<Keyboard>) -> (r: TextMessage)
        ensures
            r._type@ == "text"@,
            r.min_api_version == 1,
            r.receiver@ == self.admin_id@,
            r.text@ == text@,
            r.keyboard == kb,
            is_bot_sender(r.sender),
            r.tracking_data@ == ""@,
    {
        self.send_text_to(text, self.admin_id.as_str(), kb)
    }
}

/// Whether two strings hold the same characters.
pub fn same_text(a: &str, b: &str) -> (r: bool)
    ensures
        r == (a@ == b@),
{
    let n = a.unicode_len();
    if n != b.unicode_len() {
        return false;
    }
    let mut i: usize = 0;
    while i < n
        invariant
            n == a@.len(),
            n == b@.len(),
            i <= n,
            forall|j: int| 0 <= j < i ==> a@[j] == b@[j],
        decreases n - i,
    {
        if a.get_char(i) != b.get_char(i) {
            return false;
        }
        i += 1;
    }
    assert(a@ =~= b@);
    true
}

/// What a user asked for in a message.
#[derive(Clone, Copy, Debug, PartialEq, Eq, Structural)]
pub enum Command {
    /// Tomorrow's forecast for the default place.
    TomorrowForecast,
    /// Tomorrow's forecast for the location that the message carries.
    ImmediateTomorrowForecast,
    /// The current price.
    BtcPrice,
    /// Anything else.
    UnknownCommand,
}

/// The command of a message of kind `message_type` with text `text`, by the rules
/// of the bot: a location asks for its forecast, the text "bitcoin" for the price,
/// the text "forecast_kiev_tomorrow" for tomorrow's forecast.
pub open spec fn command_of(message_type: Seq<char>, text: Option<Seq<char>>) -> Command {
    if message_type == "location"@ {
        Command::ImmediateTomorrowForecast
    } else if message_type == "text"@ && text == Some("bitcoin"@) {
        Command::BtcPrice
    } else if message_type == "text"@ && text == Some("forecast_kiev_tomorrow"@) {
        Command::TomorrowForecast
    } else {
        Command::UnknownCommand
    }
}

/// The command of a user's message of kind `message_type` with text `text`.
pub fn handle_user_message(message_type: &str, text: Option<&str>) -> (r: Command)
    ensures
        r == command_of(message_type@, match text {
            Some(t) => Some(t@),
            None => None,
        }),
{
    if same_text(message_type, "location") {
        Command::ImmediateTomorrowForecast
    } else if same_text(message_type, "text") {
        match text {
            Some(t) => if same_text(t, "bitcoin") {
                Command::BtcPrice
            } else if same_text(t, "forecast_kiev_tomorrow") {
                Command::TomorrowForecast
            } else {
                Command::UnknownCommand
            },
            None => Command::UnknownCommand,
        }
    } else {
        Command::UnknownCommand
    }
}

} // verus!
