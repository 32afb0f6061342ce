//! The messages that the page sends over its websocket, what each asks for,
//! and what the desktop is then to do.

use vstd::prelude::*;
use crate::keyboard::KeyCode;

verus! {

#[verifier::external_type_specification]
#[verifier::external_body]
pub struct ExJsonValue(serde_json::Value);

#[verifier::external_type_specification]
#[verifier::external_body]
pub struct ExJsonError(serde_json::Error);

/// What a member of a JSON object holds, as far as messages are read: a
/// string, a number (as serde_json writes it), or some other value.
pub enum MemberView {
    Str(Seq<char>),
    Number(Seq<char>),
    Other,
}

/// The members of a JSON value, by name (none where the value is no object).
pub uninterp spec fn json_members(value: serde_json::Value) -> Map<Seq<char>, MemberView>;

/// What `serde_json::from_str` reads from `text` as a JSON value, taken by its
/// members; `None` where `text` is no JSON.
pub uninterp spec fn json_document(text: Seq<char>) -> Option<Map<Seq<char>, MemberView>>;

/// `serde_json::from_str::<Value>`: the JSON value that `text` holds, or the
/// error where it is no JSON. The value read from a text is a function of the
/// text: its members are named by `json_document`.
#[verifier::external_body]
fn parse_json(text: &str) -> (parsed: Result<serde_json::Value, serde_json::Error>)
    ensures
        parsed is Ok <==> json_document(text@) is Some,
        parsed matches Ok(value) ==> json_document(text@) == Some(json_members(value)),
{
    serde_json::from_str(text)
}

/// `Value::get` with a string key: the member `key` of the value where the
/// value is an object that has it, a string or a number converted to its
/// text (serde_json's `Display` for numbers), anything else to `Other`.
#[verifier::external_body]
fn object_member(value: &serde_json::Value, key: &str) -> (member: Option<JsonMember>)
    ensures
        member is Some <==> json_members(*value).contains_key(key@),
        member matches Some(m) ==> m.deep_view() == json_members(*value)[key@],
{
    match value.get(key) {
        Some(serde_json::Value::String(text)) => Some(JsonMember::Str(text.clone())),
        Some(serde_json::Value::Number(number)) => Some(JsonMember::Number(number.to_string())),
        Some(_) => Some(JsonMember::Other),
        None => None,
    }
}

/// A member of the JSON object of a message: a string, a number (as the
/// text that serde_json writes for it), or some other value.
#[derive(Clone, PartialEq, Eq, Debug)]
pub enum JsonMember {
    Str(String),
    Number(String),
    Other,
}

impl DeepView for JsonMember {
    type V = MemberView;

    open spec fn deep_view(&self) -> MemberView {
        match self {
            JsonMember::Str(t) => MemberView::Str(t@),
            JsonMember::Number(t) => MemberView::Number(t@),
            JsonMember::Other => MemberView::Other,
        }
    }
}

/// The members of a message that its reading looks at: one for each control
/// of the page, named after it, as the page sends them; and `action` with
/// `data`, the documented shape of a message (`{"action": <control>,
/// "data": <volume>}`). Each is absent where the message has no such member.
#[derive(Clone, PartialEq, Eq, Debug)]
pub struct MessageFields {
    pub pause: Option<JsonMember>,
    pub right: Option<JsonMember>,
    pub left: Option<JsonMember>,
    pub mute: Option<JsonMember>,
    pub unmute: Option<JsonMember>,
    pub vol: Option<JsonMember>,
    pub playpause: Option<JsonMember>,
    pub next: Option<JsonMember>,
    pub prev: Option<JsonMember>,
    pub stop: Option<JsonMember>,
    pub action: Option<JsonMember>,
    pub data: Option<JsonMember>,
}

/// What `MessageFields` holds.
pub struct FieldsView {
    pub pause: Option<MemberView>,
    pub right: Option<MemberView>,
    pub left: Option<MemberView>,
    pub mute: Option<MemberView>,
    pub unmute: Option<MemberView>,
    pub vol: Option<MemberView>,
    pub playpause: Option<MemberView>,
    pub next: Option<MemberView>,
    pub prev: Option<MemberView>,
    pub stop: Option<MemberView>,
    pub action: Option<MemberView>,
    pub data: Option<MemberView>,
}

impl DeepView for MessageFields {
    type V = FieldsView;

    open spec fn deep_view(&self) -> FieldsView {
        FieldsView {
            pause: self.pause.deep_view(),
            right: self.right.deep_view(),
            left: self.left.deep_view(),
            mute: self.mute.deep_view(),
            unmute: self.unmute.deep_view(),
            vol: self.vol.deep_view(),
            playpause: self.playpause.deep_view(),
            next: self.next.deep_view(),
            prev: self.prev.deep_view(),
            stop: self.stop.deep_view(),
            action: self.action.deep_view(),
            data: self.data.deep_view(),
        }
    }
}

/// The member `key` of an object's members, where it has one.
pub open spec fn member_at(members: Map<Seq<char>, MemberView>, key: Seq<char>) -> Option<MemberView> {
    if members.contains_key(key) {
        Some(members[key])
    } else {
        None
    }
}

/// The fields of a message with the members `members`.
pub open spec fn fields_of(members: Map<Seq<char>, MemberView>) -> FieldsView {
    FieldsView {
        pause: member_at(members, "pause"@),
        right: member_at(members, "right"@),
        left: member_at(members, "left"@),
        mute: member_at(members, "mute"@),
        unmute: member_at(members, "unmute"@),
        vol: member_at(members, "vol"@),
        playpause: member_at(members, "playpause"@),
        next: member_at(members, "next"@),
        prev: member_at(members, "prev"@),
        stop: member_at(members, "stop"@),
        action: member_at(members, "action"@),
        data: member_at(members, "data"@),
    }
}

impl Default for MessageFields {
    /// A message with none of the members.
    fn default() -> (fields: MessageFields)
        ensures
            fields.deep_view() == fields_of(Map::empty()),
    {
        MessageFields {
            pause: None,
            right: None,
            left: None,
            mute: None,
            unmute: None,
            vol: None,
            playpause: None,
            next: None,
            prev: None,
            stop: None,
            action: None,
            data: None,
        }
    }
}

/// The fields of a JSON value.
fn read_fields(value: &serde_json::Value) -> (fields: MessageFields)
    ensures
        fields.deep_view() == fields_of(json_members(*value)),
{
    MessageFields {
        pause: object_member(value, "pause"),
        right: object_member(value, "right"),
        left: object_member(value, "left"),
        mute: object_member(value, "mute"),
        unmute: object_member(value, "unmute"),
        vol: object_member(value, "vol"),
        playpause: object_member(value, "playpause"),
        next: object_member(value, "next"),
        prev: object_member(value, "prev"),
        stop: object_member(value, "stop"),
        action: object_member(value, "action"),
        data: object_member(value, "data"),
    }
}

/// What a message of the page asks for. `Vol` carries the volume, in percent,
/// as the text that the page sent.
#[derive(Clone, PartialEq, Eq, Debug)]
pub enum MessageAction {
    Pause,
    Right,
    Left,
    Mute,
    Unmute,
    Vol(String),
    PlayPause,
    Next,
    Prev,
    Stop,
}

/// What a `MessageAction` is.
pub enum ActionView {
    Pause,
    Right,
    Left,
    Mute,
    Unmute,
    Vol(Seq<char>),
    PlayPause,
    Next,
    Prev,
    Stop,
}

impl DeepView for MessageAction {
    type V = ActionView;

    open spec fn deep_view(&self) -> ActionView {
        match self {
            MessageAction::Pause => ActionView::Pause,
            MessageAction::Right => ActionView::Right,
            MessageAction::Left => ActionView::Left,
            MessageAction::Mute => ActionView::Mute,
            MessageAction::Unmute => ActionView::Unmute,
            MessageAction::Vol(v) => ActionView::Vol(v@),
            MessageAction::PlayPause => ActionView::PlayPause,
            MessageAction::Next => ActionView::Next,
            MessageAction::Prev => ActionView::Prev,
            MessageAction::Stop => ActionView::Stop,
        }
    }
}

/// Whether a member is there and is a string.
pub open spec fn is_text(member: Option<MemberView>) -> bool {
    member matches Some(MemberView::Str(_))
}

/// The action of the control named `name`, in a message of the documented
/// shape with the member `data`: the volume must be a number there.
pub open spec fn named_action(name: Seq<char>, data: Option<MemberView>) -> Option<ActionView> {
    if name == "pause"@ {
        Some(ActionView::Pause)
    } else if name == "right"@ {
        Some(ActionView::Right)
    } else if name == "left"@ {
        Some(ActionView::Left)
    } else if name == "mute"@ {
        Some(ActionView::Mute)
    } else if name == "unmute"@ {
        Some(ActionView::Unmute)
    } else if name == "vol"@ {
        match data {
            Some(MemberView::Number(volume)) => Some(ActionView::Vol(volume)),
            _ => None,
        }
    } else if name == "playpause"@ {
        Some(ActionView::PlayPause)
    } else if name == "next"@ {
        Some(ActionView::Next)
    } else if name == "prev"@ {
        Some(ActionView::Prev)
    } else if name == "stop"@ {
        Some(ActionView::Stop)
    } else {
        None
    }
}

/// What a message asks for. As the page sends them, a message names the
/// control as a member whose value is a string: the first of `pause`,
/// `right`, `left`, `mute`, `unmute`, `vol` (whose value is the volume),
/// `playpause`, `next`, `prev`, `stop` that the message names. Where it names
/// none, a message of the documented shape asks for the control that its
/// string member `action` names, with the volume as the number `data`.
/// Otherwise it asks for nothing.
pub open spec fn requested_action(fields: FieldsView) -> Option<ActionView> {
    if is_text(fields.pause) {
        Some(ActionView::Pause)
    } else if is_text(fields.right) {
        Some(ActionView::Right)
    } else if is_text(fields.left) {
        Some(ActionView::Left)
    } else if is_text(fields.mute) {
        Some(ActionView::Mute)
    } else if is_text(fields.unmute) {
        Some(ActionView::Unmute)
    } else if is_text(fields.vol) {
        match fields.vol {
            Some(MemberView::Str(volume)) => Some(ActionView::Vol(volume)),
            _ => None,
        }
    } else if is_text(fields.playpause) {
        Some(ActionView::PlayPause)
    } else if is_text(fields.next) {
        Some(ActionView::Next)
    } else if is_text(fields.prev) {
        Some(ActionView::Prev)
    } else if is_text(fields.stop) {
        Some(ActionView::Stop)
    } else {
        match fields.action {
            Some(MemberView::Str(name)) => named_action(name, fields.data),
            _ => None,
        }
    }
}

/// The members of a message of the documented shape: `action` naming the
/// control, and `data` where it is given.
pub open spec fn documented_message(name: Seq<char>, data: Option<MemberView>) -> Map<
    Seq<char>,
    MemberView,
> {
    match data {
        Some(d) => map!["action"@ => MemberView::Str(name), "data"@ => d],
        None => map!["action"@ => MemberView::Str(name)],
    }
}

/// A message of the documented shape, `{"action": <control>, "data":
/// <volume>}`, asks for the control that `action` names, whatever `data`
/// holds (`null` or absent too); for `vol`, the volume is the number `data`.
pub proof fn lemma_documented_shape_understood(name: Seq<char>, data: Option<MemberView>)
    ensures
        requested_action(fields_of(documented_message(name, data))) == named_action(name, data),
        requested_action(fields_of(documented_message("pause"@, data))) == Some(ActionView::Pause),
        requested_action(fields_of(documented_message("right"@, data))) == Some(ActionView::Right),
        requested_action(fields_of(documented_message("left"@, data))) == Some(ActionView::Left),
        requested_action(fields_of(documented_message("mute"@, data))) == Some(ActionView::Mute),
        requested_action(fields_of(documented_message("unmute"@, data))) == Some(
            ActionView::Unmute,
        ),
        requested_action(fields_of(documented_message("playpause"@, data))) == Some(
            ActionView::PlayPause,
        ),
        requested_action(fields_of(documented_message("next"@, data))) == Some(ActionView::Next),
        requested_action(fields_of(documented_message("prev"@, data))) == Some(ActionView::Prev),
        requested_action(fields_of(documented_message("stop"@, data))) == Some(ActionView::Stop),
        forall|volume: Seq<char>|
            requested_action(
                fields_of(documented_message("vol"@, Some(MemberView::Number(volume)))),
            ) == Some(ActionView::Vol(volume)),
{
    reveal_strlit("pause");
    reveal_strlit("right");
    reveal_strlit("left");
    reveal_strlit("mute");
    reveal_strlit("unmute");
    reveal_strlit("vol");
    reveal_strlit("playpause");
    reveal_strlit("next");
    reveal_strlit("prev");
    reveal_strlit("stop");
    reveal_strlit("action");
    reveal_strlit("data");
    assert("action"@.len() == 6 && "data"@.len() == 4 && "unmute"@.len() == 6);
    assert("pause"@.len() == 5 && "right"@.len() == 5 && "left"@.len() == 4 && "mute"@.len() == 4);
    assert("vol"@.len() == 3 && "playpause"@.len() == 9);
    assert("next"@.len() == 4 && "prev"@.len() == 4 && "stop"@.len() == 4);
    assert("action"@[0] != "unmute"@[0]);
    assert("pause"@[0] != "right"@[0]);
    assert("data"@[0] != "left"@[0] && "data"@[0] != "mute"@[0] && "data"@[0] != "next"@[0]);
    assert("data"@[0] != "prev"@[0] && "data"@[0] != "stop"@[0]);
    assert("left"@[0] != "mute"@[0] && "left"@[0] != "next"@[0] && "left"@[0] != "prev"@[0]);
    assert("left"@[0] != "stop"@[0] && "mute"@[0] != "next"@[0] && "mute"@[0] != "prev"@[0]);
    assert("mute"@[0] != "stop"@[0] && "next"@[0] != "prev"@[0] && "next"@[0] != "stop"@[0]);
    assert("prev"@[0] != "stop"@[0]);
}

/// A message naming several controls, each as a string member, asks for the
/// first of them in the order `pause`, `right`, `left`, `mute`, `unmute`,
/// `vol` (with its text as the volume), `playpause`, `next`, `prev`, `stop`;
/// a control member that is no string counts as absent; only a message that
/// names none of them is read by its documented shape, `action` and `data`.
pub proof fn lemma_first_control_wins(f: FieldsView)
    ensures
        is_text(f.pause) ==> requested_action(f) == Some(ActionView::Pause),
        !is_text(f.pause) && is_text(f.right) ==> requested_action(f) == Some(ActionView::Right),
        !is_text(f.pause) && !is_text(f.right) && is_text(f.left) ==> requested_action(f) == Some(
            ActionView::Left,
        ),
        !is_text(f.pause) && !is_text(f.right) && !is_text(f.left) && is_text(f.mute)
            ==> requested_action(f) == Some(ActionView::Mute),
        !is_text(f.pause) && !is_text(f.right) && !is_text(f.left) && !is_text(f.mute) && is_text(
            f.unmute,
        ) ==> requested_action(f) == Some(ActionView::Unmute),
        forall|volume: Seq<char>|
            !is_text(f.pause) && !is_text(f.right) && !is_text(f.left) && !is_text(f.mute)
                && !is_text(f.unmute) && f.vol == Some(MemberView::Str(volume))
                ==> requested_action(f) == Some(ActionView::Vol(volume)),
        !is_text(f.pause) && !is_text(f.right) && !is_text(f.left) && !is_text(f.mute)
            && !is_text(f.unmute) && !is_text(f.vol) && is_text(f.playpause)
            ==> requested_action(f) == Some(ActionView::PlayPause),
        !is_text(f.pause) && !is_text(f.right) && !is_text(f.left) && !is_text(f.mute)
            && !is_text(f.unmute) && !is_text(f.vol) && !is_text(f.playpause) && is_text(f.next)
            ==> requested_action(f) == Some(ActionView::Next),
        !is_text(f.pause) && !is_text(f.right) && !is_text(f.left) && !is_text(f.mute)
            && !is_text(f.unmute) && !is_text(f.vol) && !is_text(f.playpause) && !is_text(f.next)
            && is_text(f.prev) ==> requested_action(f) == Some(ActionView::Prev),
        !is_text(f.pause) && !is_text(f.right) && !is_text(f.left) && !is_text(f.mute)
            && !is_text(f.unmute) && !is_text(f.vol) && !is_text(f.playpause) && !is_text(f.next)
            && !is_text(f.prev) && is_text(f.stop) ==> requested_action(f) == Some(ActionView::Stop),
        forall|name: Seq<char>|
            !is_text(f.pause) && !is_text(f.right) && !is_text(f.left) && !is_text(f.mute)
                && !is_text(f.unmute) && !is_text(f.vol) && !is_text(f.playpause) && !is_text(
                f.next,
            ) && !is_text(f.prev) && !is_text(f.stop) && f.action == Some(MemberView::Str(name))
                ==> requested_action(f) == named_action(name, f.data),
        !is_text(f.pause) && !is_text(f.right) && !is_text(f.left) && !is_text(f.mute)
            && !is_text(f.unmute) && !is_text(f.vol) && !is_text(f.playpause) && !is_text(f.next)
            && !is_text(f.prev) && !is_text(f.stop) && !is_text(f.action) ==> requested_action(f)
            is None,
{
}

/// The documented shape names a control by its name: `action` naming
/// anything but one of the ten controls asks for nothing, and for `vol`
/// the volume must be a number, whose text is carried as it is.
pub proof fn lemma_named_action_names_controls(name: Seq<char>, data: Option<MemberView>)
    ensures
        named_action(name, data) is Some ==> (name == "pause"@ || name == "right"@ || name
            == "left"@ || name == "mute"@ || name == "unmute"@ || name == "vol"@ || name
            == "playpause"@ || name == "next"@ || name == "prev"@ || name == "stop"@),
        name == "vol"@ ==> named_action(name, data) == match data {
            Some(MemberView::Number(volume)) => Some(ActionView::Vol(volume)),
            _ => None,
        },
{
    reveal_strlit("pause");
    reveal_strlit("right");
    reveal_strlit("left");
    reveal_strlit("mute");
    reveal_strlit("unmute");
    reveal_strlit("vol");
    assert("vol"@.len() == 3 && "pause"@.len() == 5 && "right"@.len() == 5);
    assert("left"@.len() == 4 && "mute"@.len() == 4 && "unmute"@.len() == 6);
}

/// Why a message could not be read.
#[derive(Clone, Copy, PartialEq, Eq, Structural, Debug)]
pub enum MessageError {
    /// The message is no JSON.
    InvalidJson,
}

fn is_text_member(member: &Option<JsonMember>) -> (text: bool)
    ensures
        text == is_text(member.deep_view()),
{
    match member {
        Some(JsonMember::Str(_)) => true,
        _ => false,
    }
}

fn names(name: &String, control: &str) -> (same: bool)
    ensures
        same == (name@ == control@),
{
    let control = String::from_str(control);
    *name == control
}

/// The action of the control named `name`, with the volume `data`.
fn action_named(name: &String, data: &Option<JsonMember>) -> (action: Option<MessageAction>)
    ensures
        action.deep_view() == named_action(name@, data.deep_view()),
{
    if names(name, "pause") {
        Some(MessageAction::Pause)
    } else if names(name, "right") {
        Some(MessageAction::Right)
    } else if names(name, "left") {
        Some(MessageAction::Left)
    } else if names(name, "mute") {
        Some(MessageAction::Mute)
    } else if names(name, "unmute") {
        Some(MessageAction::Unmute)
    } else if names(name, "vol") {
        match data {
            Some(JsonMember::Number(volume)) => Some(MessageAction::Vol(volume.clone())),
            _ => None,
        }
    } else if names(name, "playpause") {
        Some(MessageAction::PlayPause)
    } else if names(name, "next") {
        Some(MessageAction::Next)
    } else if names(name, "prev") {
        Some(MessageAction::Prev)
    } else if names(name, "stop") {
        Some(MessageAction::Stop)
    } else {
        None
    }
}

/// What a message with the fields `fields` asks for.
pub fn message_action(fields: &MessageFields) -> (action: Option<MessageAction>)
    ensures
        action.deep_view() == requested_action(fields.deep_view()),
{
    if is_text_member(&fields.pause) {
        Some(MessageAction::Pause)
    } else if is_text_member(&fields.right) {
        Some(MessageAction::Right)
    } else if is_text_member(&fields.left) {
        Some(MessageAction::Left)
    } else if is_text_member(&fields.mute) {
        Some(MessageAction::Mute)
    } else if is_text_member(&fields.unmute) {
        Some(MessageAction::Unmute)
    } else if let Some(JsonMember::Str(volume)) = &fields.vol {
        Some(MessageAction::Vol(volume.clone()))
    } else if is_text_member(&fields.playpause) {
        Some(MessageAction::PlayPause)
    } else if is_text_member(&fields.next) {
        Some(MessageAction::Next)
    } else if is_text_member(&fields.prev) {
        Some(MessageAction::Prev)
    } else if is_text_member(&fields.stop) {
        Some(MessageAction::Stop)
    } else {
        match &fields.action {
            Some(JsonMember::Str(name)) => action_named(name, &fields.data),
            _ => None,
        }
    }
}

/// What a message, which must be JSON, asks for.
pub fn parse_message(text: &str) -> (action: Option<MessageAction>)
    requires
        json_document(text@) is Some,
    ensures
        action.deep_view() == requested_action(fields_of(json_document(text@).unwrap())),
{
    match parse_json(text) {
        Ok(value) => {
            let fields = read_fields(&value);
            message_action(&fields)
        },
        Err(_) => None,
    }
}

/// Whether `text` is JSON.
pub fn is_json(text: &str) -> (json: bool)
    ensures
        json == json_document(text@) is Some,
{
    parse_json(text).is_ok()
}

/// What a message asks for, or `InvalidJson` where the message is no JSON.
pub fn try_parse_message(text: &str) -> (action: Result<Option<MessageAction>, MessageError>)
    ensures
        action is Err <==> json_document(text@) is None,
        action matches Err(e) ==> e == MessageError::InvalidJson,
        action matches Ok(a) ==> a.deep_view() == requested_action(
            fields_of(json_document(text@).unwrap()),
        ),
{
    if is_json(text) {
        Ok(parse_message(text))
    } else {
        Err(MessageError::InvalidJson)
    }
}

/// What the desktop is to do.
#[derive(Clone, PartialEq, Eq, Debug)]
pub enum Command {
    /// Tap a key.
    Tap(KeyCode),
    /// Mute the speaker.
    Mute,
    /// Unmute the speaker.
    Unmute,
    /// Set the volume, in percent, given as the text that the page sent.
    SetVolume(String),
}

/// What a `Command` is.
pub enum CommandView {
    Tap(KeyCode),
    Mute,
    Unmute,
    SetVolume(Seq<char>),
}

impl DeepView for Command {
    type V = CommandView;

    open spec fn deep_view(&self) -> CommandView {
        match self {
            Command::Tap(k) => CommandView::Tap(*k),
            Command::Mute => CommandView::Mute,
            Command::Unmute => CommandView::Unmute,
            Command::SetVolume(v) => CommandView::SetVolume(v@),
        }
    }
}

/// What the desktop does for each action: the media keys and the arrows are
/// tapped (`pause` taps the space bar), mute and unmute go to the speaker,
/// `vol` sets the volume.
pub open spec fn command_for(action: ActionView) -> CommandView {
    match action {
        ActionView::Pause => CommandView::Tap(KeyCode::Space),
        ActionView::Right => CommandView::Tap(KeyCode::Right),
        ActionView::Left => CommandView::Tap(KeyCode::Left),
        ActionView::Mute => CommandView::Mute,
        ActionView::Unmute => CommandView::Unmute,
        ActionView::Vol(v) => CommandView::SetVolume(v),
        ActionView::PlayPause => CommandView::Tap(KeyCode::PlayPause),
        ActionView::Next => CommandView::Tap(KeyCode::Next),
        ActionView::Prev => CommandView::Tap(KeyCode::Prev),
        ActionView::Stop => CommandView::Tap(KeyCode::Stop),
    }
}

/// What the desktop is to do for a message's action: nothing where the
/// message asked for nothing.
pub fn handle_action(action: Option<MessageAction>) -> (command: Option<Command>)
    ensures
        command.deep_view() == match action.deep_view() {
            Some(a) => Some(command_for(a)),
            None => None,
        },
{
    match action {
        Some(a) => Some(
            match a {
                MessageAction::Pause => Command::Tap(KeyCode::Space),
                MessageAction::Right => Command::Tap(KeyCode::Right),
                MessageAction::Left => Command::Tap(KeyCode::Left),
                MessageAction::Mute => Command::Mute,
                MessageAction::Unmute => Command::Unmute,
                MessageAction::Vol(volume) => Command::SetVolume(volume),
                MessageAction::PlayPause => Command::Tap(KeyCode::PlayPause),
                MessageAction::Next => Command::Tap(KeyCode::Next),
                MessageAction::Prev => Command::Tap(KeyCode::Prev),
                MessageAction::Stop => Command::Tap(KeyCode::Stop),
            },
        ),
        None => None,
    }
}

/// The command for a volume action sets the volume to exactly the volume
/// text of the action, whatever that text is; mute and unmute go to the
/// speaker, and every other action taps a key.
pub proof fn lemma_volume_command_carries_volume(volume: Seq<char>)
    ensures
        command_for(ActionView::Vol(volume)) == CommandView::SetVolume(volume),
        command_for(ActionView::Mute) == CommandView::Mute,
        command_for(ActionView::Unmute) == CommandView::Unmute,
        command_for(ActionView::Pause) == CommandView::Tap(KeyCode::Space),
        command_for(ActionView::Right) == CommandView::Tap(KeyCode::Right),
        command_for(ActionView::Left) == CommandView::Tap(KeyCode::Left),
        command_for(ActionView::PlayPause) == CommandView::Tap(KeyCode::PlayPause),
        command_for(ActionView::Next) == CommandView::Tap(KeyCode::Next),
        command_for(ActionView::Prev) == CommandView::Tap(KeyCode::Prev),
        command_for(ActionView::Stop) == CommandView::Tap(KeyCode::Stop),
{
}

} // verus!
