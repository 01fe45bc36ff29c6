//! The message variant model.
//!
//! A message is one case of a closed, tagged union of seven kinds.  The wire
//! discriminator (`"type"`) is derived from the variant at encode time and is
//! never caller input, so the wire form cannot desynchronize from the
//! in-memory kind.  Every variant may carry an optional sender override, and
//! owns its nested value objects.  Coordinates are held as fixed-point
//! integers in millionths of a degree.

use vstd::prelude::*;

use crate::json::{
    arr_push, arr_view, arr_wf, json_wf, jv_view, lemma_arr_view_index, lemma_obj_view_index,
    obj_push, obj_view, obj_wf, str_eq, JsonSpec, JsonValue,
};

verus! {

/// View of a sender override.
pub ghost struct SenderV {
    pub name: Option<Seq<char>>,
    pub icon_url: Option<Seq<char>>,
}

/// An optional display-name and icon override carried by any message kind.
pub struct Sender {
    pub name: Option<String>,
    pub icon_url: Option<String>,
}

impl View for Sender {
    type V = SenderV;

    open spec fn view(&self) -> SenderV {
        SenderV {
            name: match self.name {
                Some(n) => Some(n@),
                None => None,
            },
            icon_url: match self.icon_url {
                Some(u) => Some(u@),
                None => None,
            },
        }
    }
}

impl Sender {
    pub fn new(name: Option<String>, icon_url: Option<String>) -> (s: Sender)
        ensures
            s.name == name,
            s.icon_url == icon_url,
    {
        Sender { name, icon_url }
    }
}

/// View of an emoji placement.
pub ghost struct EmojiV {
    pub index: int,
    pub product_id: Seq<char>,
    pub emoji_id: Seq<char>,
}

/// One emoji placement inside a text message; `index` addresses a character
/// offset of the text.
pub struct Emoji {
    pub index: usize,
    pub product_id: String,
    pub emoji_id: String,
}

impl View for Emoji {
    type V = EmojiV;

    open spec fn view(&self) -> EmojiV {
        EmojiV { index: self.index as int, product_id: self.product_id@, emoji_id: self.emoji_id@ }
    }
}

impl Emoji {
    pub fn new(index: usize, product_id: String, emoji_id: String) -> (e: Emoji)
        ensures
            e.index == index,
            e.product_id == product_id,
            e.emoji_id == emoji_id,
    {
        Emoji { index, product_id, emoji_id }
    }
}

/// The ordered emoji placements of one text message.
pub struct Emojis {
    pub emojis: Vec<Emoji>,
}

impl View for Emojis {
    type V = Seq<EmojiV>;

    open spec fn view(&self) -> Seq<EmojiV> {
        self.emojis@.map_values(|e: Emoji| e@)
    }
}

impl Emojis {
    pub fn new(emojis: Vec<Emoji>) -> (r: Emojis)
        ensures
            r.emojis == emojis,
    {
        Emojis { emojis }
    }
}

/// View of pixel dimensions.
pub ghost struct BaseSizeV {
    pub width: int,
    pub height: int,
}

/// Pixel dimensions of an imagemap's base image.
pub struct BaseSize {
    pub width: usize,
    pub height: usize,
}

impl View for BaseSize {
    type V = BaseSizeV;

    open spec fn view(&self) -> BaseSizeV {
        BaseSizeV { width: self.width as int, height: self.height as int }
    }
}

impl BaseSize {
    pub fn new(width: usize, height: usize) -> (b: BaseSize)
        ensures
            b.width == width,
            b.height == height,
    {
        BaseSize { width, height }
    }
}

/// View of a clickable rectangle.
pub ghost struct AreaV {
    pub x: int,
    pub y: int,
    pub width: int,
    pub height: int,
}

/// A clickable rectangle inside an imagemap.
pub struct Area {
    pub x: usize,
    pub y: usize,
    pub width: usize,
    pub height: usize,
}

impl View for Area {
    type V = AreaV;

    open spec fn view(&self) -> AreaV {
        AreaV {
            x: self.x as int,
            y: self.y as int,
            width: self.width as int,
            height: self.height as int,
        }
    }
}

impl Area {
    pub fn new(x: usize, y: usize, width: usize, height: usize) -> (a: Area)
        ensures
            a.x == x,
            a.y == y,
            a.width == width,
            a.height == height,
    {
        Area { x, y, width, height }
    }
}

/// View of a hyperlink descriptor.
pub ghost struct ExternalLinkV {
    pub link_uri: Seq<char>,
    pub label: Seq<char>,
}

/// A hyperlink descriptor shown over an imagemap video.
pub struct ExternalLink {
    pub link_uri: String,
    pub label: String,
}

impl View for ExternalLink {
    type V = ExternalLinkV;

    open spec fn view(&self) -> ExternalLinkV {
        ExternalLinkV { link_uri: self.link_uri@, label: self.label@ }
    }
}

impl ExternalLink {
    pub fn new(link_uri: String, label: String) -> (l: ExternalLink)
        ensures
            l.link_uri == link_uri,
            l.label == label,
    {
        ExternalLink { link_uri, label }
    }
}

/// View of an imagemap video overlay.
pub ghost struct VideoV {
    pub original_content_url: Seq<char>,
    pub preview_image_url: Seq<char>,
    pub area: AreaV,
    pub external_link: ExternalLinkV,
}

/// A video overlay played inside an imagemap.
pub struct Video {
    pub original_content_url: String,
    pub preview_image_url: String,
    pub area: Area,
    pub external_link: ExternalLink,
}

impl View for Video {
    type V = VideoV;

    open spec fn view(&self) -> VideoV {
        VideoV {
            original_content_url: self.original_content_url@,
            preview_image_url: self.preview_image_url@,
            area: self.area@,
            external_link: self.external_link@,
        }
    }
}

impl Video {
    pub fn new(
        original_content_url: String,
        preview_image_url: String,
        area: Area,
        external_link: ExternalLink,
    ) -> (v: Video)
        ensures
            v.original_content_url == original_content_url,
            v.preview_image_url == preview_image_url,
            v.area == area,
            v.external_link == external_link,
    {
        Video { original_content_url, preview_image_url, area, external_link }
    }
}

/// View of a clickable action.
pub ghost enum ActionV {
    URI { label: Seq<char>, link_uri: Seq<char>, area: AreaV },
    Message { label: Seq<char>, text: Seq<char>, area: AreaV },
}

/// A tagged clickable action of an imagemap: either a hyperlink or a canned
/// message.  The wire discriminator is derived from the variant.
pub enum Action {
    URI { label: String, link_uri: String, area: Area },
    Message { label: String, text: String, area: Area },
}

impl View for Action {
    type V = ActionV;

    open spec fn view(&self) -> ActionV {
        match self {
            Action::URI { label, link_uri, area } => ActionV::URI {
                label: label@,
                link_uri: link_uri@,
                area: area@,
            },
            Action::Message { label, text, area } => ActionV::Message {
                label: label@,
                text: text@,
                area: area@,
            },
        }
    }
}

impl Action {
    pub fn new_uri_action(label: String, link_uri: String, area: Area) -> (a: Action)
        ensures
            a == (Action::URI { label, link_uri, area }),
    {
        Action::URI { label, link_uri, area }
    }

    pub fn new_message_action(label: String, text: String, area: Area) -> (a: Action)
        ensures
            a == (Action::Message { label, text, area }),
    {
        Action::Message { label, text, area }
    }
}

/// The ordered clickable actions of one imagemap.
pub struct Actions {
    pub actions: Vec<Action>,
}

impl View for Actions {
    type V = Seq<ActionV>;

    open spec fn view(&self) -> Seq<ActionV> {
        self.actions@.map_values(|a: Action| a@)
    }
}

impl Actions {
    pub fn new() -> (r: Actions)
        ensures
            r.actions@.len() == 0,
    {
        Actions { actions: Vec::new() }
    }
}

/// View of a message variant.
pub ghost enum MessageV {
    Text { sender: Option<SenderV>, text: Seq<char>, emojis: Option<Seq<EmojiV>> },
    Sticker { sender: Option<SenderV>, package_id: Seq<char>, sticker_id: Seq<char> },
    Image { sender: Option<SenderV>, original_content_url: Seq<char>, preview_image_url: Seq<char> },
    Video { sender: Option<SenderV>, original_content_url: Seq<char>, preview_image_url: Seq<char> },
    Audio { sender: Option<SenderV>, original_content_url: Seq<char>, duration: int },
    Location {
        sender: Option<SenderV>,
        title: Seq<char>,
        address: Seq<char>,
        latitude_micro: int,
        longitude_micro: int,
    },
    Imagemap {
        sender: Option<SenderV>,
        base_url: Seq<char>,
        alt_text: Seq<char>,
        base_size: BaseSizeV,
        video: Option<VideoV>,
        actions: Seq<ActionV>,
    },
}

/// One outbound message: a closed union of seven kinds, each carrying an
/// optional sender override and its kind-specific payload.
pub enum Message {
    TextMessage { sender: Option<Sender>, text: String, emojis: Option<Emojis> },
    StickerMessage { sender: Option<Sender>, package_id: String, sticker_id: String },
    ImageMessage { sender: Option<Sender>, original_content_url: String, preview_image_url: String },
    VideoMessage { sender: Option<Sender>, original_content_url: String, preview_image_url: String },
    AudioMessage { sender: Option<Sender>, original_content_url: String, duration: usize },
    LocationMessage {
        sender: Option<Sender>,
        title: String,
        address: String,
        /// Latitude in millionths of a degree, within `[-90e6, 90e6]`.
        latitude_micro: i64,
        /// Longitude in millionths of a degree, within `[-180e6, 180e6]`.
        longitude_micro: i64,
    },
    ImagemapMessage {
        sender: Option<Sender>,
        base_url: String,
        alt_text: String,
        base_size: BaseSize,
        video: Option<Video>,
        actions: Actions,
    },
}

pub open spec fn sender_opt_view(s: Option<Sender>) -> Option<SenderV> {
    match s {
        Some(sv) => Some(sv@),
        None => None,
    }
}

impl View for Message {
    type V = MessageV;

    open spec fn view(&self) -> MessageV {
        match self {
            Message::TextMessage { sender, text, emojis } => MessageV::Text {
                sender: sender_opt_view(*sender),
                text: text@,
                emojis: match emojis {
                    Some(es) => Some(es@),
                    None => None,
                },
            },
            Message::StickerMessage { sender, package_id, sticker_id } => MessageV::Sticker {
                sender: sender_opt_view(*sender),
                package_id: package_id@,
                sticker_id: sticker_id@,
            },
            Message::ImageMessage { sender, original_content_url, preview_image_url } => MessageV::Image {
                sender: sender_opt_view(*sender),
                original_content_url: original_content_url@,
                preview_image_url: preview_image_url@,
            },
            Message::VideoMessage { sender, original_content_url, preview_image_url } => MessageV::Video {
                sender: sender_opt_view(*sender),
                original_content_url: original_content_url@,
                preview_image_url: preview_image_url@,
            },
            Message::AudioMessage { sender, original_content_url, duration } => MessageV::Audio {
                sender: sender_opt_view(*sender),
                original_content_url: original_content_url@,
                duration: *duration as int,
            },
            Message::LocationMessage { sender, title, address, latitude_micro, longitude_micro } => MessageV::Location {
                sender: sender_opt_view(*sender),
                title: title@,
                address: address@,
                latitude_micro: *latitude_micro as int,
                longitude_micro: *longitude_micro as int,
            },
            Message::ImagemapMessage { sender, base_url, alt_text, base_size, video, actions } => MessageV::Imagemap {
                sender: sender_opt_view(*sender),
                base_url: base_url@,
                alt_text: alt_text@,
                base_size: base_size@,
                video: match video {
                    Some(v) => Some(v@),
                    None => None,
                },
                actions: actions@,
            },
        }
    }
}

/// The data-model invariant of a message: location coordinates lie within
/// latitude `[-90, 90]` and longitude `[-180, 180]` degrees, held in
/// millionths.  Every constructor establishes it.
pub open spec fn message_wf(m: MessageV) -> bool {
    match m {
        MessageV::Location { latitude_micro, longitude_micro, .. } => {
            &&& -90000000 <= latitude_micro <= 90000000
            &&& -180000000 <= longitude_micro <= 180000000
        },
        _ => true,
    }
}

impl Message {
    pub fn new_text_message(text: String, emojis: Option<Emojis>, sender: Option<Sender>) -> (m:
        Message)
        ensures
            m == (Message::TextMessage { sender, text, emojis }),
            message_wf(m@),
    {
        Message::TextMessage { sender, text, emojis }
    }

    pub fn new_sticker_message(package_id: String, sticker_id: String, sender: Option<Sender>) -> (m:
        Message)
        ensures
            m == (Message::StickerMessage { sender, package_id, sticker_id }),
            message_wf(m@),
    {
        Message::StickerMessage { sender, package_id, sticker_id }
    }

    pub fn new_image_message(
        original_content_url: String,
        preview_image_url: String,
        sender: Option<Sender>,
    ) -> (m: Message)
        ensures
            m == (Message::ImageMessage { sender, original_content_url, preview_image_url }),
            message_wf(m@),
    {
        Message::ImageMessage { sender, original_content_url, preview_image_url }
    }

    pub fn new_video_message(
        original_content_url: String,
        preview_image_url: String,
        sender: Option<Sender>,
    ) -> (m: Message)
        ensures
            m == (Message::VideoMessage { sender, original_content_url, preview_image_url }),
            message_wf(m@),
    {
        Message::VideoMessage { sender, original_content_url, preview_image_url }
    }

    pub fn new_audio_message(
        original_content_url: String,
        duration: usize,
        sender: Option<Sender>,
    ) -> (m: Message)
        ensures
            m == (Message::AudioMessage { sender, original_content_url, duration }),
            message_wf(m@),
    {
        Message::AudioMessage { sender, original_content_url, duration }
    }

    pub fn new_location_message(
        title: String,
        address: String,
        latitude_micro: i64,
        longitude_micro: i64,
        sender: Option<Sender>,
    ) -> (m: Message)
        requires
            -90000000 <= latitude_micro <= 90000000,
            -180000000 <= longitude_micro <= 180000000,
        ensures
            m == (Message::LocationMessage {
                sender,
                title,
                address,
                latitude_micro,
                longitude_micro,
            }),
            message_wf(m@),
    {
        Message::LocationMessage { sender, title, address, latitude_micro, longitude_micro }
    }

    pub fn new_imagemap_message(
        base_url: String,
        alt_text: String,
        base_size: BaseSize,
        video: Option<Video>,
        actions: Actions,
        sender: Option<Sender>,
    ) -> (m: Message)
        ensures
            m == (Message::ImagemapMessage {
                sender,
                base_url,
                alt_text,
                base_size,
                video,
                actions,
            }),
            message_wf(m@),
    {
        Message::ImagemapMessage { sender, base_url, alt_text, base_size, video, actions }
    }
}

/// Wire form of a sender override: its optional fields, present only when
/// populated.
pub open spec fn name_field(n: Option<Seq<char>>) -> Seq<(Seq<char>, JsonSpec)> {
    match n {
        Some(t) => seq![("name"@, JsonSpec::Str(t))],
        None => Seq::empty(),
    }
}

pub open spec fn icon_url_field(u: Option<Seq<char>>) -> Seq<(Seq<char>, JsonSpec)> {
    match u {
        Some(t) => seq![("iconUrl"@, JsonSpec::Str(t))],
        None => Seq::empty(),
    }
}

pub open spec fn sender_wire(s: SenderV) -> JsonSpec {
    JsonSpec::Obj(name_field(s.name) + icon_url_field(s.icon_url))
}

/// The `"sender"` pair of a message object, present only when the override
/// is.
pub open spec fn sender_field(s: Option<SenderV>) -> Seq<(Seq<char>, JsonSpec)> {
    match s {
        Some(sv) => seq![("sender"@, sender_wire(sv))],
        None => Seq::empty(),
    }
}

pub open spec fn emoji_wire(e: EmojiV) -> JsonSpec {
    JsonSpec::Obj(
        seq![
            ("index"@, JsonSpec::UInt(e.index)),
            ("productId"@, JsonSpec::Str(e.product_id)),
            ("emojiId"@, JsonSpec::Str(e.emoji_id)),
        ],
    )
}

/// The `"emojis"` pair of a text message, present only when placements are.
pub open spec fn emojis_field(es: Option<Seq<EmojiV>>) -> Seq<(Seq<char>, JsonSpec)> {
    match es {
        Some(list) => seq![
            ("emojis"@, JsonSpec::Arr(list.map_values(|e: EmojiV| emoji_wire(e)))),
        ],
        None => Seq::empty(),
    }
}

pub open spec fn base_size_wire(b: BaseSizeV) -> JsonSpec {
    JsonSpec::Obj(
        seq![("width"@, JsonSpec::UInt(b.width)), ("height"@, JsonSpec::UInt(b.height))],
    )
}

pub open spec fn area_wire(a: AreaV) -> JsonSpec {
    JsonSpec::Obj(
        seq![
            ("x"@, JsonSpec::UInt(a.x)),
            ("y"@, JsonSpec::UInt(a.y)),
            ("width"@, JsonSpec::UInt(a.width)),
            ("height"@, JsonSpec::UInt(a.height)),
        ],
    )
}

pub open spec fn external_link_wire(l: ExternalLinkV) -> JsonSpec {
    JsonSpec::Obj(
        seq![("linkUri"@, JsonSpec::Str(l.link_uri)), ("label"@, JsonSpec::Str(l.label))],
    )
}

pub open spec fn video_wire(v: VideoV) -> JsonSpec {
    JsonSpec::Obj(
        seq![
            ("originalContentUrl"@, JsonSpec::Str(v.original_content_url)),
            ("previewImageUrl"@, JsonSpec::Str(v.preview_image_url)),
            ("area"@, area_wire(v.area)),
            ("externalLink"@, external_link_wire(v.external_link)),
        ],
    )
}

/// The `"video"` pair of an imagemap, present only when the overlay is.
pub open spec fn video_field(v: Option<VideoV>) -> Seq<(Seq<char>, JsonSpec)> {
    match v {
        Some(vv) => seq![("video"@, video_wire(vv))],
        None => Seq::empty(),
    }
}

/// Wire form of a clickable action; the `"type"` discriminator is derived
/// from the variant.
pub open spec fn action_wire(a: ActionV) -> JsonSpec {
    match a {
        ActionV::URI { label, link_uri, area } => JsonSpec::Obj(
            seq![
                ("type"@, JsonSpec::Str("uri"@)),
                ("label"@, JsonSpec::Str(label)),
                ("linkUri"@, JsonSpec::Str(link_uri)),
                ("area"@, area_wire(area)),
            ],
        ),
        ActionV::Message { label, text, area } => JsonSpec::Obj(
            seq![
                ("type"@, JsonSpec::Str("message"@)),
                ("label"@, JsonSpec::Str(label)),
                ("text"@, JsonSpec::Str(text)),
                ("area"@, area_wire(area)),
            ],
        ),
    }
}

/// Wire form of a message: a flat object whose `"type"` discriminator is
/// derived from the variant, followed by the kind-specific fields, with
/// optional pairs present only when populated and the sender override last.
pub open spec fn message_wire(m: MessageV) -> JsonSpec {
    match m {
        MessageV::Text { sender, text, emojis } => JsonSpec::Obj(
            seq![("type"@, JsonSpec::Str("text"@)), ("text"@, JsonSpec::Str(text))]
                + emojis_field(emojis) + sender_field(sender),
        ),
        MessageV::Sticker { sender, package_id, sticker_id } => JsonSpec::Obj(
            seq![
                ("type"@, JsonSpec::Str("sticker"@)),
                ("packageId"@, JsonSpec::Str(package_id)),
                ("stickerId"@, JsonSpec::Str(sticker_id)),
            ] + sender_field(sender),
        ),
        MessageV::Image { sender, original_content_url, preview_image_url } => JsonSpec::Obj(
            seq![
                ("type"@, JsonSpec::Str("image"@)),
                ("originalContentUrl"@, JsonSpec::Str(original_content_url)),
                ("previewImageUrl"@, JsonSpec::Str(preview_image_url)),
            ] + sender_field(sender),
        ),
        MessageV::Video { sender, original_content_url, preview_image_url } => JsonSpec::Obj(
            seq![
                ("type"@, JsonSpec::Str("video"@)),
                ("originalContentUrl"@, JsonSpec::Str(original_content_url)),
                ("previewImageUrl"@, JsonSpec::Str(preview_image_url)),
            ] + sender_field(sender),
        ),
        MessageV::Audio { sender, original_content_url, duration } => JsonSpec::Obj(
            seq![
                ("type"@, JsonSpec::Str("audio"@)),
                ("originalContentUrl"@, JsonSpec::Str(original_content_url)),
                ("duration"@, JsonSpec::UInt(duration)),
            ] + sender_field(sender),
        ),
        MessageV::Location { sender, title, address, latitude_micro, longitude_micro } => JsonSpec::Obj(
            seq![
                ("type"@, JsonSpec::Str("location"@)),
                ("title"@, JsonSpec::Str(title)),
                ("address"@, JsonSpec::Str(address)),
                ("latitude"@, JsonSpec::Micro(latitude_micro)),
                ("longitude"@, JsonSpec::Micro(longitude_micro)),
            ] + sender_field(sender),
        ),
        MessageV::Imagemap { sender, base_url, alt_text, base_size, video, actions } => JsonSpec::Obj(
            seq![
                ("type"@, JsonSpec::Str("imagemap"@)),
                ("baseUrl"@, JsonSpec::Str(base_url)),
                ("altText"@, JsonSpec::Str(alt_text)),
                ("baseSize"@, base_size_wire(base_size)),
            ] + video_field(video) + seq![
                ("actions"@, JsonSpec::Arr(actions.map_values(|a: ActionV| action_wire(a)))),
            ] + sender_field(sender),
        ),
    }
}

/// Fits in the unsigned machine-word fields the model uses.
pub open spec fn uint_in_usize(n: int) -> bool {
    0 <= n <= usize::MAX as int
}

/// How a sender override is read back from its wire object: the two
/// optional string pairs, in order, each present or absent.
pub open spec fn sender_unwire(j: JsonSpec) -> Option<SenderV> {
    match j {
        JsonSpec::Obj(ps) => if ps.len() == 0 {
            Some(SenderV { name: None, icon_url: None })
        } else if ps.len() == 1 {
            if ps[0].0 == "name"@ && ps[0].1 is Str {
                Some(SenderV { name: Some(ps[0].1->Str_0), icon_url: None })
            } else if ps[0].0 == "iconUrl"@ && ps[0].1 is Str {
                Some(SenderV { name: None, icon_url: Some(ps[0].1->Str_0) })
            } else {
                None
            }
        } else if ps.len() == 2 {
            if ps[0].0 == "name"@ && ps[0].1 is Str && ps[1].0 == "iconUrl"@ && ps[1].1 is Str {
                Some(SenderV { name: Some(ps[0].1->Str_0), icon_url: Some(ps[1].1->Str_0) })
            } else {
                None
            }
        } else {
            None
        },
        _ => None,
    }
}

/// How an emoji placement is read back from its wire object.
pub open spec fn emoji_unwire(j: JsonSpec) -> Option<EmojiV> {
    match j {
        JsonSpec::Obj(ps) => if ps.len() == 3 && ps[0].0 == "index"@ && ps[0].1 is UInt
            && uint_in_usize(ps[0].1->UInt_0) && ps[1].0 == "productId"@ && ps[1].1 is Str
            && ps[2].0 == "emojiId"@ && ps[2].1 is Str {
            Some(
                EmojiV {
                    index: ps[0].1->UInt_0,
                    product_id: ps[1].1->Str_0,
                    emoji_id: ps[2].1->Str_0,
                },
            )
        } else {
            None
        },
        _ => None,
    }
}

pub open spec fn emoji_list_unwire(vs: Seq<JsonSpec>) -> Option<Seq<EmojiV>>
    decreases vs.len(),
{
    if vs.len() == 0 {
        Some(Seq::empty())
    } else {
        match (emoji_list_unwire(vs.drop_last()), emoji_unwire(vs.last())) {
            (Some(init), Some(e)) => Some(init.push(e)),
            _ => None,
        }
    }
}

/// How a clickable rectangle is read back from its wire object.
pub open spec fn area_unwire(j: JsonSpec) -> Option<AreaV> {
    match j {
        JsonSpec::Obj(ps) => if ps.len() == 4 && ps[0].0 == "x"@ && ps[0].1 is UInt
            && uint_in_usize(ps[0].1->UInt_0) && ps[1].0 == "y"@ && ps[1].1 is UInt
            && uint_in_usize(ps[1].1->UInt_0) && ps[2].0 == "width"@ && ps[2].1 is UInt
            && uint_in_usize(ps[2].1->UInt_0) && ps[3].0 == "height"@ && ps[3].1 is UInt
            && uint_in_usize(ps[3].1->UInt_0) {
            Some(
                AreaV {
                    x: ps[0].1->UInt_0,
                    y: ps[1].1->UInt_0,
                    width: ps[2].1->UInt_0,
                    height: ps[3].1->UInt_0,
                },
            )
        } else {
            None
        },
        _ => None,
    }
}

/// How pixel dimensions are read back from their wire object.
pub open spec fn base_size_unwire(j: JsonSpec) -> Option<BaseSizeV> {
    match j {
        JsonSpec::Obj(ps) => if ps.len() == 2 && ps[0].0 == "width"@ && ps[0].1 is UInt
            && uint_in_usize(ps[0].1->UInt_0) && ps[1].0 == "height"@ && ps[1].1 is UInt
            && uint_in_usize(ps[1].1->UInt_0) {
            Some(BaseSizeV { width: ps[0].1->UInt_0, height: ps[1].1->UInt_0 })
        } else {
            None
        },
        _ => None,
    }
}

/// How a hyperlink descriptor is read back from its wire object.
pub open spec fn external_link_unwire(j: JsonSpec) -> Option<ExternalLinkV> {
    match j {
        JsonSpec::Obj(ps) => if ps.len() == 2 && ps[0].0 == "linkUri"@ && ps[0].1 is Str
            && ps[1].0 == "label"@ && ps[1].1 is Str {
            Some(ExternalLinkV { link_uri: ps[0].1->Str_0, label: ps[1].1->Str_0 })
        } else {
            None
        },
        _ => None,
    }
}

/// How a video overlay is read back from its wire object.
pub open spec fn video_unwire(j: JsonSpec) -> Option<VideoV> {
    match j {
        JsonSpec::Obj(ps) => if ps.len() == 4 && ps[0].0 == "originalContentUrl"@ && ps[0].1 is Str
            && ps[1].0 == "previewImageUrl"@ && ps[1].1 is Str && ps[2].0 == "area"@ && ps[3].0
            == "externalLink"@ {
            match (area_unwire(ps[2].1), external_link_unwire(ps[3].1)) {
                (Some(a), Some(l)) => Some(
                    VideoV {
                        original_content_url: ps[0].1->Str_0,
                        preview_image_url: ps[1].1->Str_0,
                        area: a,
                        external_link: l,
                    },
                ),
                _ => None,
            }
        } else {
            None
        },
        _ => None,
    }
}

/// How a clickable action is read back from its wire object; the `type`
/// discriminator selects the variant.
pub open spec fn action_unwire(j: JsonSpec) -> Option<ActionV> {
    match j {
        JsonSpec::Obj(ps) => if ps.len() == 4 && ps[0].0 == "type"@ && ps[0].1 is Str {
            let k = ps[0].1->Str_0;
            if k == "uri"@ && ps[1].0 == "label"@ && ps[1].1 is Str && ps[2].0 == "linkUri"@
                && ps[2].1 is Str && ps[3].0 == "area"@ {
                match area_unwire(ps[3].1) {
                    Some(a) => Some(
                        ActionV::URI {
                            label: ps[1].1->Str_0,
                            link_uri: ps[2].1->Str_0,
                            area: a,
                        },
                    ),
                    None => None,
                }
            } else if k == "message"@ && ps[1].0 == "label"@ && ps[1].1 is Str && ps[2].0
                == "text"@ && ps[2].1 is Str && ps[3].0 == "area"@ {
                match area_unwire(ps[3].1) {
                    Some(a) => Some(
                        ActionV::Message {
                            label: ps[1].1->Str_0,
                            text: ps[2].1->Str_0,
                            area: a,
                        },
                    ),
                    None => None,
                }
            } else {
                None
            }
        } else {
            None
        },
        _ => None,
    }
}

pub open spec fn action_list_unwire(vs: Seq<JsonSpec>) -> Option<Seq<ActionV>>
    decreases vs.len(),
{
    if vs.len() == 0 {
        Some(Seq::empty())
    } else {
        match (action_list_unwire(vs.drop_last()), action_unwire(vs.last())) {
            (Some(init), Some(a)) => Some(init.push(a)),
            _ => None,
        }
    }
}

/// Reads the optional trailing `sender` pair; anything else trailing is a
/// shape mismatch.
pub open spec fn sender_tail_unwire(rest: Seq<(Seq<char>, JsonSpec)>) -> Option<Option<SenderV>> {
    if rest.len() == 0 {
        Some(None)
    } else if rest.len() == 1 && rest[0].0 == "sender"@ {
        match sender_unwire(rest[0].1) {
            Some(sv) => Some(Some(sv)),
            None => None,
        }
    } else {
        None
    }
}

/// Reads the optional `emojis` pair at the head of the remaining pairs,
/// returning the placements and what follows.
pub open spec fn emojis_tail_unwire(rest: Seq<(Seq<char>, JsonSpec)>) -> Option<
    (Option<Seq<EmojiV>>, Seq<(Seq<char>, JsonSpec)>),
> {
    if rest.len() >= 1 && rest[0].0 == "emojis"@ {
        match rest[0].1 {
            JsonSpec::Arr(vs) => match emoji_list_unwire(vs) {
                Some(es) => Some((Some(es), rest.skip(1))),
                None => None,
            },
            _ => None,
        }
    } else {
        Some((None, rest))
    }
}

/// Reads the optional `video` pair at the head of the remaining pairs,
/// returning the overlay and what follows.
pub open spec fn video_tail_unwire(rest: Seq<(Seq<char>, JsonSpec)>) -> Option<
    (Option<VideoV>, Seq<(Seq<char>, JsonSpec)>),
> {
    if rest.len() >= 1 && rest[0].0 == "video"@ {
        match video_unwire(rest[0].1) {
            Some(vv) => Some((Some(vv), rest.skip(1))),
            None => None,
        }
    } else {
        Some((None, rest))
    }
}

pub open spec fn text_unwire(ps: Seq<(Seq<char>, JsonSpec)>) -> Option<MessageV> {
    if ps.len() >= 2 && ps[1].0 == "text"@ && ps[1].1 is Str {
        match emojis_tail_unwire(ps.skip(2)) {
            Some((emojis, rest)) => match sender_tail_unwire(rest) {
                Some(sender) => Some(MessageV::Text { sender, text: ps[1].1->Str_0, emojis }),
                None => None,
            },
            None => None,
        }
    } else {
        None
    }
}

pub open spec fn sticker_unwire(ps: Seq<(Seq<char>, JsonSpec)>) -> Option<MessageV> {
    if ps.len() >= 3 && ps[1].0 == "packageId"@ && ps[1].1 is Str && ps[2].0 == "stickerId"@
        && ps[2].1 is Str {
        match sender_tail_unwire(ps.skip(3)) {
            Some(sender) => Some(
                MessageV::Sticker {
                    sender,
                    package_id: ps[1].1->Str_0,
                    sticker_id: ps[2].1->Str_0,
                },
            ),
            None => None,
        }
    } else {
        None
    }
}

pub open spec fn image_unwire(ps: Seq<(Seq<char>, JsonSpec)>) -> Option<MessageV> {
    if ps.len() >= 3 && ps[1].0 == "originalContentUrl"@ && ps[1].1 is Str && ps[2].0
        == "previewImageUrl"@ && ps[2].1 is Str {
        match sender_tail_unwire(ps.skip(3)) {
            Some(sender) => Some(
                MessageV::Image {
                    sender,
                    original_content_url: ps[1].1->Str_0,
                    preview_image_url: ps[2].1->Str_0,
                },
            ),
            None => None,
        }
    } else {
        None
    }
}

pub open spec fn video_message_unwire(ps: Seq<(Seq<char>, JsonSpec)>) -> Option<MessageV> {
    if ps.len() >= 3 && ps[1].0 == "originalContentUrl"@ && ps[1].1 is Str && ps[2].0
        == "previewImageUrl"@ && ps[2].1 is Str {
        match sender_tail_unwire(ps.skip(3)) {
            Some(sender) => Some(
                MessageV::Video {
                    sender,
                    original_content_url: ps[1].1->Str_0,
                    preview_image_url: ps[2].1->Str_0,
                },
            ),
            None => None,
        }
    } else {
        None
    }
}

pub open spec fn audio_unwire(ps: Seq<(Seq<char>, JsonSpec)>) -> Option<MessageV> {
    if ps.len() >= 3 && ps[1].0 == "originalContentUrl"@ && ps[1].1 is Str && ps[2].0
        == "duration"@ && ps[2].1 is UInt && uint_in_usize(ps[2].1->UInt_0) {
        match sender_tail_unwire(ps.skip(3)) {
            Some(sender) => Some(
                MessageV::Audio {
                    sender,
                    original_content_url: ps[1].1->Str_0,
                    duration: ps[2].1->UInt_0,
                },
            ),
            None => None,
        }
    } else {
        None
    }
}

pub open spec fn location_unwire(ps: Seq<(Seq<char>, JsonSpec)>) -> Option<MessageV> {
    if ps.len() >= 5 && ps[1].0 == "title"@ && ps[1].1 is Str && ps[2].0 == "address"@ && ps[2].1
        is Str && ps[3].0 == "latitude"@ && ps[3].1 is Micro && ps[4].0 == "longitude"@ && ps[4].1
        is Micro {
        match sender_tail_unwire(ps.skip(5)) {
            Some(sender) => Some(
                MessageV::Location {
                    sender,
                    title: ps[1].1->Str_0,
                    address: ps[2].1->Str_0,
                    latitude_micro: ps[3].1->Micro_0,
                    longitude_micro: ps[4].1->Micro_0,
                },
            ),
            None => None,
        }
    } else {
        None
    }
}

pub open spec fn imagemap_unwire(ps: Seq<(Seq<char>, JsonSpec)>) -> Option<MessageV> {
    if ps.len() >= 4 && ps[1].0 == "baseUrl"@ && ps[1].1 is Str && ps[2].0 == "altText"@ && ps[2].1
        is Str && ps[3].0 == "baseSize"@ {
        match base_size_unwire(ps[3].1) {
            Some(bs) => match video_tail_unwire(ps.skip(4)) {
                Some((video, rest)) => if rest.len() >= 1 && rest[0].0 == "actions"@ && rest[0].1
                    is Arr {
                    match action_list_unwire(rest[0].1->Arr_0) {
                        Some(actions) => match sender_tail_unwire(rest.skip(1)) {
                            Some(sender) => Some(
                                MessageV::Imagemap {
                                    sender,
                                    base_url: ps[1].1->Str_0,
                                    alt_text: ps[2].1->Str_0,
                                    base_size: bs,
                                    video,
                                    actions,
                                },
                            ),
                            None => None,
                        },
                        None => None,
                    }
                } else {
                    None
                },
                None => None,
            },
            None => None,
        }
    } else {
        None
    }
}

/// How a message is read back from its wire object: the derived `type`
/// discriminator selects the kind, and the kind's reader takes the rest.
pub open spec fn message_unwire(j: JsonSpec) -> Option<MessageV> {
    match j {
        JsonSpec::Obj(ps) => if ps.len() >= 1 && ps[0].0 == "type"@ && ps[0].1 is Str {
            let k = ps[0].1->Str_0;
            if k == "text"@ {
                text_unwire(ps)
            } else if k == "sticker"@ {
                sticker_unwire(ps)
            } else if k == "image"@ {
                image_unwire(ps)
            } else if k == "video"@ {
                video_message_unwire(ps)
            } else if k == "audio"@ {
                audio_unwire(ps)
            } else if k == "location"@ {
                location_unwire(ps)
            } else if k == "imagemap"@ {
                imagemap_unwire(ps)
            } else {
                None
            }
        } else {
            None
        },
        _ => None,
    }
}

/// Encodes a sender override as its wire object.
pub fn sender_to_json(s: &Sender) -> (v: JsonValue)
    ensures
        jv_view(v) == sender_wire(s@),
        json_wf(jv_view(v)),
{
    let mut ps: Vec<(String, JsonValue)> = Vec::new();
    match &s.name {
        Some(n) => {
            obj_push(&mut ps, "name", JsonValue::Str(n.clone()));
        },
        None => {},
    }
    proof {
        assert(obj_view(ps@) =~= name_field(s@.name));
    }
    match &s.icon_url {
        Some(u) => {
            obj_push(&mut ps, "iconUrl", JsonValue::Str(u.clone()));
        },
        None => {},
    }
    proof {
        assert(obj_view(ps@) =~= name_field(s@.name) + icon_url_field(s@.icon_url));
    }
    JsonValue::Obj(ps)
}

/// Encodes one emoji placement as its wire object.
pub fn emoji_to_json(e: &Emoji) -> (v: JsonValue)
    ensures
        jv_view(v) == emoji_wire(e@),
        json_wf(jv_view(v)),
{
    let mut ps: Vec<(String, JsonValue)> = Vec::new();
    obj_push(&mut ps, "index", JsonValue::UInt(e.index as u64));
    obj_push(&mut ps, "productId", JsonValue::Str(e.product_id.clone()));
    obj_push(&mut ps, "emojiId", JsonValue::Str(e.emoji_id.clone()));
    proof {
        assert(obj_view(ps@) =~= (emoji_wire(e@)->Obj_0));
    }
    JsonValue::Obj(ps)
}

/// Encodes pixel dimensions as their wire object.
pub fn base_size_to_json(b: &BaseSize) -> (v: JsonValue)
    ensures
        jv_view(v) == base_size_wire(b@),
        json_wf(jv_view(v)),
{
    let mut ps: Vec<(String, JsonValue)> = Vec::new();
    obj_push(&mut ps, "width", JsonValue::UInt(b.width as u64));
    obj_push(&mut ps, "height", JsonValue::UInt(b.height as u64));
    proof {
        assert(obj_view(ps@) =~= (base_size_wire(b@)->Obj_0));
    }
    JsonValue::Obj(ps)
}

/// Encodes a clickable rectangle as its wire object.
pub fn area_to_json(a: &Area) -> (v: JsonValue)
    ensures
        jv_view(v) == area_wire(a@),
        json_wf(jv_view(v)),
{
    let mut ps: Vec<(String, JsonValue)> = Vec::new();
    obj_push(&mut ps, "x", JsonValue::UInt(a.x as u64));
    obj_push(&mut ps, "y", JsonValue::UInt(a.y as u64));
    obj_push(&mut ps, "width", JsonValue::UInt(a.width as u64));
    obj_push(&mut ps, "height", JsonValue::UInt(a.height as u64));
    proof {
        assert(obj_view(ps@) =~= (area_wire(a@)->Obj_0));
    }
    JsonValue::Obj(ps)
}

/// Encodes a hyperlink descriptor as its wire object.
pub fn external_link_to_json(l: &ExternalLink) -> (v: JsonValue)
    ensures
        jv_view(v) == external_link_wire(l@),
        json_wf(jv_view(v)),
{
    let mut ps: Vec<(String, JsonValue)> = Vec::new();
    obj_push(&mut ps, "linkUri", JsonValue::Str(l.link_uri.clone()));
    obj_push(&mut ps, "label", JsonValue::Str(l.label.clone()));
    proof {
        assert(obj_view(ps@) =~= (external_link_wire(l@)->Obj_0));
    }
    JsonValue::Obj(ps)
}

/// Encodes a video overlay as its wire object.
pub fn video_to_json(vd: &Video) -> (v: JsonValue)
    ensures
        jv_view(v) == video_wire(vd@),
        json_wf(jv_view(v)),
{
    let mut ps: Vec<(String, JsonValue)> = Vec::new();
    obj_push(&mut ps, "originalContentUrl", JsonValue::Str(vd.original_content_url.clone()));
    obj_push(&mut ps, "previewImageUrl", JsonValue::Str(vd.preview_image_url.clone()));
    obj_push(&mut ps, "area", area_to_json(&vd.area));
    obj_push(&mut ps, "externalLink", external_link_to_json(&vd.external_link));
    proof {
        assert(obj_view(ps@) =~= (video_wire(vd@)->Obj_0));
    }
    JsonValue::Obj(ps)
}

/// Encodes one clickable action as its wire object.
pub fn action_to_json(a: &Action) -> (v: JsonValue)
    ensures
        jv_view(v) == action_wire(a@),
        json_wf(jv_view(v)),
{
    let mut ps: Vec<(String, JsonValue)> = Vec::new();
    match a {
        Action::URI { label, link_uri, area } => {
            obj_push(&mut ps, "type", JsonValue::Str("uri".to_owned()));
            obj_push(&mut ps, "label", JsonValue::Str(label.clone()));
            obj_push(&mut ps, "linkUri", JsonValue::Str(link_uri.clone()));
            obj_push(&mut ps, "area", area_to_json(area));
        },
        Action::Message { label, text, area } => {
            obj_push(&mut ps, "type", JsonValue::Str("message".to_owned()));
            obj_push(&mut ps, "label", JsonValue::Str(label.clone()));
            obj_push(&mut ps, "text", JsonValue::Str(text.clone()));
            obj_push(&mut ps, "area", area_to_json(area));
        },
    }
    proof {
        assert(obj_view(ps@) =~= (action_wire(a@)->Obj_0));
    }
    JsonValue::Obj(ps)
}

/// Appends the optional sender pair to a message object under construction.
fn push_sender_field(ps: &mut Vec<(String, JsonValue)>, sender: &Option<Sender>)
    ensures
        obj_view(final(ps)@) == obj_view(old(ps)@) + sender_field(sender_opt_view(*sender)),
        obj_wf(obj_view(final(ps)@)) == obj_wf(obj_view(old(ps)@)),
{
    let ghost prior = obj_view(ps@);
    match sender {
        Some(s) => {
            obj_push(ps, "sender", sender_to_json(s));
        },
        None => {},
    }
    proof {
        assert(obj_view(ps@) =~= prior + sender_field(sender_opt_view(*sender)));
    }
}

/// Encodes a message as its wire object.
pub fn message_to_json(m: &Message) -> (v: JsonValue)
    requires
        message_wf(m@),
    ensures
        jv_view(v) == message_wire(m@),
        json_wf(jv_view(v)),
{
    let mut ps: Vec<(String, JsonValue)> = Vec::new();
    match m {
        Message::TextMessage { sender, text, emojis } => {
            obj_push(&mut ps, "type", JsonValue::Str("text".to_owned()));
            obj_push(&mut ps, "text", JsonValue::Str(text.clone()));
            match emojis {
                Some(es) => {
                    let mut list: Vec<JsonValue> = Vec::new();
                    let n = es.emojis.len();
                    let mut i: usize = 0;
                    while i < n
                        invariant
                            n == es.emojis@.len(),
                            i <= n,
                            arr_view(list@) =~= es.emojis@.take(i as int).map_values(
                                |e: Emoji| emoji_wire(e@),
                            ),
                            arr_wf(arr_view(list@)),
                        decreases n - i,
                    {
                        arr_push(&mut list, emoji_to_json(&es.emojis[i]));
                        proof {
                            assert(es.emojis@.take(i + 1).drop_last() =~= es.emojis@.take(
                                i as int,
                            ));
                            assert(arr_view(list@) =~= es.emojis@.take(i + 1).map_values(
                                |e: Emoji| emoji_wire(e@),
                            ));
                        }
                        i += 1;
                    }
                    proof {
                        assert(es.emojis@.take(n as int) =~= es.emojis@);
                        assert(arr_view(list@) =~= es@.map_values(|e: EmojiV| emoji_wire(e)));
                    }
                    obj_push(&mut ps, "emojis", JsonValue::Arr(list));
                },
                None => {},
            }
            push_sender_field(&mut ps, sender);
            proof {
                assert(obj_view(ps@) =~= (message_wire(m@)->Obj_0)) by {
                    assert(obj_view(ps@) =~= seq![
                        ("type"@, JsonSpec::Str("text"@)),
                        ("text"@, JsonSpec::Str(text@)),
                    ] + emojis_field(m@->Text_emojis) + sender_field(sender_opt_view(*sender)));
                };
            }
        },
        Message::StickerMessage { sender, package_id, sticker_id } => {
            obj_push(&mut ps, "type", JsonValue::Str("sticker".to_owned()));
            obj_push(&mut ps, "packageId", JsonValue::Str(package_id.clone()));
            obj_push(&mut ps, "stickerId", JsonValue::Str(sticker_id.clone()));
            push_sender_field(&mut ps, sender);
            proof {
                assert(obj_view(ps@) =~= (message_wire(m@)->Obj_0));
            }
        },
        Message::ImageMessage { sender, original_content_url, preview_image_url } => {
            obj_push(&mut ps, "type", JsonValue::Str("image".to_owned()));
            obj_push(&mut ps, "originalContentUrl", JsonValue::Str(original_content_url.clone()));
            obj_push(&mut ps, "previewImageUrl", JsonValue::Str(preview_image_url.clone()));
            push_sender_field(&mut ps, sender);
            proof {
                assert(obj_view(ps@) =~= (message_wire(m@)->Obj_0));
            }
        },
        Message::VideoMessage { sender, original_content_url, preview_image_url } => {
            obj_push(&mut ps, "type", JsonValue::Str("video".to_owned()));
            obj_push(&mut ps, "originalContentUrl", JsonValue::Str(original_content_url.clone()));
            obj_push(&mut ps, "previewImageUrl", JsonValue::Str(preview_image_url.clone()));
            push_sender_field(&mut ps, sender);
            proof {
                assert(obj_view(ps@) =~= (message_wire(m@)->Obj_0));
            }
        },
        Message::AudioMessage { sender, original_content_url, duration } => {
            obj_push(&mut ps, "type", JsonValue::Str("audio".to_owned()));
            obj_push(&mut ps, "originalContentUrl", JsonValue::Str(original_content_url.clone()));
            obj_push(&mut ps, "duration", JsonValue::UInt(*duration as u64));
            push_sender_field(&mut ps, sender);
            proof {
                assert(obj_view(ps@) =~= (message_wire(m@)->Obj_0));
            }
        },
        Message::LocationMessage { sender, title, address, latitude_micro, longitude_micro } => {
            obj_push(&mut ps, "type", JsonValue::Str("location".to_owned()));
            obj_push(&mut ps, "title", JsonValue::Str(title.clone()));
            obj_push(&mut ps, "address", JsonValue::Str(address.clone()));
            obj_push(&mut ps, "latitude", JsonValue::Micro(*latitude_micro));
            obj_push(&mut ps, "longitude", JsonValue::Micro(*longitude_micro));
            push_sender_field(&mut ps, sender);
            proof {
                assert(obj_view(ps@) =~= (message_wire(m@)->Obj_0));
            }
        },
        Message::ImagemapMessage { sender, base_url, alt_text, base_size, video, actions } => {
            obj_push(&mut ps, "type", JsonValue::Str("imagemap".to_owned()));
            obj_push(&mut ps, "baseUrl", JsonValue::Str(base_url.clone()));
            obj_push(&mut ps, "altText", JsonValue::Str(alt_text.clone()));
            obj_push(&mut ps, "baseSize", base_size_to_json(base_size));
            match video {
                Some(vd) => {
                    obj_push(&mut ps, "video", video_to_json(vd));
                },
                None => {},
            }
            let mut list: Vec<JsonValue> = Vec::new();
            let n = actions.actions.len();
            let mut i: usize = 0;
            while i < n
                invariant
                    n == actions.actions@.len(),
                    i <= n,
                    arr_view(list@) =~= actions.actions@.take(i as int).map_values(
                        |a: Action| action_wire(a@),
                    ),
                    arr_wf(arr_view(list@)),
                decreases n - i,
            {
                arr_push(&mut list, action_to_json(&actions.actions[i]));
                proof {
                    assert(actions.actions@.take(i + 1).drop_last() =~= actions.actions@.take(
                        i as int,
                    ));
                    assert(arr_view(list@) =~= actions.actions@.take(i + 1).map_values(
                        |a: Action| action_wire(a@),
                    ));
                }
                i += 1;
            }
            proof {
                assert(actions.actions@.take(n as int) =~= actions.actions@);
                assert(arr_view(list@) =~= actions@.map_values(|a: ActionV| action_wire(a)));
            }
            obj_push(&mut ps, "actions", JsonValue::Arr(list));
            push_sender_field(&mut ps, sender);
            proof {
                assert(obj_view(ps@) =~= (message_wire(m@)->Obj_0));
            }
        },
    }
    JsonValue::Obj(ps)
}

/// Reads a sender override back from its wire object.
pub fn decode_sender(v: &JsonValue) -> (r: Option<Sender>)
    ensures
        match r {
            Some(s) => sender_unwire(jv_view(*v)) == Some(s@),
            None => sender_unwire(jv_view(*v)) is None,
        },
{
    match v {
        JsonValue::Obj(ps) => {
            proof {
                lemma_obj_view_index(ps@);
            }
            if ps.len() == 0 {
                proof {
                    assert(obj_view(ps@) =~= Seq::<(Seq<char>, JsonSpec)>::empty());
                }
                Some(Sender { name: None, icon_url: None })
            } else if ps.len() == 1 {
                let p = &ps[0];
                if str_eq(p.0.as_str(), "name") {
                    match &p.1 {
                        JsonValue::Str(t) => Some(Sender { name: Some(t.clone()), icon_url: None }),
                        _ => None,
                    }
                } else if str_eq(p.0.as_str(), "iconUrl") {
                    match &p.1 {
                        JsonValue::Str(t) => Some(Sender { name: None, icon_url: Some(t.clone()) }),
                        _ => None,
                    }
                } else {
                    None
                }
            } else if ps.len() == 2 {
                let p0 = &ps[0];
                let p1 = &ps[1];
                if str_eq(p0.0.as_str(), "name") && str_eq(p1.0.as_str(), "iconUrl") {
                    match (&p0.1, &p1.1) {
                        (JsonValue::Str(n), JsonValue::Str(u)) => Some(
                            Sender { name: Some(n.clone()), icon_url: Some(u.clone()) },
                        ),
                        _ => None,
                    }
                } else {
                    None
                }
            } else {
                None
            }
        },
        _ => None,
    }
}

/// Reads one emoji placement back from its wire object.
pub fn decode_emoji(v: &JsonValue) -> (r: Option<Emoji>)
    ensures
        match r {
            Some(e) => emoji_unwire(jv_view(*v)) == Some(e@),
            None => emoji_unwire(jv_view(*v)) is None,
        },
{
    match v {
        JsonValue::Obj(ps) => {
            proof {
                lemma_obj_view_index(ps@);
            }
            if ps.len() != 3 {
                return None;
            }
            if !(str_eq(ps[0].0.as_str(), "index") && str_eq(ps[1].0.as_str(), "productId")
                && str_eq(ps[2].0.as_str(), "emojiId")) {
                return None;
            }
            let index: usize = match &ps[0].1 {
                JsonValue::UInt(n) => {
                    if *n <= usize::MAX as u64 {
                        *n as usize
                    } else {
                        return None;
                    }
                },
                _ => {
                    return None;
                },
            };
            let product_id: String = match &ps[1].1 {
                JsonValue::Str(t) => t.clone(),
                _ => {
                    return None;
                },
            };
            let emoji_id: String = match &ps[2].1 {
                JsonValue::Str(t) => t.clone(),
                _ => {
                    return None;
                },
            };
            Some(Emoji { index, product_id, emoji_id })
        },
        _ => None,
    }
}

proof fn lemma_emoji_list_unwire_none(vs: Seq<JsonSpec>, i: int)
    requires
        0 <= i < vs.len(),
        emoji_unwire(vs[i]) is None,
    ensures
        emoji_list_unwire(vs) is None,
    decreases vs.len(),
{
    if i == vs.len() - 1 {
        assert(vs.last() == vs[i]);
    } else {
        assert(vs.drop_last()[i] == vs[i]);
        lemma_emoji_list_unwire_none(vs.drop_last(), i);
    }
}

/// Reads an emoji placement list back from its wire array.
pub fn decode_emoji_list(vs: &Vec<JsonValue>) -> (r: Option<Vec<Emoji>>)
    ensures
        match r {
            Some(list) => emoji_list_unwire(arr_view(vs@)) == Some(
                list@.map_values(|e: Emoji| e@),
            ),
            None => emoji_list_unwire(arr_view(vs@)) is None,
        },
{
    proof {
        lemma_arr_view_index(vs@);
    }
    let mut out: Vec<Emoji> = Vec::new();
    let n = vs.len();
    let mut i: usize = 0;
    while i < n
        invariant
            n == vs@.len(),
            i <= n,
            arr_view(vs@).len() == vs@.len(),
            forall|j: int| 0 <= j < vs@.len() ==> arr_view(vs@)[j] == jv_view(vs@[j]),
            emoji_list_unwire(arr_view(vs@).take(i as int)) == Some(
                out@.map_values(|e: Emoji| e@),
            ),
        decreases n - i,
    {
        match decode_emoji(&vs[i]) {
            Some(e) => {
                let ghost ev = e@;
                out.push(e);
                proof {
                    let av = arr_view(vs@);
                    assert(av.take(i + 1).drop_last() =~= av.take(i as int));
                    assert(av.take(i + 1).last() == jv_view(vs@[i as int]));
                    assert(out@.map_values(|e: Emoji| e@) =~= out@.drop_last().map_values(
                        |e: Emoji| e@,
                    ).push(ev));
                }
            },
            None => {
                proof {
                    lemma_emoji_list_unwire_none(arr_view(vs@), i as int);
                }
                return None;
            },
        }
        i += 1;
    }
    proof {
        assert(arr_view(vs@).take(n as int) =~= arr_view(vs@));
    }
    Some(out)
}

/// Reads a clickable rectangle back from its wire object.
pub fn decode_area(v: &JsonValue) -> (r: Option<Area>)
    ensures
        match r {
            Some(a) => area_unwire(jv_view(*v)) == Some(a@),
            None => area_unwire(jv_view(*v)) is None,
        },
{
    match v {
        JsonValue::Obj(ps) => {
            proof {
                lemma_obj_view_index(ps@);
            }
            if ps.len() != 4 {
                return None;
            }
            if !(str_eq(ps[0].0.as_str(), "x") && str_eq(ps[1].0.as_str(), "y") && str_eq(
                ps[2].0.as_str(),
                "width",
            ) && str_eq(ps[3].0.as_str(), "height")) {
                return None;
            }
            let x: usize = match &ps[0].1 {
                JsonValue::UInt(n) => {
                    if *n <= usize::MAX as u64 {
                        *n as usize
                    } else {
                        return None;
                    }
                },
                _ => {
                    return None;
                },
            };
            let y: usize = match &ps[1].1 {
                JsonValue::UInt(n) => {
                    if *n <= usize::MAX as u64 {
                        *n as usize
                    } else {
                        return None;
                    }
                },
                _ => {
                    return None;
                },
            };
            let width: usize = match &ps[2].1 {
                JsonValue::UInt(n) => {
                    if *n <= usize::MAX as u64 {
                        *n as usize
                    } else {
                        return None;
                    }
                },
                _ => {
                    return None;
                },
            };
            let height: usize = match &ps[3].1 {
                JsonValue::UInt(n) => {
                    if *n <= usize::MAX as u64 {
                        *n as usize
                    } else {
                        return None;
                    }
                },
                _ => {
                    return None;
                },
            };
            Some(Area { x, y, width, height })
        },
        _ => None,
    }
}

/// Reads pixel dimensions back from their wire object.
pub fn decode_base_size(v: &JsonValue) -> (r: Option<BaseSize>)
    ensures
        match r {
            Some(b) => base_size_unwire(jv_view(*v)) == Some(b@),
            None => base_size_unwire(jv_view(*v)) is None,
        },
{
    match v {
        JsonValue::Obj(ps) => {
            proof {
                lemma_obj_view_index(ps@);
            }
            if ps.len() != 2 {
                return None;
            }
            if !(str_eq(ps[0].0.as_str(), "width") && str_eq(ps[1].0.as_str(), "height")) {
                return None;
            }
            let width: usize = match &ps[0].1 {
                JsonValue::UInt(n) => {
                    if *n <= usize::MAX as u64 {
                        *n as usize
                    } else {
                        return None;
                    }
                },
                _ => {
                    return None;
                },
            };
            let height: usize = match &ps[1].1 {
                JsonValue::UInt(n) => {
                    if *n <= usize::MAX as u64 {
                        *n as usize
                    } else {
                        return None;
                    }
                },
                _ => {
                    return None;
                },
            };
            Some(BaseSize { width, height })
        },
        _ => None,
    }
}

/// Reads a hyperlink descriptor back from its wire object.
pub fn decode_external_link(v: &JsonValue) -> (r: Option<ExternalLink>)
    ensures
        match r {
            Some(l) => external_link_unwire(jv_view(*v)) == Some(l@),
            None => external_link_unwire(jv_view(*v)) is None,
        },
{
    match v {
        JsonValue::Obj(ps) => {
            proof {
                lemma_obj_view_index(ps@);
            }
            if ps.len() != 2 {
                return None;
            }
            if !(str_eq(ps[0].0.as_str(), "linkUri") && str_eq(ps[1].0.as_str(), "label")) {
                return None;
            }
            match (&ps[0].1, &ps[1].1) {
                (JsonValue::Str(u), JsonValue::Str(l)) => Some(
                    ExternalLink { link_uri: u.clone(), label: l.clone() },
                ),
                _ => None,
            }
        },
        _ => None,
    }
}

/// Reads a video overlay back from its wire object.
pub fn decode_video(v: &JsonValue) -> (r: Option<Video>)
    ensures
        match r {
            Some(vd) => video_unwire(jv_view(*v)) == Some(vd@),
            None => video_unwire(jv_view(*v)) is None,
        },
{
    match v {
        JsonValue::Obj(ps) => {
            proof {
                lemma_obj_view_index(ps@);
            }
            if ps.len() != 4 {
                return None;
            }
            if !(str_eq(ps[0].0.as_str(), "originalContentUrl") && str_eq(
                ps[1].0.as_str(),
                "previewImageUrl",
            ) && str_eq(ps[2].0.as_str(), "area") && str_eq(ps[3].0.as_str(), "externalLink")) {
                return None;
            }
            let original_content_url: String = match &ps[0].1 {
                JsonValue::Str(t) => t.clone(),
                _ => {
                    return None;
                },
            };
            let preview_image_url: String = match &ps[1].1 {
                JsonValue::Str(t) => t.clone(),
                _ => {
                    return None;
                },
            };
            let area: Area = match decode_area(&ps[2].1) {
                Some(a) => a,
                None => {
                    return None;
                },
            };
            let external_link: ExternalLink = match decode_external_link(&ps[3].1) {
                Some(l) => l,
                None => {
                    return None;
                },
            };
            Some(Video { original_content_url, preview_image_url, area, external_link })
        },
        _ => None,
    }
}

/// Reads one clickable action back from its wire object.
pub fn decode_action(v: &JsonValue) -> (r: Option<Action>)
    ensures
        match r {
            Some(a) => action_unwire(jv_view(*v)) == Some(a@),
            None => action_unwire(jv_view(*v)) is None,
        },
{
    proof {
        reveal_strlit("uri");
        reveal_strlit("message");
        assert("uri"@.len() == 3);
        assert("message"@.len() == 7);
    }
    match v {
        JsonValue::Obj(ps) => {
            proof {
                lemma_obj_view_index(ps@);
            }
            if ps.len() != 4 {
                return None;
            }
            if !(str_eq(ps[0].0.as_str(), "type")) {
                return None;
            }
            let k: &String = match &ps[0].1 {
                JsonValue::Str(t) => t,
                _ => {
                    return None;
                },
            };
            if str_eq(k.as_str(), "uri") {
                if !(str_eq(ps[1].0.as_str(), "label") && str_eq(ps[2].0.as_str(), "linkUri")
                    && str_eq(ps[3].0.as_str(), "area")) {
                    return None;
                }
                let label: String = match &ps[1].1 {
                    JsonValue::Str(t) => t.clone(),
                    _ => {
                        return None;
                    },
                };
                let link_uri: String = match &ps[2].1 {
                    JsonValue::Str(t) => t.clone(),
                    _ => {
                        return None;
                    },
                };
                match decode_area(&ps[3].1) {
                    Some(area) => Some(Action::URI { label, link_uri, area }),
                    None => None,
                }
            } else if str_eq(k.as_str(), "message") {
                if !(str_eq(ps[1].0.as_str(), "label") && str_eq(ps[2].0.as_str(), "text")
                    && str_eq(ps[3].0.as_str(), "area")) {
                    return None;
                }
                let label: String = match &ps[1].1 {
                    JsonValue::Str(t) => t.clone(),
                    _ => {
                        return None;
                    },
                };
                let text: String = match &ps[2].1 {
                    JsonValue::Str(t) => t.clone(),
                    _ => {
                        return None;
                    },
                };
                match decode_area(&ps[3].1) {
                    Some(area) => Some(Action::Message { label, text, area }),
                    None => None,
                }
            } else {
                None
            }
        },
        _ => None,
    }
}

proof fn lemma_action_list_unwire_none(vs: Seq<JsonSpec>, i: int)
    requires
        0 <= i < vs.len(),
        action_unwire(vs[i]) is None,
    ensures
        action_list_unwire(vs) is None,
    decreases vs.len(),
{
    if i == vs.len() - 1 {
        assert(vs.last() == vs[i]);
    } else {
        assert(vs.drop_last()[i] == vs[i]);
        lemma_action_list_unwire_none(vs.drop_last(), i);
    }
}

/// Reads an action list back from its wire array.
pub fn decode_action_list(vs: &Vec<JsonValue>) -> (r: Option<Vec<Action>>)
    ensures
        match r {
            Some(list) => action_list_unwire(arr_view(vs@)) == Some(
                list@.map_values(|a: Action| a@),
            ),
            None => action_list_unwire(arr_view(vs@)) is None,
        },
{
    proof {
        lemma_arr_view_index(vs@);
    }
    let mut out: Vec<Action> = Vec::new();
    let n = vs.len();
    let mut i: usize = 0;
    while i < n
        invariant
            n == vs@.len(),
            i <= n,
            arr_view(vs@).len() == vs@.len(),
            forall|j: int| 0 <= j < vs@.len() ==> arr_view(vs@)[j] == jv_view(vs@[j]),
            action_list_unwire(arr_view(vs@).take(i as int)) == Some(
                out@.map_values(|a: Action| a@),
            ),
        decreases n - i,
    {
        match decode_action(&vs[i]) {
            Some(a) => {
                let ghost av = a@;
                out.push(a);
                proof {
                    let aw = arr_view(vs@);
                    assert(aw.take(i + 1).drop_last() =~= aw.take(i as int));
                    assert(aw.take(i + 1).last() == jv_view(vs@[i as int]));
                    assert(out@.map_values(|a: Action| a@) =~= out@.drop_last().map_values(
                        |a: Action| a@,
                    ).push(av));
                }
            },
            None => {
                proof {
                    lemma_action_list_unwire_none(arr_view(vs@), i as int);
                }
                return None;
            },
        }
        i += 1;
    }
    proof {
        assert(arr_view(vs@).take(n as int) =~= arr_view(vs@));
    }
    Some(out)
}

/// Reads the optional trailing `sender` pair beginning at `idx`.
fn decode_sender_tail(ps: &Vec<(String, JsonValue)>, idx: usize) -> (r: Option<Option<Sender>>)
    requires
        idx <= ps@.len(),
    ensures
        match r {
            Some(s) => sender_tail_unwire(obj_view(ps@).skip(idx as int)) == Some(
                sender_opt_view(s),
            ),
            None => sender_tail_unwire(obj_view(ps@).skip(idx as int)) is None,
        },
{
    proof {
        lemma_obj_view_index(ps@);
        if idx < ps@.len() {
            assert(obj_view(ps@).skip(idx as int)[0] == obj_view(ps@)[idx as int]);
        }
    }
    if ps.len() == idx {
        Some(None)
    } else if ps.len() == idx + 1 && str_eq(ps[idx].0.as_str(), "sender") {
        match decode_sender(&ps[idx].1) {
            Some(s) => Some(Some(s)),
            None => None,
        }
    } else {
        None
    }
}

fn decode_text(ps: &Vec<(String, JsonValue)>) -> (r: Option<Message>)
    ensures
        match r {
            Some(m) => text_unwire(obj_view(ps@)) == Some(m@),
            None => text_unwire(obj_view(ps@)) is None,
        },
{
    proof {
        lemma_obj_view_index(ps@);
    }
    let ghost sp = obj_view(ps@);
    if ps.len() < 2 {
        return None;
    }
    if !str_eq(ps[1].0.as_str(), "text") {
        return None;
    }
    let text: String = match &ps[1].1 {
        JsonValue::Str(t) => t.clone(),
        _ => {
            return None;
        },
    };
    proof {
        if sp.skip(2).len() > 0 {
            assert(sp.skip(2)[0] == sp[2]);
        }
    }
    if ps.len() > 2 && str_eq(ps[2].0.as_str(), "emojis") {
        match &ps[2].1 {
            JsonValue::Arr(vs) => match decode_emoji_list(vs) {
                Some(list) => {
                    proof {
                        assert(sp.skip(2).skip(1) =~= sp.skip(3));
                    }
                    let emojis = Some(Emojis { emojis: list });
                    match decode_sender_tail(ps, 3) {
                        Some(sender) => Some(Message::TextMessage { sender, text, emojis }),
                        None => None,
                    }
                },
                None => None,
            },
            _ => None,
        }
    } else {
        match decode_sender_tail(ps, 2) {
            Some(sender) => Some(Message::TextMessage { sender, text, emojis: None }),
            None => None,
        }
    }
}

fn decode_sticker(ps: &Vec<(String, JsonValue)>) -> (r: Option<Message>)
    ensures
        match r {
            Some(m) => sticker_unwire(obj_view(ps@)) == Some(m@),
            None => sticker_unwire(obj_view(ps@)) is None,
        },
{
    proof {
        lemma_obj_view_index(ps@);
    }
    if ps.len() < 3 {
        return None;
    }
    if !(str_eq(ps[1].0.as_str(), "packageId") && str_eq(ps[2].0.as_str(), "stickerId")) {
        return None;
    }
    let package_id: String = match &ps[1].1 {
        JsonValue::Str(t) => t.clone(),
        _ => {
            return None;
        },
    };
    let sticker_id: String = match &ps[2].1 {
        JsonValue::Str(t) => t.clone(),
        _ => {
            return None;
        },
    };
    match decode_sender_tail(ps, 3) {
        Some(sender) => Some(Message::StickerMessage { sender, package_id, sticker_id }),
        None => None,
    }
}

fn decode_two_urls(ps: &Vec<(String, JsonValue)>) -> (r: Option<(String, String, Option<Sender>)>)
    ensures
        match r {
            Some(t) => {
                &&& obj_view(ps@).len() >= 3
                &&& obj_view(ps@)[1].0 == "originalContentUrl"@
                &&& obj_view(ps@)[1].1 == JsonSpec::Str(t.0@)
                &&& obj_view(ps@)[2].0 == "previewImageUrl"@
                &&& obj_view(ps@)[2].1 == JsonSpec::Str(t.1@)
                &&& sender_tail_unwire(obj_view(ps@).skip(3)) == Some(sender_opt_view(t.2))
            },
            None => {
                ||| obj_view(ps@).len() < 3
                ||| obj_view(ps@)[1].0 != "originalContentUrl"@
                ||| !(obj_view(ps@)[1].1 is Str)
                ||| obj_view(ps@)[2].0 != "previewImageUrl"@
                ||| !(obj_view(ps@)[2].1 is Str)
                ||| sender_tail_unwire(obj_view(ps@).skip(3)) is None
            },
        },
{
    proof {
        lemma_obj_view_index(ps@);
    }
    if ps.len() < 3 {
        return None;
    }
    if !(str_eq(ps[1].0.as_str(), "originalContentUrl") && str_eq(
        ps[2].0.as_str(),
        "previewImageUrl",
    )) {
        return None;
    }
    let original_content_url: String = match &ps[1].1 {
        JsonValue::Str(t) => t.clone(),
        _ => {
            return None;
        },
    };
    let preview_image_url: String = match &ps[2].1 {
        JsonValue::Str(t) => t.clone(),
        _ => {
            return None;
        },
    };
    match decode_sender_tail(ps, 3) {
        Some(sender) => Some((original_content_url, preview_image_url, sender)),
        None => None,
    }
}

fn decode_audio(ps: &Vec<(String, JsonValue)>) -> (r: Option<Message>)
    ensures
        match r {
            Some(m) => audio_unwire(obj_view(ps@)) == Some(m@),
            None => audio_unwire(obj_view(ps@)) is None,
        },
{
    proof {
        lemma_obj_view_index(ps@);
    }
    if ps.len() < 3 {
        return None;
    }
    if !(str_eq(ps[1].0.as_str(), "originalContentUrl") && str_eq(
        ps[2].0.as_str(),
        "duration",
    )) {
        return None;
    }
    let original_content_url: String = match &ps[1].1 {
        JsonValue::Str(t) => t.clone(),
        _ => {
            return None;
        },
    };
    let duration: usize = match &ps[2].1 {
        JsonValue::UInt(n) => {
            if *n <= usize::MAX as u64 {
                *n as usize
            } else {
                return None;
            }
        },
        _ => {
            return None;
        },
    };
    match decode_sender_tail(ps, 3) {
        Some(sender) => Some(Message::AudioMessage { sender, original_content_url, duration }),
        None => None,
    }
}

fn decode_location(ps: &Vec<(String, JsonValue)>) -> (r: Option<Message>)
    ensures
        match r {
            Some(m) => location_unwire(obj_view(ps@)) == Some(m@),
            None => location_unwire(obj_view(ps@)) is None,
        },
{
    proof {
        lemma_obj_view_index(ps@);
    }
    if ps.len() < 5 {
        return None;
    }
    if !(str_eq(ps[1].0.as_str(), "title") && str_eq(ps[2].0.as_str(), "address") && str_eq(
        ps[3].0.as_str(),
        "latitude",
    ) && str_eq(ps[4].0.as_str(), "longitude")) {
        return None;
    }
    let title: String = match &ps[1].1 {
        JsonValue::Str(t) => t.clone(),
        _ => {
            return None;
        },
    };
    let address: String = match &ps[2].1 {
        JsonValue::Str(t) => t.clone(),
        _ => {
            return None;
        },
    };
    let latitude_micro: i64 = match &ps[3].1 {
        JsonValue::Micro(m) => *m,
        _ => {
            return None;
        },
    };
    let longitude_micro: i64 = match &ps[4].1 {
        JsonValue::Micro(m) => *m,
        _ => {
            return None;
        },
    };
    match decode_sender_tail(ps, 5) {
        Some(sender) => Some(
            Message::LocationMessage { sender, title, address, latitude_micro, longitude_micro },
        ),
        None => None,
    }
}

fn decode_imagemap(ps: &Vec<(String, JsonValue)>) -> (r: Option<Message>)
    ensures
        match r {
            Some(m) => imagemap_unwire(obj_view(ps@)) == Some(m@),
            None => imagemap_unwire(obj_view(ps@)) is None,
        },
{
    proof {
        lemma_obj_view_index(ps@);
    }
    let ghost sp = obj_view(ps@);
    if ps.len() < 4 {
        return None;
    }
    if !(str_eq(ps[1].0.as_str(), "baseUrl") && str_eq(ps[2].0.as_str(), "altText") && str_eq(
        ps[3].0.as_str(),
        "baseSize",
    )) {
        return None;
    }
    let base_url: String = match &ps[1].1 {
        JsonValue::Str(t) => t.clone(),
        _ => {
            return None;
        },
    };
    let alt_text: String = match &ps[2].1 {
        JsonValue::Str(t) => t.clone(),
        _ => {
            return None;
        },
    };
    let base_size: BaseSize = match decode_base_size(&ps[3].1) {
        Some(b) => b,
        None => {
            return None;
        },
    };
    proof {
        if sp.skip(4).len() > 0 {
            assert(sp.skip(4)[0] == sp[4]);
        }
    }
    let video: Option<Video>;
    let idx: usize;
    if ps.len() > 4 && str_eq(ps[4].0.as_str(), "video") {
        match decode_video(&ps[4].1) {
            Some(vd) => {
                video = Some(vd);
                idx = 5;
                proof {
                    assert(sp.skip(4).skip(1) =~= sp.skip(5));
                }
            },
            None => {
                return None;
            },
        }
    } else {
        video = None;
        idx = 4;
    }
    let ghost rest = sp.skip(idx as int);
    proof {
        if rest.len() > 0 {
            assert(rest[0] == sp[idx as int]);
        }
    }
    if !(ps.len() > idx && str_eq(ps[idx].0.as_str(), "actions")) {
        return None;
    }
    let actions_list: Vec<Action> = match &ps[idx].1 {
        JsonValue::Arr(vs) => match decode_action_list(vs) {
            Some(list) => list,
            None => {
                return None;
            },
        },
        _ => {
            return None;
        },
    };
    proof {
        assert(rest.skip(1) =~= sp.skip(idx + 1));
    }
    match decode_sender_tail(ps, idx + 1) {
        Some(sender) => Some(
            Message::ImagemapMessage {
                sender,
                base_url,
                alt_text,
                base_size,
                video,
                actions: Actions { actions: actions_list },
            },
        ),
        None => None,
    }
}

/// Reads a message back from its wire object; the derived `type`
/// discriminator selects the kind.  Returns `None` exactly when the
/// document does not match the wire schema of any kind.
pub fn message_from_json(v: &JsonValue) -> (r: Option<Message>)
    ensures
        match r {
            Some(m) => message_unwire(jv_view(*v)) == Some(m@),
            None => message_unwire(jv_view(*v)) is None,
        },
{
    let ps = match v {
        JsonValue::Obj(ps) => ps,
        _ => {
            return None;
        },
    };
    proof {
        lemma_obj_view_index(ps@);
    }
    if ps.len() < 1 {
        return None;
    }
    if !str_eq(ps[0].0.as_str(), "type") {
        return None;
    }
    let k: &String = match &ps[0].1 {
        JsonValue::Str(t) => t,
        _ => {
            return None;
        },
    };
    if str_eq(k.as_str(), "text") {
        decode_text(ps)
    } else if str_eq(k.as_str(), "sticker") {
        decode_sticker(ps)
    } else if str_eq(k.as_str(), "image") {
        match decode_two_urls(ps) {
            Some((original_content_url, preview_image_url, sender)) => Some(
                Message::ImageMessage { sender, original_content_url, preview_image_url },
            ),
            None => None,
        }
    } else if str_eq(k.as_str(), "video") {
        match decode_two_urls(ps) {
            Some((original_content_url, preview_image_url, sender)) => Some(
                Message::VideoMessage { sender, original_content_url, preview_image_url },
            ),
            None => None,
        }
    } else if str_eq(k.as_str(), "audio") {
        decode_audio(ps)
    } else if str_eq(k.as_str(), "location") {
        decode_location(ps)
    } else if str_eq(k.as_str(), "imagemap") {
        decode_imagemap(ps)
    } else {
        None
    }
}

/// Every numeric field of the message lies in the range its executable
/// field can hold; the view of any executable message satisfies this.
pub open spec fn message_in_range(m: MessageV) -> bool {
    match m {
        MessageV::Text { emojis, .. } => match emojis {
            Some(es) => forall|i: int|
                0 <= i < es.len() ==> uint_in_usize(#[trigger] es[i].index),
            None => true,
        },
        MessageV::Audio { duration, .. } => uint_in_usize(duration),
        MessageV::Location { latitude_micro, longitude_micro, .. } => {
            &&& -1000000000 <= latitude_micro <= 1000000000
            &&& -1000000000 <= longitude_micro <= 1000000000
        },
        MessageV::Imagemap { base_size, video, actions, .. } => {
            &&& base_size_in_range(base_size)
            &&& match video {
                Some(v) => area_in_range(v.area),
                None => true,
            }
            &&& forall|i: int| 0 <= i < actions.len() ==> action_in_range(#[trigger] actions[i])
        },
        _ => true,
    }
}

pub open spec fn area_in_range(a: AreaV) -> bool {
    uint_in_usize(a.x) && uint_in_usize(a.y) && uint_in_usize(a.width) && uint_in_usize(a.height)
}

pub open spec fn base_size_in_range(b: BaseSizeV) -> bool {
    uint_in_usize(b.width) && uint_in_usize(b.height)
}

pub open spec fn action_in_range(a: ActionV) -> bool {
    match a {
        ActionV::URI { area, .. } => area_in_range(area),
        ActionV::Message { area, .. } => area_in_range(area),
    }
}

/// The view of every executable message that satisfies the data-model
/// invariant lies in range, so the round-trip law applies to it.
pub proof fn lemma_view_in_range(m: Message)
    requires
        message_wf(m@),
    ensures
        message_in_range(m@),
{
    match m {
        Message::TextMessage { emojis, .. } => {
            match emojis {
                Some(es) => {
                    let esv = es@;
                    assert forall|i: int| 0 <= i < esv.len() implies uint_in_usize(
                        #[trigger] esv[i].index,
                    ) by {
                        assert(esv[i] == es.emojis@[i]@);
                    }
                },
                None => {},
            }
        },
        Message::ImagemapMessage { base_size, video, actions, .. } => {
            let av = actions@;
            assert forall|i: int| 0 <= i < av.len() implies action_in_range(
                #[trigger] av[i],
            ) by {
                assert(av[i] == actions.actions@[i]@);
            }
        },
        _ => {},
    }
}

proof fn lemma_sender_round_trip(s: SenderV)
    ensures
        sender_unwire(sender_wire(s)) == Some(s),
{
    reveal_strlit("name");
    reveal_strlit("iconUrl");
    assert("name"@.len() == 4);
    assert("iconUrl"@.len() == 7);
    let ps = sender_wire(s)->Obj_0;
    match s.name {
        Some(n) => match s.icon_url {
            Some(u) => {
                assert(ps =~= seq![("name"@, JsonSpec::Str(n)), ("iconUrl"@, JsonSpec::Str(u))]);
            },
            None => {
                assert(ps =~= seq![("name"@, JsonSpec::Str(n))]);
            },
        },
        None => match s.icon_url {
            Some(u) => {
                assert(ps =~= seq![("iconUrl"@, JsonSpec::Str(u))]);
                assert("iconUrl"@ != "name"@);
            },
            None => {
                assert(ps =~= Seq::<(Seq<char>, JsonSpec)>::empty());
            },
        },
    }
}

proof fn lemma_emoji_round_trip(e: EmojiV)
    requires
        uint_in_usize(e.index),
    ensures
        emoji_unwire(emoji_wire(e)) == Some(e),
{
}

proof fn lemma_emoji_list_round_trip(es: Seq<EmojiV>)
    requires
        forall|i: int| 0 <= i < es.len() ==> uint_in_usize(#[trigger] es[i].index),
    ensures
        emoji_list_unwire(es.map_values(|e: EmojiV| emoji_wire(e))) == Some(es),
    decreases es.len(),
{
    let ws = es.map_values(|e: EmojiV| emoji_wire(e));
    if es.len() == 0 {
        assert(ws =~= Seq::<JsonSpec>::empty());
        assert(es =~= Seq::<EmojiV>::empty());
    } else {
        lemma_emoji_list_round_trip(es.drop_last());
        assert(ws.drop_last() =~= es.drop_last().map_values(|e: EmojiV| emoji_wire(e)));
        assert(ws.last() == emoji_wire(es.last()));
        lemma_emoji_round_trip(es.last());
        assert(es.drop_last().push(es.last()) =~= es);
    }
}

proof fn lemma_area_round_trip(a: AreaV)
    requires
        area_in_range(a),
    ensures
        area_unwire(area_wire(a)) == Some(a),
{
    reveal_strlit("x");
    reveal_strlit("y");
    reveal_strlit("width");
    reveal_strlit("height");
}

proof fn lemma_video_round_trip(v: VideoV)
    requires
        area_in_range(v.area),
    ensures
        video_unwire(video_wire(v)) == Some(v),
{
    lemma_area_round_trip(v.area);
}

proof fn lemma_action_round_trip(a: ActionV)
    requires
        action_in_range(a),
    ensures
        action_unwire(action_wire(a)) == Some(a),
{
    reveal_strlit("uri");
    reveal_strlit("message");
    assert("uri"@.len() == 3);
    assert("message"@.len() == 7);
    match a {
        ActionV::URI { area, .. } => {
            lemma_area_round_trip(area);
        },
        ActionV::Message { area, .. } => {
            lemma_area_round_trip(area);
        },
    }
}

proof fn lemma_action_list_round_trip(ax: Seq<ActionV>)
    requires
        forall|i: int| 0 <= i < ax.len() ==> action_in_range(#[trigger] ax[i]),
    ensures
        action_list_unwire(ax.map_values(|a: ActionV| action_wire(a))) == Some(ax),
    decreases ax.len(),
{
    let ws = ax.map_values(|a: ActionV| action_wire(a));
    if ax.len() == 0 {
        assert(ws =~= Seq::<JsonSpec>::empty());
        assert(ax =~= Seq::<ActionV>::empty());
    } else {
        lemma_action_list_round_trip(ax.drop_last());
        assert(ws.drop_last() =~= ax.drop_last().map_values(|a: ActionV| action_wire(a)));
        assert(ws.last() == action_wire(ax.last()));
        lemma_action_round_trip(ax.last());
        assert(ax.drop_last().push(ax.last()) =~= ax);
    }
}

proof fn lemma_sender_tail_round_trip(s: Option<SenderV>)
    ensures
        sender_tail_unwire(sender_field(s)) == Some(s),
{
    reveal_strlit("sender");
    match s {
        Some(sv) => {
            lemma_sender_round_trip(sv);
            assert(sender_field(s)[0].0 == "sender"@);
        },
        None => {
            assert(sender_field(s).len() == 0);
        },
    }
}

/// Serializing a message through the wire schema and reading it back yields
/// the same message, field for field, for each of the seven kinds.
pub proof fn lemma_message_round_trip(m: MessageV)
    requires
        message_in_range(m),
    ensures
        message_unwire(message_wire(m)) == Some(m),
{
    reveal_strlit("type");
    reveal_strlit("text");
    reveal_strlit("sticker");
    reveal_strlit("image");
    reveal_strlit("video");
    reveal_strlit("audio");
    reveal_strlit("location");
    reveal_strlit("imagemap");
    reveal_strlit("sender");
    reveal_strlit("emojis");
    reveal_strlit("packageId");
    reveal_strlit("stickerId");
    reveal_strlit("originalContentUrl");
    reveal_strlit("previewImageUrl");
    reveal_strlit("duration");
    reveal_strlit("title");
    reveal_strlit("address");
    reveal_strlit("latitude");
    reveal_strlit("longitude");
    reveal_strlit("baseUrl");
    reveal_strlit("altText");
    reveal_strlit("baseSize");
    reveal_strlit("actions");
    assert("text"@.len() == 4);
    assert("sticker"@.len() == 7);
    assert("image"@.len() == 5);
    assert("video"@.len() == 5);
    assert("audio"@.len() == 5);
    assert("location"@.len() == 8);
    assert("imagemap"@.len() == 8);
    assert("image"@[0] == 'i');
    assert("video"@[0] == 'v');
    assert("audio"@[0] == 'a');
    assert("location"@[0] == 'l');
    assert("imagemap"@[0] == 'i');
    assert("sender"@.len() == 6);
    assert("emojis"@.len() == 6);
    assert("sender"@[0] == 's');
    assert("emojis"@[0] == 'e');
    assert("actions"@.len() == 7);
    assert("video"@ != "image"@);
    assert("audio"@ != "image"@);
    assert("audio"@ != "video"@);
    assert("imagemap"@ != "location"@);
    assert("sender"@ != "emojis"@);
    let ps = message_wire(m)->Obj_0;
    match m {
        MessageV::Text { sender, text, emojis } => {
            match emojis {
                Some(es) => {
                    lemma_emoji_list_round_trip(es);
                    assert(ps.skip(2) =~= emojis_field(emojis) + sender_field(sender));
                    assert(ps.skip(2)[0].0 == "emojis"@);
                    assert(ps.skip(2).skip(1) =~= sender_field(sender));
                },
                None => {
                    assert(ps.skip(2) =~= sender_field(sender));
                    match sender {
                        Some(sv) => {
                            assert(ps.skip(2)[0].0 == "sender"@);
                            assert("sender"@ != "emojis"@);
                        },
                        None => {},
                    }
                },
            }
            lemma_sender_tail_round_trip(sender);
        },
        MessageV::Sticker { sender, .. } => {
            assert(ps.skip(3) =~= sender_field(sender));
            lemma_sender_tail_round_trip(sender);
            assert("sticker"@ != "text"@);
        },
        MessageV::Image { sender, .. } => {
            assert(ps.skip(3) =~= sender_field(sender));
            lemma_sender_tail_round_trip(sender);
        },
        MessageV::Video { sender, .. } => {
            assert(ps.skip(3) =~= sender_field(sender));
            lemma_sender_tail_round_trip(sender);
        },
        MessageV::Audio { sender, .. } => {
            assert(ps.skip(3) =~= sender_field(sender));
            lemma_sender_tail_round_trip(sender);
        },
        MessageV::Location { sender, .. } => {
            assert(ps.skip(5) =~= sender_field(sender));
            lemma_sender_tail_round_trip(sender);
        },
        MessageV::Imagemap { sender, base_size, video, actions, .. } => {
            lemma_action_list_round_trip(actions);
            match video {
                Some(vv) => {
                    lemma_video_round_trip(vv);
                    assert(ps.skip(4) =~= video_field(video) + seq![
                        ("actions"@, JsonSpec::Arr(actions.map_values(|a: ActionV| action_wire(a)))),
                    ] + sender_field(sender));
                    assert(ps.skip(4)[0].0 == "video"@);
                    assert(ps.skip(4).skip(1)[0].0 == "actions"@);
                    assert(ps.skip(4).skip(1).skip(1) =~= sender_field(sender));
                },
                None => {
                    assert(ps.skip(4) =~= seq![
                        ("actions"@, JsonSpec::Arr(actions.map_values(|a: ActionV| action_wire(a)))),
                    ] + sender_field(sender));
                    assert("actions"@ != "video"@);
                    assert(ps.skip(4)[0].0 == "actions"@);
                    assert(ps.skip(4).skip(1) =~= sender_field(sender));
                },
            }
            lemma_sender_tail_round_trip(sender);
        },
    }
}

} // verus!
