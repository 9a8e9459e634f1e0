//! The content variants a post can carry (chat, image, poll) and their
//! stored JSON form.
//!
//! A payload is stored as the JSON object `{ "<Variant>": { ... } }`.
//! Decoding accepts exactly the shapes that encoding writes, with every text
//! field validated; anything else is a `ContentDecodeError`. Poll tallies
//! and the viewer's vote are never stored: they are computed when a post is
//! read.

use vstd::prelude::*;

use crate::domain::{
    valid_caption, valid_headline, valid_message, valid_poll_choice, valid_poll_headline, Caption,
    Headline, Message, PollChoiceDescription, PollHeadline,
};
use crate::ids::{parse_uuid, uuid_parse, ImageId, PollChoiceId};
use crate::json::{get_field, lookup, single_entry, text, text_eq, Json};

verus! {

/// A chat post: an optional headline and a message.
#[derive(Debug)]
pub struct Chat {
    pub headline: Option<Headline>,
    pub message: Message,
}

/// Where an image is: an inline data URL as uploaded, the id of the stored
/// blob, or the public link to it.
#[derive(Debug)]
pub enum ImageKind {
    DataUrl(String),
    Id(ImageId),
    Url(String),
}

/// An image post: an optional caption and the image.
#[derive(Debug)]
pub struct Image {
    pub caption: Option<Caption>,
    pub kind: ImageKind,
}

/// One choice of a poll with its tally.
#[derive(Debug)]
pub struct PollChoice {
    pub id: PollChoiceId,
    pub num_votes: u64,
    pub description: PollChoiceDescription,
}

/// A poll post: its question, its choices, and the choice the viewer voted
/// for, if any.
#[derive(Debug)]
pub struct Poll {
    pub headline: PollHeadline,
    pub choices: Vec<PollChoice>,
    pub voted: Option<PollChoiceId>,
}

/// The payload of a post.
#[derive(Debug)]
pub enum Content {
    Chat(Chat),
    Image(Image),
    Poll(Poll),
}

impl From<Chat> for Content {
    fn from(value: Chat) -> (r: Content) {
        Content::Chat(value)
    }
}

impl vstd::std_specs::convert::FromSpecImpl<Chat> for Content {
    open spec fn obeys_from_spec() -> bool {
        true
    }

    open spec fn from_spec(v: Chat) -> Content {
        Content::Chat(v)
    }
}

/// The stored payload matches none of the known shapes.
#[derive(Clone, Copy, Debug, PartialEq, Eq, Structural)]
pub struct ContentDecodeError;

pub enum ImageKindView {
    DataUrl(Seq<char>),
    Id(u128),
    Url(Seq<char>),
}

pub struct PollChoiceView {
    pub id: u128,
    pub num_votes: u64,
    pub description: Seq<char>,
}

/// A content variant as plain values.
pub enum ContentView {
    Chat { headline: Option<Seq<char>>, message: Seq<char> },
    Image { caption: Option<Seq<char>>, kind: ImageKindView },
    Poll { headline: Seq<char>, choices: Seq<PollChoiceView>, voted: Option<u128> },
}

pub open spec fn headline_view(h: Option<Headline>) -> Option<Seq<char>> {
    match h {
        Some(t) => Some(t@),
        None => None,
    }
}

pub open spec fn caption_view(c: Option<Caption>) -> Option<Seq<char>> {
    match c {
        Some(t) => Some(t@),
        None => None,
    }
}

pub open spec fn choice_id_view(c: Option<PollChoiceId>) -> Option<u128> {
    match c {
        Some(t) => Some(t@),
        None => None,
    }
}

impl View for ImageKind {
    type V = ImageKindView;

    open spec fn view(&self) -> ImageKindView {
        match self {
            ImageKind::DataUrl(d) => ImageKindView::DataUrl(d@),
            ImageKind::Id(id) => ImageKindView::Id(id@),
            ImageKind::Url(u) => ImageKindView::Url(u@),
        }
    }
}

impl View for PollChoice {
    type V = PollChoiceView;

    open spec fn view(&self) -> PollChoiceView {
        PollChoiceView { id: self.id@, num_votes: self.num_votes, description: self.description@ }
    }
}

pub open spec fn choices_view(choices: Seq<PollChoice>) -> Seq<PollChoiceView> {
    choices.map_values(|c: PollChoice| c@)
}

impl View for Content {
    type V = ContentView;

    open spec fn view(&self) -> ContentView {
        match self {
            Content::Chat(c) => ContentView::Chat {
                headline: headline_view(c.headline),
                message: c.message@,
            },
            Content::Image(i) => ContentView::Image { caption: caption_view(i.caption), kind: i.kind@ },
            Content::Poll(p) => ContentView::Poll {
                headline: p.headline@,
                choices: choices_view(p.choices@),
                voted: choice_id_view(p.voted),
            },
        }
    }
}

/// A content view as it is stored: poll tallies 0, no viewer vote.
pub open spec fn stored_view(c: ContentView) -> ContentView {
    match c {
        ContentView::Poll { headline, choices, voted } => ContentView::Poll {
            headline,
            choices: choices.map_values(
                |ch: PollChoiceView| PollChoiceView { num_votes: 0, ..ch },
            ),
            voted: None,
        },
        _ => c,
    }
}

/// A required text field.
pub open spec fn decode_text(v: Option<Json>) -> Option<Seq<char>> {
    match v {
        Some(Json::Str(s)) => Some(s@),
        _ => None,
    }
}

/// An optional text field: absent or null is `None`.
pub open spec fn decode_opt_text(v: Option<Json>) -> Option<Option<Seq<char>>> {
    match v {
        None => Some(None),
        Some(Json::Null) => Some(None),
        Some(Json::Str(s)) => Some(Some(s@)),
        _ => None,
    }
}

/// A UUID written as text.
pub open spec fn decode_uuid(v: Option<Json>) -> Option<u128> {
    match decode_text(v) {
        Some(t) => uuid_parse(t),
        None => None,
    }
}

pub open spec fn decode_chat(body: Json) -> Option<ContentView> {
    match body {
        Json::Obj(f) => match (
            decode_opt_text(lookup(f@, "headline"@)),
            decode_text(lookup(f@, "message"@)),
        ) {
            (Some(h), Some(m)) => if (h matches Some(t) ==> valid_headline(t)) && valid_message(m) {
                Some(ContentView::Chat { headline: h, message: m })
            } else {
                None
            },
            _ => None,
        },
        _ => None,
    }
}

pub open spec fn decode_kind(v: Option<Json>) -> Option<ImageKindView> {
    match v {
        Some(Json::Obj(f)) => if f@.len() == 1 {
            let tag = f@[0].0@;
            let value = Some(f@[0].1);
            if tag == "DataUrl"@ {
                match decode_text(value) {
                    Some(d) => Some(ImageKindView::DataUrl(d)),
                    None => None,
                }
            } else if tag == "Id"@ {
                match decode_uuid(value) {
                    Some(id) => Some(ImageKindView::Id(id)),
                    None => None,
                }
            } else if tag == "Url"@ {
                match decode_text(value) {
                    Some(u) => Some(ImageKindView::Url(u)),
                    None => None,
                }
            } else {
                None
            }
        } else {
            None
        },
        _ => None,
    }
}

pub open spec fn decode_image(body: Json) -> Option<ContentView> {
    match body {
        Json::Obj(f) => match (
            decode_opt_text(lookup(f@, "caption"@)),
            decode_kind(lookup(f@, "kind"@)),
        ) {
            (Some(c), Some(k)) => if c matches Some(t) ==> valid_caption(t) {
                Some(ContentView::Image { caption: c, kind: k })
            } else {
                None
            },
            _ => None,
        },
        _ => None,
    }
}

pub open spec fn decode_choice(j: Json) -> Option<PollChoiceView> {
    match j {
        Json::Obj(f) => match (
            decode_uuid(lookup(f@, "id"@)),
            decode_text(lookup(f@, "description"@)),
        ) {
            (Some(id), Some(d)) => if valid_poll_choice(d) {
                Some(PollChoiceView { id, num_votes: 0, description: d })
            } else {
                None
            },
            _ => None,
        },
        _ => None,
    }
}

pub open spec fn decode_choices(items: Seq<Json>) -> Option<Seq<PollChoiceView>>
    decreases items.len(),
{
    if items.len() == 0 {
        Some(Seq::empty())
    } else {
        match (decode_choices(items.drop_last()), decode_choice(items.last())) {
            (Some(init), Some(c)) => Some(init.push(c)),
            _ => None,
        }
    }
}

/// A poll's choices are decoded as stored, in order; their ids are not
/// checked for distinctness, so tallies add up to the votes on the post only
/// where the ids are distinct (see `laws::lemma_poll_tallies_sum`).
pub open spec fn decode_poll(body: Json) -> Option<ContentView> {
    match body {
        Json::Obj(f) => match (decode_text(lookup(f@, "headline"@)), lookup(f@, "choices"@)) {
            (Some(h), Some(Json::Arr(items))) => if valid_poll_headline(h) {
                match decode_choices(items@) {
                    Some(cs) => Some(ContentView::Poll { headline: h, choices: cs, voted: None }),
                    None => None,
                }
            } else {
                None
            },
            _ => None,
        },
        _ => None,
    }
}

/// The content a stored payload holds, if it has one of the known shapes.
pub open spec fn decode_content(j: Json) -> Option<ContentView> {
    match j {
        Json::Obj(f) => if f@.len() == 1 {
            let tag = f@[0].0@;
            let body = f@[0].1;
            if tag == "Chat"@ {
                decode_chat(body)
            } else if tag == "Image"@ {
                decode_image(body)
            } else if tag == "Poll"@ {
                decode_poll(body)
            } else {
                None
            }
        } else {
            None
        },
        _ => None,
    }
}

/// A required text field of an object.
fn field_text<'a>(fields: &'a Vec<(String, Json)>, key: &str) -> (r: Option<&'a String>)
    ensures
        match decode_text(lookup(fields@, key@)) {
            Some(t) => r matches Some(s) && s@ == t,
            None => r is None,
        },
{
    match get_field(fields, key) {
        Some(Json::Str(s)) => Some(s),
        _ => None,
    }
}

/// An optional text field of an object: absent or null is `None`.
fn field_opt_text<'a>(fields: &'a Vec<(String, Json)>, key: &str) -> (r: Result<
    Option<&'a String>,
    ContentDecodeError,
>)
    ensures
        match decode_opt_text(lookup(fields@, key@)) {
            Some(Some(t)) => r matches Ok(Some(s)) && s@ == t,
            Some(None) => r matches Ok(None),
            None => r is Err,
        },
{
    match get_field(fields, key) {
        None => Ok(None),
        Some(Json::Null) => Ok(None),
        Some(Json::Str(s)) => Ok(Some(s)),
        Some(_) => Err(ContentDecodeError),
    }
}

/// A UUID field of an object.
fn field_uuid(fields: &Vec<(String, Json)>, key: &str) -> (r: Option<u128>)
    ensures
        r == decode_uuid(lookup(fields@, key@)),
{
    match field_text(fields, key) {
        Some(t) => parse_uuid(t.as_str()),
        None => None,
    }
}

fn decode_chat_body(body: &Json) -> (r: Result<Chat, ContentDecodeError>)
    ensures
        match decode_chat(*body) {
            Some(v) => r matches Ok(c) && (Content::Chat(c))@ == v,
            None => r is Err,
        },
{
    let fields = match body {
        Json::Obj(f) => f,
        _ => return Err(ContentDecodeError),
    };
    let headline = match field_opt_text(fields, "headline") {
        Ok(Some(h)) => match Headline::new(h.clone()) {
            Ok(h) => Some(h),
            Err(_) => return Err(ContentDecodeError),
        },
        Ok(None) => None,
        Err(e) => return Err(e),
    };
    let message = match field_text(fields, "message") {
        Some(m) => match Message::new(m.clone()) {
            Ok(m) => m,
            Err(_) => return Err(ContentDecodeError),
        },
        None => return Err(ContentDecodeError),
    };
    Ok(Chat { headline, message })
}

fn decode_kind_value(v: Option<&Json>) -> (r: Result<ImageKind, ContentDecodeError>)
    ensures
        match decode_kind(
            match v {
                Some(j) => Some(*j),
                None => None,
            },
        ) {
            Some(k) => r matches Ok(x) && x@ == k,
            None => r is Err,
        },
{
    let fields = match v {
        Some(Json::Obj(f)) => f,
        _ => return Err(ContentDecodeError),
    };
    if fields.len() != 1 {
        return Err(ContentDecodeError);
    }
    let tag = &fields[0].0;
    let value = match &fields[0].1 {
        Json::Str(s) => s,
        _ => return Err(ContentDecodeError),
    };
    if text_eq(tag, "DataUrl") {
        Ok(ImageKind::DataUrl(value.clone()))
    } else if text_eq(tag, "Id") {
        match parse_uuid(value.as_str()) {
            Some(n) => Ok(ImageKind::Id(ImageId::from_u128(n))),
            None => Err(ContentDecodeError),
        }
    } else if text_eq(tag, "Url") {
        Ok(ImageKind::Url(value.clone()))
    } else {
        Err(ContentDecodeError)
    }
}

fn decode_image_body(body: &Json) -> (r: Result<Image, ContentDecodeError>)
    ensures
        match decode_image(*body) {
            Some(v) => r matches Ok(i) && (Content::Image(i))@ == v,
            None => r is Err,
        },
{
    let fields = match body {
        Json::Obj(f) => f,
        _ => return Err(ContentDecodeError),
    };
    let caption = match field_opt_text(fields, "caption") {
        Ok(Some(c)) => match Caption::new(c.clone()) {
            Ok(c) => Some(c),
            Err(_) => return Err(ContentDecodeError),
        },
        Ok(None) => None,
        Err(e) => return Err(e),
    };
    let kind = match decode_kind_value(get_field(fields, "kind")) {
        Ok(k) => k,
        Err(e) => return Err(e),
    };
    Ok(Image { caption, kind })
}

fn decode_choice_value(j: &Json) -> (r: Result<PollChoice, ContentDecodeError>)
    ensures
        match decode_choice(*j) {
            Some(v) => r matches Ok(c) && c@ == v,
            None => r is Err,
        },
{
    let fields = match j {
        Json::Obj(f) => f,
        _ => return Err(ContentDecodeError),
    };
    let id = match field_uuid(fields, "id") {
        Some(n) => PollChoiceId::from_u128(n),
        None => return Err(ContentDecodeError),
    };
    let description = match field_text(fields, "description") {
        Some(d) => match PollChoiceDescription::new(d.clone()) {
            Ok(d) => d,
            Err(_) => return Err(ContentDecodeError),
        },
        None => return Err(ContentDecodeError),
    };
    Ok(PollChoice { id, num_votes: 0, description })
}

/// A list whose first `i` items do not decode does not decode.
proof fn lemma_decode_choices_prefix(items: Seq<Json>, i: int)
    requires
        0 <= i <= items.len(),
        decode_choices(items.subrange(0, i)) is None,
    ensures
        decode_choices(items) is None,
    decreases items.len() - i,
{
    if i < items.len() {
        assert(items.subrange(0, i + 1).drop_last() == items.subrange(0, i));
        lemma_decode_choices_prefix(items, i + 1);
    } else {
        assert(items.subrange(0, i) == items);
    }
}

fn decode_choice_list(items: &Vec<Json>) -> (r: Result<Vec<PollChoice>, ContentDecodeError>)
    ensures
        match decode_choices(items@) {
            Some(cs) => r matches Ok(v) && choices_view(v@) == cs,
            None => r is Err,
        },
{
    let mut out: Vec<PollChoice> = Vec::new();
    let mut i: usize = 0;
    while i < items.len()
        invariant
            i <= items@.len(),
            decode_choices(items@.subrange(0, i as int)) == Some(choices_view(out@)),
        decreases items@.len() - i,
    {
        assert(items@.subrange(0, i + 1).drop_last() == items@.subrange(0, i as int));
        assert(items@.subrange(0, i + 1).last() == items@[i as int]);
        match decode_choice_value(&items[i]) {
            Ok(c) => {
                let ghost before = out@;
                out.push(c);
                assert(choices_view(out@) == choices_view(before).push(c@));
            },
            Err(e) => {
                proof {
                    lemma_decode_choices_prefix(items@, i + 1);
                }
                return Err(e);
            },
        }
        i = i + 1;
    }
    assert(items@.subrange(0, items@.len() as int) == items@);
    Ok(out)
}

fn decode_poll_body(body: &Json) -> (r: Result<Poll, ContentDecodeError>)
    ensures
        match decode_poll(*body) {
            Some(v) => r matches Ok(p) && (Content::Poll(p))@ == v,
            None => r is Err,
        },
{
    let fields = match body {
        Json::Obj(f) => f,
        _ => return Err(ContentDecodeError),
    };
    let headline = match field_text(fields, "headline") {
        Some(h) => match PollHeadline::new(h.clone()) {
            Ok(h) => h,
            Err(_) => return Err(ContentDecodeError),
        },
        None => return Err(ContentDecodeError),
    };
    let choices = match get_field(fields, "choices") {
        Some(Json::Arr(items)) => match decode_choice_list(items) {
            Ok(cs) => cs,
            Err(e) => return Err(e),
        },
        _ => return Err(ContentDecodeError),
    };
    Ok(Poll { headline, choices, voted: None })
}

/// Tallies reset, as choices are stored.
pub open spec fn stored_choices(cs: Seq<PollChoiceView>) -> Seq<PollChoiceView> {
    cs.map_values(|ch: PollChoiceView| PollChoiceView { num_votes: 0, ..ch })
}

/// A two-entry object `{ k1: v1, k2: v2 }`.
fn two_entries(k1: &str, v1: Json, k2: &str, v2: Json) -> (r: Json)
    ensures
        r matches Json::Obj(f) && f@.len() == 2 && f@[0].0@ == k1@ && f@[0].1 == v1 && f@[1].0@
            == k2@ && f@[1].1 == v2,
{
    let mut fields: Vec<(String, Json)> = Vec::new();
    fields.push((k1.to_owned(), v1));
    fields.push((k2.to_owned(), v2));
    Json::Obj(fields)
}

/// Where the first key differs from the second, lookups in a two-entry
/// object find each value under its key.
proof fn lemma_two_entries(f: Seq<(String, Json)>)
    requires
        f.len() == 2,
        f[0].0@ != f[1].0@,
    ensures
        lookup(f, f[0].0@) == Some(f[0].1),
        lookup(f, f[1].0@) == Some(f[1].1),
{
    reveal_with_fuel(lookup, 3);
    assert(f.drop_first()[0] == f[1]);
}

fn encode_chat(c: &Chat) -> (r: Json)
    ensures
        decode_chat(r) == Some((Content::Chat(*c))@),
{
    let headline = match &c.headline {
        Some(h) => text(h.as_str()),
        None => Json::Null,
    };
    let message = text(c.message.as_str());
    let r = two_entries("headline", headline, "message", message);
    proof {
        reveal_strlit("headline");
        reveal_strlit("message");
        assert("headline"@[0] != "message"@[0]);
        lemma_two_entries(r->Obj_0@);
    }
    r
}

fn encode_kind(k: &ImageKind) -> (r: Json)
    ensures
        decode_kind(Some(r)) == Some(k@),
{
    proof {
        reveal_strlit("DataUrl");
        reveal_strlit("Id");
        reveal_strlit("Url");
        assert("DataUrl"@[0] != "Id"@[0] && "DataUrl"@[0] != "Url"@[0] && "Id"@[0] != "Url"@[0]);
    }
    match k {
        ImageKind::DataUrl(d) => single_entry("DataUrl", text(d.as_str())),
        ImageKind::Id(id) => single_entry("Id", Json::Str(id.to_string())),
        ImageKind::Url(u) => single_entry("Url", text(u.as_str())),
    }
}

fn encode_image(i: &Image) -> (r: Json)
    ensures
        decode_image(r) == Some((Content::Image(*i))@),
{
    let caption = match &i.caption {
        Some(c) => text(c.as_str()),
        None => Json::Null,
    };
    let kind = encode_kind(&i.kind);
    let r = two_entries("caption", caption, "kind", kind);
    proof {
        reveal_strlit("caption");
        reveal_strlit("kind");
        assert("caption"@[0] != "kind"@[0]);
        lemma_two_entries(r->Obj_0@);
    }
    r
}

fn encode_choice(c: &PollChoice) -> (r: Json)
    ensures
        decode_choice(r) == Some(PollChoiceView { num_votes: 0, ..c@ }),
{
    let id = Json::Str(c.id.to_string());
    let description = text(c.description.as_str());
    let r = two_entries("id", id, "description", description);
    proof {
        reveal_strlit("id");
        reveal_strlit("description");
        assert("id"@[0] != "description"@[0]);
        lemma_two_entries(r->Obj_0@);
    }
    r
}

fn encode_poll(p: &Poll) -> (r: Json)
    ensures
        decode_poll(r) == Some(stored_view((Content::Poll(*p))@)),
{
    let mut items: Vec<Json> = Vec::new();
    let mut i: usize = 0;
    while i < p.choices.len()
        invariant
            i <= p.choices@.len(),
            decode_choices(items@) == Some(
                stored_choices(choices_view(p.choices@.subrange(0, i as int))),
            ),
        decreases p.choices@.len() - i,
    {
        let item = encode_choice(&p.choices[i]);
        let ghost before = items@;
        items.push(item);
        assert(items@.drop_last() == before);
        assert(stored_choices(choices_view(p.choices@.subrange(0, i + 1))) == stored_choices(
            choices_view(p.choices@.subrange(0, i as int)),
        ).push(PollChoiceView { num_votes: 0, ..p.choices@[i as int]@ }));
        i = i + 1;
    }
    assert(p.choices@.subrange(0, p.choices@.len() as int) == p.choices@);
    let r = two_entries("headline", text(p.headline.as_str()), "choices", Json::Arr(items));
    proof {
        reveal_strlit("headline");
        reveal_strlit("choices");
        assert("headline"@[0] != "choices"@[0]);
        lemma_two_entries(r->Obj_0@);
        assert(stored_choices(choices_view(p.choices@)) == choices_view(p.choices@).map_values(
            |ch: PollChoiceView| PollChoiceView { num_votes: 0, ..ch },
        ));
    }
    r
}

impl Content {
    /// The stored form of this content, which `from_json` reads back as the
    /// same content with poll tallies 0 and no viewer vote.
    pub fn to_json(&self) -> (r: Json)
        ensures
            decode_content(r) == Some(stored_view(self@)),
    {
        proof {
            reveal_strlit("Chat");
            reveal_strlit("Image");
            reveal_strlit("Poll");
            assert("Chat"@[0] != "Image"@[0] && "Chat"@[0] != "Poll"@[0] && "Image"@[0] != "Poll"@[0]);
        }
        match self {
            Content::Chat(c) => single_entry("Chat", encode_chat(c)),
            Content::Image(i) => single_entry("Image", encode_image(i)),
            Content::Poll(p) => single_entry("Poll", encode_poll(p)),
        }
    }

    /// Decodes a stored payload; `ContentDecodeError` where it has none of
    /// the known shapes or a text in it is not valid for its field.
    pub fn from_json(j: &Json) -> (r: Result<Content, ContentDecodeError>)
        ensures
            match decode_content(*j) {
                Some(v) => r matches Ok(c) && c@ == v,
                None => r == Err::<Content, ContentDecodeError>(ContentDecodeError),
            },
    {
        let fields = match j {
            Json::Obj(f) => f,
            _ => return Err(ContentDecodeError),
        };
        if fields.len() != 1 {
            return Err(ContentDecodeError);
        }
        let tag = &fields[0].0;
        let body = &fields[0].1;
        if text_eq(tag, "Chat") {
            match decode_chat_body(body) {
                Ok(c) => Ok(Content::Chat(c)),
                Err(e) => Err(e),
            }
        } else if text_eq(tag, "Image") {
            match decode_image_body(body) {
                Ok(i) => Ok(Content::Image(i)),
                Err(e) => Err(e),
            }
        } else if text_eq(tag, "Poll") {
            match decode_poll_body(body) {
                Ok(p) => Ok(Content::Poll(p)),
                Err(e) => Err(e),
            }
        } else {
            Err(ContentDecodeError)
        }
    }
}

} // verus!
