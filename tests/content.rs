use uchat::content::{Chat, Content, ContentDecodeError, Image, ImageKind, Poll, PollChoice};
use uchat::domain::{Caption, Headline, Message, PollChoiceDescription, PollHeadline};
use uchat::ids::{ImageId, PollChoiceId};
use uchat::json::Json;

fn obj(entries: Vec<(&str, Json)>) -> Json {
    Json::Obj(entries.into_iter().map(|(k, v)| (k.to_string(), v)).collect())
}

fn s(t: &str) -> Json {
    Json::Str(t.to_string())
}

fn chat(headline: Option<&str>, message: &str) -> Content {
    Content::Chat(Chat {
        headline: headline.map(|h| Headline::new(h.to_string()).unwrap()),
        message: Message::new(message.to_string()).unwrap(),
    })
}

#[test]
fn chat_round_trip() {
    let c = chat(Some("hello"), "a message");
    let back = Content::from_json(&c.to_json()).unwrap();
    match back {
        Content::Chat(ch) => {
            assert_eq!(ch.headline.unwrap().as_str(), "hello");
            assert_eq!(ch.message.as_str(), "a message");
        }
        _ => panic!("wrong variant"),
    }
}

#[test]
fn chat_without_headline_round_trip() {
    let c = chat(None, "m");
    match Content::from_json(&c.to_json()).unwrap() {
        Content::Chat(ch) => {
            assert!(ch.headline.is_none());
            assert_eq!(ch.message.as_str(), "m");
        }
        _ => panic!("wrong variant"),
    }
}

#[test]
fn image_id_round_trip() {
    let id = ImageId::from_u128(0x1234);
    let c = Content::Image(Image {
        caption: Some(Caption::new("cap".to_string()).unwrap()),
        kind: ImageKind::Id(id),
    });
    let j = c.to_json();
    match &j {
        Json::Obj(f) => {
            assert_eq!(f[0].0, "Image");
        }
        _ => panic!("not an object"),
    }
    match Content::from_json(&j).unwrap() {
        Content::Image(img) => {
            assert_eq!(img.caption.unwrap().as_str(), "cap");
            match img.kind {
                ImageKind::Id(back) => assert_eq!(back, id),
                _ => panic!("wrong kind"),
            }
        }
        _ => panic!("wrong variant"),
    }
}

#[test]
fn poll_round_trip_drops_tallies() {
    let a = PollChoiceId::from_u128(1);
    let b = PollChoiceId::from_u128(2);
    let c = Content::Poll(Poll {
        headline: PollHeadline::new("Q?".to_string()).unwrap(),
        choices: vec![
            PollChoice { id: a, num_votes: 5, description: PollChoiceDescription::new("yes".to_string()).unwrap() },
            PollChoice { id: b, num_votes: 9, description: PollChoiceDescription::new("no".to_string()).unwrap() },
        ],
        voted: Some(a),
    });
    match Content::from_json(&c.to_json()).unwrap() {
        Content::Poll(p) => {
            assert_eq!(p.headline.as_str(), "Q?");
            assert_eq!(p.choices.len(), 2);
            assert_eq!(p.choices[0].id, a);
            assert_eq!(p.choices[1].id, b);
            assert_eq!(p.choices[0].description.as_str(), "yes");
            assert_eq!(p.choices[0].num_votes, 0);
            assert_eq!(p.choices[1].num_votes, 0);
            assert_eq!(p.voted, None);
        }
        _ => panic!("wrong variant"),
    }
}

#[test]
fn decode_rejects_unknown_shapes() {
    let bad = vec![
        Json::Null,
        s("Chat"),
        obj(vec![("Video", obj(vec![]))]),
        obj(vec![("Chat", obj(vec![("message", s("a"))])), ("Poll", obj(vec![]))]),
        obj(vec![("Chat", obj(vec![("headline", s("h"))]))]),
        obj(vec![("Chat", obj(vec![("message", Json::Int(3))]))]),
        obj(vec![("Chat", obj(vec![("message", s(""))]))]),
        obj(vec![("Chat", obj(vec![("headline", s(&"x".repeat(31))), ("message", s("m"))]))]),
        obj(vec![("Image", obj(vec![("kind", obj(vec![("Id", s("not-a-uuid"))]))]))]),
        obj(vec![("Poll", obj(vec![("headline", s("q")), ("choices", Json::Null)]))]),
        obj(vec![("Poll", obj(vec![("headline", s("q")), ("choices", Json::Arr(vec![Json::Int(1)]))]))]),
    ];
    for j in bad.iter() {
        assert_eq!(Content::from_json(j).err(), Some(ContentDecodeError));
    }
}

#[test]
fn decode_accepts_null_headline_and_extra_fields() {
    let j = obj(vec![(
        "Chat",
        obj(vec![("headline", Json::Null), ("extra", Json::Bool(true)), ("message", s("hi"))]),
    )]);
    match Content::from_json(&j).unwrap() {
        Content::Chat(ch) => {
            assert!(ch.headline.is_none());
            assert_eq!(ch.message.as_str(), "hi");
        }
        _ => panic!("wrong variant"),
    }
}

#[test]
fn decode_reads_uuid_text_of_image() {
    let j = obj(vec![(
        "Image",
        obj(vec![("kind", obj(vec![("Id", s("67e55044-10b1-426f-9247-bb680e5fe0c8"))]))]),
    )]);
    match Content::from_json(&j).unwrap() {
        Content::Image(img) => match img.kind {
            ImageKind::Id(id) => assert_eq!(id.into_inner(), 0x67e5504410b1426f9247bb680e5fe0c8),
            _ => panic!("wrong kind"),
        },
        _ => panic!("wrong variant"),
    }
}
