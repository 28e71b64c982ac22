use website::block::{ensure_block_ids, Block, BlockWithId};
use website::features::button::{self, ButtonProps};
use website::features::checkbox::{self, CheckboxProps};
use website::features::header::{self, HeaderProps};
use website::features::hero::HeroProps;
use website::features::input::{self, InputProps};
use website::features::story::ComponentStory;
use website::homepage::HomepageData;
use website::stories::{capitalize_first, get_all_stories, replace_first};

fn header_block(id: &str) -> BlockWithId {
    BlockWithId {
        id: id.to_string(),
        block: Block::Header(HeaderProps {
            headline: "Hello".to_string(),
            button: ButtonProps {
                href: "/go".to_string(),
                text: "Go".to_string(),
                aria_label: "Go somewhere".to_string(),
            },
        }),
    }
}

fn is_uuid_v4_text(s: &str) -> bool {
    let chars: Vec<char> = s.chars().collect();
    chars.len() == 36
        && chars.iter().enumerate().all(|(i, c)| {
            if [8, 13, 18, 23].contains(&i) {
                *c == '-'
            } else {
                c.is_ascii_digit() || ('a'..='f').contains(c)
            }
        })
        && chars[14] == '4'
}

#[test]
fn default_blocks_are_fixed() {
    let a = HomepageData::default_blocks();
    let b = HomepageData::default_blocks();
    assert_eq!(a, b);
    assert_eq!(a.len(), 2);
    assert_eq!(a[0].id, "550e8400-e29b-41d4-a716-446655440001");
    match &a[0].block {
        Block::Header(h) => {
            assert_eq!(h.headline, "Eng Manager");
            assert_eq!(h.button.href, "/contact");
            assert_eq!(h.button.text, "Get in touch");
            assert_eq!(h.button.aria_label, "Contact us to discuss your engineering needs");
        }
        other => panic!("expected a header, got {:?}", other),
    }
    assert_eq!(a[1].id, "550e8400-e29b-41d4-a716-446655440002");
    match &a[1].block {
        Block::Hero(h) => {
            assert_eq!(h.headline, "Building world-class engineering teams");
            assert_eq!(h.subheadline, "Leadership through example, expertise, and empathy");
        }
        other => panic!("expected a hero, got {:?}", other),
    }
}

#[test]
fn homepage_data_keeps_blocks_in_order() {
    let blocks = vec![header_block("b"), header_block("a")];
    let doc = HomepageData::new(blocks.clone());
    assert_eq!(doc.blocks, blocks);
}

#[test]
fn ensure_block_ids_keeps_and_assigns() {
    let out = ensure_block_ids(vec![header_block(""), header_block("keep-me")]);
    assert_eq!(out.len(), 2);
    assert_eq!(out[1], header_block("keep-me"));
    assert!(!out[0].id.is_empty());
    assert_ne!(out[0].id, "keep-me");
    assert!(is_uuid_v4_text(&out[0].id));
    assert_eq!(out[0].block, header_block("").block);
}

#[test]
fn ensure_block_ids_gives_distinct_fresh_ids() {
    let out = ensure_block_ids(vec![header_block(""), header_block("")]);
    assert!(is_uuid_v4_text(&out[0].id));
    assert!(is_uuid_v4_text(&out[1].id));
    assert_ne!(out[0].id, out[1].id);
}

#[test]
fn ensure_block_ids_on_empty_list() {
    assert!(ensure_block_ids(vec![]).is_empty());
}

#[test]
fn ensure_block_ids_leaves_identified_blocks() {
    let blocks = vec![
        header_block("x"),
        BlockWithId {
            id: "y".to_string(),
            block: Block::Hero(HeroProps {
                headline: "H".to_string(),
                subheadline: "S".to_string(),
            }),
        },
    ];
    assert_eq!(ensure_block_ids(blocks.clone()), blocks);
}

#[test]
fn button_fixture() {
    let b = button::fixture();
    assert_eq!(b.href, "/example");
    assert_eq!(b.text, "Example Button");
    assert_eq!(b.aria_label, "Example button for demonstration");
    assert_eq!(ButtonProps::story_fixture(), b);
    assert_eq!(ButtonProps::story_name(), "button");
    assert!(ButtonProps::additional_stylesheets().is_empty());
}

#[test]
fn header_fixture() {
    let h = header::fixture();
    assert_eq!(h.headline, "Sample Header Component");
    assert_eq!(h.button.href, "https://www.google.com");
    assert_eq!(h.button.text, "Click Me");
    assert_eq!(h.button.aria_label, "Navigate to Google");
    assert_eq!(HeaderProps::story_fixture(), h);
    assert_eq!(HeaderProps::story_name(), "header");
    assert_eq!(
        HeaderProps::additional_stylesheets(),
        vec!["/assets/styles.css", "/features/button/styles.css"]
    );
}

#[test]
fn checkbox_and_input_fixtures() {
    let c = checkbox::fixture();
    assert_eq!(c.label, "Send me product updates and announcements");
    assert_eq!(c.name, "newsletter");
    assert_eq!(c.value, Some("subscribe".to_string()));
    assert!(!c.checked && !c.required);
    assert_eq!(c.aria_describedby, None);
    assert_eq!(CheckboxProps::story_name(), "checkbox");
    let i = input::fixture();
    assert_eq!(i.label, "Email Address");
    assert_eq!(i.input_type, "email");
    assert_eq!(i.placeholder, Some("you@example.com".to_string()));
    assert_eq!(i.value, None);
    assert!(i.required);
    assert_eq!(InputProps::story_name(), "input");
    assert_eq!(InputProps::story_fixture(), i);
}

#[test]
fn stories_are_listed_in_order() {
    let stories = get_all_stories();
    assert_eq!(stories.len(), 2);
    assert_eq!(stories[0].name, "button");
    assert_eq!(stories[0].description, "Button component with link and accessibility support");
    assert_eq!(stories[1].name, "header");
    assert_eq!(
        stories[1].description,
        "Header component with headline and call-to-action button"
    );
}

#[test]
fn capitalize_first_letter() {
    assert_eq!(capitalize_first("button"), "Button");
    assert_eq!(capitalize_first(""), "");
    assert_eq!(capitalize_first("élan vital"), "Élan vital");
    assert_eq!(capitalize_first("ßx"), "SSx");
    assert_eq!(capitalize_first("Header"), "Header");
}

#[test]
fn replace_first_character() {
    assert_eq!(replace_first("header", "H".to_string()), "Header");
    assert_eq!(replace_first("", "H".to_string()), "");
    assert_eq!(replace_first("x", "YZ".to_string()), "YZ");
}
