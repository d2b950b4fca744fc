use serde_json::Value;
use serenity::builder::{CreateEmbed, CreateEmbedAuthor, CreateEmbedFooter};
use serenity::model::{Colour, Timestamp};
use serenity_embed_builder::{
    SerenityEmbed, SerenityEmbedConvertError, SerenityEmbedField, SerenityEmbedTitle,
    MAX_DESCRIPTION_LENGTH, MAX_FIELD_COUNT,
};

const MOCK_TEXT: &str = "This is a test text.";
const MOCK_URL: &str = "https://example.com";
const MOCK_TIMESTAMP_STR: &str = "2024-01-01T00:00:00Z";
const MOCK_COLOR: u32 = 0xff0000;

fn json(embed: &CreateEmbed) -> Value {
    serde_json::to_value(embed).unwrap()
}

fn field(name: &str, value: &str, inline: bool) -> SerenityEmbedField {
    SerenityEmbedField::builder().name(name).value(value).inline(inline).build()
}

fn numbered_fields(count: usize) -> Vec<SerenityEmbedField> {
    let mut fields = Vec::new();
    for i in 0..count {
        fields.push(field(&format!("n{}", i), &format!("v{}", i), i % 2 == 0));
    }
    fields
}

#[test]
fn test_embed_conversion() {
    let fields = vec![
        SerenityEmbedField::builder()
            .name(MOCK_TEXT)
            .value(MOCK_TEXT)
            .inline(true)
            .build(),
        SerenityEmbedField::builder()
            .name(MOCK_TEXT)
            .value(MOCK_TEXT)
            .build(),
    ];

    let mock_embed = SerenityEmbed::builder()
        .title(
            SerenityEmbedTitle::builder()
                .text(MOCK_TEXT)
                .url(MOCK_URL)
                .build(),
        )
        .description(MOCK_TEXT)
        .timestamp(Timestamp::parse(MOCK_TIMESTAMP_STR).unwrap())
        .color(MOCK_COLOR)
        .footer_text(MOCK_TEXT)
        .footer_icon_url(MOCK_URL)
        .image_url(MOCK_URL)
        .thumbnail_url(MOCK_URL)
        .author_name(MOCK_TEXT)
        .author_url(MOCK_URL)
        .author_icon_url(MOCK_URL)
        .fields(fields)
        .build();
    let serenity_embed = CreateEmbed::default()
        .title(MOCK_TEXT)
        .url(MOCK_URL)
        .description(MOCK_TEXT)
        .timestamp(Timestamp::parse(MOCK_TIMESTAMP_STR).unwrap())
        .color(Colour(MOCK_COLOR))
        .footer(CreateEmbedFooter::new(MOCK_TEXT).icon_url(MOCK_URL))
        .image(MOCK_URL)
        .thumbnail(MOCK_URL)
        .author(
            CreateEmbedAuthor::new(MOCK_TEXT)
                .url(MOCK_URL)
                .icon_url(MOCK_URL),
        )
        .fields(vec![
            (MOCK_TEXT.to_string(), MOCK_TEXT.to_string(), true),
            (MOCK_TEXT.to_string(), MOCK_TEXT.to_string(), false),
        ]);

    let converted = mock_embed.convert();

    assert!(converted.is_ok());
    assert_eq!(converted.unwrap(), serenity_embed);
}

#[test]
fn limits_are_public() {
    assert_eq!(MAX_DESCRIPTION_LENGTH, 4096);
    assert_eq!(MAX_FIELD_COUNT, 25);
}

#[test]
fn empty_embed_converts_to_empty_builder() {
    let converted = SerenityEmbed::builder().build().convert().unwrap();
    assert_eq!(converted, CreateEmbed::default());
    let value = json(&converted);
    for slot in [
        "title",
        "url",
        "description",
        "timestamp",
        "color",
        "footer",
        "image",
        "thumbnail",
        "author",
        "fields",
    ] {
        assert!(value.get(slot).is_none(), "{} is set", slot);
    }
}

#[test]
fn concrete_scenario() {
    let embed = SerenityEmbed::builder()
        .title(SerenityEmbedTitle::builder().text("T").url("https://example.com").build())
        .description("D")
        .color(0xff0000)
        .footer_text("F")
        .image_url("https://example.com/i.png")
        .author_name("A")
        .fields(vec![field("n", "v", true)])
        .build();
    let value = json(&embed.convert().unwrap());
    assert_eq!(value["title"], Value::from("T"));
    assert_eq!(value["url"], Value::from("https://example.com"));
    assert_eq!(value["description"], Value::from("D"));
    assert_eq!(value["color"], Value::from(0xff0000u32));
    assert_eq!(value["footer"]["text"], Value::from("F"));
    assert!(value["footer"].get("icon_url").is_none());
    assert_eq!(value["image"]["url"], Value::from("https://example.com/i.png"));
    assert_eq!(value["author"]["name"], Value::from("A"));
    assert!(value["author"].get("url").is_none());
    assert!(value["author"].get("icon_url").is_none());
    assert!(value.get("timestamp").is_none());
    assert!(value.get("thumbnail").is_none());
    let fields = value["fields"].as_array().unwrap();
    assert_eq!(fields.len(), 1);
    assert_eq!(fields[0]["name"], Value::from("n"));
    assert_eq!(fields[0]["value"], Value::from("v"));
    assert_eq!(fields[0]["inline"], Value::from(true));
}

#[test]
fn fields_keep_their_order() {
    let embed = SerenityEmbed::builder()
        .fields(vec![field("a", "1", true), field("b", "2", false)])
        .build();
    let converted = embed.convert().unwrap();
    let expected = CreateEmbed::default().fields(vec![("a", "1", true), ("b", "2", false)]);
    assert_eq!(converted, expected);
    let value = json(&converted);
    let fields = value["fields"].as_array().unwrap();
    assert_eq!(fields.len(), 2);
    assert_eq!(fields[0]["name"], Value::from("a"));
    assert_eq!(fields[0]["value"], Value::from("1"));
    assert_eq!(fields[0]["inline"], Value::from(true));
    assert_eq!(fields[1]["name"], Value::from("b"));
    assert_eq!(fields[1]["value"], Value::from("2"));
    assert_eq!(fields[1]["inline"], Value::from(false));
}

#[test]
fn equal_fields_are_all_kept() {
    let embed = SerenityEmbed::builder()
        .fields(vec![field("a", "1", true), field("a", "1", true), field("a", "1", true)])
        .build();
    let value = json(&embed.convert().unwrap());
    assert_eq!(value["fields"].as_array().unwrap().len(), 3);
}

#[test]
fn description_just_under_the_limit_converts() {
    let text = "x".repeat(4095);
    let embed = SerenityEmbed::builder().description(&text).build();
    let value = json(&embed.convert().unwrap());
    assert_eq!(value["description"], Value::from(text));
}

#[test]
fn description_at_the_limit_is_refused() {
    let text = "x".repeat(4096);
    let embed = SerenityEmbed::builder().description(&text).build();
    assert_eq!(embed.convert().err(), Some(SerenityEmbedConvertError::DescriptionTooLong));
}

#[test]
fn description_over_the_limit_is_refused() {
    let text = "x".repeat(10_000);
    let embed = SerenityEmbed::builder().description(&text).build();
    assert_eq!(embed.convert().err(), Some(SerenityEmbedConvertError::DescriptionTooLong));
}

#[test]
fn description_is_measured_in_bytes() {
    // 2048 characters of two bytes each: 4096 bytes.
    let long = "é".repeat(2048);
    assert_eq!(long.chars().count(), 2048);
    let embed = SerenityEmbed::builder().description(&long).build();
    assert_eq!(embed.convert().err(), Some(SerenityEmbedConvertError::DescriptionTooLong));

    // 2047 such characters and one of one byte: 4095 bytes.
    let mut short = "é".repeat(2047);
    short.push('x');
    let embed = SerenityEmbed::builder().description(&short).build();
    let value = json(&embed.convert().unwrap());
    assert_eq!(value["description"], Value::from(short));
}

#[test]
fn empty_description_is_set() {
    let embed = SerenityEmbed::builder().description("").build();
    let value = json(&embed.convert().unwrap());
    assert_eq!(value["description"], Value::from(""));
}

#[test]
fn twenty_five_fields_convert() {
    let embed = SerenityEmbed::builder().fields(numbered_fields(25)).build();
    let value = json(&embed.convert().unwrap());
    let fields = value["fields"].as_array().unwrap();
    assert_eq!(fields.len(), 25);
    for (i, f) in fields.iter().enumerate() {
        assert_eq!(f["name"], Value::from(format!("n{}", i)));
        assert_eq!(f["value"], Value::from(format!("v{}", i)));
        assert_eq!(f["inline"], Value::from(i % 2 == 0));
    }
}

#[test]
fn twenty_six_fields_are_refused() {
    let embed = SerenityEmbed::builder().fields(numbered_fields(26)).build();
    assert_eq!(embed.convert().err(), Some(SerenityEmbedConvertError::TooManyFields));
}

#[test]
fn many_fields_are_refused() {
    let embed = SerenityEmbed::builder().fields(numbered_fields(100)).build();
    assert_eq!(embed.convert().err(), Some(SerenityEmbedConvertError::TooManyFields));
}

#[test]
fn empty_field_list_converts() {
    let embed = SerenityEmbed::builder().fields(Vec::new()).build();
    assert_eq!(embed.convert().unwrap(), CreateEmbed::default());
}

#[test]
fn description_is_judged_before_fields() {
    let text = "x".repeat(4096);
    let embed = SerenityEmbed::builder().description(&text).fields(numbered_fields(26)).build();
    assert_eq!(embed.convert().err(), Some(SerenityEmbedConvertError::DescriptionTooLong));
}

#[test]
fn converting_twice_gives_equal_builders() {
    let embed = SerenityEmbed::builder()
        .title(SerenityEmbedTitle::builder().url(MOCK_URL).text(MOCK_TEXT).build())
        .description(MOCK_TEXT)
        .timestamp(Timestamp::parse(MOCK_TIMESTAMP_STR).unwrap())
        .fields(numbered_fields(3))
        .build();
    let first = embed.convert().unwrap();
    let second = embed.convert().unwrap();
    assert_eq!(first, second);

    let refused = SerenityEmbed::builder().fields(numbered_fields(26)).build();
    assert_eq!(refused.convert().err(), refused.convert().err());
}

#[test]
fn a_clone_converts_as_its_source() {
    let embed = SerenityEmbed::builder()
        .title(SerenityEmbedTitle::builder().text(MOCK_TEXT).url(MOCK_URL).build())
        .description(MOCK_TEXT)
        .timestamp(Timestamp::parse(MOCK_TIMESTAMP_STR).unwrap())
        .color(MOCK_COLOR)
        .footer_text("F")
        .footer_icon_url("https://example.com/f.png")
        .image_url("https://example.com/i.png")
        .thumbnail_url("https://example.com/t.png")
        .author_name("A")
        .author_url("https://example.com/a")
        .author_icon_url("https://example.com/a.png")
        .fields(numbered_fields(4))
        .build();
    let copy = embed.clone();
    assert_eq!(copy.description, embed.description);
    assert_eq!(copy.timestamp, embed.timestamp);
    assert_eq!(copy.color, embed.color);
    assert_eq!(copy.fields.as_ref().unwrap().len(), 4);
    assert_eq!(copy.convert().unwrap(), embed.convert().unwrap());
}

#[test]
fn title_sets_text_and_url() {
    let embed = SerenityEmbed::builder()
        .title(SerenityEmbedTitle::builder().text("T").url("https://example.com/t").build())
        .build();
    let converted = embed.convert().unwrap();
    assert_eq!(converted, CreateEmbed::default().title("T").url("https://example.com/t"));
    let value = json(&converted);
    assert_eq!(value["title"], Value::from("T"));
    assert_eq!(value["url"], Value::from("https://example.com/t"));
}

#[test]
fn timestamp_passes_through() {
    let timestamp = Timestamp::parse(MOCK_TIMESTAMP_STR).unwrap();
    let embed = SerenityEmbed::builder().timestamp(timestamp).build();
    let converted = embed.convert().unwrap();
    assert_eq!(converted, CreateEmbed::default().timestamp(timestamp));
    assert_ne!(converted, CreateEmbed::default());
    assert_eq!(json(&converted)["timestamp"], serde_json::to_value(timestamp).unwrap());
}

#[test]
fn color_passes_through() {
    let embed = SerenityEmbed::builder().color(0x00ff7f).build();
    let converted = embed.convert().unwrap();
    assert_eq!(converted, CreateEmbed::default().color(Colour(0x00ff7f)));
    assert_eq!(json(&converted)["color"], Value::from(0x00ff7fu32));
}

#[test]
fn color_is_not_range_checked() {
    let embed = SerenityEmbed::builder().color(u32::MAX).build();
    assert_eq!(json(&embed.convert().unwrap())["color"], Value::from(u32::MAX));
}

#[test]
fn image_and_thumbnail_are_set() {
    let embed = SerenityEmbed::builder()
        .image_url("https://example.com/i.png")
        .thumbnail_url("https://example.com/t.png")
        .build();
    let value = json(&embed.convert().unwrap());
    assert_eq!(value["image"]["url"], Value::from("https://example.com/i.png"));
    assert_eq!(value["thumbnail"]["url"], Value::from("https://example.com/t.png"));
}

#[test]
fn footer_with_icon() {
    let embed = SerenityEmbed::builder()
        .footer_text("F")
        .footer_icon_url("https://example.com/f.png")
        .build();
    let value = json(&embed.convert().unwrap());
    assert_eq!(value["footer"]["text"], Value::from("F"));
    assert_eq!(value["footer"]["icon_url"], Value::from("https://example.com/f.png"));
}

#[test]
fn footer_icon_without_text_is_dropped() {
    let embed = SerenityEmbed::builder().footer_icon_url("https://example.com/f.png").build();
    let converted = embed.convert().unwrap();
    assert_eq!(converted, CreateEmbed::default());
    assert!(json(&converted).get("footer").is_none());
}

#[test]
fn author_with_url_and_icon() {
    let embed = SerenityEmbed::builder()
        .author_name("A")
        .author_url("https://example.com/a")
        .author_icon_url("https://example.com/a.png")
        .build();
    let value = json(&embed.convert().unwrap());
    assert_eq!(value["author"]["name"], Value::from("A"));
    assert_eq!(value["author"]["url"], Value::from("https://example.com/a"));
    assert_eq!(value["author"]["icon_url"], Value::from("https://example.com/a.png"));
}

#[test]
fn author_with_url_only() {
    let embed =
        SerenityEmbed::builder().author_name("A").author_url("https://example.com/a").build();
    let value = json(&embed.convert().unwrap());
    assert_eq!(value["author"]["name"], Value::from("A"));
    assert_eq!(value["author"]["url"], Value::from("https://example.com/a"));
    assert!(value["author"].get("icon_url").is_none());
}

#[test]
fn author_with_icon_only() {
    let embed = SerenityEmbed::builder()
        .author_name("A")
        .author_icon_url("https://example.com/a.png")
        .build();
    let value = json(&embed.convert().unwrap());
    assert_eq!(value["author"]["name"], Value::from("A"));
    assert!(value["author"].get("url").is_none());
    assert_eq!(value["author"]["icon_url"], Value::from("https://example.com/a.png"));
}

#[test]
fn author_url_and_icon_without_name_are_dropped() {
    let embed = SerenityEmbed::builder()
        .author_url("https://example.com/a")
        .author_icon_url("https://example.com/a.png")
        .build();
    let converted = embed.convert().unwrap();
    assert_eq!(converted, CreateEmbed::default());
    assert!(json(&converted).get("author").is_none());
}

#[test]
fn error_messages() {
    assert_eq!(
        SerenityEmbedConvertError::DescriptionTooLong.message(),
        "The description exceeds the maximum length of 4096 characters."
    );
    assert_eq!(
        SerenityEmbedConvertError::TooManyFields.message(),
        "The number of fields exceeds the maximum of 25."
    );
    assert_ne!(
        SerenityEmbedConvertError::DescriptionTooLong,
        SerenityEmbedConvertError::TooManyFields
    );
}
