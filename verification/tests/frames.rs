use jokebox::joke::Joke;
use jokebox::json::parse_json;
use jokebox::render::ferris_say;

const MASCOT: &str = "\n        \\\n         \\\n            _~^~^~_\n        \\) /  o o  \\ (/\n          '_   -   _'\n          / '-----' \\\n";

fn said(message: &str) -> Vec<u8> {
    let mut out: Vec<u8> = Vec::new();
    ferris_says::say(message, message.chars().count(), &mut out).unwrap();
    out
}

fn joke(text: &str) -> Joke {
    let value = match parse_json(text) {
        Ok(value) => value,
        Err(e) => panic!("not a document: {:?}", e),
    };
    match Joke::new(value) {
        Ok(joke) => joke,
        Err(e) => panic!("{} gave {:?}", text, e),
    }
}

fn text_of(frame: &[u8]) -> String {
    String::from_utf8(frame.to_vec()).unwrap()
}

#[test]
fn one_line_is_framed() {
    let frame = ferris_say("Hello fellow Rustaceans!".to_string());
    let wanted = format!(
        " __________________________\n< Hello fellow Rustaceans! >\n --------------------------{}",
        MASCOT
    );
    assert_eq!(text_of(&frame), wanted);
}

#[test]
fn short_message_is_framed() {
    let frame = ferris_say("Hi".to_string());
    assert_eq!(text_of(&frame), format!(" ____\n< Hi >\n ----{}", MASCOT));
}

#[test]
fn two_lines_are_framed() {
    let frame = ferris_say("Why?\nBecause.".to_string());
    let wanted = format!(
        " __________\n/ Why?     \\\n\\ Because. /\n ----------{}",
        MASCOT
    );
    assert_eq!(text_of(&frame), wanted);
}

#[test]
fn three_lines_are_framed() {
    let frame = ferris_say("a\nbb\nccc".to_string());
    let wanted = format!(" _____\n/ a   \\\n| bb  |\n\\ ccc /\n -----{}", MASCOT);
    assert_eq!(text_of(&frame), wanted);
}

#[test]
fn empty_message_is_framed() {
    let frame = ferris_say(String::new());
    assert_eq!(text_of(&frame), format!(" __\n --{}", MASCOT));
}

#[test]
fn frame_is_as_wide_as_the_message_has_characters() {
    for message in ["x", "two words", "\u{e9}t\u{e9} \u{e0} la plage", "a  b\tc", "tr\u{e8}s\nbien"] {
        assert_eq!(ferris_say(message.to_string()), said(message), "{:?}", message);
    }
}

#[test]
fn frame_is_more_than_the_message() {
    let message = "Hello fellow Rustaceans!";
    let frame = ferris_say(message.to_string());
    assert_ne!(frame, message.as_bytes().to_vec());
    assert!(frame.len() > message.len());
    assert!(text_of(&frame).contains(message));
    assert!(text_of(&frame).ends_with(MASCOT));
}

#[test]
fn delivery_frames_the_introduction_and_then_the_joke() {
    let joke = joke(
        "{\"id\":42,\"category\":\"Programming\",\"type\":\"twopart\",\"setup\":\"Why?\",\
         \"delivery\":\"Because.\",\"flags\":{\"nsfw\":false,\"religious\":false,\
         \"political\":false,\"racist\":false,\"sexist\":false,\"explicit\":false},\"safe\":true}",
    );
    let (introduction, told) = joke.ferris_delivery();
    assert_eq!(introduction, said("Here's a Programming joke for you.\n Joke number 42..."));
    assert_eq!(told, said("Why?\nBecause."));
    assert_eq!(introduction, ferris_say(joke.introduction()));
    assert_eq!(told, ferris_say(joke.full_joke()));
    assert!(text_of(&introduction).contains("Programming"));
    assert!(text_of(&introduction).contains("42"));
    assert_eq!(
        text_of(&told),
        format!(" __________\n/ Why?     \\\n\\ Because. /\n ----------{}", MASCOT)
    );
}

#[test]
fn delivery_of_the_stand_in_joke() {
    let (introduction, told) = Joke::empty().ferris_delivery();
    assert_eq!(introduction, said("Here's a Fake joke for you.\n Joke number 0..."));
    assert_eq!(text_of(&told), format!(" _________\n< My life >\n ---------{}", MASCOT));
}
