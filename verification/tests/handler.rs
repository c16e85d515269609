use gpt_discord_bot::handler::DEFAULT_FLUSH_INTERVAL_MS;
use gpt_discord_bot::{Error, Handler};

#[test]
fn handler_keeps_its_settings() {
    let handler = Handler::new("!", 900).unwrap();
    assert_eq!(handler.prefix(), "!");
    assert_eq!(handler.flush_interval_ms(), 900);
}

#[test]
fn handler_refuses_empty_prefix() {
    assert_eq!(Handler::new("", 500).err(), Some(Error::Configuration));
}

#[test]
fn handler_refuses_zero_interval() {
    assert_eq!(Handler::new(".", 0).err(), Some(Error::Configuration));
    assert_eq!(Handler::new("", 0).err(), Some(Error::Configuration));
}

#[test]
fn handler_accepts_smallest_interval() {
    assert!(Handler::new(".", 1).is_ok());
    assert!(Handler::new(".", u64::MAX).is_ok());
}

#[test]
fn default_handler_uses_dot_and_half_a_second() {
    let handler = Handler::default();
    assert_eq!(handler.prefix(), ".");
    assert_eq!(handler.flush_interval_ms(), 500);
    assert_eq!(DEFAULT_FLUSH_INTERVAL_MS, 500);
}

#[test]
fn handler_filters_with_its_prefix() {
    let handler = Handler::new("!", 500).unwrap();
    assert!(handler.message(false, ".hello", 1, 2).is_none());
    assert!(handler.message(true, "!hello", 1, 2).is_none());
    let request = handler.message(false, "! hello ", 5, 6).unwrap();
    assert_eq!(request.prompt(), "hello");
    assert_eq!(request.channel_id(), 5);
    assert_eq!(request.message_id(), 6);
}

#[test]
fn default_handler_turns_dot_hello_into_hello() {
    let request = Handler::default().message(false, ".hello", 1, 2).unwrap();
    assert_eq!(request.prompt(), "hello");
}

#[test]
fn errors_describe_themselves() {
    assert_eq!(Error::Configuration.describe(), "invalid configuration");
    assert_eq!(Error::Placeholder.describe(), "the placeholder message could not be created");
    assert_eq!(Error::Source.describe(), "the fragment source failed");
    assert_eq!(Error::FinalEdit.describe(), "the final edit was rejected");
}

#[test]
fn recommended_interval_is_half_a_second_to_nine_tenths() {
    assert!(!Handler::new(".", 499).unwrap().interval_is_recommended());
    assert!(Handler::new(".", 500).unwrap().interval_is_recommended());
    assert!(Handler::new(".", 700).unwrap().interval_is_recommended());
    assert!(Handler::new(".", 900).unwrap().interval_is_recommended());
    assert!(!Handler::new(".", 901).unwrap().interval_is_recommended());
    assert!(!Handler::new(".", 1).unwrap().interval_is_recommended());
    assert!(Handler::default().interval_is_recommended());
}
