use hikaru::rest::{endpoint_url, DISCORD_BASE_API};
use hikaru::util::error::Error;

#[test]
fn client_starts_ids_up_to_the_end() {
    assert_eq!(hikaru::client::shards_to_start((0, 1, 1)), vec![(0, 1)]);
    assert_eq!(hikaru::client::shards_to_start((2, 5, 8)), vec![(2, 8), (3, 8), (4, 8)]);
    assert_eq!(hikaru::client::shards_to_start((3, 3, 4)), vec![]);
    assert_eq!(hikaru::client::shards_to_start((5, 2, 4)), vec![]);
}

#[test]
fn bot_starts_a_count_of_ids() {
    assert_eq!(hikaru::bot::shards_to_start((0, 1, 1)), vec![(0, 1)]);
    assert_eq!(hikaru::bot::shards_to_start((2, 3, 8)), vec![(2, 8), (3, 8), (4, 8)]);
    assert_eq!(hikaru::bot::shards_to_start((7, 0, 8)), vec![]);
    assert_eq!(hikaru::bot::shards_to_start((u32::MAX, 2, 8)), vec![(u32::MAX, 8), (0, 8)]);
}

#[test]
fn endpoint_urls() {
    assert_eq!(DISCORD_BASE_API, "https://discordapp.com/api");
    assert_eq!(endpoint_url("/users/@me"), "https://discordapp.com/api/users/@me");
    assert_eq!(endpoint_url(""), "https://discordapp.com/api");
}

#[test]
fn error_conversions() {
    assert!(matches!(Error::from(7u32), Error::AnsiTermError(7)));
    let io = std::io::Error::new(std::io::ErrorKind::Other, "x");
    assert!(matches!(Error::from(io), Error::StdError(_)));
    let bad = serde_json::from_str::<serde_json::Value>("[").unwrap_err();
    assert!(matches!(Error::from(bad), Error::SerdeError(_)));
    let bad = serde_json::from_str::<serde_json::Value>("[").unwrap_err();
    assert!(matches!(hikaru::error::Error::from(bad), hikaru::error::Error::SerdeError(_)));
}
