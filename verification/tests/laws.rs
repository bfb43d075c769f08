use lib::{Method, Path, PathParseErrorType};

fn kind(r: Result<Path, lib::PathParseError>) -> Result<Path, String> {
    r.map_err(|e| format!("{:?}", e.kind()))
}

#[test]
fn leading_slash_is_ignored() {
    for route in [
        "guilds",
        "channels/1/messages/2",
        "channels/x",
        "gateway/bot",
        "",
        "unknown/route",
        "webhooks/1/t/messages/2",
    ] {
        let with_slash = format!("/{route}");
        assert_eq!(kind(Path::from_str(route)), kind(Path::from_str(&with_slash)), "route {route}");
    }
    // Only one leading slash is ignored.
    assert!(Path::from_str("//guilds").is_err());
}

#[test]
fn from_str_never_gives_message_id_paths() {
    for route in ["channels/1/messages/2", "/channels/1/messages/2", "channels/1/messages"] {
        assert!(!matches!(Path::from_str(route), Ok(Path::ChannelsIdMessagesId(_, _))));
    }
}

#[test]
fn try_from_agrees_with_from_str() {
    for route in ["guilds/1", "channels/3/pins/4", "voice/regions", "gateway"] {
        assert_eq!(
            Path::try_from((Method::Put, route)).unwrap(),
            Path::from_str(route).unwrap()
        );
    }
}

#[test]
fn try_from_supplies_the_method() {
    let e = Path::from_str("channels/77/messages/1").unwrap_err();
    let channel_id = match e.kind() {
        PathParseErrorType::MessageIdWithoutMethod { channel_id } => *channel_id,
        other => panic!("unexpected {other:?}"),
    };
    assert_eq!(channel_id, 77);
    assert_eq!(
        Path::try_from((Method::Delete, "channels/77/messages/1")).unwrap(),
        Path::ChannelsIdMessagesId(Method::Delete, 77)
    );
}

#[test]
fn integer_errors_blame_the_id_segment() {
    let e = Path::from_str("guilds/notanid/roles").unwrap_err();
    assert!(matches!(e.kind(), PathParseErrorType::IntegerParsing));
    assert!("notanid".parse::<u64>().is_err());
}

#[test]
fn path_id_is_the_second_segment() {
    assert_eq!(Path::from_str("guilds/+0099/members/1/roles/2").unwrap(), Path::GuildsIdMembersIdRolesId(99));
}
