use lib::{Method, Path, PathParseErrorType};
use std::str::FromStr;

#[test]
fn test_prefix_unimportant() {
    assert_eq!(Path::Guilds, Path::from_str("guilds").unwrap());
    assert_eq!(Path::Guilds, Path::from_str("/guilds").unwrap());
}

#[test]
fn test_from_str() {
    assert_eq!(Path::ChannelsId(123), Path::from_str("/channels/123").unwrap());
    assert_eq!(Path::WebhooksId(123), Path::from_str("/webhooks/123").unwrap());
    assert_eq!(Path::InvitesCode, Path::from_str("/invites/abc").unwrap());
}

#[test]
fn test_message_id() {
    assert!(matches!(
        Path::from_str("channels/123/messages/456")
            .unwrap_err()
            .kind(),
        PathParseErrorType::MessageIdWithoutMethod { channel_id: 123 },
    ));
    assert_eq!(
        Path::ChannelsIdMessagesId(Method::Get, 123),
        Path::try_from((Method::Get, "/channels/123/messages/456")).unwrap(),
    );
}

#[test]
fn documented_examples() {
    assert_eq!(Path::VoiceRegions, Path::from_str("/voice/regions").unwrap());
    assert_eq!(
        Path::ChannelsIdMessages(123),
        Path::from_str("channels/123/messages").unwrap()
    );
}

fn parses_to(route: &str, expected: Path) {
    assert_eq!(Path::from_str(route).unwrap(), expected, "route {route}");
}

#[test]
fn application_routes() {
    parses_to("applications/1/commands", Path::ApplicationCommand(1));
    parses_to("applications/1/commands/9", Path::ApplicationCommandId(1));
    parses_to("applications/1/guilds/2/commands", Path::ApplicationGuildCommand(1));
    parses_to(
        "applications/1/guilds/2/commands/permissions",
        Path::ApplicationGuildCommand(1),
    );
    parses_to("applications/1/guilds/2/commands/3", Path::ApplicationGuildCommandId(1));
    parses_to(
        "applications/1/guilds/2/commands/3/permissions",
        Path::ApplicationGuildCommandId(1),
    );
}

#[test]
fn channel_routes() {
    parses_to("channels/7/followers", Path::ChannelsIdFollowers(7));
    parses_to("channels/7/invites", Path::ChannelsIdInvites(7));
    parses_to("channels/7/messages/bulk-delete", Path::ChannelsIdMessagesBulkDelete(7));
    parses_to("channels/7/messages/8/crosspost", Path::ChannelsIdMessagesIdCrosspost(7));
    parses_to("channels/7/messages/8/reactions", Path::ChannelsIdMessagesIdReactions(7));
    parses_to("channels/7/messages/8/reactions/x", Path::ChannelsIdMessagesIdReactions(7));
    parses_to(
        "channels/7/messages/8/reactions/x/@me",
        Path::ChannelsIdMessagesIdReactionsUserIdType(7),
    );
    parses_to("channels/7/messages/8/threads", Path::ChannelsIdMessagesIdThreads(7));
    parses_to("channels/7/permissions/3", Path::ChannelsIdPermissionsOverwriteId(7));
    parses_to("channels/7/pins", Path::ChannelsIdPins(7));
    parses_to("channels/7/pins/3", Path::ChannelsIdPinsMessageId(7));
    parses_to("channels/7/recipients", Path::ChannelsIdRecipients(7));
    parses_to("channels/7/recipients/3", Path::ChannelsIdRecipients(7));
    parses_to("channels/7/thread-members", Path::ChannelsIdThreadMembers(7));
    parses_to("channels/7/threads", Path::ChannelsIdThreads(7));
    parses_to("channels/7/typing", Path::ChannelsIdTyping(7));
    parses_to("channels/7/webhooks", Path::ChannelsIdWebhooks(7));
    parses_to("channels/7/webhooks/3", Path::ChannelsIdWebhooks(7));
}

#[test]
fn guild_routes() {
    parses_to("guilds/5", Path::GuildsId(5));
    parses_to("guilds/5/audit-logs", Path::GuildsIdAuditLogs(5));
    parses_to("guilds/5/bans", Path::GuildsIdBans(5));
    parses_to("guilds/5/bans/6", Path::GuildsIdBansUserId(5));
    parses_to("guilds/5/channels", Path::GuildsIdChannels(5));
    parses_to("guilds/5/widget", Path::GuildsIdWidget(5));
    parses_to("guilds/5/widget.json", Path::GuildsIdWidget(5));
    parses_to("guilds/5/emojis", Path::GuildsIdEmojis(5));
    parses_to("guilds/5/emojis/6", Path::GuildsIdEmojisId(5));
    parses_to("guilds/5/integrations", Path::GuildsIdIntegrations(5));
    parses_to("guilds/5/integrations/6", Path::GuildsIdIntegrationsId(5));
    parses_to("guilds/5/integrations/6/sync", Path::GuildsIdIntegrationsIdSync(5));
    parses_to("guilds/5/invites", Path::GuildsIdInvites(5));
    parses_to("guilds/5/members", Path::GuildsIdMembers(5));
    parses_to("guilds/5/members/search", Path::GuildsIdMembersSearch(5));
    parses_to("guilds/5/members/6", Path::GuildsIdMembersId(5));
    parses_to("guilds/5/members/6/roles/7", Path::GuildsIdMembersIdRolesId(5));
    parses_to("guilds/5/members/@me/nick", Path::GuildsIdMembersMeNick(5));
    parses_to("guilds/5/preview", Path::GuildsIdPreview(5));
    parses_to("guilds/5/prune", Path::GuildsIdPrune(5));
    parses_to("guilds/5/regions", Path::GuildsIdRegions(5));
    parses_to("guilds/5/roles", Path::GuildsIdRoles(5));
    parses_to("guilds/5/roles/6", Path::GuildsIdRolesId(5));
    parses_to("guilds/5/templates", Path::GuildsIdTemplates(5));
    parses_to("guilds/5/templates/abc", Path::GuildsIdTemplatesCode(5));
    parses_to("guilds/5/threads/active", Path::GuildsIdThreads(5));
    parses_to("guilds/5/vanity-url", Path::GuildsIdVanityUrl(5));
    parses_to("guilds/5/voice-states/@me", Path::GuildsIdVoiceStates(5));
    parses_to("guilds/5/welcome-screen", Path::GuildsIdWelcomeScreen(5));
    parses_to("guilds/5/webhooks", Path::GuildsIdWebhooks(5));
}

#[test]
fn other_routes() {
    parses_to("gateway", Path::Gateway);
    parses_to("gateway/bot", Path::GatewayBot);
    parses_to("interactions/4/token/callback", Path::InteractionCallback(4));
    parses_to("stage-instances/4", Path::StageInstances);
    parses_to("oauth2/applications/@me", Path::OauthApplicationsMe);
    parses_to("users/@me", Path::UsersId);
    parses_to("users/@me/connections", Path::UsersIdConnections);
    parses_to("users/@me/channels", Path::UsersIdChannels);
    parses_to("users/@me/guilds", Path::UsersIdGuilds);
    parses_to("users/@me/guilds/3", Path::UsersIdGuildsId);
    parses_to("webhooks/4/token", Path::WebhooksId(4));
    parses_to("webhooks/4/token/messages/9", Path::WebhooksIdTokenMessagesId(4));
}

#[test]
fn id_follows_from_str_of_u64() {
    parses_to("channels/+42", Path::ChannelsId(42));
    parses_to("channels/007", Path::ChannelsId(7));
    parses_to("channels/18446744073709551615", Path::ChannelsId(u64::MAX));
}

fn fails_with(route: &str) -> PathParseErrorType {
    Path::from_str(route).unwrap_err().into_parts().0
}

#[test]
fn invalid_ids_are_integer_parsing_errors() {
    for route in [
        "channels/abc",
        "channels/",
        "channels/+",
        "channels/-1",
        "channels/18446744073709551616",
        "guilds/1.5/roles",
        "webhooks/x/token/messages/1",
        "channels/x/messages/1",
        "applications/x/commands",
        "interactions/٣/t/callback",
    ] {
        assert!(
            matches!(fails_with(route), PathParseErrorType::IntegerParsing),
            "route {route}"
        );
    }
}

#[test]
fn unknown_routes_are_no_match() {
    for route in [
        "",
        "/",
        "//guilds",
        "guilds/1/unknown",
        "channels",
        "channels/1/messages/2/reactions/a/b/c",
        "users",
        "voice",
        "voice/other",
        "gateway/bot/x",
        "guilds/1/members/2/roles",
        "Guilds",
    ] {
        assert!(matches!(fails_with(route), PathParseErrorType::NoMatch), "route {route}");
    }
}

#[test]
fn static_segments_are_not_ids() {
    // Routes whose second segment is not an ID never fail on it.
    parses_to("invites/not-a-number", Path::InvitesCode);
    parses_to("users/not-a-number/guilds", Path::UsersIdGuilds);
}

#[test]
fn non_ascii_segments() {
    parses_to("channels/1/messages/2/reactions/🦀", Path::ChannelsIdMessagesIdReactions(1));
    parses_to("/channels/1/messages/2/reactions/é/@me", Path::ChannelsIdMessagesIdReactionsUserIdType(1));
}

#[test]
fn try_from_gives_message_paths_their_method() {
    for method in [Method::Delete, Method::Get, Method::Patch, Method::Post, Method::Put] {
        assert_eq!(
            Path::try_from((method, "channels/9/messages/1")).unwrap(),
            Path::ChannelsIdMessagesId(method, 9)
        );
        // Other routes do not depend on the method.
        assert_eq!(Path::try_from((method, "/guilds/3")).unwrap(), Path::GuildsId(3));
        assert!(matches!(
            Path::try_from((method, "nope")).unwrap_err().kind(),
            PathParseErrorType::NoMatch
        ));
        assert!(matches!(
            Path::try_from((method, "channels/x/messages/1")).unwrap_err().kind(),
            PathParseErrorType::IntegerParsing
        ));
    }
}

#[test]
fn std_traits() {
    assert_eq!(<Path as FromStr>::from_str("gateway/bot").unwrap(), Path::GatewayBot);
    assert_eq!("/guilds".parse::<Path>().unwrap(), Path::Guilds);
    let converted: Result<Path, _> = (Method::Patch, "channels/2/messages/3").try_into();
    assert_eq!(converted.unwrap(), Path::ChannelsIdMessagesId(Method::Patch, 2));
    let r = <Path as TryFrom<(Method, &str)>>::try_from((Method::Get, "channels/2"));
    assert_eq!(r.unwrap(), Path::ChannelsId(2));
}
