//! The ratelimit paths of the REST API and how route strings map onto them.
use vstd::prelude::*;

use crate::decimal::{parse_u64, spec_parse_u64, u64_error_kind, u64_parse_error};
use crate::error::{PathParseError, PathParseErrorType};
use crate::method::Method;
use crate::segments::{route_parts, route_segments, str_eq, views_of};

verus! {

/// An enum representing a path, most useful for ratelimiting implementations.
#[derive(Clone, Debug, Eq, Hash, PartialEq, Structural)]
#[non_exhaustive]
pub enum Path {
    /// Operating on global commands.
    ApplicationCommand(u64),
    /// Operating on a specific command.
    ApplicationCommandId(u64),
    /// Operating on commands in a guild.
    ApplicationGuildCommand(u64),
    /// Operating on a specific command in a guild.
    ApplicationGuildCommandId(u64),
    /// Operating on a channel.
    ChannelsId(u64),
    /// Operating on a channel's invites.
    ChannelsIdInvites(u64),
    /// Operating on a channel's messages.
    ChannelsIdMessages(u64),
    /// Operating on a channel's messages by bulk deleting.
    ChannelsIdMessagesBulkDelete(u64),
    /// Operating on an individual channel's message.
    ChannelsIdMessagesId(Method, u64),
    /// Crossposting an individual channel's message.
    ChannelsIdMessagesIdCrosspost(u64),
    /// Operating on an individual channel's message's reactions.
    ChannelsIdMessagesIdReactions(u64),
    /// Operating on an individual channel's message's reactions while
    /// specifying the user ID and emoji type.
    ChannelsIdMessagesIdReactionsUserIdType(u64),
    /// Operating on an individual channel's message's threads.
    ChannelsIdMessagesIdThreads(u64),
    /// Operating on a channel's permission overwrites by ID.
    ChannelsIdPermissionsOverwriteId(u64),
    /// Operating on a channel's pins.
    ChannelsIdPins(u64),
    /// Operating on a channel's individual pinned message.
    ChannelsIdPinsMessageId(u64),
    /// Operating on a group DM's recipients.
    ChannelsIdRecipients(u64),
    /// Operating on a thread's members.
    ChannelsIdThreadMembers(u64),
    /// Operating on a channel's threads.
    ChannelsIdThreads(u64),
    /// Operating on a channel's typing indicator.
    ChannelsIdTyping(u64),
    /// Operating on a channel's webhooks.
    ChannelsIdWebhooks(u64),
    /// Operating on a channel's followers.
    ChannelsIdFollowers(u64),
    /// Operating with the gateway information.
    Gateway,
    /// Operating with the gateway information tailored to the current user.
    GatewayBot,
    /// Operating on the guild resource.
    Guilds,
    /// Operating on one of user's guilds.
    GuildsId(u64),
    /// Operating on a guild's bans.
    GuildsIdBans(u64),
    /// Operating on a specific ban in a guild.
    GuildsIdBansId(u64),
    /// Operating on a guild's audit log.
    GuildsIdAuditLogs(u64),
    /// Operating on the ban of a specific user in a guild.
    GuildsIdBansUserId(u64),
    /// Operating on a guild's channels.
    GuildsIdChannels(u64),
    /// Operating on a guild's widget.
    GuildsIdWidget(u64),
    /// Operating on a guild's emojis.
    GuildsIdEmojis(u64),
    /// Operating on a specific emoji of a guild.
    GuildsIdEmojisId(u64),
    /// Operating on a guild's integrations.
    GuildsIdIntegrations(u64),
    /// Operating on a specific integration of a guild.
    GuildsIdIntegrationsId(u64),
    /// Synchronizing a specific integration of a guild.
    GuildsIdIntegrationsIdSync(u64),
    /// Operating on a guild's invites.
    GuildsIdInvites(u64),
    /// Operating on a guild's members.
    GuildsIdMembers(u64),
    /// Operating on a specific member of a guild.
    GuildsIdMembersId(u64),
    /// Operating on a specific role of a member of a guild.
    GuildsIdMembersIdRolesId(u64),
    /// Operating on the current user's nickname in a guild.
    GuildsIdMembersMeNick(u64),
    /// Searching a guild's members.
    GuildsIdMembersSearch(u64),
    /// Operating on a guild's preview.
    GuildsIdPreview(u64),
    /// Operating on a guild's prune.
    GuildsIdPrune(u64),
    /// Operating on a guild's voice regions.
    GuildsIdRegions(u64),
    /// Operating on a guild's roles.
    GuildsIdRoles(u64),
    /// Operating on a specific role of a guild.
    GuildsIdRolesId(u64),
    /// Operating on a guild's templates.
    GuildsIdTemplates(u64),
    /// Operating on a specific template of a guild.
    GuildsIdTemplatesCode(u64),
    /// Operating on a guild's threads.
    GuildsIdThreads(u64),
    /// Operating on a guild's vanity URL.
    GuildsIdVanityUrl(u64),
    /// Operating on a guild's voice states.
    GuildsIdVoiceStates(u64),
    /// Operating on a guild's welcome screen.
    GuildsIdWelcomeScreen(u64),
    /// Operating on a guild's webhooks.
    GuildsIdWebhooks(u64),
    /// Operating on an invite.
    InvitesCode,
    /// Operating on an interaction's callback.
    InteractionCallback(u64),
    /// Operating on a stage instance.
    StageInstances,
    /// Operating on a user.
    UsersId,
    /// Operating on the current application.
    OauthApplicationsMe,
    /// Operating on a user's connections.
    UsersIdConnections,
    /// Operating on a user's private channels.
    UsersIdChannels,
    /// Operating on the state of a guild that the user is in.
    UsersIdGuilds,
    /// Operating on the state of a guild that the user is in.
    UsersIdGuildsId,
    /// Operating on the voice regions available to the current user.
    VoiceRegions,
    /// Operating on a message created by a webhook.
    WebhooksIdTokenMessagesId(u64),
    /// Operating on a webhook.
    WebhooksId(u64),
}

// ----------------------------------------------------------------------------
// The route table.
// ----------------------------------------------------------------------------

/// A route whose ID segment `segment` must be a `u64`: `make` applied to it,
/// or an integer parsing error.
pub open spec fn id_route(segment: Seq<char>, make: spec_fn(u64) -> Path) -> Result<
    Path,
    PathParseErrorType,
> {
    match spec_parse_u64(segment) {
        Some(id) => Ok(make(id)),
        None => Err(PathParseErrorType::IntegerParsing),
    }
}

/// No route matched.
pub open spec fn no_match() -> Result<Path, PathParseErrorType> {
    Err(PathParseErrorType::NoMatch)
}

/// Routes under `applications/{id}`.
pub open spec fn applications_route(p: Seq<Seq<char>>) -> Result<Path, PathParseErrorType> {
    let n = p.len();
    if n == 3 && p[2] == "commands"@ {
        id_route(p[1], |id: u64| Path::ApplicationCommand(id))
    } else if n == 4 && p[2] == "commands"@ {
        id_route(p[1], |id: u64| Path::ApplicationCommandId(id))
    } else if n >= 5 && p[2] == "guilds"@ && p[4] == "commands"@ {
        if n == 5 || (n == 6 && p[5] == "permissions"@) {
            id_route(p[1], |id: u64| Path::ApplicationGuildCommand(id))
        } else if n == 6 || (n == 7 && p[6] == "permissions"@) {
            id_route(p[1], |id: u64| Path::ApplicationGuildCommandId(id))
        } else {
            no_match()
        }
    } else {
        no_match()
    }
}

/// Routes `channels/{id}/{x}`.
pub open spec fn channel_route_3(p: Seq<Seq<char>>) -> Result<Path, PathParseErrorType> {
    let x = p[2];
    if x == "followers"@ {
        id_route(p[1], |id: u64| Path::ChannelsIdFollowers(id))
    } else if x == "invites"@ {
        id_route(p[1], |id: u64| Path::ChannelsIdInvites(id))
    } else if x == "messages"@ {
        id_route(p[1], |id: u64| Path::ChannelsIdMessages(id))
    } else if x == "pins"@ {
        id_route(p[1], |id: u64| Path::ChannelsIdPins(id))
    } else if x == "recipients"@ {
        id_route(p[1], |id: u64| Path::ChannelsIdRecipients(id))
    } else if x == "thread-members"@ {
        id_route(p[1], |id: u64| Path::ChannelsIdThreadMembers(id))
    } else if x == "threads"@ {
        id_route(p[1], |id: u64| Path::ChannelsIdThreads(id))
    } else if x == "typing"@ {
        id_route(p[1], |id: u64| Path::ChannelsIdTyping(id))
    } else if x == "webhooks"@ {
        id_route(p[1], |id: u64| Path::ChannelsIdWebhooks(id))
    } else {
        no_match()
    }
}

/// Routes `channels/{id}/{x}/{y}`. A single message without a method is an
/// error that carries the channel ID.
pub open spec fn channel_route_4(p: Seq<Seq<char>>) -> Result<Path, PathParseErrorType> {
    let x = p[2];
    if x == "messages"@ {
        if p[3] == "bulk-delete"@ {
            id_route(p[1], |id: u64| Path::ChannelsIdMessagesBulkDelete(id))
        } else {
            match spec_parse_u64(p[1]) {
                Some(id) => Err(PathParseErrorType::MessageIdWithoutMethod { channel_id: id }),
                None => Err(PathParseErrorType::IntegerParsing),
            }
        }
    } else if x == "permissions"@ {
        id_route(p[1], |id: u64| Path::ChannelsIdPermissionsOverwriteId(id))
    } else if x == "pins"@ {
        id_route(p[1], |id: u64| Path::ChannelsIdPinsMessageId(id))
    } else if x == "recipients"@ {
        id_route(p[1], |id: u64| Path::ChannelsIdRecipients(id))
    } else if x == "webhooks"@ {
        id_route(p[1], |id: u64| Path::ChannelsIdWebhooks(id))
    } else {
        no_match()
    }
}

/// Routes `channels/{id}/messages/{message}/...` with five to seven segments.
pub open spec fn message_route(p: Seq<Seq<char>>) -> Result<Path, PathParseErrorType> {
    let n = p.len();
    let x = p[4];
    if n == 5 && x == "crosspost"@ {
        id_route(p[1], |id: u64| Path::ChannelsIdMessagesIdCrosspost(id))
    } else if (n == 5 || n == 6) && x == "reactions"@ {
        id_route(p[1], |id: u64| Path::ChannelsIdMessagesIdReactions(id))
    } else if n == 7 && x == "reactions"@ {
        id_route(p[1], |id: u64| Path::ChannelsIdMessagesIdReactionsUserIdType(id))
    } else if n == 5 && x == "threads"@ {
        id_route(p[1], |id: u64| Path::ChannelsIdMessagesIdThreads(id))
    } else {
        no_match()
    }
}

/// Routes under `channels/{id}`.
pub open spec fn channels_route(p: Seq<Seq<char>>) -> Result<Path, PathParseErrorType> {
    let n = p.len();
    if n == 2 {
        id_route(p[1], |id: u64| Path::ChannelsId(id))
    } else if n == 3 {
        channel_route_3(p)
    } else if n == 4 {
        channel_route_4(p)
    } else if 5 <= n <= 7 && p[2] == "messages"@ {
        message_route(p)
    } else {
        no_match()
    }
}

/// Routes `guilds/{id}/{x}`.
pub open spec fn guild_route_3(p: Seq<Seq<char>>) -> Result<Path, PathParseErrorType> {
    let x = p[2];
    if x == "audit-logs"@ {
        id_route(p[1], |id: u64| Path::GuildsIdAuditLogs(id))
    } else if x == "bans"@ {
        id_route(p[1], |id: u64| Path::GuildsIdBans(id))
    } else if x == "channels"@ {
        id_route(p[1], |id: u64| Path::GuildsIdChannels(id))
    } else if x == "widget"@ || x == "widget.json"@ {
        id_route(p[1], |id: u64| Path::GuildsIdWidget(id))
    } else if x == "emojis"@ {
        id_route(p[1], |id: u64| Path::GuildsIdEmojis(id))
    } else if x == "integrations"@ {
        id_route(p[1], |id: u64| Path::GuildsIdIntegrations(id))
    } else if x == "invites"@ {
        id_route(p[1], |id: u64| Path::GuildsIdInvites(id))
    } else if x == "members"@ {
        id_route(p[1], |id: u64| Path::GuildsIdMembers(id))
    } else if x == "preview"@ {
        id_route(p[1], |id: u64| Path::GuildsIdPreview(id))
    } else if x == "prune"@ {
        id_route(p[1], |id: u64| Path::GuildsIdPrune(id))
    } else if x == "regions"@ {
        id_route(p[1], |id: u64| Path::GuildsIdRegions(id))
    } else if x == "roles"@ {
        id_route(p[1], |id: u64| Path::GuildsIdRoles(id))
    } else if x == "templates"@ {
        id_route(p[1], |id: u64| Path::GuildsIdTemplates(id))
    } else if x == "vanity-url"@ {
        id_route(p[1], |id: u64| Path::GuildsIdVanityUrl(id))
    } else if x == "welcome-screen"@ {
        id_route(p[1], |id: u64| Path::GuildsIdWelcomeScreen(id))
    } else if x == "webhooks"@ {
        id_route(p[1], |id: u64| Path::GuildsIdWebhooks(id))
    } else {
        no_match()
    }
}

/// Routes `guilds/{id}/{x}/{y}`.
pub open spec fn guild_route_4(p: Seq<Seq<char>>) -> Result<Path, PathParseErrorType> {
    let x = p[2];
    if x == "bans"@ {
        id_route(p[1], |id: u64| Path::GuildsIdBansUserId(id))
    } else if x == "emojis"@ {
        id_route(p[1], |id: u64| Path::GuildsIdEmojisId(id))
    } else if x == "integrations"@ {
        id_route(p[1], |id: u64| Path::GuildsIdIntegrationsId(id))
    } else if x == "members"@ {
        if p[3] == "search"@ {
            id_route(p[1], |id: u64| Path::GuildsIdMembersSearch(id))
        } else {
            id_route(p[1], |id: u64| Path::GuildsIdMembersId(id))
        }
    } else if x == "roles"@ {
        id_route(p[1], |id: u64| Path::GuildsIdRolesId(id))
    } else if x == "templates"@ {
        id_route(p[1], |id: u64| Path::GuildsIdTemplatesCode(id))
    } else if x == "threads"@ {
        id_route(p[1], |id: u64| Path::GuildsIdThreads(id))
    } else if x == "voice-states"@ {
        id_route(p[1], |id: u64| Path::GuildsIdVoiceStates(id))
    } else {
        no_match()
    }
}

/// Routes under `guilds`.
pub open spec fn guilds_route(p: Seq<Seq<char>>) -> Result<Path, PathParseErrorType> {
    let n = p.len();
    if n == 1 {
        Ok(Path::Guilds)
    } else if n == 2 {
        id_route(p[1], |id: u64| Path::GuildsId(id))
    } else if n == 3 {
        guild_route_3(p)
    } else if n == 4 {
        guild_route_4(p)
    } else if n == 5 && p[2] == "integrations"@ && p[4] == "sync"@ {
        id_route(p[1], |id: u64| Path::GuildsIdIntegrationsIdSync(id))
    } else if n == 5 && p[2] == "members"@ && p[3] == "@me"@ && p[4] == "nick"@ {
        id_route(p[1], |id: u64| Path::GuildsIdMembersMeNick(id))
    } else if n == 6 && p[2] == "members"@ && p[4] == "roles"@ {
        id_route(p[1], |id: u64| Path::GuildsIdMembersIdRolesId(id))
    } else {
        no_match()
    }
}

/// Routes under `users/{user}`.
pub open spec fn users_route(p: Seq<Seq<char>>) -> Result<Path, PathParseErrorType> {
    let n = p.len();
    if n == 2 {
        Ok(Path::UsersId)
    } else if n == 3 && p[2] == "connections"@ {
        Ok(Path::UsersIdConnections)
    } else if n == 3 && p[2] == "channels"@ {
        Ok(Path::UsersIdChannels)
    } else if n == 3 && p[2] == "guilds"@ {
        Ok(Path::UsersIdGuilds)
    } else if n == 4 && p[2] == "guilds"@ {
        Ok(Path::UsersIdGuildsId)
    } else {
        no_match()
    }
}

/// Routes under `webhooks/{id}`.
pub open spec fn webhooks_route(p: Seq<Seq<char>>) -> Result<Path, PathParseErrorType> {
    let n = p.len();
    if n == 2 || n == 3 {
        id_route(p[1], |id: u64| Path::WebhooksId(id))
    } else if n == 5 && p[3] == "messages"@ {
        id_route(p[1], |id: u64| Path::WebhooksIdTokenMessagesId(id))
    } else {
        no_match()
    }
}

/// The routes that start with any other segment.
pub open spec fn other_route(p: Seq<Seq<char>>) -> Result<Path, PathParseErrorType> {
    let n = p.len();
    let head = p[0];
    if head == "gateway"@ {
        if n == 1 {
            Ok(Path::Gateway)
        } else if n == 2 && p[1] == "bot"@ {
            Ok(Path::GatewayBot)
        } else {
            no_match()
        }
    } else if head == "invites"@ && n == 2 {
        Ok(Path::InvitesCode)
    } else if head == "interactions"@ && n == 4 && p[3] == "callback"@ {
        id_route(p[1], |id: u64| Path::InteractionCallback(id))
    } else if head == "stage-instances"@ && n == 2 {
        Ok(Path::StageInstances)
    } else if head == "oauth2"@ && n == 3 && p[1] == "applications"@ && p[2] == "@me"@ {
        Ok(Path::OauthApplicationsMe)
    } else if head == "users"@ {
        users_route(p)
    } else if head == "voice"@ && n == 2 && p[1] == "regions"@ {
        Ok(Path::VoiceRegions)
    } else if head == "webhooks"@ {
        webhooks_route(p)
    } else {
        no_match()
    }
}

/// What the route with segments `p` denotes: the first entry of the route
/// table that `p` matches decides between a path, an integer parsing error for
/// its ID segment (always the second), or the missing-method error; `NoMatch`
/// when no entry matches.
pub open spec fn parse_route(p: Seq<Seq<char>>) -> Result<Path, PathParseErrorType> {
    if p.len() == 0 {
        no_match()
    } else if p[0] == "applications"@ {
        applications_route(p)
    } else if p[0] == "channels"@ {
        channels_route(p)
    } else if p[0] == "guilds"@ {
        guilds_route(p)
    } else {
        other_route(p)
    }
}

/// The ID that a path names: the ID of the resource its route starts with
/// (an application, channel, guild, interaction or webhook); `None` for the
/// paths whose route names no such ID.
pub open spec fn path_id(p: Path) -> Option<u64> {
    match p {
        Path::ApplicationCommand(id) => Some(id),
        Path::ApplicationCommandId(id) => Some(id),
        Path::ApplicationGuildCommand(id) => Some(id),
        Path::ApplicationGuildCommandId(id) => Some(id),
        Path::ChannelsId(id) => Some(id),
        Path::ChannelsIdInvites(id) => Some(id),
        Path::ChannelsIdMessages(id) => Some(id),
        Path::ChannelsIdMessagesBulkDelete(id) => Some(id),
        Path::ChannelsIdMessagesId(_, id) => Some(id),
        Path::ChannelsIdMessagesIdCrosspost(id) => Some(id),
        Path::ChannelsIdMessagesIdReactions(id) => Some(id),
        Path::ChannelsIdMessagesIdReactionsUserIdType(id) => Some(id),
        Path::ChannelsIdMessagesIdThreads(id) => Some(id),
        Path::ChannelsIdPermissionsOverwriteId(id) => Some(id),
        Path::ChannelsIdPins(id) => Some(id),
        Path::ChannelsIdPinsMessageId(id) => Some(id),
        Path::ChannelsIdRecipients(id) => Some(id),
        Path::ChannelsIdThreadMembers(id) => Some(id),
        Path::ChannelsIdThreads(id) => Some(id),
        Path::ChannelsIdTyping(id) => Some(id),
        Path::ChannelsIdWebhooks(id) => Some(id),
        Path::ChannelsIdFollowers(id) => Some(id),
        Path::Gateway => None,
        Path::GatewayBot => None,
        Path::Guilds => None,
        Path::GuildsId(id) => Some(id),
        Path::GuildsIdBans(id) => Some(id),
        Path::GuildsIdBansId(id) => Some(id),
        Path::GuildsIdAuditLogs(id) => Some(id),
        Path::GuildsIdBansUserId(id) => Some(id),
        Path::GuildsIdChannels(id) => Some(id),
        Path::GuildsIdWidget(id) => Some(id),
        Path::GuildsIdEmojis(id) => Some(id),
        Path::GuildsIdEmojisId(id) => Some(id),
        Path::GuildsIdIntegrations(id) => Some(id),
        Path::GuildsIdIntegrationsId(id) => Some(id),
        Path::GuildsIdIntegrationsIdSync(id) => Some(id),
        Path::GuildsIdInvites(id) => Some(id),
        Path::GuildsIdMembers(id) => Some(id),
        Path::GuildsIdMembersId(id) => Some(id),
        Path::GuildsIdMembersIdRolesId(id) => Some(id),
        Path::GuildsIdMembersMeNick(id) => Some(id),
        Path::GuildsIdMembersSearch(id) => Some(id),
        Path::GuildsIdPreview(id) => Some(id),
        Path::GuildsIdPrune(id) => Some(id),
        Path::GuildsIdRegions(id) => Some(id),
        Path::GuildsIdRoles(id) => Some(id),
        Path::GuildsIdRolesId(id) => Some(id),
        Path::GuildsIdTemplates(id) => Some(id),
        Path::GuildsIdTemplatesCode(id) => Some(id),
        Path::GuildsIdThreads(id) => Some(id),
        Path::GuildsIdVanityUrl(id) => Some(id),
        Path::GuildsIdVoiceStates(id) => Some(id),
        Path::GuildsIdWelcomeScreen(id) => Some(id),
        Path::GuildsIdWebhooks(id) => Some(id),
        Path::InvitesCode => None,
        Path::InteractionCallback(id) => Some(id),
        Path::StageInstances => None,
        Path::UsersId => None,
        Path::OauthApplicationsMe => None,
        Path::UsersIdConnections => None,
        Path::UsersIdChannels => None,
        Path::UsersIdGuilds => None,
        Path::UsersIdGuildsId => None,
        Path::VoiceRegions => None,
        Path::WebhooksIdTokenMessagesId(id) => Some(id),
        Path::WebhooksId(id) => Some(id),
    }
}

/// What parsing the route string `s` gives.
pub open spec fn path_from_str(s: Seq<char>) -> Result<Path, PathParseErrorType> {
    parse_route(route_segments(s))
}

/// What parsing the route string `s` with request method `method` gives: as
/// [`path_from_str`], except that a single-message route becomes a
/// [`Path::ChannelsIdMessagesId`] with that method.
pub open spec fn path_try_from(method: Method, s: Seq<char>) -> Result<Path, PathParseErrorType> {
    match path_from_str(s) {
        Err(PathParseErrorType::MessageIdWithoutMethod { channel_id }) => Ok(
            Path::ChannelsIdMessagesId(method, channel_id),
        ),
        other => other,
    }
}

/// A parse result with the error reduced to its kind.
pub open spec fn outcome(r: Result<Path, PathParseError>) -> Result<Path, PathParseErrorType> {
    match r {
        Ok(path) => Ok(path),
        Err(e) => Err(e.spec_kind()),
    }
}

/// An integer parsing error in a parse result is the error of reading the
/// route's ID segment, the second of the segments `p`: its source is the
/// error that `u64` parsing returns for that segment, and its recorded kind is
/// that error's kind.
pub open spec fn source_is_id_error(r: Result<Path, PathParseError>, p: Seq<Seq<char>>) -> bool {
    match r {
        Ok(_) => true,
        Err(e) => e.spec_kind() is IntegerParsing ==> e.spec_source() == Some(
            u64_parse_error(p[1]),
        ) && e.spec_source_kind() == Some(u64_error_kind(p[1])),
    }
}

// ----------------------------------------------------------------------------
// Parsing.
// ----------------------------------------------------------------------------

/// Reads the ID segment of a route.
fn parse_id(segment: &str) -> (r: Result<u64, PathParseError>)
    ensures
        match r {
            Ok(id) => spec_parse_u64(segment@) == Some(id),
            Err(e) => spec_parse_u64(segment@) is None && e.spec_kind()
                == PathParseErrorType::IntegerParsing && e.spec_source() == Some(
                u64_parse_error(segment@),
            ) && e.spec_source_kind() == Some(u64_error_kind(segment@)),
        },
{
    match parse_u64(segment) {
        Ok(id) => Ok(id),
        Err((source, kind)) => Err(PathParseError::integer_parsing(source, kind)),
    }
}

/// Matches the routes under `applications/{id}`.
fn route_applications(parts: &Vec<&str>) -> (r: Result<Path, PathParseError>)
    requires
        parts.len() >= 1,
    ensures
        outcome(r) == applications_route(views_of(parts@)),
        source_is_id_error(r, views_of(parts@)),
{
    let n = parts.len();
    if n == 3 && str_eq(parts[2], "commands") {
        Ok(Path::ApplicationCommand(parse_id(parts[1])?))
    } else if n == 4 && str_eq(parts[2], "commands") {
        Ok(Path::ApplicationCommandId(parse_id(parts[1])?))
    } else if n >= 5 && str_eq(parts[2], "guilds") && str_eq(parts[4], "commands") {
        if n == 5 || (n == 6 && str_eq(parts[5], "permissions")) {
            Ok(Path::ApplicationGuildCommand(parse_id(parts[1])?))
        } else if n == 6 || (n == 7 && str_eq(parts[6], "permissions")) {
            Ok(Path::ApplicationGuildCommandId(parse_id(parts[1])?))
        } else {
            Err(PathParseError::no_match())
        }
    } else {
        Err(PathParseError::no_match())
    }
}

/// Matches the routes `channels/{id}/{x}`.
fn route_channel_3(parts: &Vec<&str>) -> (r: Result<Path, PathParseError>)
    requires
        parts.len() == 3,
    ensures
        outcome(r) == channel_route_3(views_of(parts@)),
        source_is_id_error(r, views_of(parts@)),
{
    let x = parts[2];
    if str_eq(x, "followers") {
        Ok(Path::ChannelsIdFollowers(parse_id(parts[1])?))
    } else if str_eq(x, "invites") {
        Ok(Path::ChannelsIdInvites(parse_id(parts[1])?))
    } else if str_eq(x, "messages") {
        Ok(Path::ChannelsIdMessages(parse_id(parts[1])?))
    } else if str_eq(x, "pins") {
        Ok(Path::ChannelsIdPins(parse_id(parts[1])?))
    } else if str_eq(x, "recipients") {
        Ok(Path::ChannelsIdRecipients(parse_id(parts[1])?))
    } else if str_eq(x, "thread-members") {
        Ok(Path::ChannelsIdThreadMembers(parse_id(parts[1])?))
    } else if str_eq(x, "threads") {
        Ok(Path::ChannelsIdThreads(parse_id(parts[1])?))
    } else if str_eq(x, "typing") {
        Ok(Path::ChannelsIdTyping(parse_id(parts[1])?))
    } else if str_eq(x, "webhooks") {
        Ok(Path::ChannelsIdWebhooks(parse_id(parts[1])?))
    } else {
        Err(PathParseError::no_match())
    }
}

/// Matches the routes `channels/{id}/{x}/{y}`.
fn route_channel_4(parts: &Vec<&str>) -> (r: Result<Path, PathParseError>)
    requires
        parts.len() == 4,
    ensures
        outcome(r) == channel_route_4(views_of(parts@)),
        source_is_id_error(r, views_of(parts@)),
{
    let x = parts[2];
    if str_eq(x, "messages") {
        if str_eq(parts[3], "bulk-delete") {
            Ok(Path::ChannelsIdMessagesBulkDelete(parse_id(parts[1])?))
        } else {
            // A single message has a ratelimit per method, so no path can be
            // given without one.
            Err(PathParseError::message_id_without_method(parse_id(parts[1])?))
        }
    } else if str_eq(x, "permissions") {
        Ok(Path::ChannelsIdPermissionsOverwriteId(parse_id(parts[1])?))
    } else if str_eq(x, "pins") {
        Ok(Path::ChannelsIdPinsMessageId(parse_id(parts[1])?))
    } else if str_eq(x, "recipients") {
        Ok(Path::ChannelsIdRecipients(parse_id(parts[1])?))
    } else if str_eq(x, "webhooks") {
        Ok(Path::ChannelsIdWebhooks(parse_id(parts[1])?))
    } else {
        Err(PathParseError::no_match())
    }
}

/// Matches the routes under `channels/{id}/messages/{message}` with five to seven segments.
fn route_message(parts: &Vec<&str>) -> (r: Result<Path, PathParseError>)
    requires
        5 <= parts.len() <= 7,
    ensures
        outcome(r) == message_route(views_of(parts@)),
        source_is_id_error(r, views_of(parts@)),
{
    let n = parts.len();
    let x = parts[4];
    if n == 5 && str_eq(x, "crosspost") {
        Ok(Path::ChannelsIdMessagesIdCrosspost(parse_id(parts[1])?))
    } else if (n == 5 || n == 6) && str_eq(x, "reactions") {
        Ok(Path::ChannelsIdMessagesIdReactions(parse_id(parts[1])?))
    } else if n == 7 && str_eq(x, "reactions") {
        Ok(Path::ChannelsIdMessagesIdReactionsUserIdType(parse_id(parts[1])?))
    } else if n == 5 && str_eq(x, "threads") {
        Ok(Path::ChannelsIdMessagesIdThreads(parse_id(parts[1])?))
    } else {
        Err(PathParseError::no_match())
    }
}

/// Matches the routes under `channels/{id}`.
fn route_channels(parts: &Vec<&str>) -> (r: Result<Path, PathParseError>)
    requires
        parts.len() >= 1,
    ensures
        outcome(r) == channels_route(views_of(parts@)),
        source_is_id_error(r, views_of(parts@)),
{
    let n = parts.len();
    if n == 2 {
        Ok(Path::ChannelsId(parse_id(parts[1])?))
    } else if n == 3 {
        route_channel_3(parts)
    } else if n == 4 {
        route_channel_4(parts)
    } else if 5 <= n && n <= 7 && str_eq(parts[2], "messages") {
        route_message(parts)
    } else {
        Err(PathParseError::no_match())
    }
}

/// Matches the routes `guilds/{id}/{x}`.
fn route_guild_3(parts: &Vec<&str>) -> (r: Result<Path, PathParseError>)
    requires
        parts.len() == 3,
    ensures
        outcome(r) == guild_route_3(views_of(parts@)),
        source_is_id_error(r, views_of(parts@)),
{
    let x = parts[2];
    if str_eq(x, "audit-logs") {
        Ok(Path::GuildsIdAuditLogs(parse_id(parts[1])?))
    } else if str_eq(x, "bans") {
        Ok(Path::GuildsIdBans(parse_id(parts[1])?))
    } else if str_eq(x, "channels") {
        Ok(Path::GuildsIdChannels(parse_id(parts[1])?))
    } else if str_eq(x, "widget") || str_eq(x, "widget.json") {
        Ok(Path::GuildsIdWidget(parse_id(parts[1])?))
    } else if str_eq(x, "emojis") {
        Ok(Path::GuildsIdEmojis(parse_id(parts[1])?))
    } else if str_eq(x, "integrations") {
        Ok(Path::GuildsIdIntegrations(parse_id(parts[1])?))
    } else if str_eq(x, "invites") {
        Ok(Path::GuildsIdInvites(parse_id(parts[1])?))
    } else if str_eq(x, "members") {
        Ok(Path::GuildsIdMembers(parse_id(parts[1])?))
    } else if str_eq(x, "preview") {
        Ok(Path::GuildsIdPreview(parse_id(parts[1])?))
    } else if str_eq(x, "prune") {
        Ok(Path::GuildsIdPrune(parse_id(parts[1])?))
    } else if str_eq(x, "regions") {
        Ok(Path::GuildsIdRegions(parse_id(parts[1])?))
    } else if str_eq(x, "roles") {
        Ok(Path::GuildsIdRoles(parse_id(parts[1])?))
    } else if str_eq(x, "templates") {
        Ok(Path::GuildsIdTemplates(parse_id(parts[1])?))
    } else if str_eq(x, "vanity-url") {
        Ok(Path::GuildsIdVanityUrl(parse_id(parts[1])?))
    } else if str_eq(x, "welcome-screen") {
        Ok(Path::GuildsIdWelcomeScreen(parse_id(parts[1])?))
    } else if str_eq(x, "webhooks") {
        Ok(Path::GuildsIdWebhooks(parse_id(parts[1])?))
    } else {
        Err(PathParseError::no_match())
    }
}

/// Matches the routes `guilds/{id}/{x}/{y}`.
fn route_guild_4(parts: &Vec<&str>) -> (r: Result<Path, PathParseError>)
    requires
        parts.len() == 4,
    ensures
        outcome(r) == guild_route_4(views_of(parts@)),
        source_is_id_error(r, views_of(parts@)),
{
    let x = parts[2];
    if str_eq(x, "bans") {
        Ok(Path::GuildsIdBansUserId(parse_id(parts[1])?))
    } else if str_eq(x, "emojis") {
        Ok(Path::GuildsIdEmojisId(parse_id(parts[1])?))
    } else if str_eq(x, "integrations") {
        Ok(Path::GuildsIdIntegrationsId(parse_id(parts[1])?))
    } else if str_eq(x, "members") {
        if str_eq(parts[3], "search") {
            Ok(Path::GuildsIdMembersSearch(parse_id(parts[1])?))
        } else {
            Ok(Path::GuildsIdMembersId(parse_id(parts[1])?))
        }
    } else if str_eq(x, "roles") {
        Ok(Path::GuildsIdRolesId(parse_id(parts[1])?))
    } else if str_eq(x, "templates") {
        Ok(Path::GuildsIdTemplatesCode(parse_id(parts[1])?))
    } else if str_eq(x, "threads") {
        Ok(Path::GuildsIdThreads(parse_id(parts[1])?))
    } else if str_eq(x, "voice-states") {
        Ok(Path::GuildsIdVoiceStates(parse_id(parts[1])?))
    } else {
        Err(PathParseError::no_match())
    }
}

/// Matches the routes under `guilds`.
fn route_guilds(parts: &Vec<&str>) -> (r: Result<Path, PathParseError>)
    requires
        parts.len() >= 1,
    ensures
        outcome(r) == guilds_route(views_of(parts@)),
        source_is_id_error(r, views_of(parts@)),
{
    let n = parts.len();
    if n == 1 {
        Ok(Path::Guilds)
    } else if n == 2 {
        Ok(Path::GuildsId(parse_id(parts[1])?))
    } else if n == 3 {
        route_guild_3(parts)
    } else if n == 4 {
        route_guild_4(parts)
    } else if n == 5 && str_eq(parts[2], "integrations") && str_eq(parts[4], "sync") {
        Ok(Path::GuildsIdIntegrationsIdSync(parse_id(parts[1])?))
    } else if n == 5 && str_eq(parts[2], "members") && str_eq(parts[3], "@me") && str_eq(
        parts[4],
        "nick",
    ) {
        Ok(Path::GuildsIdMembersMeNick(parse_id(parts[1])?))
    } else if n == 6 && str_eq(parts[2], "members") && str_eq(parts[4], "roles") {
        Ok(Path::GuildsIdMembersIdRolesId(parse_id(parts[1])?))
    } else {
        Err(PathParseError::no_match())
    }
}

/// Matches the routes under `users/{user}`.
fn route_users(parts: &Vec<&str>) -> (r: Result<Path, PathParseError>)
    requires
        parts.len() >= 1,
    ensures
        outcome(r) == users_route(views_of(parts@)),
        source_is_id_error(r, views_of(parts@)),
{
    let n = parts.len();
    if n == 2 {
        Ok(Path::UsersId)
    } else if n == 3 && str_eq(parts[2], "connections") {
        Ok(Path::UsersIdConnections)
    } else if n == 3 && str_eq(parts[2], "channels") {
        Ok(Path::UsersIdChannels)
    } else if n == 3 && str_eq(parts[2], "guilds") {
        Ok(Path::UsersIdGuilds)
    } else if n == 4 && str_eq(parts[2], "guilds") {
        Ok(Path::UsersIdGuildsId)
    } else {
        Err(PathParseError::no_match())
    }
}

/// Matches the routes under `webhooks/{id}`.
fn route_webhooks(parts: &Vec<&str>) -> (r: Result<Path, PathParseError>)
    requires
        parts.len() >= 1,
    ensures
        outcome(r) == webhooks_route(views_of(parts@)),
        source_is_id_error(r, views_of(parts@)),
{
    let n = parts.len();
    if n == 2 || n == 3 {
        Ok(Path::WebhooksId(parse_id(parts[1])?))
    } else if n == 5 && str_eq(parts[3], "messages") {
        Ok(Path::WebhooksIdTokenMessagesId(parse_id(parts[1])?))
    } else {
        Err(PathParseError::no_match())
    }
}

/// Matches the routes that start with any other segment.
fn route_other(parts: &Vec<&str>) -> (r: Result<Path, PathParseError>)
    requires
        parts.len() >= 1,
    ensures
        outcome(r) == other_route(views_of(parts@)),
        source_is_id_error(r, views_of(parts@)),
{
    let n = parts.len();
    let head = parts[0];
    if str_eq(head, "gateway") {
        if n == 1 {
            Ok(Path::Gateway)
        } else if n == 2 && str_eq(parts[1], "bot") {
            Ok(Path::GatewayBot)
        } else {
            Err(PathParseError::no_match())
        }
    } else if str_eq(head, "invites") && n == 2 {
        Ok(Path::InvitesCode)
    } else if str_eq(head, "interactions") && n == 4 && str_eq(parts[3], "callback") {
        Ok(Path::InteractionCallback(parse_id(parts[1])?))
    } else if str_eq(head, "stage-instances") && n == 2 {
        Ok(Path::StageInstances)
    } else if str_eq(head, "oauth2") && n == 3 && str_eq(parts[1], "applications") && str_eq(
        parts[2],
        "@me",
    ) {
        Ok(Path::OauthApplicationsMe)
    } else if str_eq(head, "users") {
        route_users(parts)
    } else if str_eq(head, "voice") && n == 2 && str_eq(parts[1], "regions") {
        Ok(Path::VoiceRegions)
    } else if str_eq(head, "webhooks") {
        route_webhooks(parts)
    } else {
        Err(PathParseError::no_match())
    }
}

/// Matches the segments of a route against the route table.
pub fn route(parts: &Vec<&str>) -> (r: Result<Path, PathParseError>)
    ensures
        outcome(r) == parse_route(views_of(parts@)),
        source_is_id_error(r, views_of(parts@)),
{
    if parts.len() == 0 {
        Err(PathParseError::no_match())
    } else if str_eq(parts[0], "applications") {
        route_applications(parts)
    } else if str_eq(parts[0], "channels") {
        route_channels(parts)
    } else if str_eq(parts[0], "guilds") {
        route_guilds(parts)
    } else {
        route_other(parts)
    }
}

impl Path {
    /// Parses a string into a path.
    ///
    /// The string *may* start with a slash (`/`), which will be ignored.
    /// A route to a single message of a channel is refused with a
    /// [`PathParseErrorType::MessageIdWithoutMethod`] error, since its
    /// ratelimit depends on the request method: see [`Path::try_from`].
    pub fn from_str(s: &str) -> (r: Result<Path, PathParseError>)
        ensures
            outcome(r) == path_from_str(s@),
            source_is_id_error(r, route_segments(s@)),
    {
        let parts = route_parts(s);
        route(&parts)
    }

    /// Parses a route string for a request made with `method`.
    ///
    /// This is [`Path::from_str`], except that a route to a single message of
    /// a channel gives [`Path::ChannelsIdMessagesId`] with the method.
    pub fn try_from(value: (Method, &str)) -> (r: Result<Path, PathParseError>)
        ensures
            outcome(r) == path_try_from(value.0, value.1@),
            source_is_id_error(r, route_segments(value.1@)),
    {
        let (method, s) = value;
        match Self::from_str(s) {
            Ok(v) => Ok(v),
            Err(why) => {
                if let PathParseErrorType::MessageIdWithoutMethod { channel_id } = why.kind() {
                    Ok(Self::ChannelsIdMessagesId(method, *channel_id))
                } else {
                    Err(why)
                }
            },
        }
    }
}

impl std::str::FromStr for Path {
    type Err = PathParseError;

    fn from_str(s: &str) -> (r: Result<Self, Self::Err>)
        ensures
            outcome(r) == path_from_str(s@),
            source_is_id_error(r, route_segments(s@)),
    {
        Path::from_str(s)
    }
}

impl<'a> TryFrom<(Method, &'a str)> for Path {
    type Error = PathParseError;

    fn try_from(value: (Method, &'a str)) -> (r: Result<Self, Self::Error>)
        ensures
            outcome(r) == path_try_from(value.0, value.1@),
            source_is_id_error(r, route_segments(value.1@)),
    {
        Path::try_from(value)
    }
}

/// The error of a failed conversion holds an integer parsing error that no
/// spec function can name, so the conversion is described by the contract of
/// [`Path::try_from`] instead of by `try_from_spec`.
impl<'a> vstd::std_specs::convert::TryFromSpecImpl<(Method, &'a str)> for Path {
    open spec fn obeys_try_from_spec() -> bool {
        false
    }

    open spec fn try_from_spec(v: (Method, &'a str)) -> Result<Self, PathParseError> {
        vstd::pervasive::arbitrary()
    }
}

} // verus!
