//! Properties of route parsing that hold for every route string.
use vstd::prelude::*;

use crate::decimal::spec_parse_u64;
use crate::error::PathParseErrorType;
use crate::method::Method;
use crate::path::{Path, path_from_str, path_id, path_try_from};
use crate::segments::{lemma_split_on_leading_sep, route_segments, split_on};

verus! {

/// A leading slash is unimportant: a route string and the same string with
/// one `/` in front parse to the same result (provided the string does not
/// already start with `/`).
pub proof fn lemma_leading_slash_ignored(s: Seq<char>)
    requires
        !(s.len() > 0 && s[0] == '/'),
    ensures
        path_from_str(seq!['/'] + s) == path_from_str(s),
{
    let t = seq!['/'] + s;
    lemma_split_on_leading_sep(s, '/');
    assert(t[0] == '/');
    assert(split_on(t, '/').drop_first() =~= split_on(s, '/'));
    assert(route_segments(t) == route_segments(s));
}

/// Parsing without a method never produces the per-method path of a single
/// message.
pub proof fn lemma_from_str_never_message_id(s: Seq<char>)
    ensures
        !(path_from_str(s) matches Ok(Path::ChannelsIdMessagesId(_, _))),
{
}

/// Where parsing without a method succeeds, parsing with any method gives the
/// same path.
pub proof fn lemma_try_from_agrees(method: Method, s: Seq<char>)
    requires
        path_from_str(s) is Ok,
    ensures
        path_try_from(method, s) == path_from_str(s),
{
}

/// A route that lacks only its method is accepted once a method is given,
/// as the per-method path of the single message with the same channel ID.
pub proof fn lemma_try_from_supplies_method(method: Method, s: Seq<char>, channel_id: u64)
    requires
        path_from_str(s) == Err::<Path, PathParseErrorType>(
            PathParseErrorType::MessageIdWithoutMethod { channel_id },
        ),
    ensures
        path_try_from(method, s) == Ok::<Path, PathParseErrorType>(
            Path::ChannelsIdMessagesId(method, channel_id),
        ),
{
}

/// Parsing with a method never fails for want of a method, and the method
/// decides nothing but the method of a single-message path.
pub proof fn lemma_try_from_method_only_for_messages(m1: Method, m2: Method, s: Seq<char>)
    ensures
        !(path_try_from(m1, s) matches Err(PathParseErrorType::MessageIdWithoutMethod { .. })),
        path_from_str(s) is Ok ==> path_try_from(m1, s) == path_try_from(m2, s),
        path_try_from(m1, s) is Err ==> path_try_from(m1, s) == path_try_from(m2, s),
{
}

/// An integer parsing error comes only from a second segment that is not a
/// valid `u64`.
pub proof fn lemma_integer_error_blames_id(s: Seq<char>)
    requires
        path_from_str(s) == Err::<Path, PathParseErrorType>(PathParseErrorType::IntegerParsing),
    ensures
        route_segments(s).len() >= 2,
        spec_parse_u64(route_segments(s)[1]) is None,
{
}

/// A missing method is reported only for `channels/{id}/messages/{message}`,
/// and the error carries the channel ID that the route names.
pub proof fn lemma_missing_method_route(s: Seq<char>, channel_id: u64)
    requires
        path_from_str(s) == Err::<Path, PathParseErrorType>(
            PathParseErrorType::MessageIdWithoutMethod { channel_id },
        ),
    ensures
        route_segments(s).len() == 4,
        route_segments(s)[0] == "channels"@,
        route_segments(s)[2] == "messages"@,
        spec_parse_u64(route_segments(s)[1]) == Some(channel_id),
{
}

/// The ID inside a parsed path is the value of the route's second segment.
pub proof fn lemma_path_id_from_second_segment(s: Seq<char>, p: Path)
    requires
        path_from_str(s) == Ok::<Path, PathParseErrorType>(p),
        path_id(p) is Some,
    ensures
        route_segments(s).len() >= 2,
        spec_parse_u64(route_segments(s)[1]) == path_id(p),
{
}

/// Deleting a given user's reaction: every route
/// `channels/{channel}/messages/{message}/reactions/{emoji}/{user}` with a valid
/// channel ID is that channel's per-user reactions path, whatever the message,
/// emoji and user segments are.
pub proof fn lemma_reaction_of_any_user(
    s: Seq<char>,
    message: Seq<char>,
    emoji: Seq<char>,
    user: Seq<char>,
    channel_id: u64,
)
    requires
        route_segments(s).len() == 7,
        route_segments(s)[0] == "channels"@,
        spec_parse_u64(route_segments(s)[1]) == Some(channel_id),
        route_segments(s)[2] == "messages"@,
        route_segments(s)[3] == message,
        route_segments(s)[4] == "reactions"@,
        route_segments(s)[5] == emoji,
        route_segments(s)[6] == user,
    ensures
        path_from_str(s) == Ok::<Path, PathParseErrorType>(
            Path::ChannelsIdMessagesIdReactionsUserIdType(channel_id),
        ),
{
    reveal_strlit("applications");
    assert("applications"@.len() == 12);
    reveal_strlit("channels");
    assert("channels"@.len() == 8);
}

/// Any member's voice state: every route `guilds/{guild}/voice-states/{user}`
/// with a valid guild ID is that guild's voice-states path, whatever the user
/// segment is.
pub proof fn lemma_voice_state_of_any_user(s: Seq<char>, user: Seq<char>, guild_id: u64)
    requires
        route_segments(s).len() == 4,
        route_segments(s)[0] == "guilds"@,
        spec_parse_u64(route_segments(s)[1]) == Some(guild_id),
        route_segments(s)[2] == "voice-states"@,
        route_segments(s)[3] == user,
    ensures
        path_from_str(s) == Ok::<Path, PathParseErrorType>(Path::GuildsIdVoiceStates(guild_id)),
{
    reveal_strlit("applications");
    assert("applications"@.len() == 12);
    reveal_strlit("channels");
    assert("channels"@.len() == 8);
    reveal_strlit("guilds");
    assert("guilds"@.len() == 6);
    reveal_strlit("voice-states");
    assert("voice-states"@.len() == 12);
    reveal_strlit("bans");
    assert("bans"@.len() == 4);
    reveal_strlit("emojis");
    assert("emojis"@.len() == 6);
    reveal_strlit("integrations");
    assert("integrations"@.len() == 12);
    reveal_strlit("members");
    assert("members"@.len() == 7);
    reveal_strlit("roles");
    assert("roles"@.len() == 5);
    reveal_strlit("templates");
    assert("templates"@.len() == 9);
    reveal_strlit("threads");
    assert("threads"@.len() == 7);
    assert("voice-states"@[0] != "integrations"@[0]);
}

/// A single member: every route `guilds/{guild}/members/{member}` with a valid
/// guild ID, other than the member search, is that guild's member path; the
/// current member (`@me`) included.
pub proof fn lemma_any_single_member(s: Seq<char>, member: Seq<char>, guild_id: u64)
    requires
        route_segments(s).len() == 4,
        route_segments(s)[0] == "guilds"@,
        spec_parse_u64(route_segments(s)[1]) == Some(guild_id),
        route_segments(s)[2] == "members"@,
        route_segments(s)[3] == member,
        member != "search"@,
    ensures
        path_from_str(s) == Ok::<Path, PathParseErrorType>(Path::GuildsIdMembersId(guild_id)),
{
    reveal_strlit("applications");
    assert("applications"@.len() == 12);
    reveal_strlit("channels");
    assert("channels"@.len() == 8);
    reveal_strlit("guilds");
    assert("guilds"@.len() == 6);
    reveal_strlit("members");
    assert("members"@.len() == 7);
    reveal_strlit("bans");
    assert("bans"@.len() == 4);
    reveal_strlit("emojis");
    assert("emojis"@.len() == 6);
    reveal_strlit("integrations");
    assert("integrations"@.len() == 12);
}

/// The nickname path of the current member comes only from the five segments
/// `guilds/{guild}/members/@me/nick`, with the guild ID that the route names.
pub proof fn lemma_member_nick_route(s: Seq<char>, guild_id: u64)
    requires
        path_from_str(s) == Ok::<Path, PathParseErrorType>(
            Path::GuildsIdMembersMeNick(guild_id),
        ),
    ensures
        route_segments(s).len() == 5,
        route_segments(s)[0] == "guilds"@,
        spec_parse_u64(route_segments(s)[1]) == Some(guild_id),
        route_segments(s)[2] == "members"@,
        route_segments(s)[3] == "@me"@,
        route_segments(s)[4] == "nick"@,
{
}

/// Any user: every route `users/{user}` is the user path, whatever the user
/// segment is (an ID or `@me`).
pub proof fn lemma_any_user(s: Seq<char>, user: Seq<char>)
    requires
        route_segments(s) == seq!["users"@, user],
    ensures
        path_from_str(s) == Ok::<Path, PathParseErrorType>(Path::UsersId),
{
    reveal_strlit("applications");
    assert("applications"@.len() == 12);
    reveal_strlit("channels");
    assert("channels"@.len() == 8);
    reveal_strlit("guilds");
    assert("guilds"@.len() == 6);
    reveal_strlit("users");
    assert("users"@.len() == 5);
    reveal_strlit("gateway");
    assert("gateway"@.len() == 7);
    reveal_strlit("invites");
    assert("invites"@.len() == 7);
    reveal_strlit("interactions");
    assert("interactions"@.len() == 12);
    reveal_strlit("stage-instances");
    assert("stage-instances"@.len() == 15);
    reveal_strlit("oauth2");
    assert("oauth2"@.len() == 6);
}

/// Any webhook message: every route `webhooks/{webhook}/{token}/messages/{message}`
/// with a valid webhook ID is that webhook's message path, whatever the token
/// and message segments are (`@original` included); only the webhook segment
/// is read as an ID.
pub proof fn lemma_any_webhook_message(
    s: Seq<char>,
    token: Seq<char>,
    message: Seq<char>,
    webhook_id: u64,
)
    requires
        route_segments(s).len() == 5,
        route_segments(s)[0] == "webhooks"@,
        spec_parse_u64(route_segments(s)[1]) == Some(webhook_id),
        route_segments(s)[2] == token,
        route_segments(s)[3] == "messages"@,
        route_segments(s)[4] == message,
    ensures
        path_from_str(s) == Ok::<Path, PathParseErrorType>(
            Path::WebhooksIdTokenMessagesId(webhook_id),
        ),
{
    reveal_strlit("applications");
    assert("applications"@.len() == 12);
    reveal_strlit("channels");
    assert("channels"@.len() == 8);
    reveal_strlit("guilds");
    assert("guilds"@.len() == 6);
    reveal_strlit("webhooks");
    assert("webhooks"@.len() == 8);
    reveal_strlit("gateway");
    assert("gateway"@.len() == 7);
    reveal_strlit("invites");
    assert("invites"@.len() == 7);
    reveal_strlit("interactions");
    assert("interactions"@.len() == 12);
    reveal_strlit("stage-instances");
    assert("stage-instances"@.len() == 15);
    reveal_strlit("oauth2");
    assert("oauth2"@.len() == 6);
    reveal_strlit("users");
    assert("users"@.len() == 5);
    reveal_strlit("voice");
    assert("voice"@.len() == 5);
    assert("webhooks"@[0] != "channels"@[0]);
}

} // verus!
