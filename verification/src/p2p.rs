//! Peer-to-peer session setup: where to find the signaling server and the
//! room, and the socket builder made from them.
use matchbox_socket::WebRtcSocketBuilder;
use vstd::prelude::*;

verus! {

#[verifier::external_type_specification]
#[verifier::external_body]
pub struct ExWebRtcSocketBuilder(WebRtcSocketBuilder);

/// Where and how many players to match.
#[derive(Clone, Debug)]
pub struct MatchboxConfig {
    pub signaling_server: Option<String>,
    pub room: Option<String>,
    pub player_count: usize,
}

impl Default for MatchboxConfig {
    /// No server or room chosen (the defaults apply), two players.
    fn default() -> (c: MatchboxConfig)
        ensures
            c.signaling_server is None,
            c.room is None,
            c.player_count == 2,
    {
        MatchboxConfig { signaling_server: None, room: None, player_count: 2 }
    }
}

/// The room URL that `builder` was created for.
pub uninterp spec fn builder_room_url(builder: WebRtcSocketBuilder) -> Seq<char>;

/// The data channels that `builder` will open, in order, each as
/// (`ordered`, `max_retransmits`).
pub uninterp spec fn builder_channels(builder: WebRtcSocketBuilder) -> Seq<(bool, Option<u16>)>;

/// A reliable channel: ordered, retransmitted until it arrives.
pub open spec fn reliable_channel() -> (bool, Option<u16>) {
    (true, None)
}

/// An unreliable channel: unordered, never retransmitted.
pub open spec fn unreliable_channel() -> (bool, Option<u16>) {
    (false, Some(0u16))
}

/// The socket builder, once configured.
pub struct SocketBuilderResource(pub Option<WebRtcSocketBuilder>);

impl Default for SocketBuilderResource {
    /// Not configured yet.
    fn default() -> (r: SocketBuilderResource)
        ensures
            r.0 is None,
    {
        SocketBuilderResource(None)
    }
}

/// The signaling server used when none is configured.
pub open spec fn default_signaling_server() -> Seq<char> {
    "ws://127.0.0.1:3536/matchbox/"@
}

/// The room used when none is configured.
pub open spec fn default_room() -> Seq<char> {
    "quickstart"@
}

/// The configured value, or the default when there is none.
pub open spec fn or_default(value: Option<String>, default: Seq<char>) -> Seq<char> {
    match value {
        Some(s) => s@,
        None => default,
    }
}

/// The room URL: the signaling server followed by the room, each taken from
/// the configuration or its default.
pub open spec fn spec_room_url(config: MatchboxConfig) -> Seq<char> {
    or_default(config.signaling_server, default_signaling_server()) + or_default(
        config.room,
        default_room(),
    )
}

/// The room to join: the configured one, or `quickstart`.
pub fn room(config: &MatchboxConfig) -> (r: String)
    ensures
        r@ == or_default(config.room, default_room()),
{
    match &config.room {
        Some(r) => r.clone(),
        None => String::from_str("quickstart"),
    }
}

/// The room URL is the signaling part followed by the room part: it starts
/// with the configured (or default) signaling server, ends with the
/// configured (or default) room, and is exactly as long as the two together,
/// whichever of them are configured.
pub proof fn lemma_room_url_ends_with_room(config: MatchboxConfig)
    ensures
        ({
            let url = spec_room_url(config);
            let server = or_default(config.signaling_server, default_signaling_server());
            let room = or_default(config.room, default_room());
            &&& url.len() == server.len() + room.len()
            &&& url.subrange(0, server.len() as int) == server
            &&& url.subrange(server.len() as int, url.len() as int) == room
        }),
{
    let url = spec_room_url(config);
    let server = or_default(config.signaling_server, default_signaling_server());
    let room = or_default(config.room, default_room());
    assert(url.subrange(0, server.len() as int) =~= server);
    assert(url.subrange(server.len() as int, url.len() as int) =~= room);
}

/// The URL of the room to join.
pub fn room_url(config: &MatchboxConfig) -> (url: String)
    ensures
        url@ == spec_room_url(*config),
        url@.len() == or_default(config.signaling_server, default_signaling_server()).len()
            + or_default(config.room, default_room()).len(),
        url@.subrange(
            url@.len() - or_default(config.room, default_room()).len(),
            url@.len() as int,
        ) == or_default(config.room, default_room()),
{
    proof {
        lemma_room_url_ends_with_room(*config);
    }
    let signaling = match &config.signaling_server {
        Some(s) => s.clone(),
        None => String::from_str("ws://127.0.0.1:3536/matchbox/"),
    };
    let room = room(config);
    signaling.concat(room.as_str())
}

/// `matchbox_socket::WebRtcSocketBuilder::new`: a builder whose socket
/// configuration holds `room_url` as its room URL and no data channel yet
/// (besides the default ICE server, three reconnection attempts and a ten
/// second keep-alive, which nothing here states).
#[verifier::external_body]
fn socket_builder_for_room(room_url: String) -> (b: WebRtcSocketBuilder)
    ensures
        builder_room_url(b) == room_url@,
        builder_channels(b) == Seq::<(bool, Option<u16>)>::empty(),
{
    WebRtcSocketBuilder::new(room_url)
}

/// `matchbox_socket::WebRtcSocketBuilder::add_reliable_channel`: pushes
/// `ChannelConfig::reliable()` (ordered, no retransmission limit) onto the
/// channel list and keeps the room URL.
#[verifier::external_body]
fn with_reliable_channel(builder: WebRtcSocketBuilder) -> (b: WebRtcSocketBuilder)
    ensures
        builder_room_url(b) == builder_room_url(builder),
        builder_channels(b) == builder_channels(builder).push(reliable_channel()),
{
    builder.add_reliable_channel()
}

/// `matchbox_socket::WebRtcSocketBuilder::add_unreliable_channel`: pushes
/// `ChannelConfig::unreliable()` (unordered, no retransmission) onto the
/// channel list and keeps the room URL.
#[verifier::external_body]
fn with_unreliable_channel(builder: WebRtcSocketBuilder) -> (b: WebRtcSocketBuilder)
    ensures
        builder_room_url(b) == builder_room_url(builder),
        builder_channels(b) == builder_channels(builder).push(unreliable_channel()),
{
    builder.add_unreliable_channel()
}

/// Configures the socket builder: one for the room at [`room_url`], with a
/// reliable channel followed by an unreliable one; the player count plays no
/// part. Returns the room URL it
/// was made for.
pub fn configure_socket_builder(builder: &mut SocketBuilderResource, config: &MatchboxConfig) -> (url:
    String)
    ensures
        url@ == spec_room_url(*config),
        final(builder).0 matches Some(b) && builder_room_url(b) == spec_room_url(*config)
            && builder_channels(b) == seq![reliable_channel(), unreliable_channel()],
{
    let url = room_url(config);
    let instance = with_unreliable_channel(
        with_reliable_channel(socket_builder_for_room(url.clone())),
    );
    builder.0 = Some(instance);
    url
}

} // verus!
