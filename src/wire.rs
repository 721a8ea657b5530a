//! Fixed names that the player speaks on the bus: methods, properties,
//! metadata keys and loop modes.
use vstd::prelude::*;

verus! {

/// Well-known bus name of the player multiplexer daemon.
pub const PLAYER_SERVICE: &'static str = "org.mpris.MediaPlayer2.playerctld";

/// Object path of the player object.
pub const PLAYER_PATH: &'static str = "/org/mpris/MediaPlayer2";

/// Interface of the player controls.
pub const DBUS_PLAYER: &'static str = "org.mpris.MediaPlayer2.Player";

/// Application-level interface.
pub const DBUS_MEDIA_PLAYER: &'static str = "org.mpris.MediaPlayer2";

/// Property of the application-level interface that names the player.
pub const DESKTOP_ENTRY: &'static str = "DesktopEntry";

/// Per-call timeout of every bus request, in milliseconds.
pub const CALL_TIMEOUT_MS: u64 = 5000;

/// Zero-argument methods of the player interface.
#[derive(Clone, Copy, Debug, PartialEq, Eq, Structural)]
pub enum PlayerAction {
    Play,
    Stop,
    Previous,
    Next,
    Toggle,
}

/// Properties of the player interface that the client reads or writes.
#[derive(Clone, Copy, Debug, PartialEq, Eq, Structural)]
pub enum PlayerProperty {
    Metadata,
    PlaybackStatus,
    Position,
    LoopStatus,
    Shuffle,
}

/// Keys of the metadata property bag.
#[derive(Clone, Copy, Debug, PartialEq, Eq, Structural)]
pub enum PlayerMetadata {
    Title,
    Artist,
    Album,
    ArtUrl,
    TrackNumber,
    Length,
}

/// Repeat behaviour of the player.
#[derive(Clone, Copy, Debug, PartialEq, Eq, Structural)]
pub enum PlayerLoopMode {
    NoRepeat,
    Playlist,
    Track,
}

pub open spec fn action_name(a: PlayerAction) -> Seq<char> {
    match a {
        PlayerAction::Play => "Play"@,
        PlayerAction::Stop => "Stop"@,
        PlayerAction::Previous => "Previous"@,
        PlayerAction::Next => "Next"@,
        PlayerAction::Toggle => "PlayPause"@,
    }
}

pub open spec fn property_name(p: PlayerProperty) -> Seq<char> {
    match p {
        PlayerProperty::Metadata => "Metadata"@,
        PlayerProperty::PlaybackStatus => "PlaybackStatus"@,
        PlayerProperty::Position => "Position"@,
        PlayerProperty::LoopStatus => "LoopStatus"@,
        PlayerProperty::Shuffle => "Shuffle"@,
    }
}

pub open spec fn metadata_key(m: PlayerMetadata) -> Seq<char> {
    match m {
        PlayerMetadata::Title => "xesam:title"@,
        PlayerMetadata::Artist => "xesam:artist"@,
        PlayerMetadata::Album => "xesam:album"@,
        PlayerMetadata::ArtUrl => "xesam:artUrl"@,
        PlayerMetadata::TrackNumber => "xesam:trackNumber"@,
        PlayerMetadata::Length => "mpris:length"@,
    }
}

pub open spec fn loop_mode_name(m: PlayerLoopMode) -> Seq<char> {
    match m {
        PlayerLoopMode::NoRepeat => "None"@,
        PlayerLoopMode::Playlist => "Playlist"@,
        PlayerLoopMode::Track => "Track"@,
    }
}

/// How a shuffle state is shown.
pub open spec fn shuffle_name(on: bool) -> Seq<char> {
    if on {
        "On"@
    } else {
        "Off"@
    }
}

impl PlayerAction {
    /// The method name on the bus.
    pub fn as_str(&self) -> (r: &'static str)
        ensures
            r@ == action_name(*self),
    {
        match self {
            PlayerAction::Play => "Play",
            PlayerAction::Stop => "Stop",
            PlayerAction::Previous => "Previous",
            PlayerAction::Next => "Next",
            PlayerAction::Toggle => "PlayPause",
        }
    }
}

impl PlayerProperty {
    /// The property name on the bus.
    pub fn as_str(&self) -> (r: &'static str)
        ensures
            r@ == property_name(*self),
    {
        match self {
            PlayerProperty::Metadata => "Metadata",
            PlayerProperty::PlaybackStatus => "PlaybackStatus",
            PlayerProperty::Position => "Position",
            PlayerProperty::LoopStatus => "LoopStatus",
            PlayerProperty::Shuffle => "Shuffle",
        }
    }
}

impl PlayerMetadata {
    /// The key of this field in the metadata bag.
    pub fn as_str(&self) -> (r: &'static str)
        ensures
            r@ == metadata_key(*self),
    {
        match self {
            PlayerMetadata::Title => "xesam:title",
            PlayerMetadata::Artist => "xesam:artist",
            PlayerMetadata::Album => "xesam:album",
            PlayerMetadata::ArtUrl => "xesam:artUrl",
            PlayerMetadata::TrackNumber => "xesam:trackNumber",
            PlayerMetadata::Length => "mpris:length",
        }
    }
}

impl PlayerLoopMode {
    /// The wire string of this loop mode.
    pub fn as_str(&self) -> (r: &'static str)
        ensures
            r@ == loop_mode_name(*self),
    {
        match self {
            PlayerLoopMode::NoRepeat => "None",
            PlayerLoopMode::Playlist => "Playlist",
            PlayerLoopMode::Track => "Track",
        }
    }
}

/// "On" or "Off".
pub fn shuffle_tag(shuffle: bool) -> (r: &'static str)
    ensures
        r@ == shuffle_name(shuffle),
{
    if shuffle {
        "On"
    } else {
        "Off"
    }
}

} // verus!
