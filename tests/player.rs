use wayinfo::metadata::{PropValue, PropertyBag};
use wayinfo::player::{
    parse, status_icon, BusReply, BusRequest, Fault, PlayerCommands, PlayerLoopArgs,
    PlayerShuffleArgs, Step,
};
use wayinfo::waybar::WaybarData;
use wayinfo::wire::{shuffle_tag, PlayerAction, PlayerLoopMode, PlayerMetadata, PlayerProperty};

/// A player that answers from its fields and keeps what is written.
struct FakePlayer {
    entry: String,
    status: String,
    metadata: PropertyBag,
    position: i64,
    shuffle: bool,
    loop_status: String,
    requests: Vec<BusRequest>,
}

impl FakePlayer {
    fn new() -> FakePlayer {
        FakePlayer {
            entry: "mpd".to_string(),
            status: "Playing".to_string(),
            metadata: track_bag(),
            position: 0,
            shuffle: false,
            loop_status: "Playlist".to_string(),
            requests: Vec::new(),
        }
    }

    fn answer(&mut self, request: BusRequest) -> BusReply {
        self.requests.push(request);
        match request {
            BusRequest::Invoke(_) => BusReply::Done,
            BusRequest::ReadDesktopEntry => BusReply::Text(self.entry.clone()),
            BusRequest::ReadMetadata => BusReply::Bag(self.metadata.clone()),
            BusRequest::ReadStatus => BusReply::Text(self.status.clone()),
            BusRequest::ReadPosition => BusReply::Int(self.position),
            BusRequest::ReadShuffle => BusReply::Flag(self.shuffle),
            BusRequest::WriteShuffle(b) => {
                self.shuffle = b;
                BusReply::Done
            }
            BusRequest::ReadLoopStatus => BusReply::Text(self.loop_status.clone()),
            BusRequest::WriteLoopStatus(m) => {
                self.loop_status = m.as_str().to_string();
                BusReply::Done
            }
        }
    }

    /// Runs a command to its last step.
    fn run(&mut self, cmd: PlayerCommands) -> Step {
        let mut session = parse(&cmd);
        loop {
            match session.next_step() {
                Step::Request(request) => {
                    let reply = self.answer(request);
                    session.record(reply);
                }
                last => return last,
            }
        }
    }
}

fn track_bag() -> PropertyBag {
    let mut bag = PropertyBag::new();
    bag.insert("xesam:title".to_string(), PropValue::Str("Who I Am".to_string()));
    bag.insert("xesam:artist".to_string(), PropValue::StrList(vec!["milet".to_string()]));
    bag.insert("mpris:length".to_string(), PropValue::Str("203000000".to_string()));
    bag
}

fn printed(step: Step) -> String {
    match step {
        Step::Print(s) => s,
        _ => panic!("expected a line to print"),
    }
}

fn toggle_args() -> PlayerShuffleArgs {
    PlayerShuffleArgs { on: false, off: false, toggle: true }
}

#[test]
fn icon_for_each_status() {
    assert_eq!(status_icon("Playing"), "\u{f144}");
    assert_eq!(status_icon("Paused"), "\u{f28b}");
    assert_eq!(status_icon("Stopped"), "\u{f28b}");
    assert_eq!(status_icon("playing"), "\u{f28b}");
}

#[test]
fn status_icon_session() {
    let mut p = FakePlayer::new();
    assert_eq!(printed(p.run(PlayerCommands::StatusIcon)), "\u{f144}");
    p.status = "Paused".to_string();
    assert_eq!(printed(p.run(PlayerCommands::StatusIcon)), "\u{f28b}");
}

#[test]
fn status_read_twice_is_the_same() {
    let mut p = FakePlayer::new();
    p.status = "Paused".to_string();
    let first = printed(p.run(PlayerCommands::Status));
    let second = printed(p.run(PlayerCommands::Status));
    assert_eq!(first, "Paused");
    assert_eq!(first, second);
    assert_eq!(p.requests, vec![BusRequest::ReadStatus, BusRequest::ReadStatus]);
}

#[test]
fn shuffle_toggle_twice_restores() {
    let mut p = FakePlayer::new();
    assert_eq!(printed(p.run(PlayerCommands::Shuffle(toggle_args()))), "On");
    assert!(p.shuffle);
    assert_eq!(printed(p.run(PlayerCommands::Shuffle(toggle_args()))), "Off");
    assert!(!p.shuffle);
}

#[test]
fn shuffle_toggle_is_three_round_trips() {
    let mut p = FakePlayer::new();
    p.run(PlayerCommands::Shuffle(toggle_args()));
    assert_eq!(
        p.requests,
        vec![BusRequest::ReadShuffle, BusRequest::WriteShuffle(true), BusRequest::ReadShuffle]
    );
}

#[test]
fn shuffle_on_off_and_read() {
    let mut p = FakePlayer::new();
    let on = PlayerShuffleArgs { on: true, off: false, toggle: false };
    assert_eq!(printed(p.run(PlayerCommands::Shuffle(on))), "On");
    let off = PlayerShuffleArgs { on: false, off: true, toggle: false };
    assert_eq!(printed(p.run(PlayerCommands::Shuffle(off))), "Off");
    let read = PlayerShuffleArgs { on: false, off: false, toggle: false };
    assert_eq!(printed(p.run(PlayerCommands::Shuffle(read))), "Off");
    assert_eq!(
        p.requests,
        vec![
            BusRequest::WriteShuffle(true),
            BusRequest::ReadShuffle,
            BusRequest::WriteShuffle(false),
            BusRequest::ReadShuffle,
            BusRequest::ReadShuffle,
        ]
    );
}

#[test]
fn shuffle_flag_precedence() {
    let mut p = FakePlayer::new();
    let all = PlayerShuffleArgs { on: true, off: true, toggle: true };
    assert_eq!(printed(p.run(PlayerCommands::Shuffle(all))), "On");
    let off_toggle = PlayerShuffleArgs { on: false, off: true, toggle: true };
    assert_eq!(printed(p.run(PlayerCommands::Shuffle(off_toggle))), "Off");
    assert_eq!(p.requests[0], BusRequest::WriteShuffle(true));
    assert_eq!(p.requests[2], BusRequest::WriteShuffle(false));
}

#[test]
fn loop_set_none_then_read() {
    let mut p = FakePlayer::new();
    let set = PlayerLoopArgs { mode: Some(PlayerLoopMode::NoRepeat) };
    assert_eq!(printed(p.run(PlayerCommands::Loop(set))), "None");
    let read = PlayerLoopArgs { mode: None };
    assert_eq!(printed(p.run(PlayerCommands::Loop(read))), "None");
    assert_eq!(
        p.requests,
        vec![
            BusRequest::WriteLoopStatus(PlayerLoopMode::NoRepeat),
            BusRequest::ReadLoopStatus,
            BusRequest::ReadLoopStatus,
        ]
    );
}

#[test]
fn loop_modes_on_the_wire() {
    let mut p = FakePlayer::new();
    let track = PlayerLoopArgs { mode: Some(PlayerLoopMode::Track) };
    assert_eq!(printed(p.run(PlayerCommands::Loop(track))), "Track");
    let list = PlayerLoopArgs { mode: Some(PlayerLoopMode::Playlist) };
    assert_eq!(printed(p.run(PlayerCommands::Loop(list))), "Playlist");
}

#[test]
fn waybar_summary_record() {
    let mut p = FakePlayer::new();
    let step = p.run(PlayerCommands::Waybar);
    let expected = WaybarData {
        class: "wayinfo-player".to_string(),
        text: "\u{f144} milet-Who I Am".to_string(),
        alt: None,
        tooltip: None,
        percentage: None,
    };
    match step {
        Step::Show(data) => {
            assert_eq!(data, expected);
            let mut map = serde_json::Map::new();
            map.insert("class".to_string(), serde_json::Value::String(data.class.clone()));
            map.insert("text".to_string(), serde_json::Value::String(data.text.clone()));
            let json = serde_json::to_string(&serde_json::Value::Object(map)).unwrap();
            assert_eq!(json, "{\"class\":\"wayinfo-player\",\"text\":\"\u{f144} milet-Who I Am\"}");
        }
        _ => panic!("expected a record"),
    }
    assert_eq!(
        p.requests,
        vec![BusRequest::ReadMetadata, BusRequest::ReadMetadata, BusRequest::ReadStatus]
    );
}

#[test]
fn waybar_without_artist_fails() {
    let mut p = FakePlayer::new();
    let mut bag = PropertyBag::new();
    bag.insert("xesam:title".to_string(), PropValue::Str("Who I Am".to_string()));
    p.metadata = bag;
    assert!(matches!(p.run(PlayerCommands::Waybar), Step::Fail(Fault::MissingTag)));
}

#[test]
fn length_of_malformed_field_is_zero() {
    let mut p = FakePlayer::new();
    p.metadata.insert("mpris:length".to_string(), PropValue::Str("notanumber".to_string()));
    assert_eq!(printed(p.run(PlayerCommands::Length)), "00:00");
    assert_eq!(printed(p.run(PlayerCommands::Lengths)), "0");
}

#[test]
fn length_and_seconds() {
    let mut p = FakePlayer::new();
    assert_eq!(printed(p.run(PlayerCommands::Length)), "03:23");
    assert_eq!(printed(p.run(PlayerCommands::Lengths)), "203");
}

#[test]
fn position_and_seconds() {
    let mut p = FakePlayer::new();
    p.position = 3_725_000_000;
    assert_eq!(printed(p.run(PlayerCommands::Position)), "01:02:05");
    assert_eq!(printed(p.run(PlayerCommands::Positions)), "3725");
    p.position = 0;
    assert_eq!(printed(p.run(PlayerCommands::Position)), "00:00");
    assert_eq!(printed(p.run(PlayerCommands::Positions)), "0");
}

#[test]
fn negative_position_is_read_as_unsigned() {
    let mut p = FakePlayer::new();
    p.position = -1;
    assert_eq!(printed(p.run(PlayerCommands::Positions)), "18446744073709");
}

#[test]
fn metadata_fields() {
    let mut p = FakePlayer::new();
    p.metadata.insert("xesam:album".to_string(), PropValue::Str("Eyes".to_string()));
    p.metadata.insert("xesam:artUrl".to_string(), PropValue::Str("file:///c.png".to_string()));
    p.metadata.insert("xesam:trackNumber".to_string(), PropValue::Str("2".to_string()));
    assert_eq!(printed(p.run(PlayerCommands::Title)), "Who I Am");
    assert_eq!(printed(p.run(PlayerCommands::Artist)), "milet");
    assert_eq!(printed(p.run(PlayerCommands::Album)), "Eyes");
    assert_eq!(printed(p.run(PlayerCommands::Cover)), "file:///c.png");
    assert_eq!(printed(p.run(PlayerCommands::TrackNumber)), "2");
}

#[test]
fn absent_field_fails_with_missing_tag() {
    let mut p = FakePlayer::new();
    let step = p.run(PlayerCommands::Album);
    assert!(matches!(step, Step::Fail(Fault::MissingTag)));
    assert_eq!(Fault::MissingTag.to_error().message(), "Player Get failed: no matching tag found");
}

#[test]
fn reply_of_wrong_shape_fails() {
    let mut session = parse(&PlayerCommands::Status);
    session.record(BusReply::Flag(true));
    assert!(matches!(session.next_step(), Step::Fail(Fault::UnexpectedReply)));
    assert_eq!(Fault::UnexpectedReply.to_error().message(), "Player Get failed: unexpected reply shape");
}

#[test]
fn transport_actions() {
    let cases = [
        (PlayerCommands::Next, PlayerAction::Next, "Next"),
        (PlayerCommands::Previous, PlayerAction::Previous, "Previous"),
        (PlayerCommands::Toggle, PlayerAction::Toggle, "PlayPause"),
        (PlayerCommands::Play, PlayerAction::Play, "Play"),
        (PlayerCommands::Stop, PlayerAction::Stop, "Stop"),
    ];
    for (cmd, action, name) in cases {
        let mut p = FakePlayer::new();
        assert!(matches!(p.run(cmd), Step::Finish));
        assert_eq!(p.requests, vec![BusRequest::Invoke(action)]);
        assert_eq!(BusRequest::Invoke(action).member(), name);
        assert_eq!(BusRequest::Invoke(action).interface(), "org.mpris.MediaPlayer2.Player");
    }
}

#[test]
fn identity_and_lyrics() {
    let mut p = FakePlayer::new();
    assert_eq!(printed(p.run(PlayerCommands::Player)), "mpd");
    assert_eq!(BusRequest::ReadDesktopEntry.interface(), "org.mpris.MediaPlayer2");
    assert_eq!(BusRequest::ReadDesktopEntry.member(), "DesktopEntry");
    assert!(matches!(p.run(PlayerCommands::Lyrics), Step::Finish));
    assert_eq!(p.requests, vec![BusRequest::ReadDesktopEntry]);
}

#[test]
fn wire_names() {
    assert_eq!(PlayerProperty::Metadata.as_str(), "Metadata");
    assert_eq!(PlayerProperty::PlaybackStatus.as_str(), "PlaybackStatus");
    assert_eq!(PlayerProperty::Position.as_str(), "Position");
    assert_eq!(PlayerProperty::LoopStatus.as_str(), "LoopStatus");
    assert_eq!(PlayerProperty::Shuffle.as_str(), "Shuffle");
    assert_eq!(PlayerMetadata::ArtUrl.as_str(), "xesam:artUrl");
    assert_eq!(PlayerMetadata::Length.as_str(), "mpris:length");
    assert_eq!(PlayerLoopMode::NoRepeat.as_str(), "None");
    assert_eq!(BusRequest::WriteLoopStatus(PlayerLoopMode::Track).member(), "LoopStatus");
    assert_eq!(BusRequest::ReadPosition.member(), "Position");
    assert_eq!(shuffle_tag(true), "On");
    assert_eq!(shuffle_tag(false), "Off");
}
