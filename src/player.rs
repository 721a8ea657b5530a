//! Remote control of a media player over the session bus.
//!
//! Every command is a short script of bus requests. A [`PlayerSession`]
//! decides, from the command and the replies received so far, the next step:
//! a request to perform, a line to print, a record for the bar, the end, or a
//! failure. The caller performs each request and hands the reply back, so that
//! every read is a fresh round trip and a read-modify-write such as a shuffle
//! toggle is visibly three requests.
use vstd::prelude::*;
use crate::duration::{clock_text, decimal, format_duration, seconds_text, MICROS_PER_SECOND};
use crate::error::Error;
use crate::text::same_text;
use crate::metadata::{decode_field, field_text, length_micros, parsed_u64, PropertyBag};
use crate::waybar::{plain_record, WaybarData, WaybarView};
use crate::wire::{
    loop_mode_name, metadata_key, shuffle_name, shuffle_tag, PlayerAction, PlayerLoopMode,
    PlayerMetadata, PlayerProperty, DBUS_MEDIA_PLAYER, DBUS_PLAYER, DESKTOP_ENTRY,
};

verus! {

/// Glyph shown while the player is playing.
pub const PLAYING_ICON: &'static str = "\u{f144}";

/// Glyph shown while the player is paused or stopped.
pub const IDLE_ICON: &'static str = "\u{f28b}";

/// Class of the player's record for the bar.
pub const WAYBAR_CLASS: &'static str = "wayinfo-player";

/// Message of the failure raised when a reply has another shape than its request asks for.
pub const UNEXPECTED_REPLY: &'static str = "unexpected reply shape";

/// Flags of the shuffle command. Where several are set, `on` wins over `off`,
/// and `off` over `toggle`.
#[derive(Clone, Copy, Debug, PartialEq, Eq, Structural)]
pub struct PlayerShuffleArgs {
    pub on: bool,
    pub off: bool,
    pub toggle: bool,
}

/// Argument of the loop command: the mode to set, if any.
#[derive(Clone, Copy, Debug, PartialEq, Eq, Structural)]
pub struct PlayerLoopArgs {
    pub mode: Option<PlayerLoopMode>,
}

/// What the player can be asked.
#[derive(Clone, Copy, Debug, PartialEq, Eq, Structural)]
pub enum PlayerCommands {
    /// The desktop entry of the player.
    Player,
    Next,
    Previous,
    Toggle,
    Play,
    Stop,
    /// Playback status: Playing, Paused or Stopped.
    Status,
    /// A glyph for the playback status.
    StatusIcon,
    Title,
    Artist,
    Album,
    /// Address of the cover art.
    Cover,
    TrackNumber,
    /// Position in the track, as clock text.
    Position,
    /// Position in the track, in whole seconds.
    Positions,
    /// Length of the track, as clock text.
    Length,
    /// Length of the track, in whole seconds.
    Lengths,
    Shuffle(PlayerShuffleArgs),
    Loop(PlayerLoopArgs),
    /// Lyrics: not offered, succeeds with no output.
    Lyrics,
    /// A one-line record for the bar: icon, artist and title.
    Waybar,
}

/// One request on the bus.
#[derive(Clone, Copy, Debug, PartialEq, Eq, Structural)]
pub enum BusRequest {
    /// Call a zero-argument method of the player interface.
    Invoke(PlayerAction),
    /// Read the desktop entry (a string) of the application interface.
    ReadDesktopEntry,
    /// Read the metadata property bag.
    ReadMetadata,
    /// Read the playback status (a string).
    ReadStatus,
    /// Read the position (a signed 64-bit integer of microseconds).
    ReadPosition,
    /// Read the shuffle flag.
    ReadShuffle,
    /// Write the shuffle flag.
    WriteShuffle(bool),
    /// Read the loop status (a string).
    ReadLoopStatus,
    /// Write the loop status, as the mode's wire string.
    WriteLoopStatus(PlayerLoopMode),
}

/// The answer to one request.
#[derive(Clone, Debug)]
pub enum BusReply {
    /// A method call or a property write succeeded.
    Done,
    Text(String),
    Flag(bool),
    Int(i64),
    Bag(PropertyBag),
}

/// The answer to one request, with strings as text.
pub enum ReplyView {
    Done,
    Text(Seq<char>),
    Flag(bool),
    Int(i64),
    Bag(PropertyBag),
}

impl View for BusReply {
    type V = ReplyView;

    open spec fn view(&self) -> ReplyView {
        match self {
            BusReply::Done => ReplyView::Done,
            BusReply::Text(s) => ReplyView::Text(s@),
            BusReply::Flag(b) => ReplyView::Flag(*b),
            BusReply::Int(i) => ReplyView::Int(*i),
            BusReply::Bag(b) => ReplyView::Bag(*b),
        }
    }
}

/// Why a session failed without a bus error.
#[derive(Clone, Copy, Debug, PartialEq, Eq, Structural)]
pub enum Fault {
    /// The metadata field is absent or of another shape.
    MissingTag,
    /// A reply does not have the shape its request asks for.
    UnexpectedReply,
}

/// The next thing to do in a session.
#[derive(Clone, Debug)]
pub enum Step {
    /// Perform this request and record its reply.
    Request(BusRequest),
    /// Print this line; the session is over.
    Print(String),
    /// Print this record as one JSON line; the session is over.
    Show(WaybarData),
    /// The session is over, with nothing to print.
    Finish,
    /// The session failed.
    Fail(Fault),
}

pub enum StepView {
    Request(BusRequest),
    Print(Seq<char>),
    Show(WaybarView),
    Finish,
    Fail(Fault),
}

impl View for Step {
    type V = StepView;

    open spec fn view(&self) -> StepView {
        match self {
            Step::Request(r) => StepView::Request(*r),
            Step::Print(s) => StepView::Print(s@),
            Step::Show(d) => StepView::Show(d@),
            Step::Finish => StepView::Finish,
            Step::Fail(f) => StepView::Fail(*f),
        }
    }
}

pub open spec fn is_playing(status: Seq<char>) -> bool {
    status == "Playing"@
}

/// The glyph for a playback status.
pub open spec fn icon_text(status: Seq<char>) -> Seq<char> {
    if is_playing(status) {
        PLAYING_ICON@
    } else {
        IDLE_ICON@
    }
}

/// A duration as clock text, or as whole seconds.
pub open spec fn duration_text(micros: u64, in_seconds: bool) -> Seq<char> {
    if in_seconds {
        decimal(micros as nat / MICROS_PER_SECOND as nat)
    } else {
        clock_text(micros as nat)
    }
}

/// The length that a length field's text gives: its number, or zero.
pub open spec fn length_value(text: Seq<char>) -> u64 {
    match parsed_u64(text) {
        Some(v) => v,
        None => 0,
    }
}

/// The playing glyph is shown exactly when the status is "Playing"; paused
/// and stopped share the other glyph.
pub proof fn law_icon_marks_playing(status: Seq<char>)
    ensures
        icon_text(status) == PLAYING_ICON@ <==> status == "Playing"@,
        status != "Playing"@ ==> icon_text(status) == IDLE_ICON@,
{
    reveal_strlit("\u{f144}");
    reveal_strlit("\u{f28b}");
    assert(PLAYING_ICON@[0] != IDLE_ICON@[0]);
}

/// The text of the player's record for the bar.
pub open spec fn summary_text(icon: Seq<char>, artist: Seq<char>, title: Seq<char>) -> Seq<char> {
    icon + seq![' '] + artist + seq!['-'] + title
}

/// One field read out of a metadata reply.
pub open spec fn bag_field(field: PlayerMetadata, reply: ReplyView) -> Result<Seq<char>, Fault> {
    match reply {
        ReplyView::Bag(b) => match field_text(field, b.value_of(metadata_key(field))) {
            Some(t) => Ok(t),
            None => Err(Fault::MissingTag),
        },
        _ => Err(Fault::UnexpectedReply),
    }
}

pub open spec fn print_field(field: PlayerMetadata, reply: ReplyView) -> StepView {
    match bag_field(field, reply) {
        Ok(t) => StepView::Print(t),
        Err(f) => StepView::Fail(f),
    }
}

pub open spec fn print_length(reply: ReplyView, in_seconds: bool) -> StepView {
    match bag_field(PlayerMetadata::Length, reply) {
        Ok(t) => StepView::Print(duration_text(length_value(t), in_seconds)),
        Err(f) => StepView::Fail(f),
    }
}

pub open spec fn print_position(reply: ReplyView, in_seconds: bool) -> StepView {
    match reply {
        ReplyView::Int(i) => StepView::Print(duration_text(i as u64, in_seconds)),
        _ => StepView::Fail(Fault::UnexpectedReply),
    }
}

pub open spec fn print_text(reply: ReplyView) -> StepView {
    match reply {
        ReplyView::Text(s) => StepView::Print(s),
        _ => StepView::Fail(Fault::UnexpectedReply),
    }
}

pub open spec fn print_icon(reply: ReplyView) -> StepView {
    match reply {
        ReplyView::Text(s) => StepView::Print(icon_text(s)),
        _ => StepView::Fail(Fault::UnexpectedReply),
    }
}

pub open spec fn print_shuffle(reply: ReplyView) -> StepView {
    match reply {
        ReplyView::Flag(b) => StepView::Print(shuffle_name(b)),
        _ => StepView::Fail(Fault::UnexpectedReply),
    }
}

/// After a call or a write: go on with `next`, or fail.
pub open spec fn then_ask(reply: ReplyView, next: BusRequest) -> StepView {
    match reply {
        ReplyView::Done => StepView::Request(next),
        _ => StepView::Fail(Fault::UnexpectedReply),
    }
}

/// After a call: the end, or a failure.
pub open spec fn then_finish(reply: ReplyView) -> StepView {
    match reply {
        ReplyView::Done => StepView::Finish,
        _ => StepView::Fail(Fault::UnexpectedReply),
    }
}

/// The shuffle command reads the flag before it writes: only a toggle does.
pub open spec fn toggles(args: PlayerShuffleArgs) -> bool {
    !args.on && !args.off && args.toggle
}

/// Shuffle: with `on` or `off`, write that value; with `toggle`, read the
/// value and write its negation; then read the value and print On or Off.
pub open spec fn shuffle_plan(args: PlayerShuffleArgs, replies: Seq<ReplyView>) -> StepView {
    let n = replies.len();
    if toggles(args) {
        if n == 0 {
            StepView::Request(BusRequest::ReadShuffle)
        } else if n == 1 {
            match replies[0] {
                ReplyView::Flag(c) => StepView::Request(BusRequest::WriteShuffle(!c)),
                _ => StepView::Fail(Fault::UnexpectedReply),
            }
        } else if n == 2 {
            then_ask(replies[1], BusRequest::ReadShuffle)
        } else {
            print_shuffle(replies[2])
        }
    } else if args.on || args.off {
        if n == 0 {
            StepView::Request(BusRequest::WriteShuffle(args.on))
        } else if n == 1 {
            then_ask(replies[0], BusRequest::ReadShuffle)
        } else {
            print_shuffle(replies[1])
        }
    } else {
        if n == 0 {
            StepView::Request(BusRequest::ReadShuffle)
        } else {
            print_shuffle(replies[0])
        }
    }
}

/// Loop: write the mode if one is given, then read the loop status and print it.
pub open spec fn loop_plan(args: PlayerLoopArgs, replies: Seq<ReplyView>) -> StepView {
    let n = replies.len();
    match args.mode {
        Some(m) => if n == 0 {
            StepView::Request(BusRequest::WriteLoopStatus(m))
        } else if n == 1 {
            then_ask(replies[0], BusRequest::ReadLoopStatus)
        } else {
            print_text(replies[1])
        },
        None => if n == 0 {
            StepView::Request(BusRequest::ReadLoopStatus)
        } else {
            print_text(replies[0])
        },
    }
}

/// Record for the bar: read the title, then the artist (two metadata reads),
/// then the playback status.
pub open spec fn waybar_plan(replies: Seq<ReplyView>) -> StepView {
    let n = replies.len();
    if n == 0 {
        StepView::Request(BusRequest::ReadMetadata)
    } else {
        match bag_field(PlayerMetadata::Title, replies[0]) {
            Err(f) => StepView::Fail(f),
            Ok(title) => if n == 1 {
                StepView::Request(BusRequest::ReadMetadata)
            } else {
                match bag_field(PlayerMetadata::Artist, replies[1]) {
                    Err(f) => StepView::Fail(f),
                    Ok(artist) => if n == 2 {
                        StepView::Request(BusRequest::ReadStatus)
                    } else {
                        match replies[2] {
                            ReplyView::Text(s) => StepView::Show(
                                plain_record(WAYBAR_CLASS@, summary_text(icon_text(s), artist, title)),
                            ),
                            _ => StepView::Fail(Fault::UnexpectedReply),
                        }
                    },
                }
            },
        }
    }
}

/// A command of one read, then what is printed from its reply.
pub open spec fn read_then(request: BusRequest, replies: Seq<ReplyView>, last: StepView) -> StepView {
    if replies.len() == 0 {
        StepView::Request(request)
    } else {
        last
    }
}

/// A transport action: one method call, no output.
pub open spec fn invoke_plan(action: PlayerAction, replies: Seq<ReplyView>) -> StepView {
    if replies.len() == 0 {
        StepView::Request(BusRequest::Invoke(action))
    } else {
        then_finish(replies[0])
    }
}

/// The next step of `command` once `replies` have come back, in order.
pub open spec fn plan(command: PlayerCommands, replies: Seq<ReplyView>) -> StepView {
    match command {
        PlayerCommands::Player => read_then(
            BusRequest::ReadDesktopEntry,
            replies,
            print_text(replies[0]),
        ),
        PlayerCommands::Next => invoke_plan(PlayerAction::Next, replies),
        PlayerCommands::Previous => invoke_plan(PlayerAction::Previous, replies),
        PlayerCommands::Toggle => invoke_plan(PlayerAction::Toggle, replies),
        PlayerCommands::Play => invoke_plan(PlayerAction::Play, replies),
        PlayerCommands::Stop => invoke_plan(PlayerAction::Stop, replies),
        PlayerCommands::Status => read_then(BusRequest::ReadStatus, replies, print_text(replies[0])),
        PlayerCommands::StatusIcon => read_then(
            BusRequest::ReadStatus,
            replies,
            print_icon(replies[0]),
        ),
        PlayerCommands::Title => read_then(
            BusRequest::ReadMetadata,
            replies,
            print_field(PlayerMetadata::Title, replies[0]),
        ),
        PlayerCommands::Artist => read_then(
            BusRequest::ReadMetadata,
            replies,
            print_field(PlayerMetadata::Artist, replies[0]),
        ),
        PlayerCommands::Album => read_then(
            BusRequest::ReadMetadata,
            replies,
            print_field(PlayerMetadata::Album, replies[0]),
        ),
        PlayerCommands::Cover => read_then(
            BusRequest::ReadMetadata,
            replies,
            print_field(PlayerMetadata::ArtUrl, replies[0]),
        ),
        PlayerCommands::TrackNumber => read_then(
            BusRequest::ReadMetadata,
            replies,
            print_field(PlayerMetadata::TrackNumber, replies[0]),
        ),
        PlayerCommands::Position => read_then(
            BusRequest::ReadPosition,
            replies,
            print_position(replies[0], false),
        ),
        PlayerCommands::Positions => read_then(
            BusRequest::ReadPosition,
            replies,
            print_position(replies[0], true),
        ),
        PlayerCommands::Length => read_then(
            BusRequest::ReadMetadata,
            replies,
            print_length(replies[0], false),
        ),
        PlayerCommands::Lengths => read_then(
            BusRequest::ReadMetadata,
            replies,
            print_length(replies[0], true),
        ),
        PlayerCommands::Shuffle(args) => shuffle_plan(args, replies),
        PlayerCommands::Loop(args) => loop_plan(args, replies),
        PlayerCommands::Lyrics => StepView::Finish,
        PlayerCommands::Waybar => waybar_plan(replies),
    }
}

/// The glyph for a playback status: one for "Playing", another for every
/// other status.
pub fn status_icon(status: &str) -> (r: &'static str)
    ensures
        r@ == icon_text(status@),
{
    if same_text(status, "Playing") {
        PLAYING_ICON
    } else {
        IDLE_ICON
    }
}

/// The text of the player's record for the bar: `{icon} {artist}-{title}`.
pub fn summary(icon: &str, artist: &str, title: &str) -> (r: String)
    ensures
        r@ == summary_text(icon@, artist@, title@),
{
    let mut out = String::from_str(icon);
    out.append(" ");
    out.append(artist);
    out.append("-");
    out.append(title);
    proof {
        reveal_strlit(" ");
        reveal_strlit("-");
        assert(out@ =~= summary_text(icon@, artist@, title@));
    }
    out
}

/// The player's record for the bar.
pub fn waybar_record(status: &str, artist: &str, title: &str) -> (r: WaybarData)
    ensures
        r@ == plain_record(WAYBAR_CLASS@, summary_text(icon_text(status@), artist@, title@)),
{
    WaybarData::plain(WAYBAR_CLASS.to_owned(), summary(status_icon(status), artist, title))
}

/// A duration as clock text, or as whole seconds.
pub fn render_duration(micros: u64, in_seconds: bool) -> (r: String)
    ensures
        r@ == duration_text(micros, in_seconds),
{
    if in_seconds {
        seconds_text(micros)
    } else {
        format_duration(micros)
    }
}

/// A position as the bus gives it, signed, taken as unsigned microseconds.
pub fn position_micros(position: i64) -> (r: u64)
    ensures
        r == position as u64,
{
    position as u64
}

impl Fault {
    /// The error reported for this failure.
    pub fn to_error(&self) -> (r: Error)
        ensures
            match self {
                Fault::MissingTag => crate::error::is_missing_tag(r),
                Fault::UnexpectedReply => r is Player && r->Player_msg@ == UNEXPECTED_REPLY@,
            },
    {
        match self {
            Fault::MissingTag => Error::missing_tag(),
            Fault::UnexpectedReply => Error::Player { msg: UNEXPECTED_REPLY.to_owned() },
        }
    }
}

impl BusRequest {
    /// The interface that the request addresses.
    pub fn interface(&self) -> (r: &'static str)
        ensures
            r@ == if *self is ReadDesktopEntry {
                DBUS_MEDIA_PLAYER@
            } else {
                DBUS_PLAYER@
            },
    {
        match self {
            BusRequest::ReadDesktopEntry => DBUS_MEDIA_PLAYER,
            _ => DBUS_PLAYER,
        }
    }

    /// The method or property that the request names.
    pub fn member(&self) -> (r: &'static str)
        ensures
            r@ == match *self {
                BusRequest::Invoke(a) => crate::wire::action_name(a),
                BusRequest::ReadDesktopEntry => DESKTOP_ENTRY@,
                BusRequest::ReadMetadata => crate::wire::property_name(PlayerProperty::Metadata),
                BusRequest::ReadStatus => crate::wire::property_name(
                    PlayerProperty::PlaybackStatus,
                ),
                BusRequest::ReadPosition => crate::wire::property_name(PlayerProperty::Position),
                BusRequest::ReadShuffle => crate::wire::property_name(PlayerProperty::Shuffle),
                BusRequest::WriteShuffle(_) => crate::wire::property_name(PlayerProperty::Shuffle),
                BusRequest::ReadLoopStatus => crate::wire::property_name(
                    PlayerProperty::LoopStatus,
                ),
                BusRequest::WriteLoopStatus(_) => crate::wire::property_name(
                    PlayerProperty::LoopStatus,
                ),
            },
    {
        match self {
            BusRequest::Invoke(a) => a.as_str(),
            BusRequest::ReadDesktopEntry => DESKTOP_ENTRY,
            BusRequest::ReadMetadata => PlayerProperty::Metadata.as_str(),
            BusRequest::ReadStatus => PlayerProperty::PlaybackStatus.as_str(),
            BusRequest::ReadPosition => PlayerProperty::Position.as_str(),
            BusRequest::ReadShuffle => PlayerProperty::Shuffle.as_str(),
            BusRequest::WriteShuffle(_) => PlayerProperty::Shuffle.as_str(),
            BusRequest::ReadLoopStatus => PlayerProperty::LoopStatus.as_str(),
            BusRequest::WriteLoopStatus(_) => PlayerProperty::LoopStatus.as_str(),
        }
    }
}

fn fail(f: Fault) -> (r: Step)
    ensures
        r@ == StepView::Fail(f),
{
    Step::Fail(f)
}

fn field_of(field: PlayerMetadata, reply: &BusReply) -> (r: Result<String, Fault>)
    ensures
        match bag_field(field, reply@) {
            Ok(t) => r is Ok && r->Ok_0@ == t,
            Err(f) => r == Err::<String, Fault>(f),
        },
{
    match reply {
        BusReply::Bag(b) => match decode_field(b, field) {
            Ok(t) => Ok(t),
            Err(_) => Err(Fault::MissingTag),
        },
        _ => Err(Fault::UnexpectedReply),
    }
}

fn field_step(field: PlayerMetadata, reply: &BusReply) -> (r: Step)
    ensures
        r@ == print_field(field, reply@),
{
    match field_of(field, reply) {
        Ok(t) => Step::Print(t),
        Err(f) => fail(f),
    }
}

fn length_step(reply: &BusReply, in_seconds: bool) -> (r: Step)
    ensures
        r@ == print_length(reply@, in_seconds),
{
    match field_of(PlayerMetadata::Length, reply) {
        Ok(t) => Step::Print(render_duration(length_micros(t.as_str()), in_seconds)),
        Err(f) => fail(f),
    }
}

fn position_step(reply: &BusReply, in_seconds: bool) -> (r: Step)
    ensures
        r@ == print_position(reply@, in_seconds),
{
    match reply {
        BusReply::Int(i) => Step::Print(render_duration(position_micros(*i), in_seconds)),
        _ => fail(Fault::UnexpectedReply),
    }
}

fn text_step(reply: &BusReply) -> (r: Step)
    ensures
        r@ == print_text(reply@),
{
    match reply {
        BusReply::Text(s) => Step::Print(s.clone()),
        _ => fail(Fault::UnexpectedReply),
    }
}

fn icon_step(reply: &BusReply) -> (r: Step)
    ensures
        r@ == print_icon(reply@),
{
    match reply {
        BusReply::Text(s) => Step::Print(status_icon(s.as_str()).to_owned()),
        _ => fail(Fault::UnexpectedReply),
    }
}

fn shuffle_step(reply: &BusReply) -> (r: Step)
    ensures
        r@ == print_shuffle(reply@),
{
    match reply {
        BusReply::Flag(b) => Step::Print(shuffle_tag(*b).to_owned()),
        _ => fail(Fault::UnexpectedReply),
    }
}

fn ask_step(reply: &BusReply, next: BusRequest) -> (r: Step)
    ensures
        r@ == then_ask(reply@, next),
{
    match reply {
        BusReply::Done => Step::Request(next),
        _ => fail(Fault::UnexpectedReply),
    }
}

fn finish_step(reply: &BusReply) -> (r: Step)
    ensures
        r@ == then_finish(reply@),
{
    match reply {
        BusReply::Done => Step::Finish,
        _ => fail(Fault::UnexpectedReply),
    }
}

/// The texts of a list of replies.
pub open spec fn reply_views(replies: Seq<BusReply>) -> Seq<ReplyView> {
    replies.map_values(|r: BusReply| r@)
}

/// One run of a command against the player: the command, and the replies
/// received so far, in order.
pub struct PlayerSession {
    command: PlayerCommands,
    replies: Vec<BusReply>,
}

impl PlayerSession {
    pub closed spec fn command(&self) -> PlayerCommands {
        self.command
    }

    /// The replies received so far.
    pub closed spec fn history(&self) -> Seq<ReplyView> {
        reply_views(self.replies@)
    }

    /// A session that has received nothing yet.
    pub fn new(command: PlayerCommands) -> (r: PlayerSession)
        ensures
            r.command() == command,
            r.history() == Seq::<ReplyView>::empty(),
    {
        let r = PlayerSession { command, replies: Vec::new() };
        assert(r.history() =~= Seq::<ReplyView>::empty());
        r
    }

    /// Records the reply to the request of the last step.
    pub fn record(&mut self, reply: BusReply)
        ensures
            final(self).command() == old(self).command(),
            final(self).history() == old(self).history().push(reply@),
    {
        let ghost v = reply@;
        self.replies.push(reply);
        assert(self.history() =~= old(self).history().push(v));
    }

    /// What to do next.
    pub fn next_step(&self) -> (r: Step)
        ensures
            r@ == plan(self.command(), self.history()),
    {
        let n = self.replies.len();
        let ghost h = self.history();
        assert(forall|i: int| 0 <= i < n ==> h[i] == #[trigger] self.replies@[i]@);
        match self.command {
            PlayerCommands::Player => if n == 0 {
                Step::Request(BusRequest::ReadDesktopEntry)
            } else {
                text_step(&self.replies[0])
            },
            PlayerCommands::Next => self.invoke(PlayerAction::Next),
            PlayerCommands::Previous => self.invoke(PlayerAction::Previous),
            PlayerCommands::Toggle => self.invoke(PlayerAction::Toggle),
            PlayerCommands::Play => self.invoke(PlayerAction::Play),
            PlayerCommands::Stop => self.invoke(PlayerAction::Stop),
            PlayerCommands::Status => if n == 0 {
                Step::Request(BusRequest::ReadStatus)
            } else {
                text_step(&self.replies[0])
            },
            PlayerCommands::StatusIcon => if n == 0 {
                Step::Request(BusRequest::ReadStatus)
            } else {
                icon_step(&self.replies[0])
            },
            PlayerCommands::Title => self.field(PlayerMetadata::Title),
            PlayerCommands::Artist => self.field(PlayerMetadata::Artist),
            PlayerCommands::Album => self.field(PlayerMetadata::Album),
            PlayerCommands::Cover => self.field(PlayerMetadata::ArtUrl),
            PlayerCommands::TrackNumber => self.field(PlayerMetadata::TrackNumber),
            PlayerCommands::Position => if n == 0 {
                Step::Request(BusRequest::ReadPosition)
            } else {
                position_step(&self.replies[0], false)
            },
            PlayerCommands::Positions => if n == 0 {
                Step::Request(BusRequest::ReadPosition)
            } else {
                position_step(&self.replies[0], true)
            },
            PlayerCommands::Length => if n == 0 {
                Step::Request(BusRequest::ReadMetadata)
            } else {
                length_step(&self.replies[0], false)
            },
            PlayerCommands::Lengths => if n == 0 {
                Step::Request(BusRequest::ReadMetadata)
            } else {
                length_step(&self.replies[0], true)
            },
            PlayerCommands::Shuffle(args) => self.shuffle(args),
            PlayerCommands::Loop(args) => self.loop_mode(args),
            PlayerCommands::Lyrics => Step::Finish,
            PlayerCommands::Waybar => self.waybar(),
        }
    }

    fn invoke(&self, action: PlayerAction) -> (r: Step)
        ensures
            r@ == invoke_plan(action, self.history()),
    {
        proof {
            if self.replies@.len() > 0 {
                assert(self.history()[0] == self.replies@[0]@);
            }
        }
        if self.replies.len() == 0 {
            Step::Request(BusRequest::Invoke(action))
        } else {
            finish_step(&self.replies[0])
        }
    }

    fn field(&self, field: PlayerMetadata) -> (r: Step)
        ensures
            r@ == read_then(BusRequest::ReadMetadata, self.history(), print_field(field, self.history()[0])),
    {
        proof {
            if self.replies@.len() > 0 {
                assert(self.history()[0] == self.replies@[0]@);
            }
        }
        if self.replies.len() == 0 {
            Step::Request(BusRequest::ReadMetadata)
        } else {
            field_step(field, &self.replies[0])
        }
    }

    fn shuffle(&self, args: PlayerShuffleArgs) -> (r: Step)
        ensures
            r@ == shuffle_plan(args, self.history()),
    {
        let n = self.replies.len();
        let ghost h = self.history();
        assert(forall|i: int| 0 <= i < n ==> h[i] == #[trigger] self.replies@[i]@);
        if !args.on && !args.off && args.toggle {
            if n == 0 {
                Step::Request(BusRequest::ReadShuffle)
            } else if n == 1 {
                match &self.replies[0] {
                    BusReply::Flag(c) => Step::Request(BusRequest::WriteShuffle(!*c)),
                    _ => fail(Fault::UnexpectedReply),
                }
            } else if n == 2 {
                ask_step(&self.replies[1], BusRequest::ReadShuffle)
            } else {
                shuffle_step(&self.replies[2])
            }
        } else if args.on || args.off {
            if n == 0 {
                Step::Request(BusRequest::WriteShuffle(args.on))
            } else if n == 1 {
                ask_step(&self.replies[0], BusRequest::ReadShuffle)
            } else {
                shuffle_step(&self.replies[1])
            }
        } else {
            if n == 0 {
                Step::Request(BusRequest::ReadShuffle)
            } else {
                shuffle_step(&self.replies[0])
            }
        }
    }

    fn loop_mode(&self, args: PlayerLoopArgs) -> (r: Step)
        ensures
            r@ == loop_plan(args, self.history()),
    {
        let n = self.replies.len();
        let ghost h = self.history();
        assert(forall|i: int| 0 <= i < n ==> h[i] == #[trigger] self.replies@[i]@);
        match args.mode {
            Some(m) => if n == 0 {
                Step::Request(BusRequest::WriteLoopStatus(m))
            } else if n == 1 {
                ask_step(&self.replies[0], BusRequest::ReadLoopStatus)
            } else {
                text_step(&self.replies[1])
            },
            None => if n == 0 {
                Step::Request(BusRequest::ReadLoopStatus)
            } else {
                text_step(&self.replies[0])
            },
        }
    }

    fn waybar(&self) -> (r: Step)
        ensures
            r@ == waybar_plan(self.history()),
    {
        let n = self.replies.len();
        let ghost h = self.history();
        assert(forall|i: int| 0 <= i < n ==> h[i] == #[trigger] self.replies@[i]@);
        if n == 0 {
            return Step::Request(BusRequest::ReadMetadata);
        }
        let title = match field_of(PlayerMetadata::Title, &self.replies[0]) {
            Ok(t) => t,
            Err(f) => return fail(f),
        };
        if n == 1 {
            return Step::Request(BusRequest::ReadMetadata);
        }
        let artist = match field_of(PlayerMetadata::Artist, &self.replies[1]) {
            Ok(t) => t,
            Err(f) => return fail(f),
        };
        if n == 2 {
            return Step::Request(BusRequest::ReadStatus);
        }
        match &self.replies[2] {
            BusReply::Text(s) => Step::Show(
                waybar_record(s.as_str(), artist.as_str(), title.as_str()),
            ),
            _ => fail(Fault::UnexpectedReply),
        }
    }
}

/// Starts a session for a command.
pub fn parse(cmd: &PlayerCommands) -> (r: PlayerSession)
    ensures
        r.command() == *cmd,
        r.history() == Seq::<ReplyView>::empty(),
{
    PlayerSession::new(*cmd)
}

} // verus!
