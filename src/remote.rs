//! A model of the remote player, and what sessions do to it.
//!
//! The model answers each request from its state and applies each write,
//! as a player does when no other client acts between two requests. What a
//! transport action does to the playback is not modelled.
use vstd::prelude::*;
use crate::metadata::PropertyBag;
use crate::player::{
    plan, BusRequest, PlayerCommands, PlayerLoopArgs, PlayerShuffleArgs, ReplyView, StepView,
};
use crate::wire::{loop_mode_name, shuffle_name, PlayerLoopMode};

verus! {

/// The properties of a player that sessions read and write.
pub struct PlayerModel {
    pub entry: Seq<char>,
    pub status: Seq<char>,
    pub metadata: PropertyBag,
    pub position: i64,
    pub shuffle: bool,
    pub loop_status: Seq<char>,
}

/// The player's answer to a request.
pub open spec fn answer(p: PlayerModel, request: BusRequest) -> ReplyView {
    match request {
        BusRequest::Invoke(_) => ReplyView::Done,
        BusRequest::ReadDesktopEntry => ReplyView::Text(p.entry),
        BusRequest::ReadMetadata => ReplyView::Bag(p.metadata),
        BusRequest::ReadStatus => ReplyView::Text(p.status),
        BusRequest::ReadPosition => ReplyView::Int(p.position),
        BusRequest::ReadShuffle => ReplyView::Flag(p.shuffle),
        BusRequest::WriteShuffle(_) => ReplyView::Done,
        BusRequest::ReadLoopStatus => ReplyView::Text(p.loop_status),
        BusRequest::WriteLoopStatus(_) => ReplyView::Done,
    }
}

/// The player after a request.
pub open spec fn apply(p: PlayerModel, request: BusRequest) -> PlayerModel {
    match request {
        BusRequest::WriteShuffle(b) => PlayerModel { shuffle: b, ..p },
        BusRequest::WriteLoopStatus(m) => PlayerModel { loop_status: loop_mode_name(m), ..p },
        _ => p,
    }
}

/// Runs `command` against the player from the replies so far, for at most
/// `fuel` more requests: the player afterwards, and the last step.
pub open spec fn run(
    command: PlayerCommands,
    p: PlayerModel,
    replies: Seq<ReplyView>,
    fuel: nat,
) -> (PlayerModel, StepView)
    decreases fuel,
{
    match plan(command, replies) {
        StepView::Request(request) => if fuel == 0 {
            (p, StepView::Request(request))
        } else {
            run(command, apply(p, request), replies.push(answer(p, request)), (fuel - 1) as nat)
        },
        last => (p, last),
    }
}

/// A whole session of `command` against the player; no command makes more
/// than three requests.
pub open spec fn session(command: PlayerCommands, p: PlayerModel) -> (PlayerModel, StepView) {
    run(command, p, Seq::empty(), 4)
}

/// Reading the playback status changes nothing, so reading it twice prints
/// the same text both times: the player's status.
pub proof fn law_status_read_is_stable(p: PlayerModel)
    ensures
        session(PlayerCommands::Status, p).0 == p,
        session(PlayerCommands::Status, p).1 == StepView::Print(p.status),
        session(PlayerCommands::Status, session(PlayerCommands::Status, p).0).1 == session(
            PlayerCommands::Status,
            p,
        ).1,
{
    reveal_with_fuel(run, 5);
    assert(Seq::<ReplyView>::empty().push(answer(p, BusRequest::ReadStatus))[0] == ReplyView::Text(
        p.status,
    ));
}

/// Two shuffle toggles in a row restore the shuffle flag; the first prints
/// the negated flag, the second the flag it started from.
pub proof fn law_toggle_twice_restores(p: PlayerModel, args: PlayerShuffleArgs)
    requires
        args.toggle,
        !args.on,
        !args.off,
    ensures
        session(PlayerCommands::Shuffle(args), p).1 == StepView::Print(shuffle_name(!p.shuffle)),
        session(PlayerCommands::Shuffle(args), session(PlayerCommands::Shuffle(args), p).0).0
            == p,
        session(PlayerCommands::Shuffle(args), session(PlayerCommands::Shuffle(args), p).0).1
            == StepView::Print(shuffle_name(p.shuffle)),
{
    reveal_with_fuel(run, 5);
    lemma_toggle_once(p, args);
    let q = session(PlayerCommands::Shuffle(args), p).0;
    lemma_toggle_once(q, args);
    assert(PlayerModel { shuffle: !!p.shuffle, ..PlayerModel { shuffle: !p.shuffle, ..p } } == p);
}

proof fn lemma_toggle_once(p: PlayerModel, args: PlayerShuffleArgs)
    requires
        args.toggle,
        !args.on,
        !args.off,
    ensures
        session(PlayerCommands::Shuffle(args), p) == (
            PlayerModel { shuffle: !p.shuffle, ..p },
            StepView::Print(shuffle_name(!p.shuffle)),
        ),
{
    reveal_with_fuel(run, 5);
    let c = PlayerCommands::Shuffle(args);
    let r0 = Seq::<ReplyView>::empty();
    assert(plan(c, r0) == StepView::Request(BusRequest::ReadShuffle));
    let r1 = r0.push(ReplyView::Flag(p.shuffle));
    assert(r1[0] == ReplyView::Flag(p.shuffle));
    assert(plan(c, r1) == StepView::Request(BusRequest::WriteShuffle(!p.shuffle)));
    let p1 = PlayerModel { shuffle: !p.shuffle, ..p };
    let r2 = r1.push(ReplyView::Done);
    assert(r2[1] == ReplyView::Done);
    assert(plan(c, r2) == StepView::Request(BusRequest::ReadShuffle));
    let r3 = r2.push(ReplyView::Flag(p1.shuffle));
    assert(r3[2] == ReplyView::Flag(!p.shuffle));
    assert(plan(c, r3) == StepView::Print(shuffle_name(!p.shuffle)));
}

/// Setting a loop mode, then reading the loop status, prints the mode's wire
/// string.
pub proof fn law_loop_set_then_read(p: PlayerModel, mode: PlayerLoopMode)
    ensures
        session(
            PlayerCommands::Loop(PlayerLoopArgs { mode: Option::None }),
            session(PlayerCommands::Loop(PlayerLoopArgs { mode: Some(mode) }), p).0,
        ).1 == StepView::Print(loop_mode_name(mode)),
{
    reveal_with_fuel(run, 5);
    let set = PlayerCommands::Loop(PlayerLoopArgs { mode: Some(mode) });
    let r1 = Seq::<ReplyView>::empty().push(ReplyView::Done);
    assert(r1[0] == ReplyView::Done);
    let p1 = PlayerModel { loop_status: loop_mode_name(mode), ..p };
    let r2 = r1.push(ReplyView::Text(p1.loop_status));
    assert(r2[1] == ReplyView::Text(loop_mode_name(mode)));
    assert(session(set, p).0 == p1);
    let read = PlayerCommands::Loop(PlayerLoopArgs { mode: Option::None });
    let s1 = Seq::<ReplyView>::empty().push(ReplyView::Text(p1.loop_status));
    assert(s1[0] == ReplyView::Text(loop_mode_name(mode)));
}

/// Setting the loop mode to no repeat, then reading it, prints "None".
pub proof fn law_no_repeat_reads_none(p: PlayerModel)
    ensures
        session(
            PlayerCommands::Loop(PlayerLoopArgs { mode: Option::None }),
            session(PlayerCommands::Loop(PlayerLoopArgs { mode: Some(PlayerLoopMode::NoRepeat) }), p).0,
        ).1 == StepView::Print("None"@),
{
    law_loop_set_then_read(p, PlayerLoopMode::NoRepeat);
}

} // verus!
