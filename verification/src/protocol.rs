//! The two sides of a connection taken together: the owner, who runs the
//! shutdown sequence, the event loop, which dispatches, and the two flags
//! they share. The model interleaves the steps of the two sides in any
//! order and keeps a log of what an observer would see; the laws at the end
//! are stated over all such runs.

use vstd::prelude::*;

use crate::event::{step_of, ActionView, Input, LoopModel, LoopState};
use crate::manager::{notified_of, shutdown_of, ManagerModel, ShutdownPhase};

verus! {

/// The state that the two sides share: two independent flags. `connected`
/// is written by the event loop only, `shutting_down` by the owner only,
/// and each side reads the other's flag.
pub struct ConnectionState {
    /// Set once the transport confirms the connection, cleared when it
    /// reports the loss of it.
    pub connected: bool,
    /// Set during the shutdown sequence.
    pub shutting_down: bool,
}

/// Something that happened and that an observer can tell.
pub enum Occurrence {
    /// The owner handed out the shutdown notification for an attempt to
    /// publish it.
    NoticeIssued,
    /// The owner set the shutdown flag.
    FlagRaised,
    /// The event loop read the shutdown flag and found it set.
    LoopSawFlag,
}

/// Both sides of a connection, what they share, and the log so far.
pub struct System {
    pub owner: ManagerModel,
    pub event_loop: LoopModel,
    pub shared: ConnectionState,
    pub log: Seq<Occurrence>,
}

/// One step of one of the two sides.
pub enum Move {
    /// The owner calls for shutdown.
    Shutdown,
    /// The owner reports that the attempt to publish the notification has
    /// returned, and sets the flag if told to.
    Notified,
    /// The event loop handles an input and writes the `connected` flag if
    /// told to.
    Loop(Input),
}

/// Whether the move can happen in the state `s`. The owner may call at any
/// time. The loop may lag behind the owner but cannot run ahead: a reading
/// of the shutdown flag shows it set only if it is set.
pub open spec fn admissible(s: System, mv: Move) -> bool {
    mv matches Move::Loop(input) ==> (input.shutting_down ==> s.shared.shutting_down)
}

/// The system after one move.
pub open spec fn move_of(s: System, mv: Move) -> System {
    match mv {
        Move::Shutdown => {
            let (owner, notice) = shutdown_of(s.owner);
            System {
                owner,
                log: if notice is Some {
                    s.log.push(Occurrence::NoticeIssued)
                } else {
                    s.log
                },
                ..s
            }
        },
        Move::Notified => {
            let (owner, raise) = notified_of(s.owner);
            System {
                owner,
                shared: ConnectionState {
                    shutting_down: s.shared.shutting_down || raise,
                    ..s.shared
                },
                log: if raise {
                    s.log.push(Occurrence::FlagRaised)
                } else {
                    s.log
                },
                ..s
            }
        },
        Move::Loop(input) => {
            let (event_loop, action) = step_of(s.event_loop, input);
            System {
                event_loop,
                shared: match action {
                    ActionView::SetConnected(value) => ConnectionState {
                        connected: value,
                        ..s.shared
                    },
                    _ => s.shared,
                },
                log: if input.shutting_down {
                    s.log.push(Occurrence::LoopSawFlag)
                } else {
                    s.log
                },
                ..s
            }
        },
    }
}

/// The system after a run of moves.
pub open spec fn play_of(s: System, moves: Seq<Move>) -> System
    decreases moves.len(),
{
    if moves.len() == 0 {
        s
    } else {
        move_of(play_of(s, moves.drop_last()), moves.last())
    }
}

/// Whether each move of the run can happen in the state it meets.
pub open spec fn admissible_run(s: System, moves: Seq<Move>) -> bool
    decreases moves.len(),
{
    moves.len() == 0 || (admissible_run(s, moves.drop_last()) && admissible(
        play_of(s, moves.drop_last()),
        moves.last(),
    ))
}

/// Whether the notification was issued before position `j` of the log.
pub open spec fn issued_before(log: Seq<Occurrence>, j: int) -> bool {
    exists|i: int| 0 <= i < j && i < log.len() && #[trigger] log[i] == Occurrence::NoticeIssued
}

/// The number of times the notification was issued.
pub open spec fn notices_in(log: Seq<Occurrence>) -> nat {
    log.filter(|o: Occurrence| o == Occurrence::NoticeIssued).len()
}

/// A system that is starting out: both flags are clear, the owner is
/// active, the loop is disconnected, and nothing has happened yet.
pub open spec fn fresh(s: System) -> bool {
    &&& s.owner.shutdown == ShutdownPhase::Active
    &&& s.event_loop.state == LoopState::Disconnected
    &&& !s.shared.connected
    &&& !s.shared.shutting_down
    &&& s.log.len() == 0
}

/// What holds of every state that a fresh system can reach.
pub open spec fn ordered(s: System) -> bool {
    &&& s.shared.shutting_down == (s.owner.shutdown == ShutdownPhase::Signalled)
    &&& s.event_loop.state == LoopState::Connected ==> s.shared.connected
    &&& s.event_loop.state == LoopState::Disconnected ==> !s.shared.connected
    &&& s.owner.shutdown == ShutdownPhase::Active ==> notices_in(s.log) == 0
    &&& s.owner.shutdown != ShutdownPhase::Active ==> notices_in(s.log) == 1 && issued_before(
        s.log,
        s.log.len() as int,
    )
    &&& forall|j: int|
        0 <= j < s.log.len() && #[trigger] s.log[j] != Occurrence::NoticeIssued ==> issued_before(
            s.log,
            j,
        )
}

/// A move that can happen keeps the system in order.
pub proof fn lemma_move_keeps_order(s: System, mv: Move)
    requires
        ordered(s),
        admissible(s, mv),
    ensures
        ordered(move_of(s, mv)),
{
    let t = move_of(s, mv);
    let is_notice = |o: Occurrence| o == Occurrence::NoticeIssued;
    reveal(Seq::filter);
    if t.log != s.log {
        let added = t.log.last();
        assert(t.log == s.log.push(added));
        assert(t.log.drop_last() =~= s.log);
        assert(added == Occurrence::NoticeIssued ==> s.owner.shutdown == ShutdownPhase::Active);
        if added == Occurrence::NoticeIssued {
            assert(t.log.filter(is_notice) == s.log.filter(is_notice).push(added));
            assert(t.log[s.log.len() as int] == Occurrence::NoticeIssued);
        } else {
            assert(t.log.filter(is_notice) == s.log.filter(is_notice));
            assert(s.owner.shutdown != ShutdownPhase::Active);
            let i = choose|i: int|
                0 <= i < s.log.len() && #[trigger] s.log[i] == Occurrence::NoticeIssued;
            assert(t.log[i] == Occurrence::NoticeIssued);
        }
        assert forall|j: int|
            0 <= j < t.log.len() && #[trigger] t.log[j]
                != Occurrence::NoticeIssued implies issued_before(t.log, j) by {
            if j < s.log.len() {
                assert(s.log[j] == t.log[j]);
                let i = choose|i: int|
                    0 <= i < j && i < s.log.len() && #[trigger] s.log[i]
                        == Occurrence::NoticeIssued;
                assert(t.log[i] == Occurrence::NoticeIssued);
            } else {
                let i = choose|i: int|
                    0 <= i < s.log.len() && #[trigger] s.log[i] == Occurrence::NoticeIssued;
                assert(t.log[i] == Occurrence::NoticeIssued);
            }
        }
    }
}

/// Every run that can happen keeps the system in order.
pub proof fn lemma_play_keeps_order(s: System, moves: Seq<Move>)
    requires
        ordered(s),
        admissible_run(s, moves),
    ensures
        ordered(play_of(s, moves)),
    decreases moves.len(),
{
    if moves.len() > 0 {
        lemma_play_keeps_order(s, moves.drop_last());
        lemma_move_keeps_order(play_of(s, moves.drop_last()), moves.last());
    }
}

/// Shutdown ordering. However the steps of the owner and of the event loop
/// interleave, and however late the loop reads the flag: wherever the loop
/// finds the shutdown flag set, the shutdown notification was handed out
/// for publishing earlier; and so it was wherever the flag is set.
pub proof fn law_notice_precedes_flag(s: System, moves: Seq<Move>, j: int)
    requires
        fresh(s),
        admissible_run(s, moves),
        0 <= j < play_of(s, moves).log.len(),
        play_of(s, moves).log[j] == Occurrence::LoopSawFlag || play_of(s, moves).log[j]
            == Occurrence::FlagRaised,
    ensures
        issued_before(play_of(s, moves).log, j),
{
    reveal(Seq::filter);
    assert(ordered(s));
    lemma_play_keeps_order(s, moves);
}

/// Exactly once. However often the owner calls for shutdown and however
/// the calls interleave with the event loop, the shutdown notification is
/// handed out once at most, and exactly once if the flag was ever set.
pub proof fn law_one_notice_at_most(s: System, moves: Seq<Move>)
    requires
        fresh(s),
        admissible_run(s, moves),
    ensures
        notices_in(play_of(s, moves).log) <= 1,
        play_of(s, moves).shared.shutting_down ==> notices_in(play_of(s, moves).log) == 1,
{
    reveal(Seq::filter);
    assert(ordered(s));
    lemma_play_keeps_order(s, moves);
}

/// The shutdown flag is never reset: once set it stays set, whatever
/// either side does.
pub proof fn law_shutdown_flag_is_never_cleared(s: System, moves: Seq<Move>)
    requires
        s.shared.shutting_down,
    ensures
        play_of(s, moves).shared.shutting_down,
    decreases moves.len(),
{
    if moves.len() > 0 {
        law_shutdown_flag_is_never_cleared(s, moves.drop_last());
    }
}

/// Each flag has one writer. A step of the event loop leaves the shutdown
/// flag and the owner as they are; a step of the owner leaves the
/// `connected` flag and the loop as they are.
pub proof fn law_each_flag_has_one_writer(s: System, mv: Move)
    ensures
        mv is Loop ==> move_of(s, mv).shared.shutting_down == s.shared.shutting_down && move_of(
            s,
            mv,
        ).owner == s.owner,
        !(mv is Loop) ==> move_of(s, mv).shared.connected == s.shared.connected && move_of(
            s,
            mv,
        ).event_loop == s.event_loop,
{
}

/// What the flags tell. In every state that a fresh system reaches, the
/// shutdown flag is set exactly when the owner has completed the shutdown
/// sequence, and while the loop runs the `connected` flag says whether the
/// transport has confirmed the connection and not reported its loss since.
pub proof fn law_flags_tell_the_state(s: System, moves: Seq<Move>)
    requires
        fresh(s),
        admissible_run(s, moves),
    ensures
        ({
            let t = play_of(s, moves);
            &&& t.shared.shutting_down == (t.owner.shutdown == ShutdownPhase::Signalled)
            &&& t.event_loop.state != LoopState::Terminated ==> t.shared.connected == (
            t.event_loop.state == LoopState::Connected)
        }),
{
    reveal(Seq::filter);
    assert(ordered(s));
    lemma_play_keeps_order(s, moves);
}

} // verus!
