//! The properties the session state machine guarantees across whole runs:
//! cursor cycling, the undo relation between Next and Prev, slot overwrite
//! and unset-recall behaviour, strict round-robin channel use, and stop-all.

use vstd::prelude::*;
use vstd::arithmetic::div_mod::{lemma_mod_add_multiples_vanish, lemma_small_mod};
use crate::keys::{command_of, Command, KeyEvent};
use crate::session::{
    next_index, play_of, prev_index, step_spec, PlayV, SessionV, CHANNEL_COUNT,
};
use crate::slots::{slot_pos, SlotId, SlotV};
use crate::digits::idx_label;

verus! {

/// The session after a whole sequence of key events, first event first.
pub open spec fn run(s: SessionV, evs: Seq<KeyEvent>) -> SessionV
    decreases evs.len(),
{
    if evs.len() == 0 {
        s
    } else {
        run(step_spec(s, evs[0]), evs.drop_first())
    }
}

/// Every play request a sequence of key events issues, in order: stop-all,
/// quit and unset recalls contribute nothing.
pub open spec fn plays(s: SessionV, evs: Seq<KeyEvent>) -> Seq<PlayV>
    decreases evs.len(),
{
    if evs.len() == 0 {
        Seq::empty()
    } else {
        match play_of(s, evs[0]) {
            Some(p) => seq![p] + plays(step_spec(s, evs[0]), evs.drop_first()),
            None => plays(step_spec(s, evs[0]), evs.drop_first()),
        }
    }
}

/// One step keeps the session well formed and never changes the file list.
pub proof fn lemma_step_preserves(s: SessionV, ev: KeyEvent)
    requires
        s.wf(),
    ensures
        step_spec(s, ev).wf(),
        step_spec(s, ev).files == s.files,
{
}

/// How one step moves the selector: when a play is issued it runs on the
/// channel the selector pointed at and the selector advances by one modulo
/// the channel count; otherwise the selector stays put.
pub proof fn lemma_step_selector(s: SessionV, ev: KeyEvent)
    requires
        s.wf(),
    ensures
        match play_of(s, ev) {
            Some(p) => p.channel == s.selector && step_spec(s, ev).selector == (s.selector + 1) % (
            CHANNEL_COUNT as int),
            None => step_spec(s, ev).selector == s.selector,
        },
{
    let k = CHANNEL_COUNT as int;
    if s.selector == k - 1 {
        lemma_mod_add_multiples_vanish(0, k);
        lemma_small_mod(0, CHANNEL_COUNT as nat);
    } else {
        lemma_small_mod((s.selector + 1) as nat, CHANNEL_COUNT as nat);
    }
}

/// Round-robin channel use: over any sequence of key events, the j-th play
/// request issued (counting from zero) runs on channel
/// `(selector + j) mod CHANNEL_COUNT`, where `selector` is the selector at
/// the start. From a fresh session, request number k (counting from one)
/// therefore uses channel `(k - 1) mod CHANNEL_COUNT`.
pub proof fn lemma_round_robin(s: SessionV, evs: Seq<KeyEvent>)
    requires
        s.wf(),
    ensures
        forall|j: int|
            0 <= j < plays(s, evs).len() ==> (#[trigger] plays(s, evs)[j]).channel == (s.selector
                + j) % (CHANNEL_COUNT as int),
    decreases evs.len(),
{
    let k = CHANNEL_COUNT as int;
    if evs.len() == 0 {
    } else {
        let e0 = evs[0];
        let s2 = step_spec(s, e0);
        let rest = evs.drop_first();
        lemma_step_preserves(s, e0);
        lemma_step_selector(s, e0);
        lemma_round_robin(s2, rest);
        match play_of(s, e0) {
            Some(p) => {
                assert(plays(s, evs) =~= seq![p] + plays(s2, rest));
                lemma_small_mod(s.selector as nat, CHANNEL_COUNT as nat);
                assert forall|j: int| 0 <= j < plays(s, evs).len() implies (#[trigger] plays(
                    s,
                    evs,
                )[j]).channel == (s.selector + j) % k by {
                    if j == 0 {
                    } else {
                        assert(plays(s, evs)[j] == plays(s2, rest)[j - 1]);
                        assert(plays(s2, rest)[j - 1].channel == (s2.selector + j - 1) % k);
                        if s.selector == k - 1 {
                            lemma_mod_add_multiples_vanish(j - 1, k);
                            assert((k + (j - 1)) % k == (j - 1) % k);
                            assert(s2.selector == 0);
                            assert((s.selector + j) == k + (j - 1));
                        } else {
                            assert(s2.selector == s.selector + 1);
                        }
                    }
                }
            },
            None => {
                assert(plays(s, evs) =~= plays(s2, rest));
                assert(s2.selector == s.selector);
            },
        }
    }
}

/// Play requests exactly one channel-count apart reuse the same channel.
pub proof fn lemma_channel_reuse(s: SessionV, evs: Seq<KeyEvent>, j: int)
    requires
        s.wf(),
        0 <= j,
        j + CHANNEL_COUNT < plays(s, evs).len(),
    ensures
        plays(s, evs)[j].channel == plays(s, evs)[j + CHANNEL_COUNT].channel,
{
    let k = CHANNEL_COUNT as int;
    lemma_round_robin(s, evs);
    lemma_mod_add_multiples_vanish(s.selector + j, k);
}

/// A step that issues a play unconditionally replaces whatever its channel
/// held: the channel's prior sound, if any, is stopped and gone.
pub proof fn lemma_play_overwrites(s: SessionV, ev: KeyEvent)
    requires
        s.wf(),
        play_of(s, ev) is Some,
    ensures
        step_spec(s, ev).channels == s.channels.update(
            play_of(s, ev).unwrap().channel,
            Some(play_of(s, ev).unwrap().path),
        ),
{
}

/// The cursor after pressing Next `j` times in a row.
pub open spec fn next_iter(c: int, n: int, j: nat) -> int
    decreases j,
{
    if j == 0 {
        c
    } else {
        next_index(next_iter(c, n, (j - 1) as nat), n)
    }
}

/// The cursor after pressing Prev `j` times in a row.
pub open spec fn prev_iter(c: int, n: int, j: nat) -> int
    decreases j,
{
    if j == 0 {
        c
    } else {
        prev_index(prev_iter(c, n, (j - 1) as nat), n)
    }
}

proof fn lemma_next_iter_shift(c: int, n: int, j: nat)
    ensures
        next_iter(next_index(c, n), n, j) == next_index(next_iter(c, n, j), n),
    decreases j,
{
    if j > 0 {
        lemma_next_iter_shift(c, n, (j - 1) as nat);
    }
}

proof fn lemma_prev_iter_shift(c: int, n: int, j: nat)
    ensures
        prev_iter(prev_index(c, n), n, j) == prev_index(prev_iter(c, n, j), n),
    decreases j,
{
    if j > 0 {
        lemma_prev_iter_shift(c, n, (j - 1) as nat);
    }
}

proof fn lemma_next_iter_value(c: int, n: int, j: nat)
    requires
        0 <= c < n,
        j <= n,
    ensures
        next_iter(c, n, j) == if c + j < n {
            c + j
        } else {
            c + j - n
        },
    decreases j,
{
    if j > 0 {
        lemma_next_iter_value(c, n, (j - 1) as nat);
    }
}

proof fn lemma_prev_iter_value(c: int, n: int, j: nat)
    requires
        0 <= c < n,
        j <= n,
    ensures
        prev_iter(c, n, j) == if c - j >= 0 {
            c - j
        } else {
            c - j + n
        },
    decreases j,
{
    if j > 0 {
        lemma_prev_iter_value(c, n, (j - 1) as nat);
    }
}

/// Over any run of Next events alone, the cursor iterates `next_index` and
/// the file list stays what it was.
pub proof fn lemma_run_of_nexts(s: SessionV, evs: Seq<KeyEvent>)
    requires
        s.wf(),
        forall|i: int| 0 <= i < evs.len() ==> command_of(#[trigger] evs[i]) == Command::Next,
    ensures
        run(s, evs).wf(),
        run(s, evs).files == s.files,
        run(s, evs).cursor == next_iter(s.cursor, s.files.len() as int, evs.len()),
    decreases evs.len(),
{
    let n = s.files.len() as int;
    if evs.len() > 0 {
        let s2 = step_spec(s, evs[0]);
        lemma_step_preserves(s, evs[0]);
        assert(s2.cursor == next_index(s.cursor, n));
        lemma_run_of_nexts(s2, evs.drop_first());
        lemma_next_iter_shift(s.cursor, n, (evs.len() - 1) as nat);
    }
}

/// Over any run of Prev events alone, the cursor iterates `prev_index` and
/// the file list stays what it was.
pub proof fn lemma_run_of_prevs(s: SessionV, evs: Seq<KeyEvent>)
    requires
        s.wf(),
        forall|i: int| 0 <= i < evs.len() ==> command_of(#[trigger] evs[i]) == Command::Prev,
    ensures
        run(s, evs).wf(),
        run(s, evs).files == s.files,
        run(s, evs).cursor == prev_iter(s.cursor, s.files.len() as int, evs.len()),
    decreases evs.len(),
{
    let n = s.files.len() as int;
    if evs.len() > 0 {
        let s2 = step_spec(s, evs[0]);
        lemma_step_preserves(s, evs[0]);
        assert(s2.cursor == prev_index(s.cursor, n));
        lemma_run_of_prevs(s2, evs.drop_first());
        lemma_prev_iter_shift(s.cursor, n, (evs.len() - 1) as nat);
    }
}

/// Pressing Next exactly as many times as there are files returns the
/// cursor to its starting value.
pub proof fn lemma_next_full_cycle(s: SessionV, evs: Seq<KeyEvent>)
    requires
        s.wf(),
        evs.len() == s.files.len(),
        forall|i: int| 0 <= i < evs.len() ==> command_of(#[trigger] evs[i]) == Command::Next,
    ensures
        run(s, evs).cursor == s.cursor,
{
    lemma_run_of_nexts(s, evs);
    lemma_next_iter_value(s.cursor, s.files.len() as int, evs.len());
}

/// Pressing Prev exactly as many times as there are files returns the
/// cursor to its starting value.
pub proof fn lemma_prev_full_cycle(s: SessionV, evs: Seq<KeyEvent>)
    requires
        s.wf(),
        evs.len() == s.files.len(),
        forall|i: int| 0 <= i < evs.len() ==> command_of(#[trigger] evs[i]) == Command::Prev,
    ensures
        run(s, evs).cursor == s.cursor,
{
    lemma_run_of_prevs(s, evs);
    lemma_prev_iter_value(s.cursor, s.files.len() as int, evs.len());
}

/// One Prev undoes one Next from any cursor position, wrap included.
pub proof fn lemma_prev_undoes_next(s: SessionV, e1: KeyEvent, e2: KeyEvent)
    requires
        s.wf(),
        command_of(e1) == Command::Next,
        command_of(e2) == Command::Prev,
    ensures
        run(s, seq![e1, e2]).cursor == s.cursor,
{
    let evs = seq![e1, e2];
    let s1 = step_spec(s, e1);
    lemma_step_preserves(s, e1);
    assert(evs.drop_first() =~= seq![e2]);
    assert(seq![e2].drop_first() =~= Seq::<KeyEvent>::empty());
    assert(run(s, evs) == run(s1, seq![e2]));
    assert(run(s1, seq![e2]) == run(step_spec(s1, e2), Seq::<KeyEvent>::empty()));
    assert(run(step_spec(s1, e2), Seq::<KeyEvent>::empty()) == step_spec(s1, e2));
}

/// One Next undoes one Prev from any cursor position, wrap included.
pub proof fn lemma_next_undoes_prev(s: SessionV, e1: KeyEvent, e2: KeyEvent)
    requires
        s.wf(),
        command_of(e1) == Command::Prev,
        command_of(e2) == Command::Next,
    ensures
        run(s, seq![e1, e2]).cursor == s.cursor,
{
    let evs = seq![e1, e2];
    let s1 = step_spec(s, e1);
    lemma_step_preserves(s, e1);
    assert(evs.drop_first() =~= seq![e2]);
    assert(seq![e2].drop_first() =~= Seq::<KeyEvent>::empty());
    assert(run(s, evs) == run(s1, seq![e2]));
    assert(run(s1, seq![e2]) == run(step_spec(s1, e2), Seq::<KeyEvent>::empty()));
    assert(run(step_spec(s1, e2), Seq::<KeyEvent>::empty()) == step_spec(s1, e2));
}

/// Programming a slot always overwrites its prior target and label: the
/// programmed slot depends only on the cursor and the file list, never on
/// what the slot held before.
pub proof fn lemma_program_overwrites(s1: SessionV, s2: SessionV, ev: KeyEvent, id: SlotId)
    requires
        s1.wf(),
        s2.wf(),
        command_of(ev) == Command::Program(id),
        s1.files == s2.files,
        s1.cursor == s2.cursor,
    ensures
        step_spec(s1, ev).slots[slot_pos(id)] == step_spec(s2, ev).slots[slot_pos(id)],
        step_spec(s1, ev).slots[slot_pos(id)] == (SlotV {
            target: Some(s1.files[s1.cursor]),
            label: idx_label(s1.cursor, s1.files.len() as int),
        }),
{
}

/// Recalling a slot with no target changes nothing at all — cursor, every
/// slot, selector and channels keep their values — and no play is issued.
pub proof fn lemma_unset_recall(s: SessionV, ev: KeyEvent, id: SlotId)
    requires
        s.wf(),
        command_of(ev) == Command::Recall(id),
        s.slots[slot_pos(id)].target is None,
    ensures
        step_spec(s, ev) == s,
        play_of(s, ev) is None,
{
}

/// Stop-all halts every channel but leaves the cursor, the bookmark slots
/// and the selector unchanged, and issues no play.
pub proof fn lemma_stop_all(s: SessionV, ev: KeyEvent)
    requires
        s.wf(),
        command_of(ev) == Command::StopAll,
    ensures
        step_spec(s, ev).cursor == s.cursor,
        step_spec(s, ev).slots == s.slots,
        step_spec(s, ev).selector == s.selector,
        step_spec(s, ev).channels.len() == s.channels.len(),
        forall|c: int|
            0 <= c < step_spec(s, ev).channels.len() ==> step_spec(s, ev).channels[c] is None,
        play_of(s, ev) is None,
{
}

} // verus!
