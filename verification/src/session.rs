//! The session aggregate and the command dispatcher: for every key event,
//! what changes, what plays on which channel, and what the status display
//! shows.

use vstd::prelude::*;
use crate::digits::{idx_label, make_idx};
use crate::keys::{command_of, Command, KeyEvent};
use crate::slots::{slot_index, slot_letter, slot_pos, Slot, SlotId, SlotV};
use crate::status::{bottom_line, render_bottom, render_top, top_line, StatusLines};

verus! {

/// Number of independent playback channels cycled in round-robin order.
pub const CHANNEL_COUNT: usize = 16;

/// The whole mutable state of an interactive session: the discovered files,
/// the browse cursor, the four bookmark slots in display order z, x, c, v,
/// the round-robin selector, and what each playback channel was last asked
/// to play (`None` for an idle channel).
pub struct Session {
    pub files: Vec<String>,
    pub cursor: usize,
    pub slots: Vec<Slot>,
    pub selector: usize,
    pub channels: Vec<Option<String>>,
}

/// Mathematical value of a session.
pub struct SessionV {
    pub files: Seq<Seq<char>>,
    pub cursor: int,
    pub slots: Seq<SlotV>,
    pub selector: int,
    pub channels: Seq<Option<Seq<char>>>,
}

/// The path a channel holds, as a sequence of characters.
pub open spec fn channel_view(c: Option<String>) -> Option<Seq<char>> {
    match c {
        Some(p) => Some(p@),
        None => None,
    }
}

impl View for Session {
    type V = SessionV;

    open spec fn view(&self) -> SessionV {
        SessionV {
            files: self.files@.map_values(|p: String| p@),
            cursor: self.cursor as int,
            slots: self.slots@.map_values(|s: Slot| s@),
            selector: self.selector as int,
            channels: self.channels@.map_values(|c: Option<String>| channel_view(c)),
        }
    }
}

impl SessionV {
    /// Session well-formedness: at least one file, the cursor on a file,
    /// four slots, and the selector on one of the channels.
    pub open spec fn wf(self) -> bool {
        &&& 1 <= self.files.len()
        &&& 0 <= self.cursor < self.files.len()
        &&& self.slots.len() == 4
        &&& self.channels.len() == CHANNEL_COUNT
        &&& 0 <= self.selector < CHANNEL_COUNT
    }
}

/// The cursor after one Next: wraps from the last file back to the first.
pub open spec fn next_index(i: int, n: int) -> int {
    if i == n - 1 {
        0
    } else {
        i + 1
    }
}

/// The cursor after one Prev: wraps from the first file back to the last.
pub open spec fn prev_index(i: int, n: int) -> int {
    if i == 0 {
        n - 1
    } else {
        i - 1
    }
}

/// The selector after one play request: round robin over `k` channels.
pub open spec fn advance(sel: int, k: int) -> int {
    if sel == k - 1 {
        0
    } else {
        sel + 1
    }
}

/// Issuing one play request: the channel at the selector starts `path`
/// (whatever that channel held before is stopped and replaced), and the
/// selector advances round-robin. Nothing else changes.
pub open spec fn pool_play(s: SessionV, path: Seq<char>) -> SessionV {
    SessionV {
        selector: advance(s.selector, CHANNEL_COUNT as int),
        channels: s.channels.update(s.selector, Some(path)),
        ..s
    }
}

/// A cursor-driven play that does not move the cursor: the startup play and
/// the unrecognized-key refresh.
pub open spec fn refresh_spec(s: SessionV) -> SessionV {
    pool_play(s, s.files[s.cursor])
}

/// The initial session over a list of discovered files: cursor on the first
/// file, all four slots unset, the selector at channel zero, every channel
/// idle.
pub open spec fn init_spec(files: Seq<Seq<char>>) -> SessionV {
    SessionV {
        files,
        cursor: 0,
        slots: Seq::new(4, |i: int| SlotV { target: None, label: Seq::<char>::empty() }),
        selector: 0,
        channels: Seq::new(CHANNEL_COUNT as nat, |i: int| Option::<Seq<char>>::None),
    }
}

/// The dispatcher's transition table: the session after one key event.
pub open spec fn step_spec(s: SessionV, ev: KeyEvent) -> SessionV {
    let n = s.files.len() as int;
    match command_of(ev) {
        Command::Next => pool_play(
            SessionV { cursor: next_index(s.cursor, n), ..s },
            s.files[next_index(s.cursor, n)],
        ),
        Command::Prev => pool_play(
            SessionV { cursor: prev_index(s.cursor, n), ..s },
            s.files[prev_index(s.cursor, n)],
        ),
        Command::Recall(id) => match s.slots[slot_pos(id)].target {
            Some(p) => pool_play(s, p),
            None => s,
        },
        Command::Program(id) => pool_play(
            SessionV {
                slots: s.slots.update(
                    slot_pos(id),
                    SlotV { target: Some(s.files[s.cursor]), label: idx_label(s.cursor, n) },
                ),
                ..s
            },
            s.files[s.cursor],
        ),
        Command::StopAll => SessionV {
            channels: Seq::new(s.channels.len(), |i: int| Option::<Seq<char>>::None),
            ..s
        },
        Command::Quit => s,
        Command::Other => refresh_spec(s),
    }
}

/// A play request: the channel it uses and the path it starts.
pub struct PlayV {
    pub channel: int,
    pub path: Seq<char>,
}

/// The play request one key event issues, if any. Stop-all, quit, and a
/// recall of an unset slot issue none.
pub open spec fn play_of(s: SessionV, ev: KeyEvent) -> Option<PlayV> {
    let n = s.files.len() as int;
    match command_of(ev) {
        Command::Next => Some(
            PlayV { channel: s.selector, path: s.files[next_index(s.cursor, n)] },
        ),
        Command::Prev => Some(
            PlayV { channel: s.selector, path: s.files[prev_index(s.cursor, n)] },
        ),
        Command::Recall(id) => match s.slots[slot_pos(id)].target {
            Some(p) => Some(PlayV { channel: s.selector, path: p }),
            None => None,
        },
        Command::Program(id) => Some(PlayV { channel: s.selector, path: s.files[s.cursor] }),
        Command::StopAll => None,
        Command::Quit => None,
        Command::Other => Some(PlayV { channel: s.selector, path: s.files[s.cursor] }),
    }
}

/// The two status lines one key event asks the renderer to draw, if any.
/// Stop-all and quit draw nothing. Cursor-driven plays show the numeric
/// position label; slot-driven plays show the slot's frozen label; a recall
/// of an unset slot marks the slot `?` and shows the current position.
pub open spec fn status_of(s: SessionV, ev: KeyEvent) -> Option<StatusV> {
    let n = s.files.len() as int;
    match command_of(ev) {
        Command::Next => Some(
            StatusV {
                top: top_line(None, false),
                bottom: bottom_line(
                    idx_label(next_index(s.cursor, n), n),
                    s.files[next_index(s.cursor, n)],
                ),
            },
        ),
        Command::Prev => Some(
            StatusV {
                top: top_line(None, false),
                bottom: bottom_line(
                    idx_label(prev_index(s.cursor, n), n),
                    s.files[prev_index(s.cursor, n)],
                ),
            },
        ),
        Command::Recall(id) => match s.slots[slot_pos(id)].target {
            Some(p) => Some(
                StatusV {
                    top: top_line(Some(id), true),
                    bottom: bottom_line(s.slots[slot_pos(id)].label, p),
                },
            ),
            None => Some(
                StatusV {
                    top: top_line(Some(id), false),
                    bottom: bottom_line(idx_label(s.cursor, n), s.files[s.cursor]),
                },
            ),
        },
        Command::Program(id) => Some(
            StatusV {
                top: top_line(Some(id), true),
                bottom: bottom_line(idx_label(s.cursor, n), s.files[s.cursor]),
            },
        ),
        Command::StopAll => None,
        Command::Quit => None,
        Command::Other => Some(
            StatusV {
                top: top_line(None, false),
                bottom: bottom_line(idx_label(s.cursor, n), s.files[s.cursor]),
            },
        ),
    }
}

/// The two rendered status lines, as sequences of characters.
pub struct StatusV {
    pub top: Seq<char>,
    pub bottom: Seq<char>,
}

/// What the dispatcher asks of the world after one key event.
pub enum Step {
    /// Start `path` on `channel` (stopping that channel's prior sound) and
    /// redraw the status lines.
    Played { channel: usize, path: String, status: StatusLines },
    /// Redraw the status lines only; no playback is attempted. This is the
    /// recall of an unset slot.
    Rendered { status: StatusLines },
    /// Every playback channel was stopped; nothing is drawn.
    Halted,
    /// The event loop ends and control passes to the shutdown summary.
    Quit,
}

/// Relates the returned `Step` to the event: the right variant, and in it
/// exactly the channel, path and status lines the transition table gives.
pub open spec fn step_matches(s: SessionV, ev: KeyEvent, r: Step) -> bool {
    match command_of(ev) {
        Command::Quit => r is Quit,
        Command::StopAll => r is Halted,
        _ => match play_of(s, ev) {
            Some(p) => r matches Step::Played { channel, path, status }
                && channel as int == p.channel && path@ == p.path && status.top@ == status_of(
                s,
                ev,
            ).unwrap().top && status.bottom@ == status_of(s, ev).unwrap().bottom,
            None => r matches Step::Rendered { status } && status.top@ == status_of(
                s,
                ev,
            ).unwrap().top && status.bottom@ == status_of(s, ev).unwrap().bottom,
        },
    }
}

/// Returns the current value and advances it by one, wrapping back to zero
/// once `max` is reached.
pub fn postincrement(x: &mut usize, max: usize) -> (r: usize)
    requires
        1 <= max,
        *old(x) < max,
    ensures
        r == *old(x),
        *final(x) as int == advance(*old(x) as int, max as int),
        *final(x) < max,
{
    let ret: usize = *x;
    if *x < max - 1 {
        *x += 1;
    } else {
        *x = 0;
    }
    ret
}

impl Session {
    /// Creates the session over the discovered files. Returns `None` when
    /// no files were discovered: the interactive session never starts then.
    pub fn try_new(files: Vec<String>) -> (r: Option<Session>)
        ensures
            r is None <==> files@.len() == 0,
            r matches Some(s) ==> s@ == init_spec(files@.map_values(|p: String| p@))
                && s@.wf(),
    {
        if files.len() == 0 {
            return None;
        }
        let mut slots: Vec<Slot> = Vec::new();
        slots.push(Slot::unset());
        slots.push(Slot::unset());
        slots.push(Slot::unset());
        slots.push(Slot::unset());
        let mut channels: Vec<Option<String>> = Vec::new();
        while channels.len() < CHANNEL_COUNT
            invariant
                channels.len() <= CHANNEL_COUNT,
                forall|i: int| 0 <= i < channels.len() ==> channels@[i] is None,
            decreases CHANNEL_COUNT - channels.len(),
        {
            channels.push(None);
        }
        let s = Session { files, cursor: 0, slots, selector: 0, channels };
        proof {
            assert(s@.slots =~= init_spec(s@.files).slots);
            assert(s@.channels =~= init_spec(s@.files).channels);
        }
        Some(s)
    }

    /// Issues one play request: starts `path` on the channel at the
    /// selector (replacing whatever that channel held) and advances the
    /// selector round-robin. Returns the channel used.
    fn issue_play(&mut self, path: String) -> (ch: usize)
        requires
            old(self)@.wf(),
        ensures
            final(self)@ == pool_play(old(self)@, path@),
            ch as int == old(self)@.selector,
            ch < CHANNEL_COUNT,
            final(self)@.wf(),
    {
        let ch = postincrement(&mut self.selector, CHANNEL_COUNT);
        self.channels[ch] = Some(path);
        proof {
            assert(self@.channels =~= pool_play(old(self)@, path@).channels);
        }
        ch
    }

    /// Plays the file under the cursor without moving it: the startup play,
    /// and the refresh a key outside the table triggers.
    pub fn play_current(&mut self) -> (r: Step)
        requires
            old(self)@.wf(),
        ensures
            final(self)@ == refresh_spec(old(self)@),
            final(self)@.wf(),
            r matches Step::Played { channel, path, status } && channel as int == old(
                self,
            )@.selector && path@ == old(self)@.files[old(self)@.cursor] && status.top@
                == top_line(None, false) && status.bottom@ == bottom_line(
                idx_label(old(self)@.cursor, old(self)@.files.len() as int),
                old(self)@.files[old(self)@.cursor],
            ),
    {
        let idx = make_idx(self.cursor, self.files.len());
        let path = self.files[self.cursor].clone();
        let ch = self.issue_play(path.clone());
        let status = StatusLines {
            top: render_top(None, false),
            bottom: render_bottom(idx.as_str(), path.as_str()),
        };
        Step::Played { channel: ch, path, status }
    }

    /// One Next: the cursor moves forward (wrapping) and the new current
    /// file is played with its position label.
    fn go_next(&mut self) -> (r: Step)
        requires
            old(self)@.wf(),
        ensures
            final(self)@ == pool_play(
                SessionV {
                    cursor: next_index(old(self)@.cursor, old(self)@.files.len() as int),
                    ..old(self)@
                },
                old(self)@.files[next_index(old(self)@.cursor, old(self)@.files.len() as int)],
            ),
            final(self)@.wf(),
            r matches Step::Played { channel, path, status } && channel as int == old(
                self,
            )@.selector && path@ == old(self)@.files[next_index(
                old(self)@.cursor,
                old(self)@.files.len() as int,
            )] && status.top@ == top_line(None, false) && status.bottom@ == bottom_line(
                idx_label(
                    next_index(old(self)@.cursor, old(self)@.files.len() as int),
                    old(self)@.files.len() as int,
                ),
                old(self)@.files[next_index(old(self)@.cursor, old(self)@.files.len() as int)],
            ),
    {
        if self.cursor == self.files.len() - 1 {
            self.cursor = 0;
        } else {
            self.cursor = self.cursor + 1;
        }
        let idx = make_idx(self.cursor, self.files.len());
        let path = self.files[self.cursor].clone();
        let ch = self.issue_play(path.clone());
        let status = StatusLines {
            top: render_top(None, false),
            bottom: render_bottom(idx.as_str(), path.as_str()),
        };
        Step::Played { channel: ch, path, status }
    }

    /// One Prev: the cursor moves backward (wrapping) and the new current
    /// file is played with its position label.
    fn go_prev(&mut self) -> (r: Step)
        requires
            old(self)@.wf(),
        ensures
            final(self)@ == pool_play(
                SessionV {
                    cursor: prev_index(old(self)@.cursor, old(self)@.files.len() as int),
                    ..old(self)@
                },
                old(self)@.files[prev_index(old(self)@.cursor, old(self)@.files.len() as int)],
            ),
            final(self)@.wf(),
            r matches Step::Played { channel, path, status } && channel as int == old(
                self,
            )@.selector && path@ == old(self)@.files[prev_index(
                old(self)@.cursor,
                old(self)@.files.len() as int,
            )] && status.top@ == top_line(None, false) && status.bottom@ == bottom_line(
                idx_label(
                    prev_index(old(self)@.cursor, old(self)@.files.len() as int),
                    old(self)@.files.len() as int,
                ),
                old(self)@.files[prev_index(old(self)@.cursor, old(self)@.files.len() as int)],
            ),
    {
        if self.cursor == 0 {
            self.cursor = self.files.len() - 1;
        } else {
            self.cursor = self.cursor - 1;
        }
        let idx = make_idx(self.cursor, self.files.len());
        let path = self.files[self.cursor].clone();
        let ch = self.issue_play(path.clone());
        let status = StatusLines {
            top: render_top(None, false),
            bottom: render_bottom(idx.as_str(), path.as_str()),
        };
        Step::Played { channel: ch, path, status }
    }

    /// Recalls slot `id`. With a target: plays it under the slot's frozen
    /// label, slot marked active; the slot itself never changes. Without
    /// one: nothing plays and nothing changes, the slot is marked unset and
    /// the current position is redrawn.
    fn recall(&mut self, id: SlotId) -> (r: Step)
        requires
            old(self)@.wf(),
        ensures
            final(self)@.wf(),
            match old(self)@.slots[slot_pos(id)].target {
                Some(p) => final(self)@ == pool_play(old(self)@, p) && (r matches Step::Played {
                    channel,
                    path,
                    status,
                } && channel as int == old(self)@.selector && path@ == p && status.top@
                    == top_line(Some(id), true) && status.bottom@ == bottom_line(
                    old(self)@.slots[slot_pos(id)].label,
                    p,
                )),
                None => final(self)@ == old(self)@ && (r matches Step::Rendered { status }
                    && status.top@ == top_line(Some(id), false) && status.bottom@ == bottom_line(
                    idx_label(old(self)@.cursor, old(self)@.files.len() as int),
                    old(self)@.files[old(self)@.cursor],
                )),
            },
    {
        let i = slot_index(id);
        let target: Option<String> = match &self.slots[i].target {
            Some(p) => Some(p.clone()),
            None => None,
        };
        match target {
            Some(p) => {
                let label = self.slots[i].label.clone();
                let ch = self.issue_play(p.clone());
                let status = StatusLines {
                    top: render_top(Some(id), true),
                    bottom: render_bottom(label.as_str(), p.as_str()),
                };
                Step::Played { channel: ch, path: p, status }
            },
            None => {
                let idx = make_idx(self.cursor, self.files.len());
                let path = self.files[self.cursor].clone();
                let status = StatusLines {
                    top: render_top(Some(id), false),
                    bottom: render_bottom(idx.as_str(), path.as_str()),
                };
                Step::Rendered { status }
            },
        }
    }

    /// Programs slot `id`: its target and label are overwritten with the
    /// file under the cursor and its position label, whatever the slot held
    /// before, and the file is played with the slot marked active.
    fn program(&mut self, id: SlotId) -> (r: Step)
        requires
            old(self)@.wf(),
        ensures
            final(self)@ == pool_play(
                SessionV {
                    slots: old(self)@.slots.update(
                        slot_pos(id),
                        SlotV {
                            target: Some(old(self)@.files[old(self)@.cursor]),
                            label: idx_label(old(self)@.cursor, old(self)@.files.len() as int),
                        },
                    ),
                    ..old(self)@
                },
                old(self)@.files[old(self)@.cursor],
            ),
            final(self)@.wf(),
            r matches Step::Played { channel, path, status } && channel as int == old(
                self,
            )@.selector && path@ == old(self)@.files[old(self)@.cursor] && status.top@
                == top_line(Some(id), true) && status.bottom@ == bottom_line(
                idx_label(old(self)@.cursor, old(self)@.files.len() as int),
                old(self)@.files[old(self)@.cursor],
            ),
    {
        let idx = make_idx(self.cursor, self.files.len());
        let path = self.files[self.cursor].clone();
        let i = slot_index(id);
        self.slots[i] = Slot { target: Some(path.clone()), label: idx.clone() };
        proof {
            assert(self@.slots =~= old(self)@.slots.update(
                slot_pos(id),
                SlotV {
                    target: Some(old(self)@.files[old(self)@.cursor]),
                    label: idx_label(old(self)@.cursor, old(self)@.files.len() as int),
                },
            ));
        }
        let ch = self.issue_play(path.clone());
        let status = StatusLines {
            top: render_top(Some(id), true),
            bottom: render_bottom(idx.as_str(), path.as_str()),
        };
        Step::Played { channel: ch, path, status }
    }

    /// Stops every playback channel. The cursor, the slots and the selector
    /// keep their values.
    pub fn stop_all(&mut self)
        requires
            old(self)@.wf(),
        ensures
            final(self)@ == (SessionV {
                channels: Seq::new(old(self)@.channels.len(), |i: int| Option::<Seq<char>>::None),
                ..old(self)@
            }),
            final(self)@.wf(),
    {
        let mut channels: Vec<Option<String>> = Vec::new();
        while channels.len() < CHANNEL_COUNT
            invariant
                channels.len() <= CHANNEL_COUNT,
                forall|i: int| 0 <= i < channels.len() ==> channels@[i] is None,
            decreases CHANNEL_COUNT - channels.len(),
        {
            channels.push(None);
        }
        self.channels = channels;
        proof {
            assert(self@.channels =~= Seq::new(
                old(self)@.channels.len(),
                |i: int| Option::<Seq<char>>::None,
            ));
        }
    }

    /// Consumes one key event and performs its transition: exactly the
    /// dispatcher's table, with the resulting state pinned by `step_spec`
    /// and the returned request pinned by `step_matches`.
    pub fn handle_event(&mut self, ev: KeyEvent) -> (r: Step)
        requires
            old(self)@.wf(),
        ensures
            final(self)@ == step_spec(old(self)@, ev),
            final(self)@.wf(),
            step_matches(old(self)@, ev, r),
    {
        match ev {
            KeyEvent::Interrupt => Step::Quit,
            KeyEvent::EndOfInput => Step::Quit,
            KeyEvent::Character(c) => {
                if c == 'j' || c == 'i' {
                    self.go_next()
                } else if c == 'k' || c == 'o' {
                    self.go_prev()
                } else if c == 'z' {
                    self.recall(SlotId::A)
                } else if c == 'x' {
                    self.recall(SlotId::B)
                } else if c == 'c' {
                    self.recall(SlotId::C)
                } else if c == 'v' {
                    self.recall(SlotId::D)
                } else if c == 'Z' {
                    self.program(SlotId::A)
                } else if c == 'X' {
                    self.program(SlotId::B)
                } else if c == 'C' {
                    self.program(SlotId::C)
                } else if c == 'V' {
                    self.program(SlotId::D)
                } else if c == 's' {
                    self.stop_all();
                    Step::Halted
                } else if c == 'q' {
                    Step::Quit
                } else {
                    self.play_current()
                }
            },
        }
    }

    /// One shutdown summary line per slot that holds a target, in the fixed
    /// order z, x, c, v, each formatted `<letter>: <path>`. Slots with no
    /// target contribute nothing.
    pub fn summary_lines(&self) -> (r: Vec<String>)
        requires
            self@.wf(),
        ensures
            r.deep_view() == summary_spec(self@),
    {
        let mut out: Vec<String> = Vec::new();
        self.push_summary(&mut out, SlotId::A);
        self.push_summary(&mut out, SlotId::B);
        self.push_summary(&mut out, SlotId::C);
        self.push_summary(&mut out, SlotId::D);
        proof {
            assert(out.deep_view() =~~= summary_spec(self@));
        }
        out
    }

    /// Appends slot `id`'s summary line, if the slot holds a target.
    fn push_summary(&self, out: &mut Vec<String>, id: SlotId)
        requires
            self@.wf(),
        ensures
            final(out).deep_view() == old(out).deep_view() + slot_summary(self@, id),
    {
        let i = slot_index(id);
        match &self.slots[i].target {
            Some(p) => {
                proof {
                    reveal_strlit(": ");
                }
                let mut line = String::from_str(slot_letter_str(id));
                line.append(": ");
                line.append(p.as_str());
                out.push(line);
                proof {
                    assert(line@ =~= seq![slot_letter(id), ':', ' '] + p@);
                    assert(out.deep_view() =~~= old(out).deep_view() + slot_summary(self@, id));
                }
            },
            None => {
                proof {
                    assert(out.deep_view() =~~= old(out).deep_view() + slot_summary(self@, id));
                }
            },
        }
    }
}

/// The shutdown summary: for each slot with a target, in order z, x, c, v,
/// the line `<letter>: <path>`.
pub open spec fn summary_spec(s: SessionV) -> Seq<Seq<char>> {
    slot_summary(s, SlotId::A) + slot_summary(s, SlotId::B) + slot_summary(s, SlotId::C)
        + slot_summary(s, SlotId::D)
}

/// Slot `id`'s contribution to the shutdown summary: one formatted line if
/// it holds a target, nothing otherwise.
pub open spec fn slot_summary(s: SessionV, id: SlotId) -> Seq<Seq<char>> {
    match s.slots[slot_pos(id)].target {
        Some(p) => seq![seq![slot_letter(id), ':', ' '] + p],
        None => Seq::empty(),
    }
}

/// The key letter that names a slot.
pub fn slot_letter_str(id: SlotId) -> (r: &'static str)
    ensures
        r@ == seq![slot_letter(id)],
{
    proof {
        reveal_strlit("z");
        reveal_strlit("x");
        reveal_strlit("c");
        reveal_strlit("v");
    }
    let r = match id {
        SlotId::A => "z",
        SlotId::B => "x",
        SlotId::C => "c",
        SlotId::D => "v",
    };
    proof {
        assert(r@ =~= seq![slot_letter(id)]);
    }
    r
}

} // verus!
