//! Construction of the two status lines the renderer draws in place: the
//! slot indicator line and the played-path line. The terminal control
//! sequences around them belong to the caller.

use vstd::prelude::*;
use crate::slots::SlotId;

verus! {

/// What the cell of slot `id` shows on the indicator line: `x` if `id` is
/// the slot just acted upon and it holds a target, `?` if it is the slot
/// just acted upon and holds none, a space otherwise.
pub open spec fn slot_mark(acted: Option<SlotId>, has_target: bool, id: SlotId) -> char {
    match acted {
        Some(a) => if a == id {
            if has_target {
                'x'
            } else {
                '?'
            }
        } else {
            ' '
        },
        None => ' ',
    }
}

/// The slot indicator line: four fixed cells in the fixed order z, x, c, v.
pub open spec fn top_line(acted: Option<SlotId>, has_target: bool) -> Seq<char> {
    seq!['z', '['] + seq![slot_mark(acted, has_target, SlotId::A)] + seq![']', ' ', 'x', '[']
        + seq![slot_mark(acted, has_target, SlotId::B)] + seq![']', ' ', 'c', '[']
        + seq![slot_mark(acted, has_target, SlotId::C)] + seq![']', ' ', 'v', '[']
        + seq![slot_mark(acted, has_target, SlotId::D)] + seq![']']
}

/// The played-path line: a label, one space, then the path being played.
pub open spec fn bottom_line(label: Seq<char>, path: Seq<char>) -> Seq<char> {
    label + seq![' '] + path
}

/// The two terminal lines the status renderer rewrites in place.
pub struct StatusLines {
    pub top: String,
    pub bottom: String,
}

fn mark_str(acted: &Option<SlotId>, has_target: bool, id: SlotId) -> (r: &'static str)
    ensures
        r@ == seq![slot_mark(*acted, has_target, id)],
{
    proof {
        reveal_strlit("x");
        reveal_strlit("?");
        reveal_strlit(" ");
    }
    let r = match acted {
        Some(a) => if *a == id {
            if has_target {
                "x"
            } else {
                "?"
            }
        } else {
            " "
        },
        None => " ",
    };
    proof {
        assert(r@ =~= seq![slot_mark(*acted, has_target, id)]);
    }
    r
}

/// Builds the slot indicator line for the slot just acted upon, if any.
pub fn render_top(acted: Option<SlotId>, has_target: bool) -> (r: String)
    ensures
        r@ == top_line(acted, has_target),
{
    proof {
        reveal_strlit("z[");
        reveal_strlit("] x[");
        reveal_strlit("] c[");
        reveal_strlit("] v[");
        reveal_strlit("]");
    }
    let mut r = String::from_str("z[");
    r.append(mark_str(&acted, has_target, SlotId::A));
    r.append("] x[");
    r.append(mark_str(&acted, has_target, SlotId::B));
    r.append("] c[");
    r.append(mark_str(&acted, has_target, SlotId::C));
    r.append("] v[");
    r.append(mark_str(&acted, has_target, SlotId::D));
    r.append("]");
    proof {
        assert(r@ =~= top_line(acted, has_target));
    }
    r
}

/// Builds the played-path line from a label and the path being played.
pub fn render_bottom(label: &str, path: &str) -> (r: String)
    ensures
        r@ == bottom_line(label@, path@),
{
    proof {
        reveal_strlit(" ");
    }
    let mut r = String::from_str(label);
    r.append(" ");
    r.append(path);
    proof {
        assert(r@ =~= bottom_line(label@, path@));
    }
    r
}

} // verus!
