use vstd::prelude::*;

verus! {

/// Seven independent style booleans. `highlight` and `reverse` are aliases
/// of the same underlying terminal attribute (reverse video).
#[derive(Clone, Copy, Debug, PartialEq, Eq, Structural)]
pub struct Effect {
    pub highlight: bool,
    pub underline: bool,
    pub reverse: bool,
    pub blink: bool,
    pub dim: bool,
    pub bold: bool,
    pub italic: bool,
}

/// What one attribute-update instruction does to a single attribute flag.
#[derive(Clone, Copy, Debug, PartialEq, Eq, Structural)]
pub enum AttrOp {
    Keep,
    On,
    Off,
}

/// One combined attribute-update instruction: an independent operation for
/// each of the six underlying terminal attributes (`highlight` and `reverse`
/// share the `reverse` slot).
#[derive(Clone, Copy, Debug, PartialEq, Eq, Structural)]
pub struct AttrUpdate {
    pub reverse: AttrOp,
    pub underline: AttrOp,
    pub blink: AttrOp,
    pub dim: AttrOp,
    pub bold: AttrOp,
    pub italic: AttrOp,
}

/// The terminal's attribute state: which of the six underlying attributes
/// are currently in force.
#[derive(Clone, Copy, Debug, PartialEq, Eq, Structural)]
pub struct AttrState {
    pub reverse: bool,
    pub underline: bool,
    pub blink: bool,
    pub dim: bool,
    pub bold: bool,
    pub italic: bool,
}

/// The update that enabling `e` queues: each attribute whose boolean is set
/// in `e` is switched on, every other attribute is left alone.
pub open spec fn enable_update_spec(e: Effect) -> AttrUpdate {
    AttrUpdate {
        reverse: if e.highlight || e.reverse { AttrOp::On } else { AttrOp::Keep },
        underline: if e.underline { AttrOp::On } else { AttrOp::Keep },
        blink: if e.blink { AttrOp::On } else { AttrOp::Keep },
        dim: if e.dim { AttrOp::On } else { AttrOp::Keep },
        bold: if e.bold { AttrOp::On } else { AttrOp::Keep },
        italic: if e.italic { AttrOp::On } else { AttrOp::Keep },
    }
}

/// The update that disabling `e` queues: each attribute whose boolean is set
/// in `e` is switched off, every other attribute is left alone.
pub open spec fn disable_update_spec(e: Effect) -> AttrUpdate {
    AttrUpdate {
        reverse: if e.highlight || e.reverse { AttrOp::Off } else { AttrOp::Keep },
        underline: if e.underline { AttrOp::Off } else { AttrOp::Keep },
        blink: if e.blink { AttrOp::Off } else { AttrOp::Keep },
        dim: if e.dim { AttrOp::Off } else { AttrOp::Keep },
        bold: if e.bold { AttrOp::Off } else { AttrOp::Keep },
        italic: if e.italic { AttrOp::Off } else { AttrOp::Keep },
    }
}

/// One flag after an operation is applied to it.
pub open spec fn apply_op_spec(op: AttrOp, flag: bool) -> bool {
    match op {
        AttrOp::Keep => flag,
        AttrOp::On => true,
        AttrOp::Off => false,
    }
}

/// The attribute state after an update is applied, flag by flag.
pub open spec fn apply_update_spec(s: AttrState, u: AttrUpdate) -> AttrState {
    AttrState {
        reverse: apply_op_spec(u.reverse, s.reverse),
        underline: apply_op_spec(u.underline, s.underline),
        blink: apply_op_spec(u.blink, s.blink),
        dim: apply_op_spec(u.dim, s.dim),
        bold: apply_op_spec(u.bold, s.bold),
        italic: apply_op_spec(u.italic, s.italic),
    }
}

/// Builds the attribute-update instruction that enables `e`.
pub fn enable_update(e: Effect) -> (u: AttrUpdate)
    ensures
        u == enable_update_spec(e),
{
    AttrUpdate {
        reverse: if e.highlight || e.reverse { AttrOp::On } else { AttrOp::Keep },
        underline: if e.underline { AttrOp::On } else { AttrOp::Keep },
        blink: if e.blink { AttrOp::On } else { AttrOp::Keep },
        dim: if e.dim { AttrOp::On } else { AttrOp::Keep },
        bold: if e.bold { AttrOp::On } else { AttrOp::Keep },
        italic: if e.italic { AttrOp::On } else { AttrOp::Keep },
    }
}

/// Builds the attribute-update instruction that disables `e`.
pub fn disable_update(e: Effect) -> (u: AttrUpdate)
    ensures
        u == disable_update_spec(e),
{
    AttrUpdate {
        reverse: if e.highlight || e.reverse { AttrOp::Off } else { AttrOp::Keep },
        underline: if e.underline { AttrOp::Off } else { AttrOp::Keep },
        blink: if e.blink { AttrOp::Off } else { AttrOp::Keep },
        dim: if e.dim { AttrOp::Off } else { AttrOp::Keep },
        bold: if e.bold { AttrOp::Off } else { AttrOp::Keep },
        italic: if e.italic { AttrOp::Off } else { AttrOp::Keep },
    }
}

/// Applies one attribute update to an attribute state.
pub fn apply_update(s: AttrState, u: AttrUpdate) -> (t: AttrState)
    ensures
        t == apply_update_spec(s, u),
{
    AttrState {
        reverse: match u.reverse { AttrOp::Keep => s.reverse, AttrOp::On => true, AttrOp::Off => false },
        underline: match u.underline { AttrOp::Keep => s.underline, AttrOp::On => true, AttrOp::Off => false },
        blink: match u.blink { AttrOp::Keep => s.blink, AttrOp::On => true, AttrOp::Off => false },
        dim: match u.dim { AttrOp::Keep => s.dim, AttrOp::On => true, AttrOp::Off => false },
        bold: match u.bold { AttrOp::Keep => s.bold, AttrOp::On => true, AttrOp::Off => false },
        italic: match u.italic { AttrOp::Keep => s.italic, AttrOp::On => true, AttrOp::Off => false },
    }
}

/// Enabling an effect and then disabling that same effect restores every
/// attribute flag to its pre-call state, provided none of the attributes the
/// effect touches was already in force beforehand. (An attribute that was
/// already on would end up off: the disable step clears it outright, it does
/// not remember the prior state. `highlight` and `reverse` act on the one
/// shared reverse-video attribute.)
pub proof fn lemma_effect_round_trip(s: AttrState, e: Effect)
    requires
        (e.highlight || e.reverse) ==> !s.reverse,
        e.underline ==> !s.underline,
        e.blink ==> !s.blink,
        e.dim ==> !s.dim,
        e.bold ==> !s.bold,
        e.italic ==> !s.italic,
    ensures
        apply_update_spec(apply_update_spec(s, enable_update_spec(e)), disable_update_spec(e)) == s,
{
}

/// Enabling or disabling an effect never touches an attribute the effect
/// does not name: after the enable update, the disable update, or both in
/// sequence, every unselected flag keeps its value.
pub proof fn lemma_effect_independence(s: AttrState, e: Effect)
    ensures
        ({
            let t = apply_update_spec(apply_update_spec(s, enable_update_spec(e)), disable_update_spec(e));
            &&& !(e.highlight || e.reverse) ==> t.reverse == s.reverse
            &&& !e.underline ==> t.underline == s.underline
            &&& !e.blink ==> t.blink == s.blink
            &&& !e.dim ==> t.dim == s.dim
            &&& !e.bold ==> t.bold == s.bold
            &&& !e.italic ==> t.italic == s.italic
        }),
{
}

} // verus!
