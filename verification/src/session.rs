use vstd::prelude::*;
use crate::color::{ColorPair, ResolvedColor};
use crate::effect::{AttrUpdate, Effect, disable_update, enable_update, disable_update_spec, enable_update_spec};
use crate::event::{EventKind, NativeEvent, code_bytes_of, key_type_of, press_modifiers_of};
use crate::geometry::Vec2;
use crate::key::{Key, KeyModifiers, KeyType, is_default_key, no_modifiers, zero_code};

verus! {

/// One terminal command, as a plain value. The shell around this crate
/// performs each command against the real terminal; nothing here does I/O.
#[derive(Debug, PartialEq, Eq)]
pub enum Instruction {
    EnableRawMode,
    DisableRawMode,
    EnterAlternateScreen,
    LeaveAlternateScreen,
    HideCursor,
    ShowCursor,
    MoveTo(Vec2),
    Print(Vec<u8>),
    SetAttributes(AttrUpdate),
    SetColors(ResolvedColor, ResolvedColor),
    ResetColors,
    ClearAll,
}

/// The mathematical value of an [`Instruction`]: the same command with the
/// printed bytes abstracted to a sequence.
pub enum InstrV {
    EnableRawMode,
    DisableRawMode,
    EnterAlternateScreen,
    LeaveAlternateScreen,
    HideCursor,
    ShowCursor,
    MoveTo(Vec2),
    Print(Seq<u8>),
    SetAttributes(AttrUpdate),
    SetColors(ResolvedColor, ResolvedColor),
    ResetColors,
    ClearAll,
}

impl View for Instruction {
    type V = InstrV;

    open spec fn view(&self) -> InstrV {
        match self {
            Instruction::EnableRawMode => InstrV::EnableRawMode,
            Instruction::DisableRawMode => InstrV::DisableRawMode,
            Instruction::EnterAlternateScreen => InstrV::EnterAlternateScreen,
            Instruction::LeaveAlternateScreen => InstrV::LeaveAlternateScreen,
            Instruction::HideCursor => InstrV::HideCursor,
            Instruction::ShowCursor => InstrV::ShowCursor,
            Instruction::MoveTo(pos) => InstrV::MoveTo(*pos),
            Instruction::Print(bytes) => InstrV::Print(bytes@),
            Instruction::SetAttributes(u) => InstrV::SetAttributes(*u),
            Instruction::SetColors(fg, bg) => InstrV::SetColors(*fg, *bg),
            Instruction::ResetColors => InstrV::ResetColors,
            Instruction::ClearAll => InstrV::ClearAll,
        }
    }
}

/// The values of a sequence of instructions.
pub open spec fn instrs_view(s: Seq<Instruction>) -> Seq<InstrV> {
    s.map_values(|i: Instruction| i@)
}

/// The commands that opening a session performs, in order: enter raw mode,
/// switch to the alternate screen, hide the cursor.
pub open spec fn init_instrs() -> Seq<InstrV> {
    seq![InstrV::EnableRawMode, InstrV::EnterAlternateScreen, InstrV::HideCursor]
}

/// The commands that closing a session performs, in order: reset the colors
/// and leave the alternate screen before anything else, then show the
/// cursor, home it, clear the restored screen, and only then leave raw
/// mode, so the terminal ends up clean, default-styled and cooked whatever
/// was drawn.
pub open spec fn deinit_instrs() -> Seq<InstrV> {
    seq![
        InstrV::ResetColors,
        InstrV::LeaveAlternateScreen,
        InstrV::ShowCursor,
        InstrV::MoveTo(Vec2 { x: 0, y: 0 }),
        InstrV::ClearAll,
        InstrV::DisableRawMode,
    ]
}

/// One terminal session: the explicit is-active flag of the lifecycle state
/// machine, and the ordered queue of output not yet flushed.
pub struct Session {
    active: bool,
    queue: Vec<Instruction>,
}

impl Session {
    /// Whether the session is open: operations other than `init` are valid
    /// only between `init` and `deinit`.
    pub closed spec fn is_active(self) -> bool {
        self.active
    }

    /// The queued output, oldest first, that the next flush will drain.
    pub closed spec fn pending(self) -> Seq<InstrV> {
        instrs_view(self.queue@)
    }

    /// Whether the session is open, as a runtime value.
    pub fn active(&self) -> (b: bool)
        ensures
            b == self.is_active(),
    {
        self.active
    }

    /// How many instructions are queued and not yet flushed.
    pub fn pending_len(&self) -> (n: usize)
        ensures
            n == self.pending().len(),
    {
        self.queue.len()
    }

    /// Opens the session: returns the fresh session, active with an empty
    /// queue, together with the commands the shell must perform at once.
    pub fn init() -> (r: (Session, Vec<Instruction>))
        ensures
            r.0.is_active(),
            r.0.pending() == Seq::<InstrV>::empty(),
            instrs_view(r.1@) == init_instrs(),
    {
        let session = Session { active: true, queue: Vec::new() };
        let mut commands: Vec<Instruction> = Vec::new();
        commands.push(Instruction::EnableRawMode);
        commands.push(Instruction::EnterAlternateScreen);
        commands.push(Instruction::HideCursor);
        proof {
            assert(session.pending() =~= Seq::<InstrV>::empty());
            assert(instrs_view(commands@) =~= init_instrs());
        }
        (session, commands)
    }

    /// Closes the session: returns everything still queued followed by the
    /// teardown commands, in the order the shell must perform them, and
    /// leaves the session inactive with an empty queue.
    pub fn deinit(&mut self) -> (commands: Vec<Instruction>)
        requires
            old(self).is_active(),
        ensures
            !final(self).is_active(),
            final(self).pending() == Seq::<InstrV>::empty(),
            instrs_view(commands@) == old(self).pending() + deinit_instrs(),
    {
        self.active = false;
        let mut commands: Vec<Instruction> = Vec::new();
        core::mem::swap(&mut commands, &mut self.queue);
        commands.push(Instruction::ResetColors);
        commands.push(Instruction::LeaveAlternateScreen);
        commands.push(Instruction::ShowCursor);
        commands.push(Instruction::MoveTo(Vec2 { x: 0, y: 0 }));
        commands.push(Instruction::ClearAll);
        commands.push(Instruction::DisableRawMode);
        proof {
            assert(final(self).pending() =~= Seq::<InstrV>::empty());
            assert(instrs_view(commands@) =~= old(self).pending() + deinit_instrs());
        }
        commands
    }

    /// Queues a cursor move to `pos` followed by the given bytes, to become
    /// visible at the next flush. The bytes are taken as they come: the
    /// caller owes valid UTF-8, nothing here inspects them.
    pub fn print_at(&mut self, pos: Vec2, text: Vec<u8>)
        requires
            old(self).is_active(),
        ensures
            final(self).is_active(),
            final(self).pending() == old(self).pending()
                + seq![InstrV::MoveTo(pos), InstrV::Print(text@)],
    {
        let ghost text_view = text@;
        self.queue.push(Instruction::MoveTo(pos));
        self.queue.push(Instruction::Print(text));
        proof {
            assert(final(self).pending() =~= old(self).pending()
                + seq![InstrV::MoveTo(pos), InstrV::Print(text_view)]);
        }
    }

    /// Queues one combined attribute update that enables the named effect
    /// booleans and leaves every other attribute alone.
    pub fn enable_effect(&mut self, e: Effect)
        requires
            old(self).is_active(),
        ensures
            final(self).is_active(),
            final(self).pending() == old(self).pending()
                + seq![InstrV::SetAttributes(enable_update_spec(e))],
    {
        let update = enable_update(e);
        self.queue.push(Instruction::SetAttributes(update));
        proof {
            assert(final(self).pending() =~= old(self).pending()
                + seq![InstrV::SetAttributes(enable_update_spec(e))]);
        }
    }

    /// Queues one combined attribute update that disables the named effect
    /// booleans and leaves every other attribute alone.
    pub fn disable_effect(&mut self, e: Effect)
        requires
            old(self).is_active(),
        ensures
            final(self).is_active(),
            final(self).pending() == old(self).pending()
                + seq![InstrV::SetAttributes(disable_update_spec(e))],
    {
        let update = disable_update(e);
        self.queue.push(Instruction::SetAttributes(update));
        proof {
            assert(final(self).pending() =~= old(self).pending()
                + seq![InstrV::SetAttributes(disable_update_spec(e))]);
        }
    }

    /// Queues one combined foreground/background color change, both sides
    /// resolved through the palette mapping.
    pub fn use_color(&mut self, pair: ColorPair)
        requires
            old(self).is_active(),
            pair.wf(),
        ensures
            final(self).is_active(),
            final(self).pending() == old(self).pending()
                + seq![InstrV::SetColors(pair.fg.resolved_spec(), pair.bg.resolved_spec())],
    {
        let fg = pair.fg.resolve();
        let bg = pair.bg.resolve();
        self.queue.push(Instruction::SetColors(fg, bg));
        proof {
            assert(final(self).pending() =~= old(self).pending()
                + seq![InstrV::SetColors(pair.fg.resolved_spec(), pair.bg.resolved_spec())]);
        }
    }

    /// Translates one polled native event, or the absence of one.
    ///
    /// No event, a non-press key event, and an unhandled event all yield the
    /// default key and leave the queue alone. A key press is translated
    /// through the key-press mapping. A resize yields the `Resize` tag and,
    /// as its one side effect, queues a full-screen clear so the next flush
    /// repaints from a blank slate.
    pub fn poll_event(&mut self, event: Option<NativeEvent>) -> (k: Key)
        requires
            old(self).is_active(),
        ensures
            final(self).is_active(),
            match event {
                Some(NativeEvent::Resize(_, _)) =>
                    final(self).pending() == old(self).pending() + seq![InstrV::ClearAll],
                _ => final(self).pending() == old(self).pending(),
            },
            match event {
                None => is_default_key(k),
                Some(NativeEvent::Key(ev)) => {
                    if ev.kind is Press {
                        &&& k.key_type == key_type_of(ev.code)
                        &&& k.code@ == code_bytes_of(ev.code)
                        &&& k.modifiers == press_modifiers_of(ev.code, ev.modifiers)
                    } else {
                        is_default_key(k)
                    }
                },
                Some(NativeEvent::Resize(_, _)) => {
                    &&& k.key_type == KeyType::Resize
                    &&& k.code@ == zero_code()
                    &&& k.modifiers == no_modifiers()
                },
                Some(NativeEvent::Other) => is_default_key(k),
            },
    {
        match event {
            None => Key::default(),
            Some(NativeEvent::Key(ev)) => {
                match ev.kind {
                    EventKind::Press => Key::from_press(ev.code, ev.modifiers),
                    _ => Key::default(),
                }
            },
            Some(NativeEvent::Resize(_, _)) => {
                self.queue.push(Instruction::ClearAll);
                proof {
                    assert(final(self).pending() =~= old(self).pending() + seq![InstrV::ClearAll]);
                }
                let k = Key {
                    key_type: KeyType::Resize,
                    code: [0u8, 0u8, 0u8, 0u8],
                    modifiers: KeyModifiers { shift: false, control: false, alt: false },
                };
                proof {
                    assert(k.code@ =~= zero_code());
                }
                k
            },
            Some(NativeEvent::Other) => Key::default(),
        }
    }

    /// Flushes: hands back everything queued, oldest first, and leaves the
    /// queue empty. The queue drained is exactly the queue as it stood at
    /// the call, all or nothing.
    pub fn refresh(&mut self) -> (out: Vec<Instruction>)
        requires
            old(self).is_active(),
        ensures
            final(self).is_active(),
            final(self).pending() == Seq::<InstrV>::empty(),
            instrs_view(out@) == old(self).pending(),
    {
        let mut out: Vec<Instruction> = Vec::new();
        core::mem::swap(&mut out, &mut self.queue);
        proof {
            assert(final(self).pending() =~= Seq::<InstrV>::empty());
        }
        out
    }
}

} // verus!
