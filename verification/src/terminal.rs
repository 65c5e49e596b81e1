//! The terminal-mode guard: raw input for as long as the tunnel runs, and
//! the terminal as it was found when the tunnel leaves.

use vstd::prelude::*;

verus! {

/// Number of control characters that a set of attributes holds.
pub const CONTROL_CHARS: usize = 32;

/// The attributes of a terminal, field by field.
#[derive(Debug, Clone, Copy, PartialEq, Eq)]
pub struct TerminalAttributes {
    pub input_flags: u64,
    pub output_flags: u64,
    pub control_flags: u64,
    pub local_flags: u64,
    pub line_discipline: u8,
    pub control_chars: [u8; 32],
    pub input_speed: u64,
    pub output_speed: u64,
}

/// The two local-mode bits that the guard clears, as the platform numbers
/// them.
#[derive(Debug, Clone, Copy, PartialEq, Eq, Structural)]
pub struct LocalModeBits {
    /// Canonical mode: input is handed over line by line.
    pub canonical: u64,
    /// Echo: what is typed is shown.
    pub echo: u64,
}

impl TerminalAttributes {
    /// These attributes with canonical mode and echo switched off and all
    /// else as it is.
    pub open spec fn raw(self, bits: LocalModeBits) -> TerminalAttributes {
        TerminalAttributes { local_flags: self.local_flags & !(bits.canonical | bits.echo), ..self }
    }

    /// These attributes with canonical mode and echo switched off, so that
    /// single bytes arrive at once and are not shown twice.
    pub fn make_raw(&self, bits: LocalModeBits) -> (raw: TerminalAttributes)
        ensures
            raw == self.raw(bits),
    {
        TerminalAttributes {
            input_flags: self.input_flags,
            output_flags: self.output_flags,
            control_flags: self.control_flags,
            local_flags: self.local_flags & !(bits.canonical | bits.echo),
            line_discipline: self.line_discipline,
            control_chars: self.control_chars,
            input_speed: self.input_speed,
            output_speed: self.output_speed,
        }
    }
}

/// Raw mode has neither of the two bits set and differs from the attributes
/// it was made from in no other bit.
pub proof fn lemma_raw_clears_only_its_bits(attributes: TerminalAttributes, bits: LocalModeBits)
    ensures
        attributes.raw(bits).local_flags & (bits.canonical | bits.echo) == 0,
        attributes.raw(bits).local_flags | (attributes.local_flags & (bits.canonical | bits.echo))
            == attributes.local_flags,
        attributes.raw(bits).raw(bits) == attributes.raw(bits),
{
    let flags = attributes.local_flags;
    let mask = bits.canonical | bits.echo;
    assert((flags & !mask) & mask == 0) by (bit_vector);
    assert((flags & !mask) | (flags & mask) == flags) by (bit_vector);
    assert((flags & !mask) & !mask == flags & !mask) by (bit_vector);
}

/// What a guard is: the attributes it found, if the input is a terminal, and
/// whether raw mode is in force right now.
pub struct GuardView {
    pub saved: Option<TerminalAttributes>,
    pub bits: LocalModeBits,
    pub raw_in_force: bool,
}

/// The guard over the mode of the input terminal. It remembers the
/// attributes it found and hands exactly those back on release.
#[derive(Debug)]
pub struct TerminalModeGuard {
    saved: Option<TerminalAttributes>,
    bits: LocalModeBits,
    raw_in_force: bool,
}

impl View for TerminalModeGuard {
    type V = GuardView;

    closed spec fn view(&self) -> GuardView {
        GuardView { saved: self.saved, bits: self.bits, raw_in_force: self.raw_in_force }
    }
}

/// What can be done with a guard between acquiring and releasing it.
pub enum GuardStep {
    /// Lift raw mode for the time of a write.
    Suspend,
    /// Put raw mode back after the write.
    Resume,
}

impl GuardView {
    /// The guard as it is acquired over `current`: raw mode is in force if
    /// and only if there is a terminal.
    pub open spec fn acquired(current: Option<TerminalAttributes>, bits: LocalModeBits) -> GuardView {
        GuardView { saved: current, bits, raw_in_force: current is Some }
    }

    /// The attributes that raw mode stands for under this guard.
    pub open spec fn raw_attributes(self) -> Option<TerminalAttributes> {
        match self.saved {
            Some(found) => Some(found.raw(self.bits)),
            None => None,
        }
    }

    /// The guard after `step`.
    pub open spec fn after(self, step: GuardStep) -> GuardView {
        match step {
            GuardStep::Suspend => GuardView { raw_in_force: false, ..self },
            GuardStep::Resume => GuardView { raw_in_force: self.saved is Some, ..self },
        }
    }

    /// The guard after all of `steps`, in order.
    pub open spec fn after_all(self, steps: Seq<GuardStep>) -> GuardView
        decreases steps.len(),
    {
        if steps.len() == 0 {
            self
        } else {
            self.after_all(steps.drop_last()).after(steps.last())
        }
    }
}

/// However often raw mode is lifted and put back, the guard keeps the
/// attributes that were found when it was acquired, so that releasing it
/// restores exactly those.
pub proof fn lemma_release_restores_what_was_found(
    current: Option<TerminalAttributes>,
    bits: LocalModeBits,
    steps: Seq<GuardStep>,
)
    ensures
        GuardView::acquired(current, bits).after_all(steps).saved == current,
    decreases steps.len(),
{
    if steps.len() > 0 {
        lemma_release_restores_what_was_found(current, bits, steps.drop_last());
    }
}

impl TerminalModeGuard {
    #[verifier::type_invariant]
    spec fn raw_needs_a_terminal(self) -> bool {
        self.raw_in_force ==> self.saved is Some
    }

    /// Acquires the guard. `current` holds the attributes that were read
    /// from the input, or nothing if the input is no terminal; then the
    /// guard does nothing, and acquiring it succeeds all the same. The
    /// second result is what to apply to the terminal now.
    pub fn acquire(current: Option<TerminalAttributes>, bits: LocalModeBits) -> (acquired: (
        TerminalModeGuard,
        Option<TerminalAttributes>,
    ))
        ensures
            acquired.0@ == GuardView::acquired(current, bits),
            acquired.1 == acquired.0@.raw_attributes(),
    {
        match current {
            Some(found) => {
                let raw = found.make_raw(bits);
                (TerminalModeGuard { saved: current, bits, raw_in_force: true }, Some(raw))
            },
            None => (TerminalModeGuard { saved: None, bits, raw_in_force: false }, None),
        }
    }

    /// Whether the guard watches over a terminal at all.
    pub fn is_active(&self) -> (active: bool)
        ensures
            active == (self@.saved is Some),
    {
        self.saved.is_some()
    }

    /// Lifts raw mode for the time of a write: gives the attributes that
    /// were found, to be applied, if raw mode is in force.
    pub fn suspend(&mut self) -> (apply: Option<TerminalAttributes>)
        ensures
            final(self)@ == old(self)@.after(GuardStep::Suspend),
            apply == if old(self)@.raw_in_force {
                old(self)@.saved
            } else {
                None
            },
    {
        proof {
            use_type_invariant(&*self);
        }
        if self.raw_in_force {
            self.raw_in_force = false;
            self.saved
        } else {
            None
        }
    }

    /// Puts raw mode back after a write: gives the raw attributes, to be
    /// applied, if the guard watches over a terminal and raw mode is lifted.
    pub fn resume(&mut self) -> (apply: Option<TerminalAttributes>)
        ensures
            final(self)@ == old(self)@.after(GuardStep::Resume),
            apply == if old(self)@.raw_in_force {
                None
            } else {
                old(self)@.raw_attributes()
            },
    {
        proof {
            use_type_invariant(&*self);
        }
        if self.raw_in_force {
            return None;
        }
        match self.saved {
            Some(found) => {
                self.raw_in_force = true;
                Some(found.make_raw(self.bits))
            },
            None => None,
        }
    }

    /// Releases the guard: gives back exactly the attributes that were found
    /// when it was acquired, to be restored, whatever happened in between
    /// and whyever the guard is released.
    pub fn release(self) -> (restore: Option<TerminalAttributes>)
        ensures
            restore == self@.saved,
    {
        self.saved
    }
}

} // verus!
