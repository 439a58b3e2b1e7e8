//! Terminal-mode lifecycle: capturing the controlling terminal's attributes,
//! computing the raw-mode attribute set, and guaranteeing restoration of the
//! pristine attributes on every exit path.
//!
//! The surrounding binary reads the live terminal's attributes and geometry,
//! hands them to [`TerminalLifecycle::capture`], applies the attribute sets
//! this module computes, and restores with the value [`TerminalLifecycle::restore`]
//! returns.

use vstd::prelude::*;

verus! {

// Linux termios flag bits, as they appear in the attribute words that the
// operating system reports.

/// Input flag: ignore break condition.
pub const IGNBRK: u32 = 0x001;
/// Input flag: signal interrupt on break.
pub const BRKINT: u32 = 0x002;
/// Input flag: mark parity errors.
pub const PARMRK: u32 = 0x008;
/// Input flag: strip the eighth bit.
pub const ISTRIP: u32 = 0x020;
/// Input flag: translate NL to CR on input.
pub const INLCR: u32 = 0x040;
/// Input flag: ignore CR on input.
pub const IGNCR: u32 = 0x080;
/// Input flag: translate CR to NL on input.
pub const ICRNL: u32 = 0x100;
/// Input flag: enable XON/XOFF flow control.
pub const IXON: u32 = 0x400;

/// Output flag: enable implementation-defined output processing.
pub const OPOST: u32 = 0x001;

/// Local flag: generate signals from control characters.
pub const ISIG: u32 = 0x001;
/// Local flag: canonical (line-buffered) input.
pub const ICANON: u32 = 0x002;
/// Local flag: echo input characters.
pub const ECHO: u32 = 0x008;
/// Local flag: echo NL even when echo is off.
pub const ECHONL: u32 = 0x040;
/// Local flag: enable extended input processing.
pub const IEXTEN: u32 = 0x8000;

/// Control flag: character size mask.
pub const CSIZE: u32 = 0x030;
/// Control flag: eight-bit characters.
pub const CS8: u32 = 0x030;
/// Control flag: enable parity generation.
pub const PARENB: u32 = 0x100;

/// A snapshot of the controlling terminal's attribute words, together with
/// the two control characters that raw-mode entry changes (the minimum read
/// count and the read timeout). Control characters other than these two are
/// left untouched by every operation in this module, so the snapshot does
/// not carry them.
#[derive(Clone, Copy, Debug, PartialEq, Eq, Structural)]
pub struct TermAttrs {
    pub input_flags: u32,
    pub output_flags: u32,
    pub control_flags: u32,
    pub local_flags: u32,
    /// Minimum number of bytes for a non-canonical read (VMIN).
    pub cc_min: u8,
    /// Timeout in deciseconds for a non-canonical read (VTIME).
    pub cc_time: u8,
}

/// The controlling terminal's window geometry, passed through unchanged to
/// the pty slave so the child shell's line wrapping matches the real screen.
#[derive(Clone, Copy, Debug, PartialEq, Eq, Structural)]
pub struct WinSize {
    pub rows: u16,
    pub cols: u16,
    pub xpixel: u16,
    pub ypixel: u16,
}

/// The raw-mode transformation of an attribute snapshot: input and output
/// translation off, echo off, canonical input off, signal-generating control
/// characters off, eight-bit characters, byte-at-a-time reads.
pub open spec fn raw_of(a: TermAttrs) -> TermAttrs {
    TermAttrs {
        input_flags: a.input_flags & !(IGNBRK | BRKINT | PARMRK | ISTRIP | INLCR | IGNCR | ICRNL | IXON),
        output_flags: a.output_flags & !OPOST,
        control_flags: (a.control_flags & !(CSIZE | PARENB)) | CS8,
        local_flags: a.local_flags & !(ECHO | ECHONL | ICANON | ISIG | IEXTEN),
        cc_min: 1,
        cc_time: 0,
    }
}

impl TermAttrs {
    /// Compute the raw-mode attribute set from this snapshot.
    pub fn make_raw(&self) -> (r: TermAttrs)
        ensures
            r == raw_of(*self),
    {
        TermAttrs {
            input_flags: self.input_flags & !(IGNBRK | BRKINT | PARMRK | ISTRIP | INLCR | IGNCR | ICRNL | IXON),
            output_flags: self.output_flags & !OPOST,
            control_flags: (self.control_flags & !(CSIZE | PARENB)) | CS8,
            local_flags: self.local_flags & !(ECHO | ECHONL | ICANON | ISIG | IEXTEN),
            cc_min: 1,
            cc_time: 0,
        }
    }
}

/// Raw mode really disables echo, canonical input, signals, and the input
/// and output translations, whatever the starting attributes were.
pub proof fn lemma_raw_mode_semantics(a: TermAttrs)
    ensures
        raw_of(a).local_flags & ECHO == 0,
        raw_of(a).local_flags & ICANON == 0,
        raw_of(a).local_flags & ISIG == 0,
        raw_of(a).input_flags & ICRNL == 0,
        raw_of(a).input_flags & IXON == 0,
        raw_of(a).output_flags & OPOST == 0,
        raw_of(a).control_flags & CSIZE == CS8,
{
    let lf = a.local_flags;
    let inf = a.input_flags;
    let of = a.output_flags;
    let cf = a.control_flags;
    assert((lf & !(0x008u32 | 0x040u32 | 0x002u32 | 0x001u32 | 0x8000u32)) & 0x008u32 == 0)
        by (bit_vector);
    assert((lf & !(0x008u32 | 0x040u32 | 0x002u32 | 0x001u32 | 0x8000u32)) & 0x002u32 == 0)
        by (bit_vector);
    assert((lf & !(0x008u32 | 0x040u32 | 0x002u32 | 0x001u32 | 0x8000u32)) & 0x001u32 == 0)
        by (bit_vector);
    assert((inf & !(0x001u32 | 0x002u32 | 0x008u32 | 0x020u32 | 0x040u32 | 0x080u32 | 0x100u32
        | 0x400u32)) & 0x100u32 == 0) by (bit_vector);
    assert((inf & !(0x001u32 | 0x002u32 | 0x008u32 | 0x020u32 | 0x040u32 | 0x080u32 | 0x100u32
        | 0x400u32)) & 0x400u32 == 0) by (bit_vector);
    assert((of & !0x001u32) & 0x001u32 == 0) by (bit_vector);
    assert(((cf & !(0x030u32 | 0x100u32)) | 0x030u32) & 0x030u32 == 0x030u32) by (bit_vector);
}

/// An operation on the live terminal's attribute state.
#[derive(Clone, Copy, Debug, PartialEq, Eq, Structural)]
pub enum TermOp {
    /// Apply the raw-mode transformation to the live attributes.
    EnterRaw,
    /// Reapply the pristine snapshot to the live terminal.
    Restore,
}

/// The scoped terminal-mode guard: the pristine snapshot taken at session
/// start, the attributes currently applied to the live terminal, and the
/// captured window geometry. The pristine snapshot and the geometry are
/// immutable for the session's lifetime.
#[derive(Clone, Copy, Debug, PartialEq, Eq, Structural)]
pub struct TerminalLifecycle {
    /// The attribute set captured before the session began.
    pub original: TermAttrs,
    /// The attribute set currently applied to the live terminal.
    pub live: TermAttrs,
    /// The window geometry captured before the session began.
    pub geometry: WinSize,
}

/// The effect of one operation on the guard's state.
pub open spec fn apply_op(l: TerminalLifecycle, op: TermOp) -> TerminalLifecycle {
    match op {
        TermOp::EnterRaw => TerminalLifecycle { live: raw_of(l.live), ..l },
        TermOp::Restore => TerminalLifecycle { live: l.original, ..l },
    }
}

/// The effect of a whole sequence of operations, first to last.
pub open spec fn apply_ops(l: TerminalLifecycle, ops: Seq<TermOp>) -> TerminalLifecycle
    decreases ops.len(),
{
    if ops.len() == 0 {
        l
    } else {
        apply_ops(apply_op(l, ops[0]), ops.drop_first())
    }
}

/// Splitting a sequence of operations: applying `a + b` is applying `a`,
/// then applying `b` to the result.
pub proof fn lemma_apply_ops_concat(l: TerminalLifecycle, a: Seq<TermOp>, b: Seq<TermOp>)
    ensures
        apply_ops(l, a + b) == apply_ops(apply_ops(l, a), b),
    decreases a.len(),
{
    if a.len() == 0 {
        assert(a + b =~= b);
    } else {
        assert((a + b)[0] == a[0]);
        assert((a + b).drop_first() =~= a.drop_first() + b);
        lemma_apply_ops_concat(apply_op(l, a[0]), a.drop_first(), b);
    }
}

/// No operation ever touches the pristine snapshot or the geometry.
pub proof fn lemma_ops_preserve_original(l: TerminalLifecycle, ops: Seq<TermOp>)
    ensures
        apply_ops(l, ops).original == l.original,
        apply_ops(l, ops).geometry == l.geometry,
    decreases ops.len(),
{
    if ops.len() > 0 {
        lemma_ops_preserve_original(apply_op(l, ops[0]), ops.drop_first());
    }
}

/// Mode restoration invariant: after any sequence of operations whatever —
/// a successful run, a spawn failure, a relay error, a forced closure —
/// a final restore leaves the live terminal bit-identical to the snapshot
/// captured before the session began.
pub proof fn lemma_mode_restoration(l: TerminalLifecycle, ops: Seq<TermOp>)
    ensures
        apply_op(apply_ops(l, ops), TermOp::Restore).live == l.original,
{
    lemma_ops_preserve_original(l, ops);
}

/// Idempotent teardown: restoring twice in sequence yields the same
/// terminal state as restoring once.
pub proof fn lemma_idempotent_restore(l: TerminalLifecycle)
    ensures
        apply_op(apply_op(l, TermOp::Restore), TermOp::Restore) == apply_op(l, TermOp::Restore),
{
}

impl TerminalLifecycle {
    /// Take the pristine snapshot. The live terminal still carries exactly
    /// these attributes.
    pub fn capture(current: TermAttrs, geometry: WinSize) -> (r: TerminalLifecycle)
        ensures
            r.original == current,
            r.live == current,
            r.geometry == geometry,
    {
        TerminalLifecycle { original: current, live: current, geometry }
    }

    /// Compute the raw-mode attributes and account for their application to
    /// the live terminal. Returns the attribute set the caller must apply.
    pub fn enter_raw(&mut self) -> (raw: TermAttrs)
        ensures
            *final(self) == apply_op(*old(self), TermOp::EnterRaw),
            raw == raw_of(old(self).live),
    {
        let raw = self.live.make_raw();
        self.live = raw;
        raw
    }

    /// Account for restoration of the pristine attributes. Returns the
    /// attribute set the caller must apply; it is exactly the snapshot
    /// taken by [`TerminalLifecycle::capture`].
    pub fn restore(&mut self) -> (orig: TermAttrs)
        ensures
            *final(self) == apply_op(*old(self), TermOp::Restore),
            orig == old(self).original,
            final(self).live == old(self).original,
    {
        self.live = self.original;
        self.original
    }
}

} // verus!
