//! Terminal mode control: the raw-mode attribute rule and the per-handle
//! store of saved attribute blocks. Flag bits and control-character indices
//! carry their Linux values, so a block read from the OS maps one for one.

use std::collections::HashMap;
use vstd::prelude::*;

verus! {

broadcast use {vstd::std_specs::hash::group_hash_axioms, vstd::array::group_array_axioms};

/// Number of control characters in an attribute block.
pub const NCCS: usize = 32;

/// Input flag: a break condition flushes the queues and raises an interrupt.
pub const BRKINT: u32 = 0o2;
/// Input flag: enable parity checking.
pub const INPCK: u32 = 0o20;
/// Input flag: strip the eighth bit of each input byte.
pub const ISTRIP: u32 = 0o40;
/// Input flag: translate carriage return to newline.
pub const ICRNL: u32 = 0o400;
/// Input flag: XON/XOFF flow control on output.
pub const IXON: u32 = 0o2000;
/// Control flag mask: eight-bit characters.
pub const CS8: u32 = 0o60;
/// Local flag: the interrupt, quit and suspend characters raise signals.
pub const ISIG: u32 = 0o1;
/// Local flag: canonical (line-buffered) input.
pub const ICANON: u32 = 0o2;
/// Local flag: echo input characters.
pub const ECHO: u32 = 0o10;
/// Local flag: implementation-defined input processing.
pub const IEXTEN: u32 = 0o100000;
/// Index of the read timeout among the control characters.
pub const VTIME: usize = 5;
/// Index of the minimum read count among the control characters.
pub const VMIN: usize = 6;

/// Input flags that raw mode clears.
pub const RAW_CLEARED_INPUT: u32 = BRKINT | ICRNL | INPCK | ISTRIP | IXON;
/// Local flags that raw mode clears in every variant.
pub const RAW_CLEARED_LOCAL: u32 = ECHO | ICANON | IEXTEN;

/// A terminal's attribute block, held as plain values.
#[derive(Debug, Clone, Copy)]
pub struct TermAttrs {
    pub input_flags: u32,
    pub output_flags: u32,
    pub control_flags: u32,
    pub local_flags: u32,
    pub line_discipline: u8,
    pub control_chars: [u8; 32],
    pub input_speed: u32,
    pub output_speed: u32,
}

/// The attributes of raw mode derived from `base`: no canonical input, echo,
/// extended processing or input translation, eight-bit characters, reads that
/// block for one byte with no timeout; signal characters stay live only when
/// `cbreak` asks for it. Everything else is kept from `base`.
pub open spec fn raw_of(base: TermAttrs, cbreak: bool) -> TermAttrs {
    let local = base.local_flags & !RAW_CLEARED_LOCAL;
    TermAttrs {
        input_flags: base.input_flags & !RAW_CLEARED_INPUT,
        control_flags: base.control_flags | CS8,
        local_flags: if cbreak { local } else { local & !ISIG },
        control_chars: vstd::array::spec_array_update(
            vstd::array::spec_array_update(base.control_chars, VMIN as int, 1u8),
            VTIME as int,
            0u8,
        ),
        ..base
    }
}

/// Computes the raw-mode attribute block from a baseline.
pub fn make_raw(base: TermAttrs, cbreak: bool) -> (r: TermAttrs)
    ensures
        r == raw_of(base, cbreak),
{
    let mut raw = base;
    raw.input_flags = raw.input_flags & !RAW_CLEARED_INPUT;
    raw.control_flags = raw.control_flags | CS8;
    raw.local_flags = raw.local_flags & !RAW_CLEARED_LOCAL;
    if !cbreak {
        raw.local_flags = raw.local_flags & !ISIG;
    }
    raw.control_chars[VMIN] = 1;
    raw.control_chars[VTIME] = 0;
    assert(raw.control_chars =~= raw_of(base, cbreak).control_chars);
    raw
}

/// The snapshot saved for `id` in a store whose contents are `m`, if any.
pub open spec fn snapshot_of(m: Map<u32, TermAttrs>, id: u32) -> Option<TermAttrs> {
    if m.contains_key(id) {
        Some(m[id])
    } else {
        None
    }
}

/// Saved attribute blocks, one per handle at most: a handle has an entry
/// exactly while raw mode is entered on it.
pub struct TtyModeStore {
    modes: HashMap<u32, TermAttrs>,
}

impl View for TtyModeStore {
    type V = Map<u32, TermAttrs>;

    closed spec fn view(&self) -> Map<u32, TermAttrs> {
        self.modes@
    }
}

impl TtyModeStore {
    /// A store with no snapshot.
    pub fn new() -> (r: TtyModeStore)
        ensures
            r@ == Map::<u32, TermAttrs>::empty(),
    {
        TtyModeStore { modes: HashMap::new() }
    }

    /// The snapshot saved for `id`.
    pub fn get(&self, id: u32) -> (r: Option<TermAttrs>)
        ensures
            r == snapshot_of(self@, id),
    {
        match self.modes.get(&id) {
            Some(m) => Some(*m),
            None => None,
        }
    }

    /// Removes and returns the snapshot saved for `id`.
    pub fn take(&mut self, id: u32) -> (r: Option<TermAttrs>)
        ensures
            r == snapshot_of(old(self)@, id),
            final(self)@ == old(self)@.remove(id),
    {
        self.modes.remove(&id)
    }

    /// Saves `mode` as the snapshot for `id`, replacing any earlier one.
    pub fn set(&mut self, id: u32, mode: TermAttrs)
        ensures
            final(self)@ == old(self)@.insert(id, mode),
    {
        self.modes.insert(id, mode);
    }
}

/// What the caller must do to a terminal after a mode request.
#[derive(Debug, Clone, Copy)]
pub enum ModeChange {
    /// Write this attribute block, after pending output drains.
    Apply(TermAttrs),
    /// Read the terminal's current attributes and repeat the request with them.
    ReadCurrent,
    /// Leave the terminal alone.
    Keep,
}

/// The change that a request asks for. `current` is the terminal's attribute
/// block as read by the caller, if it was read.
pub open spec fn mode_change_of(
    m: Map<u32, TermAttrs>,
    id: u32,
    is_raw: bool,
    cbreak: bool,
    current: Option<TermAttrs>,
) -> ModeChange {
    if is_raw {
        if m.contains_key(id) {
            ModeChange::Apply(raw_of(m[id], cbreak))
        } else {
            match current {
                Some(c) => ModeChange::Apply(raw_of(c, cbreak)),
                None => ModeChange::ReadCurrent,
            }
        }
    } else if m.contains_key(id) {
        ModeChange::Apply(m[id])
    } else {
        ModeChange::Keep
    }
}

/// The store after a request: the first raw request on a handle saves the
/// baseline, a cooked request drops the snapshot, nothing else changes it.
pub open spec fn mode_store_after(
    m: Map<u32, TermAttrs>,
    id: u32,
    is_raw: bool,
    current: Option<TermAttrs>,
) -> Map<u32, TermAttrs> {
    if is_raw {
        if m.contains_key(id) {
            m
        } else {
            match current {
                Some(c) => m.insert(id, c),
                None => m,
            }
        }
    } else {
        m.remove(id)
    }
}

impl TtyModeStore {
    /// Decides a request to enter (`is_raw`) or leave raw mode on handle `id`.
    /// Entering reuses the saved snapshot as baseline when there is one, so
    /// repeated requests derive from the attributes seen before the first;
    /// otherwise it saves `current` as the snapshot, or asks for it to be read.
    /// Leaving restores and drops the snapshot, and is a no-op without one.
    pub fn set_raw(
        &mut self,
        id: u32,
        is_raw: bool,
        cbreak: bool,
        current: Option<TermAttrs>,
    ) -> (r: ModeChange)
        ensures
            r == mode_change_of(old(self)@, id, is_raw, cbreak, current),
            final(self)@ == mode_store_after(old(self)@, id, is_raw, current),
    {
        if is_raw {
            match self.get(id) {
                Some(mode) => ModeChange::Apply(make_raw(mode, cbreak)),
                None => match current {
                    Some(c) => {
                        self.set(id, c);
                        ModeChange::Apply(make_raw(c, cbreak))
                    },
                    None => ModeChange::ReadCurrent,
                },
            }
        } else {
            match self.take(id) {
                Some(mode) => ModeChange::Apply(mode),
                None => {
                    assert(self@ =~= old(self)@.remove(id));
                    ModeChange::Keep
                },
            }
        }
    }
}

/// Why a mode request on a handle failed.
#[derive(Debug, PartialEq, Eq, Clone, Copy, Structural)]
pub enum RawModeError {
    /// The handle names no resource with a descriptor.
    BadResource,
    /// The handle's descriptor is invalid or closed.
    BadDescriptor,
    /// Reading or writing the attributes failed with this native error code.
    Os(i32),
}

/// Accepts a descriptor number for attribute calls; `-1` marks a resource
/// whose descriptor is gone.
pub fn check_descriptor(fd: i32) -> (r: Result<i32, RawModeError>)
    ensures
        fd == -1 ==> r == Err::<i32, RawModeError>(RawModeError::BadDescriptor),
        fd != -1 ==> r == Ok::<i32, RawModeError>(fd),
{
    if fd == -1 {
        Err(RawModeError::BadDescriptor)
    } else {
        Ok(fd)
    }
}

/// Entering raw mode twice on a handle without a snapshot, then leaving it,
/// restores the attributes read before the first request, whatever was
/// passed as current the second time, and leaves the store as it was.
pub proof fn lemma_raw_twice_then_cooked_restores_first(
    m: Map<u32, TermAttrs>,
    id: u32,
    first: TermAttrs,
    second: Option<TermAttrs>,
    cbreak1: bool,
    cbreak2: bool,
    cbreak3: bool,
)
    requires
        !m.contains_key(id),
    ensures
        ({
            let m1 = mode_store_after(m, id, true, Some(first));
            let m2 = mode_store_after(m1, id, true, second);
            &&& mode_change_of(m1, id, true, cbreak2, second) == ModeChange::Apply(
                raw_of(first, cbreak2),
            )
            &&& mode_change_of(m2, id, false, cbreak3, None) == ModeChange::Apply(first)
            &&& mode_store_after(m2, id, false, None) == m
        }),
{
    let m1 = mode_store_after(m, id, true, Some(first));
    assert(m1.insert(id, first).remove(id) =~= m);
    assert(m1.remove(id) =~= m);
}

/// Leaving raw mode on a handle that never entered it asks for no change
/// and leaves the store as it was.
pub proof fn lemma_cooked_without_raw_is_noop(
    m: Map<u32, TermAttrs>,
    id: u32,
    cbreak: bool,
    current: Option<TermAttrs>,
)
    requires
        !m.contains_key(id),
    ensures
        mode_change_of(m, id, false, cbreak, current) == ModeChange::Keep,
        mode_store_after(m, id, false, current) == m,
{
    assert(m.remove(id) =~= m);
}

/// With `cbreak` raw mode keeps the signal flag of the baseline, so the
/// interrupt character still raises the interrupt signal where the baseline
/// had it; without `cbreak` the flag is off.
pub proof fn lemma_cbreak_controls_signals(base: TermAttrs)
    ensures
        raw_of(base, true).local_flags & ISIG == base.local_flags & ISIG,
        raw_of(base, false).local_flags & ISIG == 0,
{
    let l = base.local_flags;
    assert(l & !(0o10u32 | 0o2u32 | 0o100000u32) & 0o1u32 == l & 0o1u32) by (bit_vector);
    assert(l & !(0o10u32 | 0o2u32 | 0o100000u32) & !0o1u32 & 0o1u32 == 0) by (bit_vector);
}

} // verus!
