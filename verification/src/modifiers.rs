//! The modifier-key state machine behind the low-level event tap.
//!
//! Modifier keys arrive as flags-changed callbacks that report only the
//! current bitmask of active modifiers, and OS-level remapping can make the
//! physical key and its logical effect diverge. The machine infers the
//! effective modifier group from the flag transition, tracks per-key down
//! state, and emits exactly one press per physical press.

use vstd::prelude::*;

verus! {

/// Flag bit of the Caps Lock (alpha shift) group.
pub const FLAG_MASK_ALPHA_SHIFT: u64 = 65536;

/// Flag bit of the Shift group.
pub const FLAG_MASK_SHIFT: u64 = 131072;

/// Flag bit of the Control group.
pub const FLAG_MASK_CONTROL: u64 = 262144;

/// Flag bit of the Option/Alt group.
pub const FLAG_MASK_ALTERNATE: u64 = 524288;

/// Flag bit of the Command group.
pub const FLAG_MASK_COMMAND: u64 = 1048576;

/// A mouse button as the tap reports it.
#[derive(Debug, Clone, Copy, PartialEq, Eq, Structural)]
pub enum RawMouseButton {
    Left,
    Right,
    Other,
}

/// The key code a pressed mouse button is counted under; other buttons
/// carry no code.
pub fn mouse_button_code(button: RawMouseButton) -> (r: Option<&'static str>)
    ensures
        button is Left ==> r == Some("MouseLeft"),
        button is Right ==> r == Some("MouseRight"),
        button is Other ==> r is None,
{
    match button {
        RawMouseButton::Left => Some("MouseLeft"),
        RawMouseButton::Right => Some("MouseRight"),
        RawMouseButton::Other => None,
    }
}

/// One raw input event from the platform tap, with integer pixel
/// coordinates.
#[derive(Debug, Clone, Copy, PartialEq, Eq, Structural)]
pub enum RawInputEvent {
    KeyDown { keycode: u16, flags: u64 },
    MouseDown { button: RawMouseButton, x: i64, y: i64 },
    MouseMove { x: i64, y: i64 },
}

/// The tracked modifier groups.
#[derive(Debug, Clone, Copy, PartialEq, Eq, Structural)]
pub enum ModifierGroup {
    Shift,
    Control,
    Alt,
    Command,
    CapsLock,
}

/// Which side of the keyboard a modifier key sits on.
#[derive(Debug, Clone, Copy, PartialEq, Eq, Structural)]
pub enum ModifierSide {
    Left,
    Right,
}

/// The flag bit of a modifier group.
pub open spec fn spec_flag_mask(group: ModifierGroup) -> u64 {
    match group {
        ModifierGroup::Shift => FLAG_MASK_SHIFT,
        ModifierGroup::Control => FLAG_MASK_CONTROL,
        ModifierGroup::Alt => FLAG_MASK_ALTERNATE,
        ModifierGroup::Command => FLAG_MASK_COMMAND,
        ModifierGroup::CapsLock => FLAG_MASK_ALPHA_SHIFT,
    }
}

/// The flag bit of a modifier group.
pub fn flag_mask_for_group(group: ModifierGroup) -> (r: u64)
    ensures
        r == spec_flag_mask(group),
{
    match group {
        ModifierGroup::Shift => FLAG_MASK_SHIFT,
        ModifierGroup::Control => FLAG_MASK_CONTROL,
        ModifierGroup::Alt => FLAG_MASK_ALTERNATE,
        ModifierGroup::Command => FLAG_MASK_COMMAND,
        ModifierGroup::CapsLock => FLAG_MASK_ALPHA_SHIFT,
    }
}

/// The modifier group a physical keycode belongs to, if any.
pub open spec fn spec_expected_group(keycode: u16) -> Option<ModifierGroup> {
    if keycode == 56 || keycode == 60 {
        Some(ModifierGroup::Shift)
    } else if keycode == 59 || keycode == 62 {
        Some(ModifierGroup::Control)
    } else if keycode == 58 || keycode == 61 {
        Some(ModifierGroup::Alt)
    } else if keycode == 54 || keycode == 55 {
        Some(ModifierGroup::Command)
    } else if keycode == 57 {
        Some(ModifierGroup::CapsLock)
    } else {
        None
    }
}

/// The modifier group a physical keycode belongs to, if any.
pub fn expected_group_for_physical_keycode(keycode: u16) -> (r: Option<ModifierGroup>)
    ensures
        r == spec_expected_group(keycode),
{
    match keycode {
        56 | 60 => Some(ModifierGroup::Shift),
        59 | 62 => Some(ModifierGroup::Control),
        58 | 61 => Some(ModifierGroup::Alt),
        54 | 55 => Some(ModifierGroup::Command),
        57 => Some(ModifierGroup::CapsLock),
        _ => None,
    }
}

/// The keyboard side a physical modifier keycode sits on.
pub open spec fn spec_side(keycode: u16) -> ModifierSide {
    if keycode == 60 || keycode == 61 || keycode == 62 || keycode == 54 {
        ModifierSide::Right
    } else {
        ModifierSide::Left
    }
}

/// The keyboard side a physical modifier keycode sits on.
pub fn side_from_physical_keycode(keycode: u16) -> (r: ModifierSide)
    ensures
        r == spec_side(keycode),
{
    match keycode {
        60 | 61 | 62 | 54 => ModifierSide::Right,
        _ => ModifierSide::Left,
    }
}

/// The logical keycode standing for a group on a side.
pub open spec fn spec_logical_keycode(group: ModifierGroup, side: ModifierSide) -> u16 {
    match group {
        ModifierGroup::Shift => if side is Left {
            56u16
        } else {
            60u16
        },
        ModifierGroup::Control => if side is Left {
            59u16
        } else {
            62u16
        },
        ModifierGroup::Alt => if side is Left {
            58u16
        } else {
            61u16
        },
        // Apple's Command keycodes are reversed against the usual
        // left-then-right numbering: left is 55, right is 54.
        ModifierGroup::Command => if side is Left {
            55u16
        } else {
            54u16
        },
        ModifierGroup::CapsLock => 57u16,
    }
}

/// The logical keycode standing for a group on a side.
pub fn logical_keycode_for_group(group: ModifierGroup, side: ModifierSide) -> (r: u16)
    ensures
        r == spec_logical_keycode(group, side),
{
    match group {
        ModifierGroup::Shift => match side {
            ModifierSide::Left => 56,
            ModifierSide::Right => 60,
        },
        ModifierGroup::Control => match side {
            ModifierSide::Left => 59,
            ModifierSide::Right => 62,
        },
        ModifierGroup::Alt => match side {
            ModifierSide::Left => 58,
            ModifierSide::Right => 61,
        },
        ModifierGroup::Command => match side {
            ModifierSide::Left => 55,
            ModifierSide::Right => 54,
        },
        ModifierGroup::CapsLock => 57,
    }
}

/// The group order in which changed flag bits are scanned.
pub open spec fn spec_changed_scan_order() -> Seq<ModifierGroup> {
    seq![
        ModifierGroup::CapsLock,
        ModifierGroup::Shift,
        ModifierGroup::Control,
        ModifierGroup::Alt,
        ModifierGroup::Command,
    ]
}

/// The group order in which currently-active flag bits are scanned.
pub open spec fn spec_active_scan_order() -> Seq<ModifierGroup> {
    seq![
        ModifierGroup::Control,
        ModifierGroup::Shift,
        ModifierGroup::Alt,
        ModifierGroup::Command,
        ModifierGroup::CapsLock,
    ]
}

/// The first group in `order` whose mask intersects `bits`, if any.
pub open spec fn spec_first_masked(order: Seq<ModifierGroup>, bits: u64) -> Option<ModifierGroup>
    decreases order.len(),
{
    if order.len() == 0 {
        None
    } else if bits & spec_flag_mask(order[0]) != 0 {
        Some(order[0])
    } else {
        spec_first_masked(order.drop_first(), bits)
    }
}

/// How many of the tracked groups' bits intersect `bits`.
pub open spec fn spec_masked_count(order: Seq<ModifierGroup>, bits: u64) -> int
    decreases order.len(),
{
    if order.len() == 0 {
        0
    } else {
        (if bits & spec_flag_mask(order[0]) != 0 {
            1int
        } else {
            0int
        }) + spec_masked_count(order.drop_first(), bits)
    }
}

/// The effective modifier group of one flags-changed callback, per the
/// documented inference rules.
pub open spec fn spec_effective_group(
    prev_flags: u64,
    flags: u64,
    physical_keycode: u16,
) -> Option<ModifierGroup> {
    match spec_expected_group(physical_keycode) {
        None => None,
        Some(expected) => {
            let changed = prev_flags ^ flags;
            let n = spec_masked_count(spec_changed_scan_order(), changed);
            if n == 1 {
                spec_first_masked(spec_changed_scan_order(), changed)
            } else if n > 1 {
                if changed & spec_flag_mask(expected) != 0 {
                    Some(expected)
                } else {
                    spec_first_masked(spec_changed_scan_order(), changed)
                }
            } else if flags & spec_flag_mask(expected) != 0 {
                Some(expected)
            } else if spec_first_masked(spec_active_scan_order(), flags) is Some {
                spec_first_masked(spec_active_scan_order(), flags)
            } else {
                Some(expected)
            }
        },
    }
}

/// Infers which modifier group one flags-changed callback is about.
///
/// If exactly one tracked bit changed, that group is the effective one. If
/// several changed, the physical key's own group wins when it is among
/// them, else the first changed group in scan order (a documented, arbitrary
/// tie-break). If none changed, an active group in the current flags wins,
/// the physical group last.
pub fn infer_effective_modifier_group(
    prev_flags: u64,
    flags: u64,
    physical_keycode: u16,
) -> (r: Option<ModifierGroup>)
    ensures
        r == spec_effective_group(prev_flags, flags, physical_keycode),
{
    let expected = match expected_group_for_physical_keycode(physical_keycode) {
        Some(g) => g,
        None => {
            return None;
        },
    };
    let changed = prev_flags ^ flags;

    let mut first_changed: Option<ModifierGroup> = None;
    let mut n: u32 = 0;
    if changed & FLAG_MASK_ALPHA_SHIFT != 0 {
        n += 1;
        if first_changed.is_none() {
            first_changed = Some(ModifierGroup::CapsLock);
        }
    }
    if changed & FLAG_MASK_SHIFT != 0 {
        n += 1;
        if first_changed.is_none() {
            first_changed = Some(ModifierGroup::Shift);
        }
    }
    if changed & FLAG_MASK_CONTROL != 0 {
        n += 1;
        if first_changed.is_none() {
            first_changed = Some(ModifierGroup::Control);
        }
    }
    if changed & FLAG_MASK_ALTERNATE != 0 {
        n += 1;
        if first_changed.is_none() {
            first_changed = Some(ModifierGroup::Alt);
        }
    }
    if changed & FLAG_MASK_COMMAND != 0 {
        n += 1;
        if first_changed.is_none() {
            first_changed = Some(ModifierGroup::Command);
        }
    }
    proof {
        lemma_scan_unrolled(spec_changed_scan_order(), changed);
        lemma_scan_unrolled(spec_active_scan_order(), flags);
    }

    if n == 1 {
        return first_changed;
    }
    if n > 1 {
        if changed & flag_mask_for_group(expected) != 0 {
            return Some(expected);
        }
        return first_changed;
    }

    // No tracked bit changed (common when another key of the same group is
    // already held, or under some remaps): prefer a currently active group,
    // the physical group last.
    if flags & flag_mask_for_group(expected) != 0 {
        return Some(expected);
    }
    if flags & FLAG_MASK_CONTROL != 0 {
        return Some(ModifierGroup::Control);
    }
    if flags & FLAG_MASK_SHIFT != 0 {
        return Some(ModifierGroup::Shift);
    }
    if flags & FLAG_MASK_ALTERNATE != 0 {
        return Some(ModifierGroup::Alt);
    }
    if flags & FLAG_MASK_COMMAND != 0 {
        return Some(ModifierGroup::Command);
    }
    if flags & FLAG_MASK_ALPHA_SHIFT != 0 {
        return Some(ModifierGroup::CapsLock);
    }
    Some(expected)
}

/// Unrolls the five-element scans so the solver sees them as plain
/// conditionals.
proof fn lemma_scan_unrolled(order: Seq<ModifierGroup>, bits: u64)
    requires
        order.len() == 5,
    ensures
        spec_first_masked(order, bits) == (if bits & spec_flag_mask(order[0]) != 0 {
            Some(order[0])
        } else if bits & spec_flag_mask(order[1]) != 0 {
            Some(order[1])
        } else if bits & spec_flag_mask(order[2]) != 0 {
            Some(order[2])
        } else if bits & spec_flag_mask(order[3]) != 0 {
            Some(order[3])
        } else if bits & spec_flag_mask(order[4]) != 0 {
            Some(order[4])
        } else {
            None
        }),
        spec_masked_count(order, bits) == (if bits & spec_flag_mask(order[0]) != 0 {
            1int
        } else {
            0int
        }) + (if bits & spec_flag_mask(order[1]) != 0 {
            1int
        } else {
            0int
        }) + (if bits & spec_flag_mask(order[2]) != 0 {
            1int
        } else {
            0int
        }) + (if bits & spec_flag_mask(order[3]) != 0 {
            1int
        } else {
            0int
        }) + (if bits & spec_flag_mask(order[4]) != 0 {
            1int
        } else {
            0int
        }),
{
    let o1 = order.drop_first();
    let o2 = o1.drop_first();
    let o3 = o2.drop_first();
    let o4 = o3.drop_first();
    assert(o1[0] == order[1]);
    assert(o2[0] == order[2]);
    assert(o3[0] == order[3]);
    assert(o4[0] == order[4]);
    let o5 = o4.drop_first();
    assert(o5.len() == 0);
    assert(spec_first_masked(o5, bits) is None);
    assert(spec_masked_count(o5, bits) == 0);
    assert(spec_first_masked(o4, bits) == (if bits & spec_flag_mask(order[4]) != 0 {
        Some(order[4])
    } else {
        None
    }));
    assert(spec_masked_count(o4, bits) == (if bits & spec_flag_mask(order[4]) != 0 {
        1int
    } else {
        0int
    }));
    assert(spec_first_masked(o3, bits) == (if bits & spec_flag_mask(order[3]) != 0 {
        Some(order[3])
    } else {
        spec_first_masked(o4, bits)
    }));
    assert(spec_masked_count(o3, bits) == (if bits & spec_flag_mask(order[3]) != 0 {
        1int
    } else {
        0int
    }) + spec_masked_count(o4, bits));
    assert(spec_first_masked(o2, bits) == (if bits & spec_flag_mask(order[2]) != 0 {
        Some(order[2])
    } else {
        spec_first_masked(o3, bits)
    }));
    assert(spec_masked_count(o2, bits) == (if bits & spec_flag_mask(order[2]) != 0 {
        1int
    } else {
        0int
    }) + spec_masked_count(o3, bits));
    assert(spec_first_masked(o1, bits) == (if bits & spec_flag_mask(order[1]) != 0 {
        Some(order[1])
    } else {
        spec_first_masked(o2, bits)
    }));
    assert(spec_masked_count(o1, bits) == (if bits & spec_flag_mask(order[1]) != 0 {
        1int
    } else {
        0int
    }) + spec_masked_count(o2, bits));
}

/// One step of the machine for a key whose state was `was_down`: what is
/// emitted and the key's new down state.
pub open spec fn spec_flags_step(
    prev_flags: u64,
    flags: u64,
    was_down: bool,
    keycode: u16,
) -> (Option<u16>, bool) {
    let changed = prev_flags ^ flags;
    match spec_effective_group(prev_flags, flags, keycode) {
        Some(group) => {
            let logical = spec_logical_keycode(group, spec_side(keycode));
            if group is CapsLock {
                (
                    if changed & FLAG_MASK_ALPHA_SHIFT != 0 {
                        Some(logical)
                    } else {
                        None
                    },
                    false,
                )
            } else {
                let is_down_now = flags & spec_flag_mask(group) != 0;
                (
                    if is_down_now && !was_down {
                        Some(logical)
                    } else {
                        None
                    },
                    is_down_now,
                )
            }
        },
        None => (
            if !was_down {
                Some(keycode)
            } else {
                None
            },
            !was_down,
        ),
    }
}

/// Per-physical-key down state plus the last seen flag mask.
#[derive(Debug)]
pub struct FlagsChangedState {
    pub down: Vec<bool>,
    pub last_flags: u64,
}

impl FlagsChangedState {
    /// One slot per possible physical keycode byte.
    pub open spec fn wf(self) -> bool {
        self.down@.len() == 256
    }

    /// All keys up, no flags seen.
    pub fn new() -> (r: FlagsChangedState)
        ensures
            r.wf(),
            r.last_flags == 0,
            forall|i: int| 0 <= i < 256 ==> !r.down@[i],
    {
        let mut down: Vec<bool> = Vec::new();
        let mut i: usize = 0;
        while i < 256
            invariant
                0 <= i <= 256,
                down@.len() == i,
                forall|j: int| 0 <= j < i ==> !down@[j],
            decreases 256 - i,
        {
            down.push(false);
            i += 1;
        }
        FlagsChangedState { down, last_flags: 0 }
    }

    /// Processes one flags-changed callback for a physical key. Returns the
    /// logical keycode to count as a press, or `None` when this transition
    /// is not a press: a toggle group (Caps Lock) counts every transition of
    /// its dedicated bit; a non-toggle group counts only a 0-to-1 transition
    /// of its per-key down state, as read from the flag bit.
    pub fn process_flags_changed(&mut self, physical_keycode: u16, flags: u64) -> (r: Option<u16>)
        requires
            old(self).wf(),
        ensures
            final(self).wf(),
            physical_keycode >= 256 ==> r is None && *final(self) == *old(self),
            physical_keycode < 256 ==> {
                let step = spec_flags_step(old(self).last_flags, flags,
                    old(self).down@[physical_keycode as int], physical_keycode);
                &&& final(self).last_flags == flags
                &&& r == step.0
                &&& final(self).down@ == old(self).down@.update(physical_keycode as int, step.1)
            },
    {
        let idx = physical_keycode as usize;
        if idx >= 256 {
            return None;
        }

        let prev_flags = self.last_flags;
        self.last_flags = flags;

        let effective_group = infer_effective_modifier_group(prev_flags, flags, physical_keycode);
        let changed = prev_flags ^ flags;

        let group = match effective_group {
            Some(g) => g,
            None => {
                // Not a tracked modifier key: fall back to best-effort
                // per-key toggling.
                let was_down = self.down[idx];
                let slot = &mut self.down[idx];
                *slot = !was_down;
                if !was_down {
                    return Some(physical_keycode);
                }
                return None;
            },
        };
        let logical_keycode = logical_keycode_for_group(group,
            side_from_physical_keycode(physical_keycode));

        if matches!(group, ModifierGroup::CapsLock) {
            // Caps Lock is a toggle: count the press exactly when the alpha
            // shift bit changed; a release callback without a flag change
            // counts nothing.
            let slot = &mut self.down[idx];
            *slot = false;
            if changed & FLAG_MASK_ALPHA_SHIFT != 0 {
                return Some(logical_keycode);
            }
            return None;
        }

        // Non-toggle modifiers: read press/release from the group's flag
        // bit, which is stable under remaps.
        let mask = flag_mask_for_group(group);
        let is_down_now = flags & mask != 0;
        let was_down = self.down[idx];
        let slot = &mut self.down[idx];
        *slot = is_down_now;
        if is_down_now && !was_down {
            Some(logical_keycode)
        } else {
            None
        }
    }
}

/// Two distinct groups never share a flag bit.
proof fn lemma_masks_disjoint(a: ModifierGroup, b: ModifierGroup)
    requires
        a != b,
    ensures
        spec_flag_mask(a) & spec_flag_mask(b) == 0,
{
    assert(65536u64 & 131072u64 == 0) by (bit_vector);
    assert(65536u64 & 262144u64 == 0) by (bit_vector);
    assert(65536u64 & 524288u64 == 0) by (bit_vector);
    assert(65536u64 & 1048576u64 == 0) by (bit_vector);
    assert(131072u64 & 262144u64 == 0) by (bit_vector);
    assert(131072u64 & 524288u64 == 0) by (bit_vector);
    assert(131072u64 & 1048576u64 == 0) by (bit_vector);
    assert(262144u64 & 524288u64 == 0) by (bit_vector);
    assert(262144u64 & 1048576u64 == 0) by (bit_vector);
    assert(524288u64 & 1048576u64 == 0) by (bit_vector);
    assert(131072u64 & 65536u64 == 0) by (bit_vector);
    assert(262144u64 & 65536u64 == 0) by (bit_vector);
    assert(524288u64 & 65536u64 == 0) by (bit_vector);
    assert(1048576u64 & 65536u64 == 0) by (bit_vector);
    assert(262144u64 & 131072u64 == 0) by (bit_vector);
    assert(524288u64 & 131072u64 == 0) by (bit_vector);
    assert(1048576u64 & 131072u64 == 0) by (bit_vector);
    assert(524288u64 & 262144u64 == 0) by (bit_vector);
    assert(1048576u64 & 262144u64 == 0) by (bit_vector);
    assert(1048576u64 & 524288u64 == 0) by (bit_vector);
}

/// A group's bit intersects its own mask.
proof fn lemma_mask_self(g: ModifierGroup)
    ensures
        spec_flag_mask(g) & spec_flag_mask(g) != 0,
{
    assert(65536u64 & 65536u64 != 0) by (bit_vector);
    assert(131072u64 & 131072u64 != 0) by (bit_vector);
    assert(262144u64 & 262144u64 != 0) by (bit_vector);
    assert(524288u64 & 524288u64 != 0) by (bit_vector);
    assert(1048576u64 & 1048576u64 != 0) by (bit_vector);
}

/// Law: the toggle group counts every transition of its dedicated bit. A
/// key whose effective group is Caps Lock counts one press when the alpha
/// bit sets and one more when it clears — toggling off is still a press —
/// and never leaves per-key down state behind.
pub proof fn lemma_toggle_counts_every_transition(keycode: u16)
    requires
        spec_expected_group(keycode) is Some,
    ensures
        spec_flags_step(0, FLAG_MASK_ALPHA_SHIFT, false, keycode).0 == Some(spec_logical_keycode(
            ModifierGroup::CapsLock, spec_side(keycode))),
        spec_flags_step(FLAG_MASK_ALPHA_SHIFT, 0, false, keycode).0 == Some(spec_logical_keycode(
            ModifierGroup::CapsLock, spec_side(keycode))),
        !spec_flags_step(0, FLAG_MASK_ALPHA_SHIFT, false, keycode).1,
        !spec_flags_step(FLAG_MASK_ALPHA_SHIFT, 0, false, keycode).1,
{
    let mask = FLAG_MASK_ALPHA_SHIFT;
    assert(0u64 ^ 65536u64 == 65536u64) by (bit_vector);
    assert(65536u64 ^ 0u64 == 65536u64) by (bit_vector);
    lemma_mask_self(ModifierGroup::CapsLock);
    assert forall|h: ModifierGroup| h != ModifierGroup::CapsLock implies mask & spec_flag_mask(h)
        == 0 by {
        lemma_masks_disjoint(ModifierGroup::CapsLock, h);
    }
    lemma_scan_unrolled(spec_changed_scan_order(), mask);
    assert(spec_masked_count(spec_changed_scan_order(), mask) == 1);
    assert(spec_first_masked(spec_changed_scan_order(), mask) == Some(ModifierGroup::CapsLock));
    assert(spec_effective_group(0, mask, keycode) == Some(ModifierGroup::CapsLock));
    assert(spec_effective_group(mask, 0, keycode) == Some(ModifierGroup::CapsLock));
}

/// Law: under a remap that turns a physical key (a toggle like Caps Lock
/// included) into a non-toggle modifier group, setting the group's bit from
/// idle counts exactly one press of the group's logical keycode, and
/// clearing it back counts nothing.
pub proof fn lemma_remapped_modifier_press_release(g: ModifierGroup, keycode: u16)
    requires
        spec_expected_group(keycode) is Some,
        !(g is CapsLock),
    ensures
        spec_flags_step(0, spec_flag_mask(g), false, keycode).0 == Some(spec_logical_keycode(g,
            spec_side(keycode))),
        spec_flags_step(0, spec_flag_mask(g), false, keycode).1,
        spec_flags_step(spec_flag_mask(g), 0, true, keycode).0 is None,
        !spec_flags_step(spec_flag_mask(g), 0, true, keycode).1,
{
    let mask = spec_flag_mask(g);
    assert(0u64 ^ mask == mask) by (bit_vector);
    assert(mask ^ 0u64 == mask) by (bit_vector);
    lemma_mask_self(g);
    assert forall|h: ModifierGroup| h != g implies mask & spec_flag_mask(h) == 0 by {
        lemma_masks_disjoint(g, h);
    }
    lemma_scan_unrolled(spec_changed_scan_order(), mask);
    assert(spec_masked_count(spec_changed_scan_order(), mask) == 1);
    assert(spec_first_masked(spec_changed_scan_order(), mask) == Some(g));
    assert(spec_effective_group(0, mask, keycode) == Some(g));
    assert(spec_effective_group(mask, 0, keycode) == Some(g));
    assert(0u64 & mask == 0) by (bit_vector);
}

} // verus!
