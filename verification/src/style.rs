//! The extended-style bit-field of a top-level window, and the two edits the
//! overlay makes to it.

use vstd::prelude::*;
use windows_sys::Win32::UI::WindowsAndMessaging::{WS_EX_LAYERED, WS_EX_TOPMOST, WS_EX_TRANSPARENT};

verus! {

/// Mask of the "layered / composited" bit.
pub open spec fn layered_mask() -> u32 {
    0x0008_0000u32
}

/// Mask of the "always on top" bit.
pub open spec fn topmost_mask() -> u32 {
    0x0000_0008u32
}

/// Mask of the "transparent to input" bit.
pub open spec fn transparent_mask() -> u32 {
    0x0000_0020u32
}

/// Mask of the three bits this library manages.
pub open spec fn managed_mask() -> u32 {
    0x0008_0028u32
}

/// `windows_sys::Win32::UI::WindowsAndMessaging::WS_EX_LAYERED`: the constant
/// is taken to be the single bit `0x0008_0000`.
#[verifier::external_body]
fn layered_bit() -> (mask: u32)
    ensures
        mask == layered_mask(),
{
    WS_EX_LAYERED
}

/// `windows_sys::Win32::UI::WindowsAndMessaging::WS_EX_TOPMOST`: the constant
/// is taken to be the single bit `0x0000_0008`.
#[verifier::external_body]
fn topmost_bit() -> (mask: u32)
    ensures
        mask == topmost_mask(),
{
    WS_EX_TOPMOST
}

/// `windows_sys::Win32::UI::WindowsAndMessaging::WS_EX_TRANSPARENT`: the
/// constant is taken to be the single bit `0x0000_0020`.
#[verifier::external_body]
fn transparent_bit() -> (mask: u32)
    ensures
        mask == transparent_mask(),
{
    WS_EX_TRANSPARENT
}

/// Extended window style as the OS reports it. The OS owns the value; the
/// library only reads it, edits three bits and hands it back.
#[derive(Clone, Copy, Debug, PartialEq, Eq, Structural)]
pub struct WindowStyleFlags {
    pub bits: u32,
}

impl WindowStyleFlags {
    /// The window is layered (composited).
    pub open spec fn layered(self) -> bool {
        self.bits & layered_mask() == layered_mask()
    }

    /// The window is always on top.
    pub open spec fn topmost(self) -> bool {
        self.bits & topmost_mask() == topmost_mask()
    }

    /// Pointer and keyboard input pass through the window.
    pub open spec fn input_transparent(self) -> bool {
        self.bits & transparent_mask() == transparent_mask()
    }

    /// Every bit the library does not manage, the managed ones zeroed.
    pub open spec fn unmanaged(self) -> u32 {
        self.bits & !managed_mask()
    }

    /// Every bit but the input-transparency one, that one zeroed.
    pub open spec fn opaque_part(self) -> u32 {
        self.bits & !transparent_mask()
    }

    /// The style that forces the window above everything else: the unmanaged
    /// bits as they are, layered and always-on-top set, input transparency
    /// clear.
    pub open spec fn topmost_style(self) -> WindowStyleFlags {
        WindowStyleFlags { bits: self.unmanaged() | layered_mask() | topmost_mask() }
    }

    /// The style that makes the window take input (`interactive`) or let it
    /// through to what lies beneath (`!interactive`): only the
    /// input-transparency bit differs from `self`.
    pub open spec fn interaction_style(self, interactive: bool) -> WindowStyleFlags {
        if interactive {
            WindowStyleFlags { bits: self.opaque_part() }
        } else {
            WindowStyleFlags { bits: self.opaque_part() | transparent_mask() }
        }
    }

    /// Wraps the raw bits the OS handed out.
    pub fn from_bits(bits: u32) -> (style: WindowStyleFlags)
        ensures
            style.bits == bits,
    {
        WindowStyleFlags { bits }
    }

    /// Whether the layered bit is set.
    pub fn is_layered(&self) -> (set: bool)
        ensures
            set == self.layered(),
    {
        let mask: u32 = layered_bit();
        self.bits & mask == mask
    }

    /// Whether the always-on-top bit is set.
    pub fn is_topmost(&self) -> (set: bool)
        ensures
            set == self.topmost(),
    {
        let mask: u32 = topmost_bit();
        self.bits & mask == mask
    }

    /// Whether the input-transparency bit is set.
    pub fn is_input_transparent(&self) -> (set: bool)
        ensures
            set == self.input_transparent(),
    {
        let mask: u32 = transparent_bit();
        self.bits & mask == mask
    }

    /// Computes the style to write when the window must be forced above an
    /// exclusive-fullscreen surface. Layered and always-on-top come out set,
    /// input transparency comes out clear whatever it was, and no other bit
    /// changes.
    pub fn for_topmost(self) -> (forced: WindowStyleFlags)
        ensures
            forced == self.topmost_style(),
            forced.layered(),
            forced.topmost(),
            !forced.input_transparent(),
            forced.unmanaged() == self.unmanaged(),
    {
        let layered: u32 = layered_bit();
        let topmost: u32 = topmost_bit();
        let transparent: u32 = transparent_bit();
        let old_bits: u32 = self.bits;
        let new_bits: u32 = (old_bits | layered | topmost) & !transparent;
        assert(new_bits == (old_bits & !0x0008_0028u32) | 0x0008_0000u32 | 0x0000_0008u32)
            by (bit_vector)
            requires
                new_bits == (old_bits | 0x0008_0000u32 | 0x0000_0008u32) & !0x0000_0020u32,
        ;
        proof {
            lemma_topmost_style(self);
        }
        WindowStyleFlags { bits: new_bits }
    }

    /// Computes the style to write when the overlay must start
    /// (`interactive`) or stop (`!interactive`) taking input. Input
    /// transparency comes out set exactly when `interactive` is false, and no
    /// other bit changes.
    pub fn for_interaction(self, interactive: bool) -> (edited: WindowStyleFlags)
        ensures
            edited == self.interaction_style(interactive),
            edited.input_transparent() == !interactive,
            edited.opaque_part() == self.opaque_part(),
    {
        let transparent: u32 = transparent_bit();
        let old_bits: u32 = self.bits;
        let new_bits: u32 = if interactive {
            old_bits & !transparent
        } else {
            old_bits | transparent
        };
        assert(old_bits | 0x0000_0020u32 == (old_bits & !0x0000_0020u32) | 0x0000_0020u32)
            by (bit_vector);
        proof {
            lemma_interaction_style(self, interactive);
        }
        WindowStyleFlags { bits: new_bits }
    }
}

/// The forced-topmost style has layered and always-on-top set and input
/// transparency clear, and agrees with the style it was made from on every
/// other bit.
pub proof fn lemma_topmost_style(style: WindowStyleFlags)
    ensures
        style.topmost_style().layered(),
        style.topmost_style().topmost(),
        !style.topmost_style().input_transparent(),
        style.topmost_style().unmanaged() == style.unmanaged(),
{
    let b: u32 = style.bits;
    let f: u32 = (b & !0x0008_0028u32) | 0x0008_0000u32 | 0x0000_0008u32;
    assert({
        &&& f & 0x0008_0000u32 == 0x0008_0000u32
        &&& f & 0x0000_0008u32 == 0x0000_0008u32
        &&& f & 0x0000_0020u32 != 0x0000_0020u32
        &&& f & !0x0008_0028u32 == b & !0x0008_0028u32
    }) by (bit_vector)
        requires
            f == (b & !0x0008_0028u32) | 0x0008_0000u32 | 0x0000_0008u32,
    ;
}

/// The interaction style has input transparency set exactly when the overlay
/// is not to take input, and agrees with the style it was made from on every
/// other bit.
pub proof fn lemma_interaction_style(style: WindowStyleFlags, interactive: bool)
    ensures
        style.interaction_style(interactive).input_transparent() == !interactive,
        style.interaction_style(interactive).opaque_part() == style.opaque_part(),
{
    let b: u32 = style.bits;
    let clear: u32 = b & !0x0000_0020u32;
    let set: u32 = (b & !0x0000_0020u32) | 0x0000_0020u32;
    assert({
        &&& clear & 0x0000_0020u32 != 0x0000_0020u32
        &&& clear & !0x0000_0020u32 == b & !0x0000_0020u32
        &&& set & 0x0000_0020u32 == 0x0000_0020u32
        &&& set & !0x0000_0020u32 == b & !0x0000_0020u32
    }) by (bit_vector)
        requires
            clear == b & !0x0000_0020u32,
            set == (b & !0x0000_0020u32) | 0x0000_0020u32,
    ;
}

/// Forcing topmost is idempotent: forcing an already forced style changes
/// nothing.
pub proof fn lemma_topmost_style_idempotent(style: WindowStyleFlags)
    ensures
        style.topmost_style().topmost_style() == style.topmost_style(),
{
    let b: u32 = style.bits;
    assert((((b & !0x0008_0028u32) | 0x0008_0000u32 | 0x0000_0008u32) & !0x0008_0028u32)
        | 0x0008_0000u32 | 0x0000_0008u32 == (b & !0x0008_0028u32) | 0x0008_0000u32
        | 0x0000_0008u32) by (bit_vector);
}

/// Making the overlay interactive and then non-interactive again gives back
/// the style it started from, provided input transparency was set at the
/// start.
pub proof fn lemma_interaction_round_trip(style: WindowStyleFlags)
    requires
        style.input_transparent(),
    ensures
        style.interaction_style(true).interaction_style(false) == style,
{
    let b: u32 = style.bits;
    assert(((b & !0x0000_0020u32) & !0x0000_0020u32) | 0x0000_0020u32 == b) by (bit_vector)
        requires
            b & 0x0000_0020u32 == 0x0000_0020u32,
    ;
}

/// Of two interaction edits in a row only the second shows: the result is the
/// one the second edit alone would give, so equal edits repeat without effect
/// and no bit but input transparency ever moves.
pub proof fn lemma_interaction_last_wins(style: WindowStyleFlags, first: bool, second: bool)
    ensures
        style.interaction_style(first).interaction_style(second) == style.interaction_style(second),
        style.interaction_style(first).interaction_style(second).opaque_part()
            == style.opaque_part(),
{
    let b: u32 = style.bits;
    assert({
        &&& (b & !0x0000_0020u32) & !0x0000_0020u32 == b & !0x0000_0020u32
        &&& ((b & !0x0000_0020u32) | 0x0000_0020u32) & !0x0000_0020u32 == b & !0x0000_0020u32
    }) by (bit_vector);
    lemma_interaction_style(style, second);
}

} // verus!
