use game_overlay::style::WindowStyleFlags;

const LAYERED: u32 = 0x0008_0000;
const TOPMOST: u32 = 0x0000_0008;
const TRANSPARENT: u32 = 0x0000_0020;

#[test]
fn forcing_topmost_sets_two_bits_and_clears_one() {
    let forced = WindowStyleFlags::from_bits(0).for_topmost();
    assert_eq!(forced.bits, LAYERED | TOPMOST);
    let forced = WindowStyleFlags::from_bits(TRANSPARENT).for_topmost();
    assert_eq!(forced.bits, LAYERED | TOPMOST);
    let forced = WindowStyleFlags::from_bits(0x0000_0120).for_topmost();
    assert_eq!(forced.bits, 0x0008_0108);
    let forced = WindowStyleFlags::from_bits(u32::MAX).for_topmost();
    assert_eq!(forced.bits, u32::MAX & !TRANSPARENT);
}

#[test]
fn forcing_topmost_repeatedly_changes_nothing_more() {
    for bits in [0u32, TRANSPARENT, 0x0000_0100, 0xdead_beef, u32::MAX] {
        let once = WindowStyleFlags::from_bits(bits).for_topmost();
        let mut again = once;
        for _ in 0..5 {
            again = again.for_topmost();
            assert_eq!(again, once);
        }
        assert!(!once.is_input_transparent());
        assert!(once.is_layered());
        assert!(once.is_topmost());
    }
}

#[test]
fn interaction_edits_only_the_transparency_bit() {
    let style = WindowStyleFlags::from_bits(0x0008_0128);
    assert_eq!(style.for_interaction(true).bits, 0x0008_0108);
    assert_eq!(style.for_interaction(false).bits, 0x0008_0128);
    let style = WindowStyleFlags::from_bits(0x0000_0100);
    assert_eq!(style.for_interaction(true).bits, 0x0000_0100);
    assert_eq!(style.for_interaction(false).bits, 0x0000_0120);
}

#[test]
fn interactive_then_not_restores_a_transparent_style() {
    for bits in [TRANSPARENT, 0x0008_0028, u32::MAX, 0x1234_5678 | TRANSPARENT] {
        let style = WindowStyleFlags::from_bits(bits);
        assert_eq!(style.for_interaction(true).for_interaction(false), style);
    }
}

#[test]
fn interactive_then_not_leaves_an_opaque_style_transparent() {
    let style = WindowStyleFlags::from_bits(0x0000_0100);
    let after = style.for_interaction(true).for_interaction(false);
    assert_eq!(after.bits, 0x0000_0120);
    assert_eq!(after.bits & !TRANSPARENT, style.bits & !TRANSPARENT);
}

#[test]
fn repeated_interaction_edits_are_idempotent() {
    for bits in [0u32, TRANSPARENT, 0xffff_ffdf, u32::MAX] {
        for flag in [true, false] {
            let once = WindowStyleFlags::from_bits(bits).for_interaction(flag);
            assert_eq!(once.for_interaction(flag), once);
            assert_eq!(once.is_input_transparent(), !flag);
        }
    }
}

#[test]
fn style_bits_are_read_one_by_one() {
    let style = WindowStyleFlags::from_bits(LAYERED);
    assert!(style.is_layered() && !style.is_topmost() && !style.is_input_transparent());
    let style = WindowStyleFlags::from_bits(TOPMOST);
    assert!(!style.is_layered() && style.is_topmost() && !style.is_input_transparent());
    let style = WindowStyleFlags::from_bits(TRANSPARENT);
    assert!(!style.is_layered() && !style.is_topmost() && style.is_input_transparent());
    let style = WindowStyleFlags::from_bits(!(LAYERED | TOPMOST | TRANSPARENT));
    assert!(!style.is_layered() && !style.is_topmost() && !style.is_input_transparent());
}
