use sdf_scene::{Flag, Flags};

#[test]
fn flags_constructors() {
    assert!(Flags::all().get_flag(Flag::Enabled));
    assert!(Flags::enabled().get_flag(Flag::Enabled));
    assert!(!Flags::none().get_flag(Flag::Enabled));
}

#[test]
fn flags_pack_into_bit_zero() {
    assert_eq!(Flags::enabled().as_u32(), 1);
    assert_eq!(Flags::none().as_u32(), 0);
}

#[test]
fn flags_set_and_copy() {
    let mut f = Flags::enabled();
    f.set_flag(Flag::Enabled, false);
    assert!(!f.get_flag(Flag::Enabled));
    assert_eq!(f.as_u32(), 0);
    f.set(Flags::all());
    assert!(f.get_flag(Flag::Enabled));
    assert_eq!(f.as_u32(), 1);
}
