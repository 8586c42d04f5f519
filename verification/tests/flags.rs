use issue_bot::commands::flags::{CommandFlags, EPHEMERAL, SKIP_DEFER};

#[test]
fn empty_flags_defer_and_are_public() {
    let flags = CommandFlags::empty();
    assert!(flags.defer());
    assert!(!flags.ephemeral());
    assert_eq!(flags.bits(), 0);
}

#[test]
fn skip_defer_turns_defer_off() {
    let flags = CommandFlags::from_bits_truncate(SKIP_DEFER);
    assert!(!flags.defer());
    assert!(!flags.ephemeral());
}

#[test]
fn ephemeral_is_read_from_its_bit() {
    let flags = CommandFlags::from_bits_truncate(EPHEMERAL);
    assert!(flags.defer());
    assert!(flags.ephemeral());
}

#[test]
fn unknown_bits_are_dropped() {
    let flags = CommandFlags::from_bits_truncate(0xff);
    assert_eq!(flags.bits(), 3);
    assert!(flags.contains(CommandFlags::from_bits_truncate(EPHEMERAL)));
    assert!(flags.contains(CommandFlags::from_bits_truncate(SKIP_DEFER)));
}

#[test]
fn union_and_contains_agree() {
    let a = CommandFlags::from_bits_truncate(EPHEMERAL);
    let b = CommandFlags::from_bits_truncate(SKIP_DEFER);
    let both = a.union(b);
    assert!(both.contains(a));
    assert!(both.contains(b));
    assert!(!a.contains(b));
    assert!(a.contains(CommandFlags::empty()));
}
