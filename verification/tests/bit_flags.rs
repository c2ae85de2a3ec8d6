use zebes::bits::contains;

const FLAG_A: u8 = 0b0000_0001;
const FLAG_B: u8 = 0b0000_0010;
const FLAG_C: u8 = 0b0000_0100;

#[test]
fn bits_contains_checks_only_the_given_flag() {
    let register = FLAG_A | FLAG_B;

    assert!(contains(register, FLAG_A));
    assert!(contains(register, FLAG_B));
    assert!(!contains(register, FLAG_C));
}

#[test]
fn bits_set_sets_flags() {
    let mut register = FLAG_B;

    zebes::bits::set(&mut register, FLAG_A, true);
    assert_eq!(register, FLAG_A | FLAG_B);

    zebes::bits::set(&mut register, FLAG_B, false);
    assert_eq!(register, FLAG_A);
}

#[test]
fn set_is_idempotent() {
    let mut register = FLAG_A;
    zebes::bits::set(&mut register, FLAG_A, true);
    zebes::bits::set(&mut register, FLAG_A, true);
    assert_eq!(register, FLAG_A);
}
