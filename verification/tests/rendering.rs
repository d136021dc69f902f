//! The texts that displayable values render to.

use err_trail::{Displayable, TestError};

#[test]
fn text_renders_to_itself() {
    assert_eq!("plain text".render(), "plain text");
    assert_eq!("".render(), "");
    assert_eq!(String::from("owned text").render(), "owned text");
}

#[test]
fn reference_renders_to_what_it_refers_to() {
    let owned = String::from("owned text");
    assert_eq!((&owned).render(), "owned text");
    assert_eq!((&&owned).render(), "owned text");
    assert_eq!((&"plain text").render(), "plain text");
    assert_eq!((&42u32).render(), "42");
    assert_eq!((&TestError::new(3)).render(), "TestError: 3");
}

#[test]
fn small_numbers_render_to_one_digit() {
    let digits: [&str; 10] = ["0", "1", "2", "3", "4", "5", "6", "7", "8", "9"];
    let mut n: u32 = 0;
    while n < 10 {
        assert_eq!(n.render(), digits[n as usize]);
        n += 1;
    }
}

#[test]
fn numbers_render_to_their_decimal_numeral() {
    assert_eq!(10u32.render(), "10");
    assert_eq!(42u32.render(), "42");
    assert_eq!(99u32.render(), "99");
    assert_eq!(100u32.render(), "100");
    assert_eq!(1_000_000u32.render(), "1000000");
    assert_eq!(305_070u32.render(), "305070");
    assert_eq!(u32::MAX.render(), "4294967295");
}

#[test]
fn numbers_render_as_the_standard_library_does() {
    let mut n: u32 = 1;
    while n < 400_000_000 {
        assert_eq!(n.render(), n.to_string());
        assert_eq!((n - 1).render(), (n - 1).to_string());
        n = n * 7 + 3;
    }
}

#[test]
fn test_error_renders_to_its_name_and_code() {
    assert_eq!(TestError::new(0).render(), "TestError: 0");
    assert_eq!(TestError::new(7).render(), "TestError: 7");
    assert_eq!(TestError::new(42).render(), "TestError: 42");
    assert_eq!(TestError::new(u32::MAX).render(), "TestError: 4294967295");
}

#[test]
fn test_error_keeps_its_code() {
    assert_eq!(format!("{:?}", TestError::new(17)), "TestError(17)");
}
