use rs100::common::{Dest, Error, Num, Opcode, INSTRUCTION_SIZE, NUM_MAX, NUM_MIN};
use std::cmp::Ordering;

fn value(n: Num) -> i16 {
    i16::from(n)
}

#[test]
fn instruction_size_is_four_bytes() {
    assert_eq!(INSTRUCTION_SIZE, 4);
}

#[test]
fn range_is_symmetric_around_zero() {
    assert_eq!(NUM_MAX, 999);
    assert_eq!(NUM_MIN, -999);
}

#[test]
fn new_is_zero() {
    assert_eq!(value(Num::new()), 0);
}

#[test]
fn from_keeps_values_in_range() {
    for n in [-999i16, -998, -1, 0, 1, 42, 998, 999] {
        assert_eq!(value(Num::from(n)), n);
    }
}

#[test]
fn from_saturates_above_the_range() {
    for n in [1000i16, 1001, 1500, 20000, i16::MAX] {
        assert_eq!(value(Num::from(n)), 999);
    }
}

#[test]
fn from_saturates_below_the_range() {
    for n in [-1000i16, -1001, -1500, -20000, i16::MIN] {
        assert_eq!(value(Num::from(n)), -999);
    }
}

#[test]
fn from_is_in_range_for_every_input() {
    for n in i16::MIN..=i16::MAX {
        let v = value(Num::from(n));
        assert!((-999..=999).contains(&v));
        if (-999..=999).contains(&n) {
            assert_eq!(v, n);
        }
    }
}

#[test]
fn add_gives_the_exact_sum_in_range() {
    assert_eq!(value(Num::from(2) + Num::from(3)), 5);
    assert_eq!(value(Num::from(-700) + Num::from(300)), -400);
    assert_eq!(value(Num::from(500) + Num::from(499)), 999);
}

#[test]
fn add_saturates_at_the_top() {
    assert!(Num::from(999) + Num::from(500) == Num::from(999));
    assert_eq!(value(Num::from(999) + Num::from(999)), 999);
    assert_eq!(value(Num::from(500) + Num::from(500)), 999);
}

#[test]
fn add_saturates_at_the_bottom() {
    assert!(Num::from(-999) + Num::from(-500) == Num::from(-999));
    assert_eq!(value(Num::from(-999) + Num::from(-999)), -999);
}

#[test]
fn sub_gives_the_exact_difference_in_range() {
    assert_eq!(value(Num::from(2) - Num::from(3)), -1);
    assert_eq!(value(Num::from(-400) - Num::from(-400)), 0);
}

#[test]
fn sub_saturates_at_both_ends() {
    assert_eq!(value(Num::from(999) - Num::from(-1)), 999);
    assert_eq!(value(Num::from(-999) - Num::from(1)), -999);
    assert_eq!(value(Num::from(-999) - Num::from(999)), -999);
    assert_eq!(value(Num::from(999) - Num::from(-999)), 999);
}

#[test]
fn add_and_sub_stay_in_range_for_every_pair() {
    for a in (-999i16..=999).step_by(37) {
        for b in (-999i16..=999).step_by(41) {
            let sum = value(Num::from(a) + Num::from(b));
            let diff = value(Num::from(a) - Num::from(b));
            assert_eq!(sum, (a + b).clamp(-999, 999));
            assert_eq!(diff, (a - b).clamp(-999, 999));
        }
    }
}

#[test]
fn neg_of_zero_is_zero() {
    assert!(Num::from(0).neg() == Num::from(0));
}

#[test]
fn neg_twice_gives_the_value_back() {
    for n in -999i16..=999 {
        let v = Num::from(n);
        assert_eq!(value(v.neg()), -n);
        assert!(v.neg().neg() == v);
    }
}

#[test]
fn neg_at_the_lower_end_of_the_range() {
    let low = Num::from(-999);
    assert_eq!(value(low.neg()), 999);
    assert_eq!(value(low.neg().neg()), -999);
}

#[test]
fn to_u8_spells_the_value_high_byte_first() {
    assert_eq!(Num::from(0).to_u8(), (0x00, 0x00));
    assert_eq!(Num::from(42).to_u8(), (0x00, 0x2a));
    assert_eq!(Num::from(258).to_u8(), (0x01, 0x02));
    assert_eq!(Num::from(999).to_u8(), (0x03, 0xe7));
    assert_eq!(Num::from(-1).to_u8(), (0xff, 0xff));
    assert_eq!(Num::from(-2).to_u8(), (0xff, 0xfe));
    assert_eq!(Num::from(-999).to_u8(), (0xfc, 0x19));
}

#[test]
fn from_u8_reads_two_s_complement() {
    assert_eq!(value(Num::from_u8(0x00, 0x2a)), 42);
    assert_eq!(value(Num::from_u8(0x01, 0x02)), 258);
    assert_eq!(value(Num::from_u8(0xff, 0xfe)), -2);
    assert_eq!(value(Num::from_u8(0xfc, 0x19)), -999);
}

#[test]
fn from_u8_saturates_what_the_bytes_spell() {
    assert_eq!(value(Num::from_u8(0x03, 0xe8)), 999);
    assert_eq!(value(Num::from_u8(0x05, 0xdc)), 999);
    assert_eq!(value(Num::from_u8(0x7f, 0xff)), 999);
    assert_eq!(value(Num::from_u8(0x80, 0x00)), -999);
    assert_eq!(value(Num::from_u8(0xfc, 0x18)), -999);
}

#[test]
fn bytes_round_trip_for_every_value() {
    for n in -999i16..=999 {
        let v = Num::from(n);
        let (hi, lo) = v.to_u8();
        assert!(Num::from_u8(hi, lo) == v);
    }
}

#[test]
fn comparison_follows_the_values() {
    assert!(Num::from(1) < Num::from(2));
    assert!(Num::from(2) > Num::from(1));
    assert!(Num::from(-5) < Num::from(0));
    assert!(Num::from(7) == Num::from(7));
    assert!(Num::from(7) != Num::from(8));
    assert!(Num::from(7) <= Num::from(7));
    assert!(Num::from(7) >= Num::from(7));
}

#[test]
fn comparison_is_made_on_the_saturated_values() {
    assert!(Num::from(1000) == Num::from(2000));
    assert!(Num::from(-1000) == Num::from(-999));
    assert!(!(Num::from(1000) < Num::from(2000)));
}

#[test]
fn partial_cmp_gives_an_ordering_for_every_pair() {
    assert_eq!(Num::from(1).partial_cmp(&Num::from(2)), Some(Ordering::Less));
    assert_eq!(Num::from(2).partial_cmp(&Num::from(1)), Some(Ordering::Greater));
    assert_eq!(Num::from(2).partial_cmp(&Num::from(2)), Some(Ordering::Equal));
}

#[test]
fn cmp_agrees_with_partial_cmp() {
    for a in [-999i16, -1, 0, 1, 999] {
        for b in [-999i16, -1, 0, 1, 999] {
            let (x, y) = (Num::from(a), Num::from(b));
            assert_eq!(Some(x.cmp(&y)), x.partial_cmp(&y));
            assert_eq!(x.cmp(&y), a.cmp(&b));
        }
    }
}

#[test]
fn to_string_is_the_decimal_text() {
    assert_eq!(Num::from(0).to_string(), "0");
    assert_eq!(Num::from(7).to_string(), "7");
    assert_eq!(Num::from(42).to_string(), "42");
    assert_eq!(Num::from(100).to_string(), "100");
    assert_eq!(Num::from(999).to_string(), "999");
    assert_eq!(Num::from(-1).to_string(), "-1");
    assert_eq!(Num::from(-42).to_string(), "-42");
    assert_eq!(Num::from(-999).to_string(), "-999");
    assert_eq!(Num::from(1500).to_string(), "999");
}

#[test]
fn to_string_agrees_with_the_standard_formatting() {
    for n in -999i16..=999 {
        assert_eq!(Num::from(n).to_string(), format!("{}", n));
    }
}

#[test]
fn into_i16_gives_the_value() {
    let v: i16 = Num::from(-321).into();
    assert_eq!(v, -321);
}

#[test]
fn into_usize_keeps_a_value_that_is_not_negative() {
    let zero: usize = Num::from(0).into();
    let eight: usize = Num::from(8).into();
    let top: usize = Num::from(999).into();
    assert_eq!(zero, 0);
    assert_eq!(eight, 8);
    assert_eq!(top, 999);
}

#[test]
fn into_usize_wraps_a_negative_value_around() {
    let one_below: usize = Num::from(-1).into();
    let lowest: usize = Num::from(-999).into();
    assert_eq!(one_below, usize::MAX);
    assert_eq!(lowest, usize::MAX - 998);
    assert_eq!(lowest, (-999i16) as usize);
}

#[test]
fn opcode_tags_name_the_thirteen_opcodes() {
    let all = [
        Opcode::Nop,
        Opcode::Mov,
        Opcode::Swp,
        Opcode::Sav,
        Opcode::Add,
        Opcode::Sub,
        Opcode::Neg,
        Opcode::Jmp,
        Opcode::Jez,
        Opcode::Jnz,
        Opcode::Jgz,
        Opcode::Jlz,
        Opcode::Jro,
    ];
    for (tag, op) in all.iter().enumerate() {
        assert_eq!(Opcode::try_from(tag as u8), Ok(*op));
        assert_eq!(u8::from(*op), tag as u8);
    }
}

#[test]
fn opcode_tags_above_twelve_are_refused() {
    for tag in 13u8..=255 {
        assert_eq!(Opcode::try_from(tag), Err(Error::InvalidOpcode(tag)));
    }
}

#[test]
fn dest_bytes_name_the_four_selectors() {
    assert_eq!(Dest::try_from(0), Ok(Dest::Last));
    assert_eq!(Dest::try_from(1), Ok(Dest::Acc));
    assert_eq!(Dest::try_from(2), Ok(Dest::Up));
    assert_eq!(Dest::try_from(3), Ok(Dest::Down));
}

#[test]
fn dest_bytes_above_three_are_refused() {
    for byte in 4u8..=255 {
        assert_eq!(Dest::try_from(byte), Err(Error::InvalidDest(byte)));
    }
}

#[test]
fn dest_into_u8_is_the_inverse_of_try_from() {
    for d in [Dest::Last, Dest::Acc, Dest::Up, Dest::Down] {
        let byte: u8 = d.into();
        assert_eq!(Dest::try_from(byte), Ok(d));
    }
    assert_eq!(u8::from(Dest::Last), 0);
    assert_eq!(u8::from(Dest::Acc), 1);
    assert_eq!(u8::from(Dest::Up), 2);
    assert_eq!(u8::from(Dest::Down), 3);
}

#[test]
fn dest_default_is_last() {
    assert_eq!(Dest::default(), Dest::Last);
}

#[test]
fn dest_to_string_is_the_name() {
    assert_eq!(Dest::Last.to_string(), "Last");
    assert_eq!(Dest::Acc.to_string(), "Acc");
    assert_eq!(Dest::Up.to_string(), "Up");
    assert_eq!(Dest::Down.to_string(), "Down");
}

#[test]
fn error_messages() {
    assert_eq!(Error::InvalidOpcode(13).message(), "invalid opcode 13");
    assert_eq!(Error::InvalidOpcode(255).message(), "invalid opcode 255");
    assert_eq!(Error::TruncatedInstruction.message(), "truncated instruction");
    assert_eq!(Error::InvalidDest(4).message(), "4 is not a valid Dest value");
    assert_eq!(
        Error::InvalidModule(String::from("tape")).message(),
        "'tape' is not a valid module"
    );
    assert_eq!(Error::StackUnderflow.message(), "stack underflow");
    assert_eq!(Error::EndOfInput.message(), "end of input");
    assert_eq!(Error::Io(String::from("broken pipe")).message(), "broken pipe");
}
