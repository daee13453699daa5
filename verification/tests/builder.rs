use projections::Sp;

#[test]
fn round_trip_three_slots() {
    let bytes: Option<&'static [u8]> = Some(b"15");
    let mut sp = Sp::from_a(4u32).with_b("eight".to_string()).with_c(bytes);
    assert_eq!(*sp.a(), 4);
    assert_eq!(*sp.b(), "eight");
    assert_eq!(*sp.c(), Some(&b"15"[..]));
}

#[test]
fn from_a_holds_the_first_value_and_placeholders() {
    let mut sp = Sp::from_a(7i64);
    assert_eq!(*sp.a(), 7);
    assert_eq!(*sp.b(), ());
    assert_eq!(*sp.c(), ());
    assert_eq!(*sp.d(), ());
    assert_eq!(*sp.e(), ());
    assert_eq!(*sp.f(), ());
    assert_eq!(*sp.g(), ());
    assert_eq!(*sp.h(), ());
}

#[test]
fn with_b_keeps_slot_a() {
    let mut sp = Sp::from_a(1u8).with_b(2u16);
    assert_eq!(*sp.a(), 1);
    assert_eq!(*sp.b(), 2);
    assert_eq!(*sp.c(), ());
}

#[test]
fn with_c_keeps_slots_a_and_b() {
    let mut sp = Sp::from_a(1u8).with_b(2u16).with_c(3u32);
    assert_eq!(*sp.a(), 1);
    assert_eq!(*sp.b(), 2);
    assert_eq!(*sp.c(), 3);
    assert_eq!(*sp.d(), ());
}

#[test]
fn with_d_keeps_the_earlier_slots() {
    let mut sp = Sp::from_a(1u8).with_b(2u16).with_c(3u32).with_d(4u64);
    assert_eq!(*sp.a(), 1);
    assert_eq!(*sp.b(), 2);
    assert_eq!(*sp.c(), 3);
    assert_eq!(*sp.d(), 4);
    assert_eq!(*sp.e(), ());
}

#[test]
fn with_e_keeps_the_earlier_slots() {
    let mut sp = Sp::from_a(1u8).with_b(2u16).with_c(3u32).with_d(4u64).with_e('e');
    assert_eq!(*sp.a(), 1);
    assert_eq!(*sp.b(), 2);
    assert_eq!(*sp.c(), 3);
    assert_eq!(*sp.d(), 4);
    assert_eq!(*sp.e(), 'e');
    assert_eq!(*sp.f(), ());
}

#[test]
fn with_f_keeps_the_earlier_slots() {
    let mut sp =
        Sp::from_a(1u8).with_b(2u16).with_c(3u32).with_d(4u64).with_e('e').with_f(true);
    assert_eq!(*sp.a(), 1);
    assert_eq!(*sp.b(), 2);
    assert_eq!(*sp.c(), 3);
    assert_eq!(*sp.d(), 4);
    assert_eq!(*sp.e(), 'e');
    assert_eq!(*sp.f(), true);
    assert_eq!(*sp.g(), ());
}

#[test]
fn with_g_keeps_the_earlier_slots() {
    let mut sp = Sp::from_a(1u8)
        .with_b(2u16)
        .with_c(3u32)
        .with_d(4u64)
        .with_e('e')
        .with_f(true)
        .with_g(vec![7i32, 7]);
    assert_eq!(*sp.a(), 1);
    assert_eq!(*sp.b(), 2);
    assert_eq!(*sp.c(), 3);
    assert_eq!(*sp.d(), 4);
    assert_eq!(*sp.e(), 'e');
    assert_eq!(*sp.f(), true);
    assert_eq!(*sp.g(), vec![7, 7]);
    assert_eq!(*sp.h(), ());
}

#[test]
fn all_eight_slots_in_order() {
    let mut sp = Sp::from_a(1u8)
        .with_b(2u16)
        .with_c(3u32)
        .with_d(4u64)
        .with_e('e')
        .with_f(true)
        .with_g(vec![7i32, 7])
        .with_h("eight".to_string());
    assert_eq!(*sp.a(), 1);
    assert_eq!(*sp.b(), 2);
    assert_eq!(*sp.c(), 3);
    assert_eq!(*sp.d(), 4);
    assert_eq!(*sp.e(), 'e');
    assert_eq!(*sp.f(), true);
    assert_eq!(*sp.g(), vec![7, 7]);
    assert_eq!(*sp.h(), "eight");
}

#[test]
fn a_slot_may_hold_the_unit_value() {
    let mut sp = Sp::from_a(()).with_b(()).with_c(5u8);
    assert_eq!(*sp.a(), ());
    assert_eq!(*sp.b(), ());
    assert_eq!(*sp.c(), 5);
}

#[test]
fn a_slot_may_hold_another_composite() {
    let inner = Sp::from_a(1u8).with_b(2u8);
    let mut outer = Sp::from_a(inner).with_b(3u8);
    assert_eq!(*outer.a().a(), 1);
    assert_eq!(*outer.a().b(), 2);
    *outer.a().b() = 20;
    assert_eq!(*outer.a().b(), 20);
    assert_eq!(*outer.b(), 3);
}
