use smol_transform::scheduler::ReportLine;
use smol_transform::text::{push_fixed, push_fraction, push_natural, push_padded};

fn fixed(steps: i64) -> String {
    let mut out = String::new();
    push_fixed(&mut out, steps);
    out
}

#[test]
fn full_line_names_every_attribute_in_order() {
    let line = ReportLine::Full {
        id: 1,
        parent: 0,
        x: 10_500_000,
        y: -20_000_001,
        scale: 1_000_000,
        angle: 359_000_000,
        velocity: -500_000,
    };
    assert_eq!(
        line.render(),
        "ID 1 : Parent 0 : (10.5, -20.000001) : Scaled 1 units : 359 degs : -0.5 per second"
    );
}

#[test]
fn reduced_line_names_angle_and_velocity() {
    let line = ReportLine::Reduced { angle: 0, velocity: 123 };
    assert_eq!(line.render(), "0 degs : 0.000123 per second");
    let line = ReportLine::Reduced { angle: -2_000_000, velocity: -1_000_000 };
    assert_eq!(line.render(), "-2 degs : -1 per second");
}

#[test]
fn large_identifiers_are_written_in_full() {
    let line = ReportLine::Full {
        id: 1234567890,
        parent: 1234567889,
        x: 0,
        y: 0,
        scale: 0,
        angle: 0,
        velocity: 0,
    };
    assert_eq!(
        line.render(),
        "ID 1234567890 : Parent 1234567889 : (0, 0) : Scaled 0 units : 0 degs : 0 per second"
    );
}

#[test]
fn whole_values_have_no_point() {
    assert_eq!(fixed(0), "0");
    assert_eq!(fixed(1_000_000), "1");
    assert_eq!(fixed(-1_000_000), "-1");
    assert_eq!(fixed(90_000_000), "90");
    assert_eq!(fixed(-360_000_000), "-360");
    assert_eq!(fixed(10_000_000), "10");
    assert_eq!(fixed(9_223_372_036_854_000_000), "9223372036854");
}

#[test]
fn fractions_have_no_trailing_zeros() {
    assert_eq!(fixed(1_500_000), "1.5");
    assert_eq!(fixed(2_500_000), "2.5");
    assert_eq!(fixed(500_000), "0.5");
    assert_eq!(fixed(-500_000), "-0.5");
    assert_eq!(fixed(100_000), "0.1");
    assert_eq!(fixed(1_230_000), "1.23");
    assert_eq!(fixed(10), "0.00001");
    assert_eq!(fixed(1_000_100), "1.0001");
    assert_eq!(fixed(1), "0.000001");
    assert_eq!(fixed(-1), "-0.000001");
    assert_eq!(fixed(999_999), "0.999999");
    assert_eq!(fixed(12_345_678_901), "12345.678901");
    assert_eq!(fixed(i64::MAX), "9223372036854.775807");
    assert_eq!(fixed(i64::MIN), "-9223372036854.775808");
}

#[test]
fn line_of_an_untouched_entity() {
    let line = ReportLine::Full {
        id: 1,
        parent: 0,
        x: 1_500_000,
        y: 2_500_000,
        scale: 1_000_000,
        angle: 90_000_000,
        velocity: 500_000,
    };
    assert_eq!(
        line.render(),
        "ID 1 : Parent 0 : (1.5, 2.5) : Scaled 1 units : 90 degs : 0.5 per second"
    );
}

#[test]
fn fraction_text_appends() {
    let mut out = String::from("f=");
    push_fraction(&mut out, 500_000, 6);
    out.push(' ');
    push_fraction(&mut out, 1, 6);
    out.push(' ');
    push_fraction(&mut out, 120, 3);
    out.push(' ');
    push_fraction(&mut out, 0, 6);
    assert_eq!(out, "f=5 000001 12 ");
}

#[test]
fn natural_and_padded_text_append() {
    let mut out = String::from("n=");
    push_natural(&mut out, 0);
    out.push(' ');
    push_natural(&mut out, 10);
    out.push(' ');
    push_natural(&mut out, u64::MAX);
    assert_eq!(out, "n=0 10 18446744073709551615");

    let mut out = String::from("p=");
    push_padded(&mut out, 42, 6);
    out.push(' ');
    push_padded(&mut out, 1234567, 3);
    out.push(' ');
    push_padded(&mut out, 9, 0);
    assert_eq!(out, "p=000042 567 ");
}
