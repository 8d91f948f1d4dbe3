use iconic::color::{CustomRGB, Rgb8};

#[test]
fn to_hex_writes_two_upper_case_digits_per_channel() {
    assert_eq!(Rgb8::from_rgb(164, 202, 238).to_hex(), "A4CAEE");
    assert_eq!(Rgb8::from_rgb(0, 5, 255).to_hex(), "0005FF");
}

#[test]
fn from_hex_reads_either_case() {
    assert_eq!(Rgb8::from_hex("a4caee".to_string()), Rgb8 { r: 164, g: 202, b: 238 });
    assert_eq!(Rgb8::from_hex("438DE6".to_string()), Rgb8 { r: 67, g: 141, b: 230 });
}

#[test]
fn from_hex_falls_back_to_white() {
    let white = Rgb8 { r: 255, g: 255, b: 255 };
    assert_eq!(Rgb8::from_hex("xyz".to_string()), white);
    assert_eq!(Rgb8::from_hex("a4caee00".to_string()), white);
    assert_eq!(Rgb8::from_hex("a4cae".to_string()), white);
    assert_eq!(Rgb8::from_hex("g4caee".to_string()), white);
    assert_eq!(Rgb8::from_hex(String::new()), white);
}

#[test]
fn hex_round_trip_examples() {
    for c in [Rgb8 { r: 1, g: 2, b: 3 }, Rgb8 { r: 250, g: 128, b: 9 }, Rgb8 { r: 0, g: 0, b: 0 }] {
        assert_eq!(Rgb8::from_hex(c.to_hex()), c);
    }
}
