use healslut::config::Channel;

#[test]
fn raw_channels_pass_through() {
    assert_eq!(Channel::Red.extract(10, 20, 30), 10);
    assert_eq!(Channel::Green.extract(10, 20, 30), 20);
    assert_eq!(Channel::Blue.extract(10, 20, 30), 30);
}

#[test]
fn pure_black_pixel_reads_black_as_maximum() {
    assert_eq!(Channel::Black.extract(0, 0, 0), 255);
    assert_eq!(Channel::Cyan.extract(0, 0, 0), 0);
    assert_eq!(Channel::Magenta.extract(0, 0, 0), 0);
    assert_eq!(Channel::Yellow.extract(0, 0, 0), 0);
}

#[test]
fn derived_channels_rescale_cmyk() {
    // m = 30: black = 255 - 30; cyan = 255 * 20 / 30; magenta = 255 * 10 / 30.
    assert_eq!(Channel::Black.extract(10, 20, 30), 225);
    assert_eq!(Channel::Cyan.extract(10, 20, 30), 170);
    assert_eq!(Channel::Magenta.extract(10, 20, 30), 85);
    assert_eq!(Channel::Yellow.extract(10, 20, 30), 0);
}

#[test]
fn derived_channel_rounds_halves_up() {
    // m = 170, red = 169: 255 * 1 / 170 = 1.5 rounds to 2.
    assert_eq!(Channel::Cyan.extract(169, 170, 0), 2);
}

#[test]
fn saturated_component_reads_zero_on_its_derived_channel() {
    assert_eq!(Channel::Cyan.extract(255, 0, 0), 0);
    assert_eq!(Channel::Black.extract(255, 0, 0), 0);
    assert_eq!(Channel::Yellow.extract(255, 0, 0), 255);
}

#[test]
fn channel_names_parse() {
    assert_eq!(Channel::from_str("Red"), Some(Channel::Red));
    assert_eq!(Channel::from_str("Green"), Some(Channel::Green));
    assert_eq!(Channel::from_str("Blue"), Some(Channel::Blue));
    assert_eq!(Channel::from_str("Cyan"), Some(Channel::Cyan));
    assert_eq!(Channel::from_str("Magenta"), Some(Channel::Magenta));
    assert_eq!(Channel::from_str("Yellow"), Some(Channel::Yellow));
    assert_eq!(Channel::from_str("Black"), Some(Channel::Black));
}

#[test]
fn other_names_do_not_parse() {
    assert_eq!(Channel::from_str("red"), None);
    assert_eq!(Channel::from_str(""), None);
    assert_eq!(Channel::from_str("Blac"), None);
    assert_eq!(Channel::from_str("Blackk"), None);
}
