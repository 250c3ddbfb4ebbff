use sfenimage::myoptions::{is_port_number, MyOptions};
use sfenimage::svg2png::{Svg2PngConfig, Type};

fn options(args: &[&str]) -> MyOptions {
    MyOptions::new(args.iter().map(|s| s.to_string()).collect())
}

#[test]
fn options_by_default() {
    for opt in [options(&[]), options(&["server"]), options(&["server", "stray", "--unknown"])] {
        assert_eq!(opt.port, "7582");
        assert_eq!(opt.logpath, "");
        assert_eq!(opt.svg2png, Type::RSVG);
        assert_eq!(opt.bgcolor, "white");
        assert_eq!(opt.fgcolor, "black");
    }
}

#[test]
fn options_with_values() {
    let opt = options(&[
        "server", "--port", "8080", "--log", "/tmp/log", "--bgcolor", "#eee", "--fgcolor", "navy",
        "--inkscape11",
    ]);
    assert_eq!(opt.port, "8080");
    assert_eq!(opt.logpath, "/tmp/log");
    assert_eq!(opt.svg2png, Type::INKSCAPE11);
    assert_eq!(opt.bgcolor, "#eee");
    assert_eq!(opt.fgcolor, "navy");
    let opt = options(&["--inkscape11", "--rsvg"]);
    assert_eq!(opt.svg2png, Type::RSVG);
}

#[test]
fn options_dark_and_light() {
    let opt = options(&["--dark"]);
    assert_eq!((opt.bgcolor.as_str(), opt.fgcolor.as_str()), ("black", "white"));
    let opt = options(&["--dark", "--light"]);
    assert_eq!((opt.bgcolor.as_str(), opt.fgcolor.as_str()), ("white", "black"));
    let opt = options(&["--bgcolor", "red", "--dark", "--fgcolor", "pink"]);
    assert_eq!((opt.bgcolor.as_str(), opt.fgcolor.as_str()), ("black", "pink"));
}

#[test]
fn option_value_must_follow_at_once() {
    let opt = options(&["--port", "--dark", "8080"]);
    assert_eq!(opt.port, "7582");
    let opt = options(&["--port", "--log", "8080"]);
    assert_eq!(opt.port, "7582");
    assert_eq!(opt.logpath, "8080");
    let opt = options(&["--log", "a", "b"]);
    assert_eq!(opt.logpath, "a");
    let opt = options(&["--log"]);
    assert_eq!(opt.logpath, "");
}

#[test]
fn port_must_be_a_port_number() {
    assert_eq!(options(&["--port", "65535"]).port, "65535");
    assert_eq!(options(&["--port", "+80"]).port, "+80");
    assert_eq!(options(&["--port", "65536"]).port, "7582");
    assert_eq!(options(&["--port", "http"]).port, "7582");
    assert_eq!(options(&["--port", "-1"]).port, "7582");
    assert_eq!(options(&["--port", ""]).port, "7582");
    for s in ["0", "1", "080", "65535", "65536", "+", "", "+1", "-0", "1 ", "9999999999999999999"] {
        assert_eq!(is_port_number(s), s.parse::<u16>().is_ok(), "{:?}", s);
    }
}

#[test]
fn converter_commands() {
    let config = Svg2PngConfig::new();
    assert_eq!(config.typ, Type::RSVG);
    assert_eq!(config.bgcolor, "white");
    let command = config.command();
    assert_eq!(command.program, "rsvg-convert");
    assert_eq!(command.args, vec!["--format=png", "-b", "white"]);
    let config = Svg2PngConfig { typ: Type::INKSCAPE11, bgcolor: String::from("black") };
    let command = config.command();
    assert_eq!(command.program, "inkscape");
    assert_eq!(
        command.args,
        vec!["--pipe", "--export-filename=-", "--export-type=png", "-b", "black"]
    );
}
