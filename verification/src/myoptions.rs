//! The options of the server, as they are given on the command line.

use crate::svg2png::Type;
use crate::text::{all_digits, chars_of, digits_value, is_digit, same_text, texts};
use vstd::prelude::*;

verus! {

/// The options: the port to listen on, the path of the log file (empty for
/// none), the converter for PNG images, and the two colors.
#[derive(Debug)]
pub struct MyOptions {
    pub port: String,
    pub logpath: String,
    pub svg2png: Type,
    pub bgcolor: String,
    pub fgcolor: String,
}

/// The options over mathematical values.
pub struct OptionsModel {
    pub port: Seq<char>,
    pub logpath: Seq<char>,
    pub svg2png: Type,
    pub bgcolor: Seq<char>,
    pub fgcolor: Seq<char>,
}

impl View for MyOptions {
    type V = OptionsModel;

    open spec fn view(&self) -> OptionsModel {
        OptionsModel {
            port: self.port@,
            logpath: self.logpath@,
            svg2png: self.svg2png,
            bgcolor: self.bgcolor@,
            fgcolor: self.fgcolor@,
        }
    }
}

/// Where the reading of the arguments stands: the options so far, and the
/// argument that waits for its value (empty if none does).
pub struct OptionScan {
    pub options: OptionsModel,
    pub waiting: Seq<char>,
}

/// The options when no argument is given: port 7582, no log file,
/// `rsvg-convert`, black on white.
pub open spec fn default_options() -> OptionsModel {
    OptionsModel {
        port: "7582"@,
        logpath: Seq::empty(),
        svg2png: Type::RSVG,
        bgcolor: "white"@,
        fgcolor: "black"@,
    }
}

/// Whether `s` is a port number: an optional `+`, then one or more digits,
/// the value at most 65535.
pub open spec fn is_port(s: Seq<char>) -> bool {
    let digits = if s.len() > 0 && s[0] == '+' {
        s.skip(1)
    } else {
        s
    };
    digits.len() > 0 && all_digits(digits) && digits_value(digits) <= 0xffff
}

/// Whether `e` is an argument that takes the next argument as its value.
pub open spec fn takes_value(e: Seq<char>) -> bool {
    e == "--port"@ || e == "--log"@ || e == "--bgcolor"@ || e == "--fgcolor"@
}

/// Reads one more argument. `--port`, `--log`, `--bgcolor` and `--fgcolor`
/// wait for their value; `--dark` and `--light` set both colors; `--rsvg` and
/// `--inkscape11` choose the converter. Any other argument is the value of
/// the argument that waits, if one does (a port that is no port number is
/// dropped), and nothing waits after it.
pub open spec fn option_step(state: OptionScan, e: Seq<char>) -> OptionScan {
    let nothing = Seq::<char>::empty();
    let opt = state.options;
    if takes_value(e) {
        OptionScan { options: opt, waiting: e }
    } else if e == "--dark"@ {
        OptionScan {
            options: OptionsModel { bgcolor: "black"@, fgcolor: "white"@, ..opt },
            waiting: nothing,
        }
    } else if e == "--light"@ {
        OptionScan {
            options: OptionsModel { bgcolor: "white"@, fgcolor: "black"@, ..opt },
            waiting: nothing,
        }
    } else if e == "--rsvg"@ {
        OptionScan { options: OptionsModel { svg2png: Type::RSVG, ..opt }, waiting: nothing }
    } else if e == "--inkscape11"@ {
        OptionScan { options: OptionsModel { svg2png: Type::INKSCAPE11, ..opt }, waiting: nothing }
    } else if state.waiting == "--port"@ {
        OptionScan {
            options: if is_port(e) {
                OptionsModel { port: e, ..opt }
            } else {
                opt
            },
            waiting: nothing,
        }
    } else if state.waiting == "--log"@ {
        OptionScan { options: OptionsModel { logpath: e, ..opt }, waiting: nothing }
    } else if state.waiting == "--bgcolor"@ {
        OptionScan { options: OptionsModel { bgcolor: e, ..opt }, waiting: nothing }
    } else if state.waiting == "--fgcolor"@ {
        OptionScan { options: OptionsModel { fgcolor: e, ..opt }, waiting: nothing }
    } else {
        OptionScan { options: opt, waiting: nothing }
    }
}

/// Reads the arguments from first to last.
pub open spec fn option_scan(args: Seq<Seq<char>>) -> OptionScan
    decreases args.len(),
{
    if args.len() == 0 {
        OptionScan { options: default_options(), waiting: Seq::empty() }
    } else {
        option_step(option_scan(args.drop_last()), args.last())
    }
}

/// Whether `s` is a port number.
#[verifier::loop_isolation(false)]
pub fn is_port_number(s: &str) -> (b: bool)
    ensures
        b == is_port(s@),
{
    let chars = chars_of(s);
    let n = chars.len();
    let start: usize = if n > 0 && chars[0] == '+' {
        1
    } else {
        0
    };
    if start == n {
        return false;
    }
    let ghost digits = chars@.skip(start as int);
    proof {
        assert(chars@.skip(0) == chars@);
    }
    let mut value: u32 = 0;
    let mut too_big = false;
    let mut i: usize = start;
    while i < n
        invariant
            start <= i <= n,
            all_digits(digits.take(i - start)),
            value <= 0xffff,
            !too_big ==> value == digits_value(digits.take(i - start)),
            too_big ==> digits_value(digits.take(i - start)) > 0xffff,
        decreases n - i,
    {
        let c = chars[i];
        let ghost prefix = digits.take(i - start);
        let ghost next = digits.take(i + 1 - start);
        proof {
            assert(digits[i - start] == c);
            assert(next.drop_last() == prefix);
            assert(next.last() == c);
        }
        if !(c >= '0' && c <= '9') {
            assert(!is_digit(digits[i - start]));
            return false;
        }
        assert forall|k: int| 0 <= k < next.len() implies is_digit(#[trigger] next[k]) by {
            if k < prefix.len() {
                assert(next[k] == prefix[k]);
            }
        }
        if !too_big {
            value = value * 10 + (c as u32 - 48);
            if value > 0xffff {
                too_big = true;
                value = 0;
            }
        }
        i += 1;
    }
    assert(digits.take(n - start) == digits);
    !too_big
}

impl MyOptions {
    /// The options that the arguments `args` give.
    pub fn new(args: Vec<String>) -> (opt: MyOptions)
        ensures
            opt@ == option_scan(texts(args@)).options,
    {
        let mut opt = MyOptions {
            port: String::from_str("7582"),
            logpath: String::new(),
            svg2png: Type::RSVG,
            bgcolor: String::from_str("white"),
            fgcolor: String::from_str("black"),
        };
        let mut old = String::new();
        let mut i: usize = 0;
        while i < args.len()
            invariant
                i <= args.len(),
                option_scan(texts(args@).take(i as int)) == (OptionScan {
                    options: opt@,
                    waiting: old@,
                }),
            decreases args.len() - i,
        {
            let e = args[i].as_str();
            proof {
                let all = texts(args@);
                assert(all.take(i + 1).drop_last() == all.take(i as int));
                assert(all.take(i + 1).last() == e@);
            }
            if same_text(e, "--port") || same_text(e, "--log") || same_text(e, "--bgcolor")
                || same_text(e, "--fgcolor") {
                old = String::from_str(e);
            } else if same_text(e, "--dark") {
                opt.bgcolor = String::from_str("black");
                opt.fgcolor = String::from_str("white");
                old = String::new();
            } else if same_text(e, "--light") {
                opt.bgcolor = String::from_str("white");
                opt.fgcolor = String::from_str("black");
                old = String::new();
            } else if same_text(e, "--rsvg") {
                opt.svg2png = Type::RSVG;
                old = String::new();
            } else if same_text(e, "--inkscape11") {
                opt.svg2png = Type::INKSCAPE11;
                old = String::new();
            } else {
                if same_text(old.as_str(), "--port") {
                    if is_port_number(e) {
                        opt.port = String::from_str(e);
                    }
                } else if same_text(old.as_str(), "--log") {
                    opt.logpath = String::from_str(e);
                } else if same_text(old.as_str(), "--bgcolor") {
                    opt.bgcolor = String::from_str(e);
                } else if same_text(old.as_str(), "--fgcolor") {
                    opt.fgcolor = String::from_str(e);
                }
                old = String::new();
            }
            i += 1;
        }
        assert(texts(args@).take(args.len() as int) == texts(args@));
        opt
    }
}

} // verus!
