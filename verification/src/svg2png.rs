//! The choice of the program that turns a document into a PNG image, and
//! the command line that it is started with. Starting the program is left to
//! the caller.

use crate::text::texts;
use vstd::prelude::*;

verus! {

/// The converter to use.
#[derive(Clone, Copy, Debug, PartialEq, Eq, Structural)]
pub enum Type {
    /// `rsvg-convert`.
    RSVG,
    /// `inkscape`, version 1.1.
    INKSCAPE11,
}

/// The converter and the background color of the image.
pub struct Svg2PngConfig {
    pub typ: Type,
    pub bgcolor: String,
}

/// A program and the arguments to start it with. The document is written to
/// its standard input, and the image is read from its standard output.
pub struct ConverterCommand {
    pub program: String,
    pub args: Vec<String>,
}

/// The name of the program of a converter.
pub open spec fn converter_program(typ: Type) -> Seq<char> {
    match typ {
        Type::RSVG => "rsvg-convert"@,
        Type::INKSCAPE11 => "inkscape"@,
    }
}

/// The arguments of a converter: what makes it write a PNG image to its
/// standard output, then `-b` and the background color.
pub open spec fn converter_args(typ: Type, bgcolor: Seq<char>) -> Seq<Seq<char>> {
    match typ {
        Type::RSVG => seq!["--format=png"@, "-b"@, bgcolor],
        Type::INKSCAPE11 => seq![
            "--pipe"@,
            "--export-filename=-"@,
            "--export-type=png"@,
            "-b"@,
            bgcolor,
        ],
    }
}

impl Svg2PngConfig {
    /// `rsvg-convert` on a white background.
    pub fn new() -> (config: Svg2PngConfig)
        ensures
            config.typ == Type::RSVG,
            config.bgcolor@ == "white"@,
    {
        Svg2PngConfig { typ: Type::RSVG, bgcolor: String::from_str("white") }
    }

    /// The command that starts the converter.
    pub fn command(&self) -> (command: ConverterCommand)
        ensures
            command.program@ == converter_program(self.typ),
            texts(command.args@) == converter_args(self.typ, self.bgcolor@),
    {
        let mut args: Vec<String> = Vec::new();
        let program = match self.typ {
            Type::RSVG => {
                args.push(String::from_str("--format=png"));
                String::from_str("rsvg-convert")
            },
            Type::INKSCAPE11 => {
                args.push(String::from_str("--pipe"));
                args.push(String::from_str("--export-filename=-"));
                args.push(String::from_str("--export-type=png"));
                String::from_str("inkscape")
            },
        };
        args.push(String::from_str("-b"));
        args.push(self.bgcolor.clone());
        assert(texts(args@) =~= converter_args(self.typ, self.bgcolor@));
        ConverterCommand { program, args }
    }
}

} // verus!
