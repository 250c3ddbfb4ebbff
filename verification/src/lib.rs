pub mod diagram;
pub mod koma;
pub mod lastmove;
pub mod matcher;
pub mod myoptions;
pub mod sfen;
pub mod svg2png;
pub mod svgbuilder;
pub mod text;
