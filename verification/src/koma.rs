//! Pieces: their kinds, sides and promotion, and the glyphs that show them.

use crate::matcher::{class_letters, is_class_letter, is_letter_class};
use crate::text::{ascii_upper, char_text, chars_of, is_ascii_capital, to_ascii_upper};
use vstd::prelude::*;

verus! {

/// The side that owns a piece. `Neither` is the side of an empty square.
#[derive(PartialEq, Eq, Structural, Debug, Clone, Copy)]
pub enum Teban {
    Sente,
    Gote,
    Neither,
}

/// The kind of a piece. `Aki` is an empty square.
#[derive(PartialEq, Eq, Structural, Debug, Clone, Copy)]
pub enum KomaType {
    Aki,
    Fu,
    Kyosha,
    Keima,
    Gin,
    Kin,
    Kaku,
    Hisha,
    Gyoku,
}

/// Whether a piece is promoted. `Unspecified` means that nothing was said.
#[derive(PartialEq, Eq, Structural, Debug, Clone, Copy)]
pub enum Promotion {
    Unspecified,
    Promoted,
    NotPromoted,
}

/// A piece on the board or in a move: its kind, promotion and side.
#[derive(PartialEq, Eq, Structural, Debug, Clone, Copy)]
pub struct Koma {
    pub koma: KomaType,
    pub promotion: Promotion,
    pub teban: Teban,
}

/// A kind of piece held in hand, and how many of it.
#[derive(PartialEq, Eq, Structural, Debug, Clone, Copy)]
pub struct Tegoma {
    pub koma: KomaType,
    pub num: usize,
}

/// Whether `c` is one of the capital piece letters `PLNSGBRK`.
pub open spec fn is_piece_capital(c: char) -> bool {
    c == 'P' || c == 'L' || c == 'N' || c == 'S' || c == 'G' || c == 'B' || c == 'R' || c == 'K'
}

/// Whether `c` is one of the small piece letters `plnsgbrk`.
pub open spec fn is_piece_small(c: char) -> bool {
    c == 'p' || c == 'l' || c == 'n' || c == 's' || c == 'g' || c == 'b' || c == 'r' || c == 'k'
}

/// The kind that the letter `c` stands for, in either case; `Aki` for every
/// character that is no piece letter.
pub open spec fn kind_of(c: char) -> KomaType {
    let u = ascii_upper(c);
    if u == 'P' {
        KomaType::Fu
    } else if u == 'L' {
        KomaType::Kyosha
    } else if u == 'N' {
        KomaType::Keima
    } else if u == 'S' {
        KomaType::Gin
    } else if u == 'G' {
        KomaType::Kin
    } else if u == 'B' {
        KomaType::Kaku
    } else if u == 'R' {
        KomaType::Hisha
    } else if u == 'K' {
        KomaType::Gyoku
    } else {
        KomaType::Aki
    }
}

/// The side that the letter `c` stands for: a capital piece letter is a
/// piece of the first side, a small one a piece of the second side, and any
/// other character belongs to neither.
pub open spec fn side_of(c: char) -> Teban {
    if is_piece_capital(ascii_upper(c)) {
        if is_ascii_capital(c) {
            Teban::Sente
        } else {
            Teban::Gote
        }
    } else {
        Teban::Neither
    }
}

/// The piece that the letter `c` stands for, with the given promotion.
pub open spec fn koma_of(c: char, promote: Promotion) -> Koma {
    Koma { koma: kind_of(c), promotion: promote, teban: side_of(c) }
}

/// The kanji of a kind of piece. Gold and king have no promoted form and keep
/// their kanji.
pub open spec fn glyph_char(kind: KomaType, promoted: bool) -> char {
    match kind {
        KomaType::Aki => ' ',
        KomaType::Fu => if promoted {
            'と'
        } else {
            '歩'
        },
        KomaType::Kyosha => if promoted {
            '杏'
        } else {
            '香'
        },
        KomaType::Keima => if promoted {
            '圭'
        } else {
            '桂'
        },
        KomaType::Gin => if promoted {
            '全'
        } else {
            '銀'
        },
        KomaType::Kin => '金',
        KomaType::Kaku => if promoted {
            '馬'
        } else {
            '角'
        },
        KomaType::Hisha => if promoted {
            '龍'
        } else {
            '飛'
        },
        KomaType::Gyoku => '玉',
    }
}

/// The text that shows a kind of piece: its kanji, or nothing for an empty
/// square.
pub open spec fn glyph(kind: KomaType, promoted: bool) -> Seq<char> {
    if kind == KomaType::Aki {
        Seq::<char>::empty()
    } else {
        seq![glyph_char(kind, promoted)]
    }
}

/// The kanji numeral for the digit `d`, for `d` in `1..10`.
pub open spec fn kanji_digit(d: int) -> char {
    if d == 1 {
        '一'
    } else if d == 2 {
        '二'
    } else if d == 3 {
        '三'
    } else if d == 4 {
        '四'
    } else if d == 5 {
        '五'
    } else if d == 6 {
        '六'
    } else if d == 7 {
        '七'
    } else if d == 8 {
        '八'
    } else {
        '九'
    }
}

/// The kanji numerals that name the ranks of the board, from the top.
pub open spec fn rank_labels() -> Seq<char> {
    seq!['一', '二', '三', '四', '五', '六', '七', '八', '九']
}

/// The numeral written after a piece held `n` times, for `n` up to 18:
/// nothing for a single piece, the kanji numeral from two on.
pub open spec fn kanji_count(n: nat) -> Seq<char> {
    if n <= 1 {
        Seq::<char>::empty()
    } else if n < 10 {
        seq![kanji_digit(n as int)]
    } else if n == 10 {
        seq!['十']
    } else {
        seq!['十', kanji_digit(n - 10)]
    }
}

/// What `Tegoma::to_kanji` gives for a piece of kind `kind` held `n` times.
pub open spec fn hand_text(kind: KomaType, n: nat) -> Result<Seq<char>, Seq<char>> {
    if n > 18 {
        Err(glyph(kind, false) + seq!['?', '?'])
    } else if n == 0 {
        Ok(Seq::<char>::empty())
    } else {
        Ok(glyph(kind, false) + kanji_count(n))
    }
}

/// The text that shows a piece in a text diagram: a blank square is shown as
/// ` ・`; a piece as a side mark (a space for the first side, `v` for the
/// second) and its kanji.
pub open spec fn koma_text(k: Koma) -> Seq<char> {
    if k.teban == Teban::Neither || k.koma == KomaType::Aki {
        seq![' ', '・']
    } else {
        seq![
            if k.teban == Teban::Sente {
                ' '
            } else {
                'v'
            },
        ] + glyph(k.koma, k.promotion == Promotion::Promoted)
    }
}

/// The piece that a two-letter code stands for, in either case: `FU`, `KY`,
/// `KE`, `GI`, `KI`, `KA`, `HI`, `OU` and `GY` for the plain pieces, `TO`,
/// `NY`, `NE`, `NG`, `UM` and `RY` for the promoted ones. The piece is one
/// of the first side.
pub open spec fn csa_koma(code: Seq<char>) -> Option<Koma> {
    let u = code.map_values(|c: char| ascii_upper(c));
    if u == seq!['F', 'U'] {
        Some(koma_of('P', Promotion::Unspecified))
    } else if u == seq!['K', 'Y'] {
        Some(koma_of('L', Promotion::Unspecified))
    } else if u == seq!['K', 'E'] {
        Some(koma_of('N', Promotion::Unspecified))
    } else if u == seq!['G', 'I'] {
        Some(koma_of('S', Promotion::Unspecified))
    } else if u == seq!['K', 'I'] {
        Some(koma_of('G', Promotion::Unspecified))
    } else if u == seq!['K', 'A'] {
        Some(koma_of('B', Promotion::Unspecified))
    } else if u == seq!['H', 'I'] {
        Some(koma_of('R', Promotion::Unspecified))
    } else if u == seq!['O', 'U'] || u == seq!['G', 'Y'] {
        Some(koma_of('K', Promotion::Unspecified))
    } else if u == seq!['T', 'O'] {
        Some(koma_of('P', Promotion::Promoted))
    } else if u == seq!['N', 'Y'] {
        Some(koma_of('L', Promotion::Promoted))
    } else if u == seq!['N', 'E'] {
        Some(koma_of('N', Promotion::Promoted))
    } else if u == seq!['N', 'G'] {
        Some(koma_of('S', Promotion::Promoted))
    } else if u == seq!['U', 'M'] {
        Some(koma_of('B', Promotion::Promoted))
    } else if u == seq!['R', 'Y'] {
        Some(koma_of('R', Promotion::Promoted))
    } else {
        None
    }
}

/// The capital piece letters, in the order of the kinds they stand for.
pub open spec fn piece_letters() -> Seq<char> {
    "PLNSGBRK"@
}

/// The small piece letters, in the same order.
pub open spec fn small_piece_letters() -> Seq<char> {
    "plnsgbrk"@
}

/// The kanji of the plain pieces, in the order of the piece letters.
pub open spec fn plain_kanji() -> Seq<char> {
    "歩香桂銀金角飛玉"@
}

/// The kanji of the promoted pieces, in the order of the piece letters.
pub open spec fn promoted_kanji() -> Seq<char> {
    "と杏圭全金馬龍玉"@
}

/// The numerals that follow a piece held `n` times, for `n` from 0 to 18.
pub open spec fn numeral_table() -> Seq<Seq<char>> {
    seq![
        ""@,
        ""@,
        "二"@,
        "三"@,
        "四"@,
        "五"@,
        "六"@,
        "七"@,
        "八"@,
        "九"@,
        "十"@,
        "十一"@,
        "十二"@,
        "十三"@,
        "十四"@,
        "十五"@,
        "十六"@,
        "十七"@,
        "十八"@,
    ]
}

/// The piece letter at place `i`, capital or small, stands for the kind
/// whose kanji stands at place `i` among the plain and among the promoted
/// kanji; the capital letter is a piece of the first side, the small one a
/// piece of the second.
pub proof fn lemma_piece_letters(i: int)
    requires
        0 <= i < 8,
    ensures
        glyph(kind_of(piece_letters()[i]), false) == seq![plain_kanji()[i]],
        glyph(kind_of(piece_letters()[i]), true) == seq![promoted_kanji()[i]],
        kind_of(small_piece_letters()[i]) == kind_of(piece_letters()[i]),
        side_of(piece_letters()[i]) == Teban::Sente,
        side_of(small_piece_letters()[i]) == Teban::Gote,
{
    reveal_strlit("PLNSGBRK");
    reveal_strlit("plnsgbrk");
    reveal_strlit("歩香桂銀金角飛玉");
    reveal_strlit("と杏圭全金馬龍玉");
}

/// What is shown of a piece held `n` times: nothing for none, the kanji
/// alone for one, the kanji and the numeral of the table up to 18, and an
/// error that holds the kanji and `??` beyond.
pub proof fn lemma_hand_text_table(kind: KomaType, n: nat)
    ensures
        n == 0 ==> hand_text(kind, n) == Ok::<Seq<char>, Seq<char>>(Seq::empty()),
        1 <= n <= 18 ==> hand_text(kind, n) == Ok::<Seq<char>, Seq<char>>(
            glyph(kind, false) + numeral_table()[n as int],
        ),
        n > 18 ==> hand_text(kind, n) == Err::<Seq<char>, Seq<char>>(glyph(kind, false) + "??"@),
{
    reveal_strlit("");
    reveal_strlit("二");
    reveal_strlit("三");
    reveal_strlit("四");
    reveal_strlit("五");
    reveal_strlit("六");
    reveal_strlit("七");
    reveal_strlit("八");
    reveal_strlit("九");
    reveal_strlit("十");
    reveal_strlit("十一");
    reveal_strlit("十二");
    reveal_strlit("十三");
    reveal_strlit("十四");
    reveal_strlit("十五");
    reveal_strlit("十六");
    reveal_strlit("十七");
    reveal_strlit("十八");
    reveal_strlit("??");
    if 1 <= n <= 18 {
        assert(kanji_count(n) =~= numeral_table()[n as int]);
    }
    assert("??"@ =~= seq!['?', '?']);
}

/// Whether `c` is a capital piece letter.
pub fn is_capital_piece_letter(c: char) -> (b: bool)
    ensures
        b == is_piece_capital(c),
{
    proof {
        reveal_strlit("[PLNSGBRK]");
        lemma_contains_eight("[PLNSGBRK]"@, c);
    }
    is_class_letter("[PLNSGBRK]", c)
}

/// Whether `c` is a small piece letter.
pub fn is_small_piece_letter(c: char) -> (b: bool)
    ensures
        b == is_piece_small(c),
{
    proof {
        reveal_strlit("[plnsgbrk]");
        lemma_contains_eight("[plnsgbrk]"@, c);
    }
    is_class_letter("[plnsgbrk]", c)
}

/// A class of eight letters holds `c` exactly if `c` is one of the eight.
proof fn lemma_contains_eight(pattern: Seq<char>, c: char)
    requires
        pattern.len() == 10,
    ensures
        class_letters(pattern).contains(c) <==> (c == pattern[1] || c == pattern[2] || c
            == pattern[3] || c == pattern[4] || c == pattern[5] || c == pattern[6] || c
            == pattern[7] || c == pattern[8]),
{
    let letters = class_letters(pattern);
    assert(letters.len() == 8);
    assert forall|i: int| 0 <= i < 8 implies #[trigger] letters[i] == pattern[i + 1] by {}
    if c == pattern[1] || c == pattern[2] || c == pattern[3] || c == pattern[4] || c == pattern[5]
        || c == pattern[6] || c == pattern[7] || c == pattern[8] {
        let i = if c == pattern[1] {
            0int
        } else if c == pattern[2] {
            1
        } else if c == pattern[3] {
            2
        } else if c == pattern[4] {
            3
        } else if c == pattern[5] {
            4
        } else if c == pattern[6] {
            5
        } else if c == pattern[7] {
            6
        } else {
            7
        };
        assert(letters[i] == c);
    }
}

impl KomaType {
    /// The kanji of this kind of piece, in its promoted form if `promote` is
    /// `Promoted`; the empty text for an empty square.
    pub fn to_string(&self, promote: Promotion) -> (s: String)
        ensures
            s@ == glyph(*self, promote == Promotion::Promoted),
    {
        let promoted = promote.is_promoted();
        match self {
            KomaType::Aki => String::new(),
            KomaType::Fu => char_text(
                if promoted {
                    'と'
                } else {
                    '歩'
                },
            ),
            KomaType::Kyosha => char_text(
                if promoted {
                    '杏'
                } else {
                    '香'
                },
            ),
            KomaType::Keima => char_text(
                if promoted {
                    '圭'
                } else {
                    '桂'
                },
            ),
            KomaType::Gin => char_text(
                if promoted {
                    '全'
                } else {
                    '銀'
                },
            ),
            KomaType::Kin => char_text('金'),
            KomaType::Kaku => char_text(
                if promoted {
                    '馬'
                } else {
                    '角'
                },
            ),
            KomaType::Hisha => char_text(
                if promoted {
                    '龍'
                } else {
                    '飛'
                },
            ),
            KomaType::Gyoku => char_text('玉'),
        }
    }

    /// The kind that the letter `ch` stands for.
    pub fn from(ch: char) -> (kind: KomaType)
        ensures
            kind == kind_of(ch),
    {
        let u = to_ascii_upper(ch);
        if u == 'P' {
            KomaType::Fu
        } else if u == 'L' {
            KomaType::Kyosha
        } else if u == 'N' {
            KomaType::Keima
        } else if u == 'S' {
            KomaType::Gin
        } else if u == 'G' {
            KomaType::Kin
        } else if u == 'B' {
            KomaType::Kaku
        } else if u == 'R' {
            KomaType::Hisha
        } else if u == 'K' {
            KomaType::Gyoku
        } else {
            KomaType::Aki
        }
    }
}

impl Promotion {
    pub fn is_promoted(&self) -> (b: bool)
        ensures
            b == (*self == Promotion::Promoted),
    {
        match self {
            Promotion::Promoted => true,
            _ => false,
        }
    }

    pub fn is_notpromoted(&self) -> (b: bool)
        ensures
            b == (*self == Promotion::NotPromoted),
    {
        match self {
            Promotion::NotPromoted => true,
            _ => false,
        }
    }

    /// The word that a move's text carries for this annotation.
    pub open spec fn word(self) -> Seq<char> {
        match self {
            Promotion::Promoted => seq!['成'],
            Promotion::NotPromoted => seq!['不', '成'],
            Promotion::Unspecified => Seq::<char>::empty(),
        }
    }

    pub fn to_string(&self) -> (s: String)
        ensures
            s@ == self.word(),
    {
        match self {
            Promotion::Promoted => char_text('成'),
            Promotion::NotPromoted => {
                let mut s = char_text('不');
                s.push('成');
                s
            },
            Promotion::Unspecified => String::new(),
        }
    }
}

impl Koma {
    /// The piece that the letter `ch` stands for: its case gives the side,
    /// and a character that is no piece letter gives an empty square.
    pub fn from(ch: char, promote: Promotion) -> (k: Koma)
        ensures
            k == koma_of(ch, promote),
    {
        let is_piece = is_capital_piece_letter(to_ascii_upper(ch));
        Koma {
            koma: KomaType::from(ch),
            promotion: promote,
            teban: if is_piece {
                if ch >= 'A' && ch <= 'Z' {
                    Teban::Sente
                } else {
                    Teban::Gote
                }
            } else {
                Teban::Neither
            },
        }
    }

    /// The piece that a two-letter code names, if it names one.
    pub fn fromcsa(csa: &str) -> (k: Option<Koma>)
        ensures
            k == csa_koma(csa@),
    {
        let chars = chars_of(csa);
        if chars.len() != 2 {
            proof {
                assert(csa@.map_values(|c: char| ascii_upper(c)).len() != 2);
            }
            return None;
        }
        let a = to_ascii_upper(chars[0]);
        let b = to_ascii_upper(chars[1]);
        proof {
            let u = csa@.map_values(|c: char| ascii_upper(c));
            assert(u =~= seq![a, b]);
            assert forall|x: char, y: char| (u == seq![x, y]) <==> (a == x && b == y) by {
                if a == x && b == y {
                    assert(u =~= seq![x, y]);
                } else if u == seq![x, y] {
                    assert(seq![x, y][0] == x);
                    assert(seq![x, y][1] == y);
                }
            }
        }
        if a == 'F' && b == 'U' {
            Some(Koma::from('P', Promotion::Unspecified))
        } else if a == 'K' && b == 'Y' {
            Some(Koma::from('L', Promotion::Unspecified))
        } else if a == 'K' && b == 'E' {
            Some(Koma::from('N', Promotion::Unspecified))
        } else if a == 'G' && b == 'I' {
            Some(Koma::from('S', Promotion::Unspecified))
        } else if a == 'K' && b == 'I' {
            Some(Koma::from('G', Promotion::Unspecified))
        } else if a == 'K' && b == 'A' {
            Some(Koma::from('B', Promotion::Unspecified))
        } else if a == 'H' && b == 'I' {
            Some(Koma::from('R', Promotion::Unspecified))
        } else if (a == 'O' && b == 'U') || (a == 'G' && b == 'Y') {
            Some(Koma::from('K', Promotion::Unspecified))
        } else if a == 'T' && b == 'O' {
            Some(Koma::from('P', Promotion::Promoted))
        } else if a == 'N' && b == 'Y' {
            Some(Koma::from('L', Promotion::Promoted))
        } else if a == 'N' && b == 'E' {
            Some(Koma::from('N', Promotion::Promoted))
        } else if a == 'N' && b == 'G' {
            Some(Koma::from('S', Promotion::Promoted))
        } else if a == 'U' && b == 'M' {
            Some(Koma::from('B', Promotion::Promoted))
        } else if a == 'R' && b == 'Y' {
            Some(Koma::from('R', Promotion::Promoted))
        } else {
            None
        }
    }

    /// The piece as a text diagram shows it.
    pub fn to_string(&self) -> (s: String)
        ensures
            s@ == koma_text(*self),
    {
        if self.is_blank() || !(self.is_sente() || self.is_gote()) {
            let mut s = char_text(' ');
            s.push('・');
            return s;
        }
        let mut s = char_text(
            if self.is_sente() {
                ' '
            } else {
                'v'
            },
        );
        let kanji = self.koma.to_string(self.promotion);
        s.append(kanji.as_str());
        s
    }

    /// The kanji of the piece; `None` for an empty square.
    pub fn to_kstring(&self) -> (s: Option<String>)
        ensures
            match s {
                Some(text) => !self.is_empty() && text@ == glyph(
                    self.koma,
                    self.promotion == Promotion::Promoted,
                ),
                None => self.is_empty(),
            },
    {
        if self.is_blank() || !(self.is_sente() || self.is_gote()) {
            return None;
        }
        Some(self.koma.to_string(self.promotion))
    }

    /// Whether this stands for an empty square: no kind, or no side.
    pub open spec fn is_empty(&self) -> bool {
        self.teban == Teban::Neither || self.koma == KomaType::Aki
    }

    pub fn is_blank(&self) -> (b: bool)
        ensures
            b == (self.koma == KomaType::Aki),
    {
        match self.koma {
            KomaType::Aki => true,
            _ => false,
        }
    }

    pub fn is_sente(&self) -> (b: bool)
        ensures
            b == (self.teban == Teban::Sente),
    {
        match self.teban {
            Teban::Sente => true,
            _ => false,
        }
    }

    pub fn is_gote(&self) -> (b: bool)
        ensures
            b == (self.teban == Teban::Gote),
    {
        match self.teban {
            Teban::Gote => true,
            _ => false,
        }
    }
}

impl Tegoma {
    /// `n` pieces of the kind that the letter `p` stands for.
    pub fn new(p: char, n: usize) -> (t: Tegoma)
        ensures
            t == (Tegoma { koma: kind_of(p), num: n }),
    {
        Tegoma { koma: KomaType::from(p), num: n }
    }

    /// The kanji of the piece and of its count. More than 18 pieces have no
    /// numeral: the result is then an error that holds the kanji and `??`.
    pub fn to_kanji(&self) -> (r: Result<String, String>)
        ensures
            match r {
                Ok(s) => hand_text(self.koma, self.num as nat) == Ok::<Seq<char>, Seq<char>>(s@),
                Err(s) => hand_text(self.koma, self.num as nat) == Err::<Seq<char>, Seq<char>>(s@),
            },
    {
        let mut kanji = self.koma.to_string(Promotion::Unspecified);
        if self.num > 18 {
            kanji.push('?');
            kanji.push('?');
            assert(kanji@ == glyph(self.koma, false) + seq!['?', '?']);
            return Err(kanji);
        }
        if self.num == 0 {
            return Ok(String::new());
        }
        if self.num >= 10 {
            kanji.push('十');
        }
        if self.num != 10 && self.num != 1 {
            let d = if self.num > 10 {
                self.num - 10
            } else {
                self.num
            };
            kanji.push(kanji_digit_char(d));
        }
        assert(kanji@ == glyph(self.koma, false) + kanji_count(self.num as nat));
        Ok(kanji)
    }
}

/// The kanji numeral of the rank with index `i` from the top.
pub(crate) fn rank_label_char(i: usize) -> (c: char)
    requires
        i < 9,
    ensures
        c == rank_labels()[i as int],
{
    kanji_digit_char(i + 1)
}

/// The kanji numeral for the digit `d`.
pub(crate) fn kanji_digit_char(d: usize) -> (c: char)
    requires
        1 <= d <= 9,
    ensures
        c == kanji_digit(d as int),
{
    if d == 1 {
        '一'
    } else if d == 2 {
        '二'
    } else if d == 3 {
        '三'
    } else if d == 4 {
        '四'
    } else if d == 5 {
        '五'
    } else if d == 6 {
        '六'
    } else if d == 7 {
        '七'
    } else if d == 8 {
        '八'
    } else {
        '九'
    }
}

} // verus!
