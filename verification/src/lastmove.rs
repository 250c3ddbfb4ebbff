//! The last move of a game, as a short text such as `7776FU`: two digits for
//! the square it left, two for the square it reached, a two-letter piece
//! code, then an optional `P` or `N` and direction letters.

use crate::koma::{
    csa_koma, glyph, kanji_digit, kanji_digit_char, koma_of, Koma, Promotion,
};
use crate::matcher::{captured_groups, groups_view, regex_captures};
use crate::text::{char_text, chars_of, digit_value, is_digit, result_text, same_text};
use vstd::prelude::*;

verus! {

/// A move: the square it left (`(0, 0)` for a piece dropped from the hand),
/// the square it reached (file, then rank), the piece, whether the text says
/// that it promoted or did not, and the letters that tell which of several
/// pieces moved. A move whose `to` holds a zero stands for no move.
#[derive(Debug)]
pub struct LastMove {
    pub from: (usize, usize),
    pub to: (usize, usize),
    pub koma: Koma,
    pub promote: Promotion,
    pub dir: String,
}

/// A move over mathematical values.
pub struct LastMoveModel {
    pub from: (nat, nat),
    pub to: (nat, nat),
    pub koma: Koma,
    pub promote: Promotion,
    pub dir: Seq<char>,
}

impl View for LastMove {
    type V = LastMoveModel;

    open spec fn view(&self) -> LastMoveModel {
        LastMoveModel {
            from: (self.from.0 as nat, self.from.1 as nat),
            to: (self.to.0 as nat, self.to.1 as nat),
            koma: self.koma,
            promote: self.promote,
            dir: self.dir@,
        }
    }
}

/// The pattern that a move's text is searched for.
pub open spec fn move_pattern() -> Seq<char> {
    "(\\d\\d)(\\d\\d)([a-zA-Z][a-zA-Z])([PN]?)([a-zA-Z]*)"@
}

/// The move that stands for no move.
pub open spec fn no_move() -> LastMoveModel {
    LastMoveModel {
        from: (0, 0),
        to: (0, 0),
        koma: koma_of(' ', Promotion::Unspecified),
        promote: Promotion::Unspecified,
        dir: Seq::empty(),
    }
}

/// The text of the group `i`; the empty text if there is no such group or it
/// took no part in the match.
pub open spec fn group_text(groups: Seq<Option<Seq<char>>>, i: int) -> Seq<char> {
    if 0 <= i < groups.len() && groups[i] is Some {
        groups[i]->Some_0
    } else {
        Seq::empty()
    }
}

/// The square that two digits name: the file is the first digit, the rank
/// the second. `None` for every text that is not two digits `0`..`9`.
pub open spec fn square_of(s: Seq<char>) -> Option<(nat, nat)> {
    if s.len() == 2 && is_digit(s[0]) && is_digit(s[1]) {
        Some((digit_value(s[0]) as nat, digit_value(s[1]) as nat))
    } else {
        None
    }
}

/// What the letter after the piece code says: `P` promoted, `N` not
/// promoted, anything else nothing.
pub open spec fn annotation_of(s: Seq<char>) -> Promotion {
    if s == seq!['P'] {
        Promotion::Promoted
    } else if s == seq!['N'] {
        Promotion::NotPromoted
    } else {
        Promotion::Unspecified
    }
}

/// What is said of a text that is no move.
pub open spec fn not_a_move(txt: Seq<char>) -> Seq<char> {
    "\""@ + txt + "\" is invalid lastmove."@
}

/// What is said of a move whose piece code names no piece.
pub open spec fn not_a_piece(txt: Seq<char>) -> Seq<char> {
    "\""@ + txt + "\" is invalid lastmove about koma."@
}

/// The move that the captured groups of a text give: groups 1 and 2 are the
/// squares, group 3 the piece code, group 4 the promotion letter and group 5
/// the letters that follow, which are the direction letters. It is an error
/// if nothing was captured, if a square is not two digits `0`..`9`, if the
/// code names no piece, or if one of the letters that follow has no word as
/// a direction: the error then names the first such letter.
pub open spec fn parsed_move(txt: Seq<char>, captured: Option<Seq<Option<Seq<char>>>>) -> Result<
    LastMoveModel,
    Seq<char>,
> {
    match captured {
        None => Err(not_a_move(txt)),
        Some(groups) => match (
            square_of(group_text(groups, 1)),
            square_of(group_text(groups, 2)),
        ) {
            (Some(from), Some(to)) => match csa_koma(group_text(groups, 3)) {
                None => Err(not_a_piece(txt)),
                Some(koma) => match direction_words(group_text(groups, 5)) {
                    Err(c) => Err(unknown_direction(c)),
                    Ok(_) => Ok(
                        LastMoveModel {
                            from,
                            to,
                            koma,
                            promote: annotation_of(group_text(groups, 4)),
                            dir: group_text(groups, 5),
                        },
                    ),
                },
            },
            _ => Err(not_a_move(txt)),
        },
    }
}

/// What reading a move gave, over mathematical values.
pub open spec fn move_view(r: Result<LastMove, String>) -> Result<LastMoveModel, Seq<char>> {
    match r {
        Ok(m) => Ok(m@),
        Err(e) => Err(e@),
    }
}

/// The full-width digit for `d`, for `d` in `1..10`.
pub open spec fn fullwidth_digit(d: int) -> char {
    if d == 1 {
        '１'
    } else if d == 2 {
        '２'
    } else if d == 3 {
        '３'
    } else if d == 4 {
        '４'
    } else if d == 5 {
        '５'
    } else if d == 6 {
        '６'
    } else if d == 7 {
        '７'
    } else if d == 8 {
        '８'
    } else {
        '９'
    }
}

/// The word for a direction letter: `R` right, `L` left, `A` and `U` up, `H`
/// pull back, `S` and `D` down, `Y` approach, `C` straight.
pub open spec fn direction_word(c: char) -> Option<char> {
    if c == 'R' {
        Some('右')
    } else if c == 'L' {
        Some('左')
    } else if c == 'A' || c == 'U' {
        Some('上')
    } else if c == 'H' {
        Some('引')
    } else if c == 'S' || c == 'D' {
        Some('下')
    } else if c == 'Y' {
        Some('寄')
    } else if c == 'C' {
        Some('直')
    } else {
        None
    }
}

/// The words for the direction letters `dir`, in order, or the first letter
/// that has no word.
pub open spec fn direction_words(dir: Seq<char>) -> Result<Seq<char>, char>
    decreases dir.len(),
{
    if dir.len() == 0 {
        Ok(Seq::empty())
    } else {
        match direction_words(dir.drop_last()) {
            Err(c) => Err(c),
            Ok(words) => match direction_word(dir.last()) {
                Some(w) => Ok(words.push(w)),
                None => Err(dir.last()),
            },
        }
    }
}

/// What is said of a move that cannot be described.
pub open spec fn invalid_move() -> Seq<char> {
    "invalid last move."@
}

/// What is said of a direction letter that has no word.
pub open spec fn unknown_direction(c: char) -> Seq<char> {
    seq![c] + " is not supported in LastMove."@
}

impl LastMoveModel {
    /// Whether this is a move at all: neither coordinate of the square it
    /// reached is zero.
    pub open spec fn is_ok(self) -> bool {
        self.to.0 > 0 && self.to.1 > 0
    }

    /// Whether the piece came from the hand.
    pub open spec fn is_drop(self) -> bool {
        self.from.0 == 0 && self.from.1 == 0
    }

    /// Whether the square that the move reached has a name: both
    /// coordinates are at most 9.
    pub open spec fn on_board(self) -> bool {
        self.to.0 <= 9 && self.to.1 <= 9
    }

    /// The square reached and the piece, as every description starts.
    pub open spec fn head(self) -> Seq<char> {
        seq![fullwidth_digit(self.to.0 as int), kanji_digit(self.to.1 as int)] + glyph(
            self.koma.koma,
            self.koma.promotion == Promotion::Promoted,
        )
    }

    /// The description of the move. No move has the empty description. A
    /// move needs a piece. A drop is marked as such, and may carry neither a
    /// promotion nor directions; any other move carries the words of its
    /// directions and of its promotion.
    pub open spec fn describe(self) -> Result<Seq<char>, Seq<char>> {
        if !self.is_ok() {
            Ok(Seq::empty())
        } else if self.koma.is_empty() {
            Err(invalid_move())
        } else if self.is_drop() {
            if self.dir.len() > 0 || self.promote != Promotion::Unspecified {
                Err(invalid_move())
            } else {
                Ok(self.head() + seq!['打'] + "まで"@)
            }
        } else {
            match direction_words(self.dir) {
                Err(c) => Err(unknown_direction(c)),
                Ok(words) => Ok(self.head() + words + self.promote.word() + "まで"@),
            }
        }
    }
}

/// A move that was read has squares with coordinates up to 9, and every one
/// of its direction letters has a word.
pub proof fn lemma_parsed_move_on_board(txt: Seq<char>, captured: Option<Seq<Option<Seq<char>>>>)
    ensures
        parsed_move(txt, captured) matches Ok(m) ==> m.on_board() && m.from.0 <= 9 && m.from.1
            <= 9 && direction_words(m.dir) is Ok,
{
}

/// A piece that is dropped carries neither a promotion nor directions: the
/// description of such a move is an error.
pub proof fn lemma_drop_excludes_annotation(m: LastMoveModel)
    requires
        m.is_ok(),
        m.is_drop(),
        m.promote != Promotion::Unspecified || m.dir.len() > 0,
    ensures
        m.describe() is Err,
{
}

/// If a direction letter at `i` has no word and all before it have one, it
/// is the one that is reported.
pub proof fn lemma_direction_refused(dir: Seq<char>, i: int)
    requires
        0 <= i < dir.len(),
        direction_words(dir.take(i)) is Ok,
        direction_word(dir[i]) is None,
    ensures
        direction_words(dir) == Err::<Seq<char>, char>(dir[i]),
    decreases dir.len(),
{
    if i + 1 < dir.len() {
        assert(dir.drop_last().take(i) == dir.take(i));
        lemma_direction_refused(dir.drop_last(), i);
    } else {
        assert(dir.drop_last() == dir.take(i));
    }
}

fn fullwidth_digit_char(d: usize) -> (c: char)
    requires
        1 <= d <= 9,
    ensures
        c == fullwidth_digit(d as int),
{
    if d == 1 {
        '１'
    } else if d == 2 {
        '２'
    } else if d == 3 {
        '３'
    } else if d == 4 {
        '４'
    } else if d == 5 {
        '５'
    } else if d == 6 {
        '６'
    } else if d == 7 {
        '７'
    } else if d == 8 {
        '８'
    } else {
        '９'
    }
}

fn direction_word_char(c: char) -> (w: Option<char>)
    ensures
        w == direction_word(c),
{
    if c == 'R' {
        Some('右')
    } else if c == 'L' {
        Some('左')
    } else if c == 'A' || c == 'U' {
        Some('上')
    } else if c == 'H' {
        Some('引')
    } else if c == 'S' || c == 'D' {
        Some('下')
    } else if c == 'Y' {
        Some('寄')
    } else if c == 'C' {
        Some('直')
    } else {
        None
    }
}

fn group_of(groups: &Vec<Option<String>>, i: usize) -> (s: String)
    ensures
        s@ == group_text(groups_view(Some(*groups))->Some_0, i as int),
{
    if i < groups.len() {
        match &groups[i] {
            Some(s) => s.clone(),
            None => String::new(),
        }
    } else {
        String::new()
    }
}

fn read_square(s: &str) -> (sq: Option<(usize, usize)>)
    ensures
        match sq {
            Some((file, rank)) => square_of(s@) == Some((file as nat, rank as nat)),
            None => square_of(s@) is None,
        },
{
    let chars = chars_of(s);
    if chars.len() != 2 {
        return None;
    }
    let a = chars[0];
    let b = chars[1];
    if a >= '0' && a <= '9' && b >= '0' && b <= '9' {
        Some(((a as u32 - 48) as usize, (b as u32 - 48) as usize))
    } else {
        None
    }
}

fn not_a_move_message(txt: &str, about_piece: bool) -> (msg: String)
    ensures
        msg@ == if about_piece {
            not_a_piece(txt@)
        } else {
            not_a_move(txt@)
        },
{
    let mut msg = String::from_str("\"");
    msg.append(txt);
    if about_piece {
        msg.append("\" is invalid lastmove about koma.");
    } else {
        msg.append("\" is invalid lastmove.");
    }
    msg
}

impl LastMove {
    /// The move that stands for no move.
    pub fn new() -> (m: LastMove)
        ensures
            m@ == no_move(),
            !m@.is_ok(),
    {
        LastMove {
            from: (0, 0),
            to: (0, 0),
            koma: Koma::from(' ', Promotion::Unspecified),
            promote: Promotion::Unspecified,
            dir: String::new(),
        }
    }

    /// Reads a move from its text: the first place in `txt` where the
    /// pattern of a move is found gives its parts. The letters that follow
    /// the piece code there must all be direction letters.
    pub fn read(txt: &str) -> (r: Result<LastMove, String>)
        ensures
            move_view(r) == parsed_move(txt@, captured_groups(move_pattern(), txt@)),
    {
        let groups = regex_captures(
            "(\\d\\d)(\\d\\d)([a-zA-Z][a-zA-Z])([PN]?)([a-zA-Z]*)",
            txt,
        );
        LastMove::from_captures(txt, groups)
    }

    /// Makes a move of the groups that were captured in `txt`.
    pub fn from_captures(txt: &str, groups: Option<Vec<Option<String>>>) -> (r: Result<
        LastMove,
        String,
    >)
        ensures
            move_view(r) == parsed_move(txt@, groups_view(groups)),
    {
        let groups = match groups {
            Some(groups) => groups,
            None => {
                return Err(not_a_move_message(txt, false));
            },
        };
        let from = match read_square(group_of(&groups, 1).as_str()) {
            Some(sq) => sq,
            None => {
                return Err(not_a_move_message(txt, false));
            },
        };
        let to = match read_square(group_of(&groups, 2).as_str()) {
            Some(sq) => sq,
            None => {
                return Err(not_a_move_message(txt, false));
            },
        };
        let koma = match Koma::fromcsa(group_of(&groups, 3).as_str()) {
            Some(k) => k,
            None => {
                return Err(not_a_move_message(txt, true));
            },
        };
        let flag = group_of(&groups, 4);
        let p = char_text('P');
        let n = char_text('N');
        let promote = if same_text(flag.as_str(), p.as_str()) {
            Promotion::Promoted
        } else if same_text(flag.as_str(), n.as_str()) {
            Promotion::NotPromoted
        } else {
            Promotion::Unspecified
        };
        let dir = group_of(&groups, 5);
        match direction_text(dir.as_str()) {
            Ok(_) => Ok(LastMove { from, to, koma, promote, dir }),
            Err(c) => Err(unknown_direction_message(c)),
        }
    }

    /// Whether this is a move at all.
    pub fn is_ok(&self) -> (b: bool)
        ensures
            b == self@.is_ok(),
    {
        self.to.0 > 0 && self.to.1 > 0
    }

    /// The square that the move reached, if this is a move.
    pub fn topos(&self) -> (pos: Option<(usize, usize)>)
        ensures
            pos == if self@.is_ok() {
                Some(self.to)
            } else {
                None
            },
    {
        if self.is_ok() {
            Some(self.to)
        } else {
            None
        }
    }

    /// Whether the piece came from the hand.
    pub fn is_from_komadai(&self) -> (b: bool)
        ensures
            b == self@.is_drop(),
    {
        self.from.0 == 0 && self.from.1 == 0
    }

    /// The description of the move. A move that is one must have reached a
    /// square with a name.
    pub fn to_string(&self) -> (r: Result<String, String>)
        requires
            self@.is_ok() ==> self@.on_board(),
        ensures
            result_text(r) == self@.describe(),
    {
        if !self.is_ok() {
            return Ok(String::new());
        }
        let mut ret = char_text(fullwidth_digit_char(self.to.0));
        ret.push(kanji_digit_char(self.to.1));
        match self.koma.to_kstring() {
            Some(k) => {
                ret.append(k.as_str());
            },
            None => {
                return Err(String::from_str("invalid last move."));
            },
        }
        assert(ret@ == self@.head());
        if self.is_from_komadai() {
            ret.push('打');
            assert(ret@ == self@.head() + seq!['打']);
            let no_dir = self.dir.as_str().unicode_len() == 0;
            if !no_dir || self.promote.is_promoted() || self.promote.is_notpromoted() {
                return Err(String::from_str("invalid last move."));
            }
        } else {
            match direction_text(self.dir.as_str()) {
                Ok(words) => {
                    ret.append(words.as_str());
                },
                Err(c) => {
                    return Err(unknown_direction_message(c));
                },
            }
            ret.append(self.promote.to_string().as_str());
        }
        ret.append("まで");
        Ok(ret)
    }
}

/// The words of the direction letters `dir`, or the first letter without a
/// word.
fn direction_text(dir: &str) -> (r: Result<String, char>)
    ensures
        match r {
            Ok(words) => direction_words(dir@) == Ok::<Seq<char>, char>(words@),
            Err(c) => direction_words(dir@) == Err::<Seq<char>, char>(c),
        },
{
    let letters = chars_of(dir);
    let mut words = String::new();
    let mut i: usize = 0;
    while i < letters.len()
        invariant
            i <= letters.len(),
            letters@ == dir@,
            direction_words(letters@.take(i as int)) == Ok::<Seq<char>, char>(words@),
        decreases letters.len() - i,
    {
        proof {
            assert(letters@.take(i + 1).drop_last() == letters@.take(i as int));
            assert(letters@.take(i + 1).last() == letters[i as int]);
        }
        match direction_word_char(letters[i]) {
            Some(w) => {
                words.push(w);
            },
            None => {
                proof {
                    lemma_direction_refused(letters@, i as int);
                }
                return Err(letters[i]);
            },
        }
        i += 1;
    }
    assert(letters@.take(letters.len() as int) == letters@);
    Ok(words)
}

fn unknown_direction_message(c: char) -> (msg: String)
    ensures
        msg@ == unknown_direction(c),
{
    let mut msg = char_text(c);
    msg.append(" is not supported in LastMove.");
    msg
}

} // verus!
