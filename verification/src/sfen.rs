//! Positions in the four-field notation: board, side to move, pieces in
//! hand and move number.

use crate::koma::{
    hand_text, is_capital_piece_letter, is_piece_capital, is_piece_small, is_small_piece_letter,
    kind_of, koma_of, koma_text, rank_label_char, rank_labels, Koma, Promotion, Tegoma,
};
use crate::lastmove::{LastMove, LastMoveModel};
use crate::text::{
    ascii_upper, char_text, chars_of, digit_value, is_digit, lemma_split_nonempty, parse_i32,
    parse_i32_text, result_text, same_text, signed_decimal, signed_decimal_text, split,
    split_text, texts, to_ascii_upper,
};
use vstd::prelude::*;

verus! {

/// A position as it was written: the board, the side to move and the pieces
/// in hand as texts, and the move number. A notation with fewer than four
/// fields gives the invalid position: three empty texts and the move number
/// -2. The invalid position has no board: reading it is an error.
pub struct Sfen {
    pub ban: String,
    pub teban: String,
    pub tegoma: String,
    pub nteme: i32,
}

/// The move number that stands for a notation with too few fields.
pub const INVALID_MOVE_NUMBER: i32 = -2;

/// The move number that stands for a fourth field that is no number.
pub const UNKNOWN_MOVE_NUMBER: i32 = -1;

/// The largest count of one piece in hand that the notation can give.
pub const MAX_HAND_COUNT: u32 = 0xffff_ffff;

/// The square that a digit of the board notation leaves empty.
pub open spec fn blank_square() -> Koma {
    koma_of('?', Promotion::Unspecified)
}

/// `n` empty squares.
pub open spec fn blank_squares(n: int) -> Seq<Koma> {
    Seq::new(n as nat, |i: int| blank_square())
}

/// Whether `c` is one of the digits `1`..`9`.
pub open spec fn is_count_digit(c: char) -> bool {
    '1' <= c && c <= '9'
}

/// Where the reading of one rank stands: the squares read so far, whether a
/// `+` waits for the next piece, and the first character that was refused.
pub struct RankScan {
    pub squares: Seq<Koma>,
    pub pending: Promotion,
    pub refused: Option<char>,
}

/// Reads one more character of a rank. A digit `1`..`9` adds that many empty
/// squares; a piece letter adds one piece, promoted if a `+` waits, and of the
/// side that its case tells; `+` waits for the next piece; every other
/// character is refused, and so is all that follows it.
pub open spec fn rank_step(state: RankScan, c: char) -> RankScan {
    if state.refused is Some {
        state
    } else if is_count_digit(c) {
        RankScan { squares: state.squares + blank_squares(digit_value(c)), ..state }
    } else if is_piece_capital(ascii_upper(c)) {
        RankScan {
            squares: state.squares.push(koma_of(c, state.pending)),
            pending: Promotion::Unspecified,
            refused: None,
        }
    } else if c == '+' {
        RankScan { pending: Promotion::Promoted, ..state }
    } else {
        RankScan { refused: Some(c), ..state }
    }
}

/// Reads the text of a rank from left to right.
pub open spec fn rank_scan(s: Seq<char>) -> RankScan
    decreases s.len(),
{
    if s.len() == 0 {
        RankScan { squares: Seq::empty(), pending: Promotion::Unspecified, refused: None }
    } else {
        rank_step(rank_scan(s.drop_last()), s.last())
    }
}

/// What is said of a character that the notation does not allow.
pub open spec fn refusal(c: char) -> Seq<char> {
    seq![c] + " is not allowed to use!!"@
}

/// What is said of a rank that does not hold nine squares.
pub open spec fn not_a_rank(rank: Seq<char>) -> Seq<char> {
    rank + " does not have 9 squares."@
}

/// What is said of a board field that does not hold nine ranks.
pub open spec fn not_a_board(ban: Seq<char>) -> Seq<char> {
    ban + " does not have 9 ranks."@
}

/// The nine squares of one rank. It is an error, which names the character,
/// if the rank holds a character that is not allowed; else it is an error,
/// which quotes the rank, if its squares are not nine.
pub open spec fn rank_squares(s: Seq<char>) -> Result<Seq<Koma>, Seq<char>> {
    let scan = rank_scan(s);
    match scan.refused {
        Some(c) => Err(refusal(c)),
        None => if scan.squares.len() == 9 {
            Ok(scan.squares)
        } else {
            Err(not_a_rank(s))
        },
    }
}

/// The first of `ranks` that holds a character that is not allowed, and the
/// first such character in it.
pub open spec fn first_refused(ranks: Seq<Seq<char>>) -> Option<(Seq<char>, char)>
    decreases ranks.len(),
{
    if ranks.len() == 0 {
        None
    } else {
        match first_refused(ranks.drop_last()) {
            Some(found) => Some(found),
            None => match rank_scan(ranks.last()).refused {
                Some(c) => Some((ranks.last(), c)),
                None => None,
            },
        }
    }
}

/// The first of `ranks` whose squares are not nine.
pub open spec fn first_misshapen(ranks: Seq<Seq<char>>) -> Option<Seq<char>>
    decreases ranks.len(),
{
    if ranks.len() == 0 {
        None
    } else {
        match first_misshapen(ranks.drop_last()) {
            Some(rank) => Some(rank),
            None => if rank_scan(ranks.last()).squares.len() == 9 {
                None
            } else {
                Some(ranks.last())
            },
        }
    }
}

/// What is wrong with a board field, as the part at fault and what is said
/// of it; `None` for a board of nine ranks of nine squares. A character that
/// is not allowed comes first, wherever it stands: the part is its rank.
/// Then the number of ranks: the part is the whole field. Then the first
/// rank whose squares are not nine.
pub open spec fn board_fault(ban: Seq<char>) -> Option<(Seq<char>, Seq<char>)> {
    let ranks = split_text(ban, '/');
    match first_refused(ranks) {
        Some((rank, c)) => Some((rank, refusal(c))),
        None => if ranks.len() != 9 {
            Some((ban, not_a_board(ban)))
        } else {
            match first_misshapen(ranks) {
                Some(rank) => Some((rank, not_a_rank(rank))),
                None => None,
            }
        },
    }
}

/// The squares of the ranks between the `/` of a board field, from the top.
pub open spec fn board_ranks(ban: Seq<char>) -> Seq<Seq<Koma>> {
    let ranks = split_text(ban, '/');
    Seq::new(ranks.len(), |i: int| rank_scan(ranks[i]).squares)
}

/// The nine ranks of nine squares of a board field, or what is said of its
/// fault.
pub open spec fn board_squares(ban: Seq<char>) -> Result<Seq<Seq<Koma>>, Seq<char>> {
    match board_fault(ban) {
        Some((_, msg)) => Err(msg),
        None => Ok(board_ranks(ban)),
    }
}

/// Where the reading of the pieces in hand stands: the pieces of each side
/// so far, the count that waits for the next piece letter (`None` if no
/// digit came), whether `-` ended the reading, and the first character that
/// was refused.
pub struct HandScan {
    pub sente: Seq<Tegoma>,
    pub gote: Seq<Tegoma>,
    pub count: Option<nat>,
    pub ended: bool,
    pub refused: Option<char>,
}

/// The count that a piece letter takes: the digits before it, or 1 if there
/// were none.
pub open spec fn hand_count(pending: Option<nat>) -> nat {
    match pending {
        Some(n) => n,
        None => 1,
    }
}

/// The count that waits once the digit `c` is read after `pending`.
pub open spec fn extended_count(pending: Option<nat>, c: char) -> nat {
    (match pending {
        Some(n) => n * 10,
        None => 0,
    } + digit_value(c)) as nat
}

/// Reads one more character of the pieces in hand. A digit `0`..`9` extends
/// the waiting count; a capital piece letter adds a piece of the first side
/// with that count, a small one a piece of the second side; `-` ends the
/// reading; every other character is refused, and so is a digit that takes
/// the count over `MAX_HAND_COUNT`. Nothing is read after `-` or after a
/// refusal.
pub open spec fn hand_step(state: HandScan, c: char) -> HandScan {
    if state.ended || state.refused is Some {
        state
    } else if is_digit(c) {
        if extended_count(state.count, c) > MAX_HAND_COUNT {
            HandScan { refused: Some(c), ..state }
        } else {
            HandScan { count: Some(extended_count(state.count, c)), ..state }
        }
    } else if is_piece_capital(c) {
        HandScan {
            sente: state.sente.push(
                Tegoma { koma: kind_of(c), num: hand_count(state.count) as usize },
            ),
            count: None,
            ..state
        }
    } else if is_piece_small(c) {
        HandScan {
            gote: state.gote.push(
                Tegoma { koma: kind_of(c), num: hand_count(state.count) as usize },
            ),
            count: None,
            ..state
        }
    } else if c == '-' {
        HandScan { ended: true, ..state }
    } else {
        HandScan { refused: Some(c), ..state }
    }
}

/// Reads the text of the pieces in hand from left to right.
pub open spec fn hand_scan(s: Seq<char>) -> HandScan
    decreases s.len(),
{
    if s.len() == 0 {
        HandScan {
            sente: Seq::empty(),
            gote: Seq::empty(),
            count: None,
            ended: false,
            refused: None,
        }
    } else {
        hand_step(hand_scan(s.drop_last()), s.last())
    }
}

/// The pieces in hand of the first and of the second side, in the order in
/// which they are written, or the refusal of the first character that is not
/// allowed.
pub open spec fn hand_pieces(s: Seq<char>) -> Result<(Seq<Tegoma>, Seq<Tegoma>), Seq<char>> {
    let scan = hand_scan(s);
    match scan.refused {
        Some(c) => Err(refusal(c)),
        None => Ok((scan.sente, scan.gote)),
    }
}

/// The sentence that tells whose turn it is, or who has won; an error that
/// names the code for every code but `b`, `w`, `fb` and `fw`.
pub open spec fn turn_text(code: Seq<char>) -> Result<Seq<char>, Seq<char>> {
    if code == "b"@ {
        Ok("先手の番です。"@)
    } else if code == "w"@ {
        Ok("後手の番です。"@)
    } else if code == "fb"@ {
        Ok("先手の勝ちです。"@)
    } else if code == "fw"@ {
        Ok("後手の勝ちです。"@)
    } else {
        Err(code + " is invalid teban expression."@)
    }
}

/// The move number that the fourth field gives.
pub open spec fn move_number(field: Seq<char>) -> int {
    match parse_i32_text(field) {
        Some(n) => n,
        None => UNKNOWN_MOVE_NUMBER as int,
    }
}

/// What a rank's reading gave, over sequences.
pub open spec fn rank_view(r: Result<Vec<Koma>, String>) -> Result<Seq<Koma>, Seq<char>> {
    match r {
        Ok(v) => Ok(v@),
        Err(e) => Err(e@),
    }
}

/// The ranks that `v` holds.
pub open spec fn ranks_view(v: Seq<Vec<Koma>>) -> Seq<Seq<Koma>> {
    v.map_values(|rank: Vec<Koma>| rank@)
}

/// What a board's reading gave, over sequences.
pub open spec fn board_view(r: Result<Vec<Vec<Koma>>, String>) -> Result<
    Seq<Seq<Koma>>,
    Seq<char>,
> {
    match r {
        Ok(v) => Ok(ranks_view(v@)),
        Err(e) => Err(e@),
    }
}

/// What the reading of the pieces in hand gave, over sequences.
pub open spec fn hand_view(r: Result<(Vec<Tegoma>, Vec<Tegoma>), String>) -> Result<
    (Seq<Tegoma>, Seq<Tegoma>),
    Seq<char>,
> {
    match r {
        Ok((sente, gote)) => Ok((sente@, gote@)),
        Err(e) => Err(e@),
    }
}

/// The line that closes the board of a text diagram above and below.
pub open spec fn dump_border() -> Seq<char> {
    "+---------------------------+\n"@
}

/// The first `n` squares of a rank, as a text diagram shows them.
pub open spec fn row_text(rank: Seq<Koma>, n: nat) -> Seq<char>
    decreases n,
{
    if n == 0 || n > rank.len() {
        Seq::empty()
    } else {
        row_text(rank, (n - 1) as nat) + koma_text(rank[n - 1])
    }
}

/// What a text diagram says of a part of the notation that cannot be read.
pub open spec fn dump_error(part: Seq<char>, msg: Seq<char>) -> Seq<char> {
    "error in ["@ + part + "]:"@ + msg
}

/// The lines of the first `n` ranks of a text diagram: each rank between two
/// bars, followed by its numeral.
pub open spec fn rows_text(board: Seq<Seq<Koma>>, n: nat) -> Seq<char>
    decreases n,
{
    if n == 0 || n > board.len() || n > 9 {
        Seq::empty()
    } else {
        (rows_text(board, (n - 1) as nat) + "|"@ + row_text(board[n - 1], board[n - 1].len())
            + "|"@).push(rank_labels()[n - 1]) + "\n"@
    }
}

/// The kanji and count of one piece in hand; a count over 18 is shown by
/// `??`.
pub open spec fn hand_piece_text(t: Tegoma) -> Seq<char> {
    match hand_text(t.koma, t.num as nat) {
        Ok(s) => s,
        Err(s) => s,
    }
}

/// The first `n` pieces in hand, one after the other.
pub open spec fn hand_pieces_text(pieces: Seq<Tegoma>, n: nat) -> Seq<char>
    decreases n,
{
    if n == 0 || n > pieces.len() {
        Seq::empty()
    } else {
        hand_pieces_text(pieces, (n - 1) as nat) + hand_piece_text(pieces[n - 1])
    }
}

/// What a text diagram says of one side's pieces in hand.
pub open spec fn hand_line(pieces: Seq<Tegoma>) -> Seq<char> {
    if pieces.len() == 0 {
        "なし"@
    } else {
        hand_pieces_text(pieces, pieces.len())
    }
}

/// The text diagram of a position: the second side's name and pieces in
/// hand, the board between two borders under the numbers of the files, the
/// first side's pieces in hand and name, then the move number with the
/// description of the last move (or, if there is none, the sentence for the
/// side to move) and the title. If the board or the pieces in hand cannot be
/// read, the text is an error that quotes the part; if the last line cannot
/// be made, the text is that error alone.
pub open spec fn dump_text(
    ban: Seq<char>,
    teban: Seq<char>,
    tegoma: Seq<char>,
    nteme: int,
    sn: Seq<char>,
    gn: Seq<char>,
    title: Seq<char>,
    lm: LastMoveModel,
) -> Seq<char> {
    match board_fault(ban) {
        Some((part, msg)) => dump_error(part, msg),
        None => match hand_pieces(tegoma) {
            Err(msg) => dump_error(tegoma, msg),
            Ok((sente, gote)) => {
                let res = "後手："@ + gn + "\n後手の持駒："@ + hand_line(gote) + "\n"@
                    + "  ９ ８ ７ ６ ５ ４ ３ ２ １\n"@ + dump_border() + rows_text(board_ranks(ban), 9)
                    + dump_border() + "先手の持駒："@ + hand_line(sente) + "\n先手："@ + sn + "\n"@;
                let last = if lm.is_ok() {
                    lm.describe()
                } else {
                    turn_text(teban)
                };
                match last {
                    Ok(msg) => res + "手数＝"@ + signed_decimal_text(nteme) + "　"@ + msg + "\n* "@
                        + title,
                    Err(msg) => msg,
                }
            },
        },
    }
}

fn refuse(c: char) -> (msg: String)
    ensures
        msg@ == refusal(c),
{
    let mut msg = char_text(c);
    msg.append(" is not allowed to use!!");
    msg
}

/// Reads the characters of one rank; the error is the first character that
/// is not allowed.
fn scan_rank(txt: &str) -> (r: Result<Vec<Koma>, char>)
    ensures
        match r {
            Ok(v) => rank_scan(txt@).refused is None && rank_scan(txt@).squares == v@,
            Err(c) => rank_scan(txt@).refused == Some(c),
        },
{
    let chars = chars_of(txt);
    let mut res: Vec<Koma> = Vec::new();
    let mut promote = Promotion::Unspecified;
    let mut i: usize = 0;
    while i < chars.len()
        invariant
            i <= chars.len(),
            chars@ == txt@,
            rank_scan(chars@.take(i as int)) == (RankScan {
                squares: res@,
                pending: promote,
                refused: None,
            }),
        decreases chars.len() - i,
    {
        let ch = chars[i];
        proof {
            assert(chars@.take(i + 1).drop_last() == chars@.take(i as int));
            assert(chars@.take(i + 1).last() == ch);
        }
        if ch >= '1' && ch <= '9' {
            let n: u32 = ch as u32 - 48;
            let blank = Koma::from('?', Promotion::Unspecified);
            let ghost before = res@;
            let mut k: u32 = 0;
            while k < n
                invariant
                    k <= n,
                    blank == blank_square(),
                    res@ == before + blank_squares(k as int),
                decreases n - k,
            {
                res.push(blank);
                assert(blank_squares(k + 1) == blank_squares(k as int).push(blank_square()));
                k += 1;
            }
        } else if is_capital_piece_letter(to_ascii_upper(ch)) {
            res.push(Koma::from(ch, promote));
            promote = Promotion::Unspecified;
        } else if ch == '+' {
            promote = Promotion::Promoted;
        } else {
            proof {
                lemma_rank_refused(txt@, i as int);
            }
            return Err(ch);
        }
        i += 1;
    }
    assert(chars@.take(chars.len() as int) == chars@);
    Ok(res)
}

fn rank_fault(txt: &str) -> (msg: String)
    ensures
        msg@ == not_a_rank(txt@),
{
    let mut msg = String::from_str(txt);
    msg.append(" does not have 9 squares.");
    msg
}

/// Reads one rank of the board.
pub fn extractdan(txt: &str) -> (r: Result<Vec<Koma>, String>)
    ensures
        rank_view(r) == rank_squares(txt@),
        r matches Ok(rank) ==> rank@.len() == 9,
{
    match scan_rank(txt) {
        Err(c) => Err(refuse(c)),
        Ok(rank) => if rank.len() == 9 {
            Ok(rank)
        } else {
            Err(rank_fault(txt))
        },
    }
}

/// Whether the board notation allows `c`: a digit `1`..`9`, a piece letter
/// in either case, or `+`.
pub open spec fn is_board_char(c: char) -> bool {
    is_count_digit(c) || is_piece_capital(ascii_upper(c)) || c == '+'
}

/// In a rank whose characters are all allowed, none is refused.
pub proof fn lemma_rank_allowed(s: Seq<char>)
    requires
        forall|j: int| 0 <= j < s.len() ==> is_board_char(#[trigger] s[j]),
    ensures
        rank_scan(s).refused is None,
    decreases s.len(),
{
    if s.len() > 0 {
        let init = s.drop_last();
        assert forall|j: int| 0 <= j < init.len() implies is_board_char(#[trigger] init[j]) by {
            assert(init[j] == s[j]);
        }
        lemma_rank_allowed(init);
        assert(is_board_char(s[s.len() - 1]));
    }
}

/// The error of a rank names its first character that is not allowed.
pub proof fn lemma_rank_names_first_refused(s: Seq<char>, i: int)
    requires
        0 <= i < s.len(),
        !is_board_char(s[i]),
        forall|j: int| 0 <= j < i ==> is_board_char(#[trigger] s[j]),
    ensures
        rank_squares(s) == Err::<Seq<Koma>, Seq<char>>(refusal(s[i])),
{
    let before = s.take(i);
    assert forall|j: int| 0 <= j < before.len() implies is_board_char(#[trigger] before[j]) by {
        assert(before[j] == s[j]);
    }
    lemma_rank_allowed(before);
    assert(s.take(i + 1).drop_last() == before);
    assert(s.take(i + 1).last() == s[i]);
    lemma_rank_refused(s, i);
}

/// Once a character of a rank is refused, the rest of the rank changes
/// nothing.
pub proof fn lemma_rank_refused(s: Seq<char>, i: int)
    requires
        0 <= i < s.len(),
        rank_scan(s.take(i + 1)).refused is Some,
    ensures
        rank_scan(s) == rank_scan(s.take(i + 1)),
    decreases s.len(),
{
    if i + 1 < s.len() {
        assert(s.drop_last().take(i + 1) == s.take(i + 1));
        lemma_rank_refused(s.drop_last(), i);
    } else {
        assert(s.take(i + 1) == s);
    }
}

/// If the rank at `i` holds a character that is not allowed and no rank
/// before it does, it is the first such rank.
pub proof fn lemma_first_refused_at(ranks: Seq<Seq<char>>, i: int)
    requires
        0 <= i < ranks.len(),
        first_refused(ranks.take(i)) is None,
        rank_scan(ranks[i]).refused is Some,
    ensures
        first_refused(ranks) == Some((ranks[i], rank_scan(ranks[i]).refused->Some_0)),
    decreases ranks.len(),
{
    if i + 1 < ranks.len() {
        assert(ranks.drop_last().take(i) == ranks.take(i));
        lemma_first_refused_at(ranks.drop_last(), i);
    } else {
        assert(ranks.drop_last() == ranks.take(i));
    }
}

/// If the squares of the rank at `i` are not nine and those of every rank
/// before it are, it is the first such rank.
pub proof fn lemma_first_misshapen_at(ranks: Seq<Seq<char>>, i: int)
    requires
        0 <= i < ranks.len(),
        first_misshapen(ranks.take(i)) is None,
        rank_scan(ranks[i]).squares.len() != 9,
    ensures
        first_misshapen(ranks) == Some(ranks[i]),
    decreases ranks.len(),
{
    if i + 1 < ranks.len() {
        assert(ranks.drop_last().take(i) == ranks.take(i));
        lemma_first_misshapen_at(ranks.drop_last(), i);
    } else {
        assert(ranks.drop_last() == ranks.take(i));
    }
}

/// Where no rank is misshapen, every rank has nine squares.
pub proof fn lemma_none_misshapen(ranks: Seq<Seq<char>>, i: int)
    requires
        0 <= i < ranks.len(),
        first_misshapen(ranks) is None,
    ensures
        rank_scan(ranks[i]).squares.len() == 9,
    decreases ranks.len(),
{
    if i + 1 < ranks.len() {
        lemma_none_misshapen(ranks.drop_last(), i);
    }
}

/// A board that is read has nine ranks of nine squares.
pub proof fn lemma_board_shape(ban: Seq<char>)
    ensures
        board_squares(ban) matches Ok(board) ==> board.len() == 9 && forall|i: int|
            0 <= i < 9 ==> (#[trigger] board[i]).len() == 9,
{
    if board_squares(ban) is Ok {
        let ranks = split_text(ban, '/');
        assert forall|i: int| 0 <= i < 9 implies (#[trigger] board_ranks(ban)[i]).len() == 9 by {
            lemma_none_misshapen(ranks, i);
        }
    }
}

/// Whether a board field allows `c`: what a rank allows, and `/`.
pub open spec fn is_field_char(c: char) -> bool {
    is_board_char(c) || c == '/'
}

/// The first character of a board field that is not allowed, if there is
/// one.
pub open spec fn refused_char(ban: Seq<char>) -> Option<char> {
    match first_refused(split_text(ban, '/')) {
        Some((_, c)) => Some(c),
        None => None,
    }
}

/// One more character at the end of a board field is the first that is not
/// allowed exactly if none before it was refused and it is not allowed.
pub proof fn lemma_refused_char_step(s: Seq<char>)
    requires
        s.len() > 0,
    ensures
        refused_char(s) == match refused_char(s.drop_last()) {
            Some(c) => Some(c),
            None => if is_field_char(s.last()) {
                None
            } else {
                Some(s.last())
            },
        },
{
    let before = split_text(s.drop_last(), '/');
    let after = split_text(s, '/');
    lemma_split_nonempty(s.drop_last(), '/');
    if s.last() == '/' {
        assert(after.drop_last() == before);
        assert(after.last() == Seq::<char>::empty());
    } else {
        let rank = before.last();
        assert(after.drop_last() == before.drop_last());
        assert(after.last() == rank.push(s.last()));
        assert(rank.push(s.last()).drop_last() == rank);
    }
}

/// Once a character of a board field is refused, the rest of the field
/// changes nothing.
pub proof fn lemma_refused_char_stays(s: Seq<char>, k: int)
    requires
        0 <= k <= s.len(),
        refused_char(s.take(k)) is Some,
    ensures
        refused_char(s) == refused_char(s.take(k)),
    decreases s.len(),
{
    if k < s.len() {
        assert(s.drop_last().take(k) == s.take(k));
        lemma_refused_char_stays(s.drop_last(), k);
        lemma_refused_char_step(s);
    } else {
        assert(s.take(k) == s);
    }
}

/// In a board field whose characters are all allowed, none is refused: such
/// a board is read unless its shape is wrong.
pub proof fn lemma_board_allowed(ban: Seq<char>)
    requires
        forall|j: int| 0 <= j < ban.len() ==> is_field_char(#[trigger] ban[j]),
    ensures
        refused_char(ban) is None,
        first_refused(split_text(ban, '/')) is None,
    decreases ban.len(),
{
    if ban.len() > 0 {
        let init = ban.drop_last();
        assert forall|j: int| 0 <= j < init.len() implies is_field_char(#[trigger] init[j]) by {
            assert(init[j] == ban[j]);
        }
        lemma_board_allowed(init);
        assert(is_field_char(ban[ban.len() - 1]));
        lemma_refused_char_step(ban);
    } else {
        let ranks = split_text(ban, '/');
        assert(ranks.drop_last().len() == 0);
        assert(first_refused(ranks.drop_last()) is None);
        assert(ranks.last().len() == 0);
    }
}

/// The error of a board field names its first character that is not
/// allowed, whatever else is wrong with the board.
pub proof fn lemma_board_names_first_refused(ban: Seq<char>, i: int)
    requires
        0 <= i < ban.len(),
        !is_field_char(ban[i]),
        forall|j: int| 0 <= j < i ==> is_field_char(#[trigger] ban[j]),
    ensures
        board_squares(ban) == Err::<Seq<Seq<Koma>>, Seq<char>>(refusal(ban[i])),
{
    let before = ban.take(i);
    assert forall|j: int| 0 <= j < before.len() implies is_field_char(#[trigger] before[j]) by {
        assert(before[j] == ban[j]);
    }
    lemma_board_allowed(before);
    assert(ban.take(i + 1).drop_last() == before);
    assert(ban.take(i + 1).last() == ban[i]);
    lemma_refused_char_step(ban.take(i + 1));
    lemma_refused_char_stays(ban, i + 1);
}

/// Once the reading of the pieces in hand has ended or refused a character,
/// the rest of the text changes nothing.
pub proof fn lemma_hand_stopped(s: Seq<char>, i: int)
    requires
        0 <= i <= s.len(),
        hand_scan(s.take(i)).refused is Some || hand_scan(s.take(i)).ended,
    ensures
        hand_scan(s) == hand_scan(s.take(i)),
    decreases s.len(),
{
    if i < s.len() {
        assert(s.drop_last().take(i) == s.take(i));
        lemma_hand_stopped(s.drop_last(), i);
    } else {
        assert(s.take(i) == s);
    }
}

impl Sfen {
    /// Takes a notation apart at its spaces. With four fields or more, the
    /// first three are kept as they are and the fourth is read as the move
    /// number (-1 if it is no number); with fewer, the result is the invalid
    /// position.
    pub fn new(text: &str) -> (s: Sfen)
        ensures
            ({
                let fields = split_text(text@, ' ');
                if fields.len() < 4 {
                    &&& s.ban@ == Seq::<char>::empty()
                    &&& s.teban@ == Seq::<char>::empty()
                    &&& s.tegoma@ == Seq::<char>::empty()
                    &&& s.nteme == INVALID_MOVE_NUMBER
                } else {
                    &&& s.ban@ == fields[0]
                    &&& s.teban@ == fields[1]
                    &&& s.tegoma@ == fields[2]
                    &&& s.nteme == move_number(fields[3])
                }
            }),
    {
        let e = split(text, ' ');
        if e.len() < 4 {
            return Sfen {
                ban: String::new(),
                teban: String::new(),
                tegoma: String::new(),
                nteme: INVALID_MOVE_NUMBER,
            };
        }
        let nteme = match parse_i32(e[3].as_str()) {
            Some(n) => n,
            None => UNKNOWN_MOVE_NUMBER,
        };
        Sfen { ban: e[0].clone(), teban: e[1].clone(), tegoma: e[2].clone(), nteme }
    }

    /// The sentence for the side to move.
    pub fn tebanexp(&self) -> (r: Result<String, String>)
        ensures
            result_text(r) == turn_text(self.teban@),
    {
        if same_text(self.teban.as_str(), "b") {
            return Ok(String::from_str("先手の番です。"));
        }
        if same_text(self.teban.as_str(), "w") {
            return Ok(String::from_str("後手の番です。"));
        }
        if same_text(self.teban.as_str(), "fb") {
            return Ok(String::from_str("先手の勝ちです。"));
        }
        if same_text(self.teban.as_str(), "fw") {
            return Ok(String::from_str("後手の勝ちです。"));
        }
        let mut msg = self.teban.clone();
        msg.append(" is invalid teban expression.");
        Err(msg)
    }

    /// Reads the board: the nine ranks between the `/` of the board field,
    /// from the top, each of nine squares from left to right.
    pub fn extractban(&self) -> (r: Result<Vec<Vec<Koma>>, String>)
        ensures
            board_view(r) == board_squares(self.ban@),
            r matches Ok(board) ==> board@.len() == 9 && forall|i: int|
                0 <= i < 9 ==> (#[trigger] board@[i])@.len() == 9,
    {
        match self.read_board() {
            Ok(board) => Ok(board),
            Err((_, msg)) => Err(msg),
        }
    }

    /// Reads the board; the error is the part of the board field at fault
    /// and what is said of it.
    fn read_board(&self) -> (r: Result<Vec<Vec<Koma>>, (String, String)>)
        ensures
            match r {
                Ok(board) => {
                    &&& board_fault(self.ban@) is None
                    &&& ranks_view(board@) == board_ranks(self.ban@)
                    &&& board@.len() == 9
                    &&& forall|i: int| 0 <= i < 9 ==> (#[trigger] board@[i])@.len() == 9
                },
                Err((part, msg)) => board_fault(self.ban@) == Some((part@, msg@)),
            },
    {
        let vdan = split(self.ban.as_str(), '/');
        let ghost ranks = texts(vdan@);
        let mut masus: Vec<Vec<Koma>> = Vec::new();
        let mut i: usize = 0;
        while i < vdan.len()
            invariant
                i <= vdan.len(),
                ranks == texts(vdan@),
                ranks == split_text(self.ban@, '/'),
                first_refused(ranks.take(i as int)) is None,
                masus.len() == i,
                forall|j: int|
                    0 <= j < i ==> (#[trigger] masus@[j])@ == rank_scan(ranks[j]).squares,
            decreases vdan.len() - i,
        {
            proof {
                assert(ranks[i as int] == vdan[i as int]@);
                assert(ranks.take(i + 1).drop_last() == ranks.take(i as int));
                assert(ranks.take(i + 1).last() == ranks[i as int]);
            }
            match scan_rank(vdan[i].as_str()) {
                Ok(rank) => {
                    masus.push(rank);
                },
                Err(c) => {
                    proof {
                        lemma_first_refused_at(ranks, i as int);
                    }
                    return Err((vdan[i].clone(), refuse(c)));
                },
            }
            i += 1;
        }
        assert(ranks.take(vdan.len() as int) == ranks);
        if vdan.len() != 9 {
            let mut msg = self.ban.clone();
            msg.append(" does not have 9 ranks.");
            return Err((self.ban.clone(), msg));
        }
        let mut i: usize = 0;
        while i < 9
            invariant
                i <= 9,
                vdan.len() == 9,
                masus.len() == 9,
                ranks == texts(vdan@),
                ranks == split_text(self.ban@, '/'),
                first_refused(ranks) is None,
                first_misshapen(ranks.take(i as int)) is None,
                forall|j: int|
                    0 <= j < 9 ==> (#[trigger] masus@[j])@ == rank_scan(ranks[j]).squares,
                forall|j: int| 0 <= j < i ==> (#[trigger] masus@[j])@.len() == 9,
            decreases 9 - i,
        {
            proof {
                assert(ranks[i as int] == vdan[i as int]@);
                assert(ranks.take(i + 1).drop_last() == ranks.take(i as int));
                assert(ranks.take(i + 1).last() == ranks[i as int]);
            }
            if masus[i].len() != 9 {
                proof {
                    lemma_first_misshapen_at(ranks, i as int);
                }
                return Err((vdan[i].clone(), rank_fault(vdan[i].as_str())));
            }
            i += 1;
        }
        assert(ranks.take(9) == ranks);
        assert(ranks_view(masus@) =~= board_ranks(self.ban@));
        Ok(masus)
    }

    /// Reads the pieces in hand of both sides.
    pub fn extracttegoma(&self) -> (r: Result<(Vec<Tegoma>, Vec<Tegoma>), String>)
        ensures
            hand_view(r) == hand_pieces(self.tegoma@),
    {
        let chars = chars_of(self.tegoma.as_str());
        let mut sentegoma: Vec<Tegoma> = Vec::new();
        let mut gotegoma: Vec<Tegoma> = Vec::new();
        let mut num: Option<u32> = None;
        let mut i: usize = 0;
        while i < chars.len()
            invariant
                i <= chars.len(),
                chars@ == self.tegoma@,
                hand_scan(chars@.take(i as int)) == (HandScan {
                    sente: sentegoma@,
                    gote: gotegoma@,
                    count: match num {
                        Some(n) => Some(n as nat),
                        None => None,
                    },
                    ended: false,
                    refused: None,
                }),
            decreases chars.len() - i,
        {
            let ch = chars[i];
            proof {
                assert(chars@.take(i + 1).drop_last() == chars@.take(i as int));
                assert(chars@.take(i + 1).last() == ch);
            }
            if ch >= '0' && ch <= '9' {
                let d: u32 = ch as u32 - 48;
                let pending: u32 = match num {
                    Some(n) => n,
                    None => 0,
                };
                if pending > (MAX_HAND_COUNT - d) / 10 {
                    proof {
                        lemma_hand_stopped(self.tegoma@, i + 1);
                    }
                    return Err(refuse(ch));
                }
                num = Some(pending * 10 + d);
            } else if is_capital_piece_letter(ch) {
                let n: u32 = match num {
                    Some(n) => n,
                    None => 1,
                };
                sentegoma.push(Tegoma::new(to_ascii_lower(ch), n as usize));
                num = None;
            } else if is_small_piece_letter(ch) {
                let n: u32 = match num {
                    Some(n) => n,
                    None => 1,
                };
                gotegoma.push(Tegoma::new(ch, n as usize));
                num = None;
            } else if ch == '-' {
                proof {
                    lemma_hand_stopped(self.tegoma@, i + 1);
                }
                return Ok((sentegoma, gotegoma));
            } else {
                proof {
                    lemma_hand_stopped(self.tegoma@, i + 1);
                }
                return Err(refuse(ch));
            }
            i += 1;
        }
        assert(chars@.take(chars.len() as int) == chars@);
        Ok((sentegoma, gotegoma))
    }

    /// The text diagram of the position. A move that is to be described must
    /// have reached a square with a name.
    pub fn dump(&self, sn: &str, gn: &str, title: &str, lm: LastMove) -> (text: String)
        requires
            board_squares(self.ban@) is Ok && hand_pieces(self.tegoma@) is Ok && lm@.is_ok()
                ==> lm@.on_board(),
        ensures
            text@ == dump_text(
                self.ban@,
                self.teban@,
                self.tegoma@,
                self.nteme as int,
                sn@,
                gn@,
                title@,
                lm@,
            ),
    {
        let board = match self.read_board() {
            Ok(board) => board,
            Err((part, msg)) => {
                return dump_error_text(part.as_str(), msg.as_str());
            },
        };
        let mut rows = String::new();
        let mut i: usize = 0;
        while i < 9
            invariant
                i <= 9,
                board@.len() == 9,
                rows@ == rows_text(ranks_view(board@), i as nat),
            decreases 9 - i,
        {
            assert(ranks_view(board@)[i as int] == board@[i as int]@);
            rows.append("|");
            let row = row_of(&board[i]);
            rows.append(row.as_str());
            rows.append("|");
            rows.push(rank_label_char(i));
            rows.append("\n");
            i += 1;
        }
        let (sentegoma, gotegoma) = match self.extracttegoma() {
            Ok(hands) => hands,
            Err(msg) => {
                return dump_error_text(self.tegoma.as_str(), msg.as_str());
            },
        };
        let last = if lm.is_ok() {
            lm.to_string()
        } else {
            self.tebanexp()
        };
        let msg = match last {
            Ok(msg) => msg,
            Err(msg) => {
                return msg;
            },
        };
        let mut res = String::from_str("後手：");
        res.append(gn);
        res.append("\n後手の持駒：");
        res.append(hand_line_of(&gotegoma).as_str());
        res.append("\n");
        res.append("  ９ ８ ７ ６ ５ ４ ３ ２ １\n");
        res.append("+---------------------------+\n");
        res.append(rows.as_str());
        res.append("+---------------------------+\n");
        res.append("先手の持駒：");
        res.append(hand_line_of(&sentegoma).as_str());
        res.append("\n先手：");
        res.append(sn);
        res.append("\n");
        res.append("手数＝");
        res.append(signed_decimal(self.nteme).as_str());
        res.append("　");
        res.append(msg.as_str());
        res.append("\n* ");
        res.append(title);
        res
    }
}

fn dump_error_text(part: &str, msg: &str) -> (text: String)
    ensures
        text@ == dump_error(part@, msg@),
{
    let mut text = String::from_str("error in [");
    text.append(part);
    text.append("]:");
    text.append(msg);
    text
}

/// The squares of a rank, as a text diagram shows them.
fn row_of(rank: &Vec<Koma>) -> (s: String)
    ensures
        s@ == row_text(rank@, rank@.len()),
{
    let mut s = String::new();
    let mut i: usize = 0;
    while i < rank.len()
        invariant
            i <= rank.len(),
            s@ == row_text(rank@, i as nat),
        decreases rank.len() - i,
    {
        s.append(rank[i].to_string().as_str());
        i += 1;
    }
    s
}

/// What a text diagram says of one side's pieces in hand.
fn hand_line_of(pieces: &Vec<Tegoma>) -> (s: String)
    ensures
        s@ == hand_line(pieces@),
{
    if pieces.len() == 0 {
        return String::from_str("なし");
    }
    let mut s = String::new();
    let mut i: usize = 0;
    while i < pieces.len()
        invariant
            i <= pieces.len(),
            s@ == hand_pieces_text(pieces@, i as nat),
        decreases pieces.len() - i,
    {
        let part = match pieces[i].to_kanji() {
            Ok(part) => part,
            Err(part) => part,
        };
        s.append(part.as_str());
        i += 1;
    }
    s
}

/// The small form of a capital piece letter: the letter 32 places further
/// on, which stands for the same kind of piece.
fn to_ascii_lower(c: char) -> (r: char)
    requires
        is_piece_capital(c),
    ensures
        r == crate::text::ascii_lower(c),
        is_piece_small(r),
        kind_of(r) == kind_of(c),
{
    let code: u32 = c as u32 + 32;
    code as u8 as char
}

} // verus!
