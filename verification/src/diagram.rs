//! The diagram of a position: a document tree with the board, the pieces in
//! hand, the names of the two sides, a title and a mark for the side to move.
//!
//! The canvas is 260 by 275, a square of the board is 20 by 20, and the board
//! stands at (35, 65). Each part of the diagram is stated as an `Element`;
//! the functions that build the parts are proved to build exactly these.

use crate::koma::{glyph, rank_label_char, rank_labels, Koma, Promotion, Teban, Tegoma};
use crate::sfen::{
    board_squares, hand_pieces, ranks_view, Sfen,
};
use crate::svgbuilder::{svg_root, Attrib, Element, Tag, SVG};
use crate::text::{char_text, decimal, decimal_text, same_text};
use vstd::prelude::*;

verus! {

/// The text `translate(x<sep>y)`.
pub open spec fn translate(x: nat, sep: Seq<char>, y: nat) -> Seq<char> {
    "translate("@ + decimal_text(x) + sep + decimal_text(y) + ")"@
}

/// Whether `(file, rank)` names a square of the board: both in `1..=9`.
pub open spec fn is_square(pos: (usize, usize)) -> bool {
    1 <= pos.0 <= 9 && 1 <= pos.1 <= 9
}

/// The yellow square that marks where the last move ended. Files count from
/// the right, ranks from the top.
pub open spec fn lastmove_mark(suji: nat, dan: nat) -> Element {
    Element::new("g"@).attr("id"@, "lastmove"@).attr(
        "transform"@,
        translate((180 - suji * 20) as nat, ", "@, (dan * 20 - 20) as nat),
    ).child(
        Element::new("rect"@).attr("x"@, "0"@).attr("y"@, "0"@).attr("width"@, "20"@).attr(
            "height"@,
            "20"@,
        ).attr("fill"@, "#FF4"@),
    )
}

/// The text node of a piece on the board, before it is placed.
pub open spec fn piece_text() -> Element {
    Element::new("text"@).attr("font-size"@, "18px"@).attr("text-anchor"@, "middle"@)
}

/// The node of the piece `k` in column `x` and row `y`, counted from 0;
/// `None` for an empty square, which is one without a kind or without a
/// side. A piece of the first side stands upright; one of the second side is
/// turned by 180 degrees inside a node of its own.
pub open spec fn piece_mark(k: Koma, x: nat, y: nat) -> Option<Element> {
    if k.is_empty() {
        None
    } else {
        let cell = Element::new("g"@).attr("transform"@, translate(x * 20, ","@, y * 20));
        let kanji = glyph(k.koma, k.promotion == Promotion::Promoted);
        if k.teban == Teban::Sente {
            Some(cell.child(piece_text().attr("x"@, "10"@).attr("y"@, "17"@).text(kanji)))
        } else {
            Some(
                cell.child(
                    Element::new("g"@).attr("transform"@, "translate(10,10) rotate(180)"@).child(
                        piece_text().attr("x"@, "0"@).attr("y"@, "6"@).text(kanji),
                    ),
                ),
            )
        }
    }
}

/// The nodes of the pieces among the first `n` squares of a rank, from the
/// left.
pub open spec fn rank_marks(rank: Seq<Koma>, n: nat) -> Seq<Element>
    decreases n,
{
    if n == 0 || n > rank.len() {
        Seq::empty()
    } else {
        let before = rank_marks(rank, (n - 1) as nat);
        match piece_mark(rank[n - 1], (n - 1) as nat, 0) {
            Some(mark) => before.push(mark),
            None => before,
        }
    }
}

/// The empty node of the rank with index `i`, counted from 0 at the top.
pub open spec fn rank_group(i: nat) -> Element {
    Element::new("g"@).attr("id"@, "dan"@ + decimal_text(i + 1)).attr(
        "transform"@,
        "translate(0,"@ + decimal_text(i * 20) + ")"@,
    )
}

/// The nodes of the first `n` ranks of a board, from the top. A rank without
/// a piece has no node.
pub open spec fn board_groups(board: Seq<Seq<Koma>>, n: nat) -> Seq<Element>
    decreases n,
{
    if n == 0 || n > board.len() {
        Seq::empty()
    } else {
        let before = board_groups(board, (n - 1) as nat);
        let marks = rank_marks(board[n - 1], board[n - 1].len());
        if marks.len() > 0 {
            before.push(rank_group((n - 1) as nat).with_children(marks))
        } else {
            before
        }
    }
}

/// One of the outlined rectangles that draw the lines of the board.
pub open spec fn grid_rect(
    fixed: Seq<char>,
    width: Seq<char>,
    height: Seq<char>,
    moving: Seq<char>,
    at: nat,
) -> Element {
    Element::new("rect"@).attr(fixed, "0"@).attr("width"@, width).attr("height"@, height).attr(
        "fill"@,
        "none"@,
    ).attr("stroke"@, "black"@).attr("stroke-width"@, "1"@).attr(moving, decimal_text(at))
}

/// The full-width digits of the files, from the left of the board.
pub open spec fn file_labels() -> Seq<char> {
    seq!['９', '８', '７', '６', '５', '４', '３', '２', '１']
}

/// The label of the file with index `i` from the left.
pub open spec fn file_label(i: nat) -> Element {
    Element::new("text"@).attr("y"@, "0"@).attr("font-size"@, "10px"@).attr(
        "text-anchor"@,
        "middle"@,
    ).attr("x"@, decimal_text(i * 20 + 10)).text(seq![file_labels()[i as int]])
}

/// The label of the rank with index `i` from the top.
pub open spec fn rank_label(i: nat) -> Element {
    Element::new("text"@).attr("x"@, "0"@).attr("font-size"@, "10px"@).attr(
        "text-anchor"@,
        "left"@,
    ).attr("y"@, decimal_text(i * 20 + 13)).text(seq![rank_labels()[i as int]])
}

/// The frame of the board: the outline, four rectangles each for the
/// horizontal and the vertical lines, the labels of the nine files above
/// the board and those of the nine ranks to its right.
pub open spec fn border_element() -> Element {
    Element::new("g"@).attr("id"@, "ban"@).child(
        Element::new("rect"@).attr("x"@, "0"@).attr("y"@, "0"@).attr("width"@, "180"@).attr(
            "height"@,
            "180"@,
        ).attr("fill"@, "none"@).attr("stroke"@, "black"@).attr("stroke-width"@, "2"@),
    ).with_children(
        Seq::new(4, |i: int| grid_rect("x"@, "180"@, "20"@, "y"@, (i * 40 + 20) as nat)),
    ).with_children(
        Seq::new(4, |i: int| grid_rect("y"@, "20"@, "180"@, "x"@, (i * 40 + 20) as nat)),
    ).child(
        Element::new("g"@).attr("transform"@, "translate(0,-5)"@).with_children(
            Seq::new(9, |i: int| file_label(i as nat)),
        ),
    ).child(
        Element::new("g"@).attr("transform"@, "translate(183,0)"@).with_children(
            Seq::new(9, |i: int| rank_label(i as nat)),
        ),
    )
}

/// The node of the board: the mark of the last move if there is one, the
/// frame, and the ranks that hold a piece.
pub open spec fn board_element(board: Seq<Seq<Koma>>, lastmove: Option<(usize, usize)>) -> Element {
    let base = Element::new("g"@).attr("id"@, "board"@).attr("transform"@, "translate(35,65)"@);
    let marked = match lastmove {
        Some(pos) => base.child(lastmove_mark(pos.0 as nat, pos.1 as nat)),
        None => base,
    };
    marked.child(border_element()).with_children(board_groups(board, board.len()))
}

/// The node of the board that a board field gives, or the error of reading
/// it.
pub open spec fn board_diagram(ban: Seq<char>, lastmove: Option<(usize, usize)>) -> Result<
    Element,
    Seq<char>,
> {
    match board_squares(ban) {
        Ok(board) => Ok(board_element(board, lastmove)),
        Err(e) => Err(e),
    }
}

/// The kanji of a piece in hand, at height `y`.
pub open spec fn hand_label(t: Tegoma, y: nat) -> Element {
    Element::new("text"@).attr("x"@, "0"@).attr("font-size"@, "16px"@).attr(
        "text-anchor"@,
        "middle"@,
    ).attr("y"@, decimal_text(y)).text(glyph(t.koma, false))
}

/// The count of a piece in hand, at height `y`.
pub open spec fn hand_number(t: Tegoma, y: nat) -> Element {
    Element::new("text"@).attr("x"@, "8"@).attr("font-size"@, "12px"@).attr(
        "text-anchor"@,
        "left"@,
    ).attr("y"@, decimal_text(y)).text(decimal_text(t.num as nat))
}

/// The nodes of the first `n` pieces in hand, from the top: the kanji of
/// each, 20 lower than the one before, followed by its count if that is
/// more than one.
pub open spec fn hand_marks(pieces: Seq<Tegoma>, n: nat) -> Seq<Element>
    decreases n,
{
    if n == 0 || n > pieces.len() {
        Seq::empty()
    } else {
        let before = hand_marks(pieces, (n - 1) as nat);
        let t = pieces[n - 1];
        let with_label = before.push(hand_label(t, n * 20));
        if t.num > 1 {
            with_label.push(hand_number(t, n * 20))
        } else {
            with_label
        }
    }
}

/// The node of one side's pieces in hand: a small piece-shaped mark, filled
/// with `fill`, and the pieces below it.
pub open spec fn hand_element(
    id: Seq<char>,
    place: Seq<char>,
    fill: Seq<char>,
    pieces: Seq<Tegoma>,
) -> Element {
    Element::new("g"@).attr("id"@, id).attr("transform"@, place).child(
        Element::new("g"@).attr("transform"@, "translate(0,-7)"@).child(
            Element::new("polygon"@).attr("points"@, "0,-5 4,-4 5,5 -5,5 -4,-4"@).attr(
                "fill"@,
                fill,
            ).attr("stroke"@, "black"@),
        ),
    ).with_children(hand_marks(pieces, pieces.len()))
}

/// The pieces in hand of the first side, to the right of the board.
pub open spec fn sente_hand(pieces: Seq<Tegoma>) -> Element {
    hand_element("stegoma"@, "translate(239,75)"@, "black"@, pieces)
}

/// The pieces in hand of the second side, to the left of the board.
pub open spec fn gote_hand(pieces: Seq<Tegoma>) -> Element {
    hand_element("gtegoma"@, "translate(9,75)"@, "none"@, pieces)
}

/// The two nodes of the pieces in hand that a hand field gives, first side
/// first, or the error of reading it.
pub open spec fn hand_diagram(tegoma: Seq<char>) -> Result<(Element, Element), Seq<char>> {
    match hand_pieces(tegoma) {
        Ok((sente, gote)) => Ok((sente_hand(sente), gote_hand(gote))),
        Err(e) => Err(e),
    }
}

/// The piece-shaped mark that stands beside a name.
pub open spec fn name_mark(fill: Seq<char>) -> Element {
    Element::new("polygon"@).attr("points"@, "10,0 18,2 20,20 0,20 2,2"@).attr("fill"@, fill).attr(
        "stroke"@,
        "black"@,
    ).attr("stroke-width"@, "1"@)
}

/// A line of text that starts at `x` or is centred there, and is cut to
/// `width`.
pub open spec fn text_line(
    x: Seq<char>,
    anchor: Seq<char>,
    width: Seq<char>,
    value: Seq<char>,
) -> Element {
    Element::new("text"@).attr("x"@, x).attr("y"@, "15"@).attr("font-size"@, "16px"@).attr(
        "text-anchor"@,
        anchor,
    ).attr("width"@, width).attr("text-overflow"@, "ellipsis"@).text(value)
}

/// The node of the first side's name, below the board: a black mark at the
/// right, and the name if there is one.
pub open spec fn sente_name(name: Seq<char>) -> Element {
    let mark = Element::new("g"@).attr("id"@, "sname"@).attr("transform"@, "translate(5,250)"@).child(
        Element::new("g"@).attr("transform"@, "translate(230,0)"@).child(name_mark("black"@)),
    );
    if name.len() == 0 {
        mark
    } else {
        mark.child(text_line("0"@, "left"@, "230px"@, name))
    }
}

/// The node of the second side's name, above the board: an outlined mark at
/// the left, and the name if there is one.
pub open spec fn gote_name(name: Seq<char>) -> Element {
    let mark = Element::new("g"@).attr("id"@, "gname"@).attr("transform"@, "translate(5,25)"@).child(
        name_mark("none"@),
    );
    if name.len() == 0 {
        mark
    } else {
        mark.child(text_line("25"@, "left"@, "230px"@, name))
    }
}

/// The node of the title, centred at the top; none for an empty title.
pub open spec fn title_element(title: Seq<char>) -> Option<Element> {
    if title.len() == 0 {
        None
    } else {
        Some(
            Element::new("g"@).attr("id"@, "title"@).child(
                text_line("130"@, "middle"@, "260px"@, title),
            ),
        )
    }
}

/// The square mark behind the name of the side to move.
pub open spec fn turn_mark() -> Element {
    Element::new("rect"@).attr("x"@, "0"@).attr("y"@, "0"@).attr("width"@, "30"@).attr(
        "height"@,
        "30"@,
    ).attr("fill"@, "#F3C"@).attr("stroke"@, "none"@)
}

/// The notched mark behind the name of the side that has won.
pub open spec fn winner_mark() -> Element {
    Element::new("rect"@).attr("points"@, "15,0 22.5,5 30,0 30,30 0,30 0,0 7.5,5"@).attr(
        "fill"@,
        "#F3C"@,
    ).attr("stroke"@, "none"@)
}

/// The node that marks the side to move (`b` the first side, `w` the
/// second) or the side that has won (`fb`, `fw`); none for any other code.
pub open spec fn turn_element(code: Seq<char>) -> Option<Element> {
    let base = Element::new("g"@).attr("id"@, "teban"@);
    if code == "w"@ {
        Some(base.attr("transform"@, "translate(0,20)"@).child(turn_mark()))
    } else if code == "b"@ {
        Some(base.attr("transform"@, "translate(230,245)"@).child(turn_mark()))
    } else if code == "fw"@ {
        Some(base.attr("transform"@, "translate(30,20)"@).child(winner_mark()))
    } else if code == "fb"@ {
        Some(base.attr("transform"@, "translate(0,245)"@).child(winner_mark()))
    } else {
        None
    }
}

/// `e` with `node` as its last child, if there is a node.
pub open spec fn with_optional(e: Element, node: Option<Element>) -> Element {
    match node {
        Some(n) => e.child(n),
        None => e,
    }
}

/// The whole diagram of a position: under the root, one group that holds the
/// title, the mark of the side to move, the two names, the board and the
/// pieces in hand of the first and of the second side, in this order. If the
/// board cannot be read the result is its error, else if the pieces in hand
/// cannot be read, theirs.
pub open spec fn diagram(
    ban: Seq<char>,
    teban: Seq<char>,
    tegoma: Seq<char>,
    lastmove: Option<(usize, usize)>,
    sname: Seq<char>,
    gname: Seq<char>,
    title: Seq<char>,
) -> Result<Element, Seq<char>> {
    let top = with_optional(
        with_optional(Element::new("g"@), title_element(title)),
        turn_element(teban),
    ).child(sente_name(sname)).child(gote_name(gname));
    match board_diagram(ban, lastmove) {
        Err(e) => Err(e),
        Ok(board) => match hand_diagram(tegoma) {
            Err(e) => Err(e),
            Ok((sente, gote)) => Ok(svg_root().child(top.child(board).child(sente).child(gote))),
        },
    }
}

/// What building a node gave, over mathematical values.
pub open spec fn tag_view(r: Result<Tag, String>) -> Result<Element, Seq<char>> {
    match r {
        Ok(t) => Ok(t@),
        Err(e) => Err(e@),
    }
}

/// What building two nodes gave, over mathematical values.
pub open spec fn tags_view(r: Result<(Tag, Tag), String>) -> Result<(Element, Element), Seq<char>> {
    match r {
        Ok((a, b)) => Ok((a@, b@)),
        Err(e) => Err(e@),
    }
}

/// What building a document gave, over mathematical values.
pub open spec fn svg_view(r: Result<SVG, String>) -> Result<Element, Seq<char>> {
    match r {
        Ok(svg) => Ok(svg.tag@),
        Err(e) => Err(e@),
    }
}

/// What building a node that may be left out gave.
pub open spec fn optional_view(t: Option<Tag>) -> Option<Element> {
    match t {
        Some(t) => Some(t@),
        None => None,
    }
}

/// Adding a child after a run of children is adding to the run.
pub proof fn lemma_with_children_push(e: Element, nodes: Seq<Element>, node: Element)
    ensures
        e.with_children(nodes).child(node) == e.with_children(nodes.push(node)),
{
    assert(e.with_children(nodes).child(node).children =~= e.with_children(
        nodes.push(node),
    ).children);
}

/// Adding no children changes nothing.
pub proof fn lemma_with_no_children(e: Element)
    ensures
        e.with_children(Seq::empty()) == e,
{
    assert(e.with_children(Seq::empty()).children =~= e.children);
}

fn translate_text(x: u128, sep: &str, y: u128) -> (s: String)
    ensures
        s@ == translate(x as nat, sep@, y as nat),
{
    let mut s = String::from_str("translate(");
    s.append(decimal(x).as_str());
    s.append(sep);
    s.append(decimal(y).as_str());
    s.append(")");
    s
}

fn build_grid_rect(fixed: &str, width: &str, height: &str, moving: &str, at: u128) -> (t: Tag)
    ensures
        t@ == grid_rect(fixed@, width@, height@, moving@, at as nat),
{
    let mut rect = Tag::new("rect");
    rect.newattrib(fixed, "0");
    rect.newattrib("width", width);
    rect.newattrib("height", height);
    rect.newattrib("fill", "none");
    rect.newattrib("stroke", "black");
    rect.newattrib("stroke-width", "1");
    rect.addattrib(Attrib::new(moving, decimal(at)));
    rect
}

fn build_name_mark(fill: &str) -> (t: Tag)
    ensures
        t@ == name_mark(fill@),
{
    let mut pl = Tag::new("polygon");
    pl.newattrib("points", "10,0 18,2 20,20 0,20 2,2");
    pl.newattrib("fill", fill);
    pl.newattrib("stroke", "black");
    pl.newattrib("stroke-width", "1");
    pl
}

fn build_text_line(x: &str, anchor: &str, width: &str, value: String) -> (t: Tag)
    ensures
        t@ == text_line(x@, anchor@, width@, value@),
{
    let mut txt = Tag::new("text");
    txt.newattrib("x", x);
    txt.newattrib("y", "15");
    txt.newattrib("font-size", "16px");
    txt.newattrib("text-anchor", anchor);
    txt.newattrib("width", width);
    txt.newattrib("text-overflow", "ellipsis");
    txt.value = value;
    txt
}

fn build_turn_mark() -> (t: Tag)
    ensures
        t@ == turn_mark(),
{
    let mut mark = Tag::new("rect");
    mark.newattrib("x", "0");
    mark.newattrib("y", "0");
    mark.newattrib("width", "30");
    mark.newattrib("height", "30");
    mark.newattrib("fill", "#F3C");
    mark.newattrib("stroke", "none");
    mark
}

fn build_winner_mark() -> (t: Tag)
    ensures
        t@ == winner_mark(),
{
    let mut mark = Tag::new("rect");
    mark.newattrib("points", "15,0 22.5,5 30,0 30,30 0,30 0,0 7.5,5");
    mark.newattrib("fill", "#F3C");
    mark.newattrib("stroke", "none");
    mark
}

fn file_label_char(i: usize) -> (c: char)
    requires
        i < 9,
    ensures
        c == file_labels()[i as int],
{
    if i == 0 {
        '９'
    } else if i == 1 {
        '８'
    } else if i == 2 {
        '７'
    } else if i == 3 {
        '６'
    } else if i == 4 {
        '５'
    } else if i == 5 {
        '４'
    } else if i == 6 {
        '３'
    } else if i == 7 {
        '２'
    } else {
        '１'
    }
}

/// Builds the node of a piece on the board.
pub fn komatag(k: &Koma, x: usize, y: usize) -> (t: Option<Tag>)
    ensures
        optional_view(t) == piece_mark(*k, x as nat, y as nat),
{
    if k.is_blank() || !(k.is_sente() || k.is_gote()) {
        return None;
    }
    let mut kt = Tag::new("g");
    kt.addattrib(Attrib::new("transform", translate_text(x as u128 * 20, ",", y as u128 * 20)));
    let mut tag = Tag::new("text");
    tag.newattrib("font-size", "18px");
    tag.newattrib("text-anchor", "middle");
    if k.is_sente() {
        tag.newattrib("x", "10");
        tag.newattrib("y", "17");
        tag.value = k.koma.to_string(k.promotion);
        kt.addchild(tag);
        return Some(kt);
    }
    let mut gote = Tag::new("g");
    gote.newattrib("transform", "translate(10,10) rotate(180)");
    tag.newattrib("x", "0");
    tag.newattrib("y", "6");
    tag.value = k.koma.to_string(k.promotion);
    gote.addchild(tag);
    kt.addchild(gote);
    Some(kt)
}

/// Builds the frame of the board.
pub fn banborder() -> (t: Tag)
    ensures
        t@ == border_element(),
{
    let mut ret = Tag::new("g");
    ret.newattrib("id", "ban");
    let mut rect = Tag::new("rect");
    rect.newattrib("x", "0");
    rect.newattrib("y", "0");
    rect.newattrib("width", "180");
    rect.newattrib("height", "180");
    rect.newattrib("fill", "none");
    rect.newattrib("stroke", "black");
    rect.newattrib("stroke-width", "2");
    ret.addchild(rect);
    let ghost framed = ret@;

    let ghost horizontal = |i: int| grid_rect("x"@, "180"@, "20"@, "y"@, (i * 40 + 20) as nat);
    proof {
        lemma_with_no_children(framed);
    }
    let mut i: usize = 0;
    while i < 4
        invariant
            i <= 4,
            horizontal == |i: int| grid_rect("x"@, "180"@, "20"@, "y"@, (i * 40 + 20) as nat),
            ret@ == framed.with_children(Seq::new(i as nat, horizontal)),
        decreases 4 - i,
    {
        let rect = build_grid_rect("x", "180", "20", "y", i as u128 * 40 + 20);
        proof {
            lemma_with_children_push(framed, Seq::new(i as nat, horizontal), rect@);
            assert(Seq::new(i as nat, horizontal).push(rect@) == Seq::new(
                (i + 1) as nat,
                horizontal,
            ));
        }
        ret.addchild(rect);
        i += 1;
    }
    let ghost lined = ret@;

    let ghost vertical = |i: int| grid_rect("y"@, "20"@, "180"@, "x"@, (i * 40 + 20) as nat);
    proof {
        lemma_with_no_children(lined);
    }
    let mut i: usize = 0;
    while i < 4
        invariant
            i <= 4,
            vertical == |i: int| grid_rect("y"@, "20"@, "180"@, "x"@, (i * 40 + 20) as nat),
            ret@ == lined.with_children(Seq::new(i as nat, vertical)),
        decreases 4 - i,
    {
        let rect = build_grid_rect("y", "20", "180", "x", i as u128 * 40 + 20);
        proof {
            lemma_with_children_push(lined, Seq::new(i as nat, vertical), rect@);
            assert(Seq::new(i as nat, vertical).push(rect@) == Seq::new((i + 1) as nat, vertical));
        }
        ret.addchild(rect);
        i += 1;
    }

    let mut suji = Tag::new("g");
    suji.newattrib("transform", "translate(0,-5)");
    let ghost files = suji@;
    let ghost file = |i: int| file_label(i as nat);
    proof {
        lemma_with_no_children(files);
    }
    let mut i: usize = 0;
    while i < 9
        invariant
            i <= 9,
            file == |i: int| file_label(i as nat),
            suji@ == files.with_children(Seq::new(i as nat, file)),
        decreases 9 - i,
    {
        let mut txt = Tag::new("text");
        txt.newattrib("y", "0");
        txt.newattrib("font-size", "10px");
        txt.newattrib("text-anchor", "middle");
        txt.addattrib(Attrib::new("x", decimal(i as u128 * 20 + 10)));
        txt.value = char_text(file_label_char(i));
        proof {
            lemma_with_children_push(files, Seq::new(i as nat, file), txt@);
            assert(Seq::new(i as nat, file).push(txt@) == Seq::new((i + 1) as nat, file));
        }
        suji.addchild(txt);
        i += 1;
    }
    ret.addchild(suji);

    let mut dan = Tag::new("g");
    dan.newattrib("transform", "translate(183,0)");
    let ghost ranks = dan@;
    let ghost rank = |i: int| rank_label(i as nat);
    proof {
        lemma_with_no_children(ranks);
    }
    let mut i: usize = 0;
    while i < 9
        invariant
            i <= 9,
            rank == |i: int| rank_label(i as nat),
            dan@ == ranks.with_children(Seq::new(i as nat, rank)),
        decreases 9 - i,
    {
        let mut txt = Tag::new("text");
        txt.newattrib("x", "0");
        txt.newattrib("font-size", "10px");
        txt.newattrib("text-anchor", "left");
        txt.addattrib(Attrib::new("y", decimal(i as u128 * 20 + 13)));
        txt.value = char_text(rank_label_char(i));
        proof {
            lemma_with_children_push(ranks, Seq::new(i as nat, rank), txt@);
            assert(Seq::new(i as nat, rank).push(txt@) == Seq::new((i + 1) as nat, rank));
        }
        dan.addchild(txt);
        i += 1;
    }
    ret.addchild(dan);
    ret
}

fn build_hand(id: &str, place: &str, fill: &str, pieces: &Vec<Tegoma>) -> (t: Tag)
    ensures
        t@ == hand_element(id@, place@, fill@, pieces@),
{
    let mut st = Tag::new("g");
    st.newattrib("id", id);
    st.newattrib("transform", place);
    let mut tt = Tag::new("g");
    tt.newattrib("transform", "translate(0,-7)");
    let mut poly = Tag::new("polygon");
    poly.newattrib("points", "0,-5 4,-4 5,5 -5,5 -4,-4");
    poly.newattrib("fill", fill);
    poly.newattrib("stroke", "black");
    tt.addchild(poly);
    st.addchild(tt);
    let ghost base = st@;
    proof {
        lemma_with_no_children(base);
    }
    let mut i: usize = 0;
    while i < pieces.len()
        invariant
            i <= pieces.len(),
            st@ == base.with_children(hand_marks(pieces@, i as nat)),
        decreases pieces.len() - i,
    {
        let tgm = pieces[i];
        let y: u128 = (i as u128 + 1) * 20;
        let ghost before = hand_marks(pieces@, i as nat);
        let mut tag = Tag::new("text");
        tag.newattrib("x", "0");
        tag.newattrib("font-size", "16px");
        tag.newattrib("text-anchor", "middle");
        tag.addattrib(Attrib::new("y", decimal(y)));
        tag.value = tgm.koma.to_string(Promotion::Unspecified);
        proof {
            lemma_with_children_push(base, before, tag@);
        }
        st.addchild(tag);
        if tgm.num > 1 {
            let mut tag = Tag::new("text");
            tag.newattrib("x", "8");
            tag.newattrib("font-size", "12px");
            tag.newattrib("text-anchor", "left");
            tag.addattrib(Attrib::new("y", decimal(y)));
            tag.value = decimal(tgm.num as u128);
            proof {
                lemma_with_children_push(base, before.push(hand_label(tgm, y as nat)), tag@);
            }
            st.addchild(tag);
        }
        i += 1;
    }
    st
}

impl Sfen {
    /// Builds the mark of the square where the last move ended.
    pub fn build_lastmove(&self, suji: usize, dan: usize) -> (t: Tag)
        requires
            is_square((suji, dan)),
        ensures
            t@ == lastmove_mark(suji as nat, dan as nat),
    {
        let mut glm = Tag::new("g");
        glm.newattrib("id", "lastmove");
        glm.addattrib(
            Attrib::new(
                "transform",
                translate_text((180 - suji * 20) as u128, ", ", (dan * 20 - 20) as u128),
            ),
        );
        let mut rect = Tag::new("rect");
        rect.newattrib("x", "0");
        rect.newattrib("y", "0");
        rect.newattrib("width", "20");
        rect.newattrib("height", "20");
        rect.newattrib("fill", "#FF4");
        glm.addchild(rect);
        glm
    }

    /// Builds the node of the board, with the mark of the last move if one
    /// is given.
    pub fn buildboard(&self, lastmove: Option<(usize, usize)>) -> (r: Result<Tag, String>)
        requires
            lastmove matches Some(pos) ==> is_square(pos),
        ensures
            tag_view(r) == board_diagram(self.ban@, lastmove),
    {
        let ban = match self.extractban() {
            Ok(ban) => ban,
            Err(msg) => {
                return Err(msg);
            },
        };
        let ghost board = ranks_view(ban@);
        let mut gban = Tag::new("g");
        gban.newattrib("id", "board");
        gban.newattrib("transform", "translate(35,65)");
        match lastmove {
            Some(lm) => {
                let lm = self.build_lastmove(lm.0, lm.1);
                gban.addchild(lm);
            },
            None => {},
        }
        gban.addchild(banborder());
        let ghost framed = gban@;
        proof {
            lemma_with_no_children(framed);
        }
        let mut i: usize = 0;
        while i < ban.len()
            invariant
                i <= ban.len(),
                board == ranks_view(ban@),
                gban@ == framed.with_children(board_groups(board, i as nat)),
            decreases ban.len() - i,
        {
            let dan = &ban[i];
            assert(board[i as int] == dan@);
            let mut gdan = Tag::new("g");
            let mut id = String::from_str("dan");
            id.append(decimal(i as u128 + 1).as_str());
            gdan.addattrib(Attrib::new("id", id));
            let mut place = String::from_str("translate(0,");
            place.append(decimal(i as u128 * 20).as_str());
            place.append(")");
            gdan.addattrib(Attrib::new("transform", place));
            proof {
                lemma_with_no_children(rank_group(i as nat));
            }
            let mut j: usize = 0;
            while j < dan.len()
                invariant
                    j <= dan.len(),
                    gdan@ == rank_group(i as nat).with_children(rank_marks(dan@, j as nat)),
                decreases dan.len() - j,
            {
                match komatag(&dan[j], j, 0) {
                    Some(tag) => {
                        proof {
                            lemma_with_children_push(
                                rank_group(i as nat),
                                rank_marks(dan@, j as nat),
                                tag@,
                            );
                        }
                        gdan.addchild(tag);
                    },
                    None => {},
                }
                j += 1;
            }
            if gdan.has_child() {
                proof {
                    lemma_with_children_push(framed, board_groups(board, i as nat), gdan@);
                }
                gban.addchild(gdan);
            }
            i += 1;
        }
        Ok(gban)
    }

    /// Builds the nodes of the pieces in hand, first side first.
    pub fn buildtegoma(&self) -> (r: Result<(Tag, Tag), String>)
        ensures
            tags_view(r) == hand_diagram(self.tegoma@),
    {
        match self.extracttegoma() {
            Ok((sentegoma, gotegoma)) => {
                let st = build_hand("stegoma", "translate(239,75)", "black", &sentegoma);
                let gt = build_hand("gtegoma", "translate(9,75)", "none", &gotegoma);
                Ok((st, gt))
            },
            Err(msg) => Err(msg),
        }
    }

    /// Builds the node of the first side's name.
    pub fn build_sentename(&self, name: String) -> (t: Tag)
        ensures
            t@ == sente_name(name@),
    {
        let mut gs = Tag::new("g");
        gs.newattrib("id", "sname");
        gs.newattrib("transform", "translate(5,250)");
        let mut gp = Tag::new("g");
        gp.newattrib("transform", "translate(230,0)");
        gp.addchild(build_name_mark("black"));
        gs.addchild(gp);
        if name.as_str().unicode_len() == 0 {
            return gs;
        }
        gs.addchild(build_text_line("0", "left", "230px", name));
        gs
    }

    /// Builds the node of the second side's name.
    pub fn build_gotename(&self, name: String) -> (t: Tag)
        ensures
            t@ == gote_name(name@),
    {
        let mut gg = Tag::new("g");
        gg.newattrib("id", "gname");
        gg.newattrib("transform", "translate(5,25)");
        gg.addchild(build_name_mark("none"));
        if name.as_str().unicode_len() == 0 {
            return gg;
        }
        gg.addchild(build_text_line("25", "left", "230px", name));
        gg
    }

    /// Builds the node of the title, if there is a title.
    pub fn build_title(&self, title: String) -> (t: Option<Tag>)
        ensures
            optional_view(t) == title_element(title@),
    {
        if title.as_str().unicode_len() == 0 {
            return None;
        }
        let mut gt = Tag::new("g");
        gt.newattrib("id", "title");
        gt.addchild(build_text_line("130", "middle", "260px", title));
        Some(gt)
    }

    /// Builds the mark of the side to move, if the position names one.
    pub fn build_teban(&self) -> (t: Option<Tag>)
        ensures
            optional_view(t) == turn_element(self.teban@),
    {
        let mut gt = Tag::new("g");
        gt.newattrib("id", "teban");
        if same_text(self.teban.as_str(), "w") {
            gt.newattrib("transform", "translate(0,20)");
            gt.addchild(build_turn_mark());
        } else if same_text(self.teban.as_str(), "b") {
            gt.newattrib("transform", "translate(230,245)");
            gt.addchild(build_turn_mark());
        } else if same_text(self.teban.as_str(), "fw") {
            gt.newattrib("transform", "translate(30,20)");
            gt.addchild(build_winner_mark());
        } else if same_text(self.teban.as_str(), "fb") {
            gt.newattrib("transform", "translate(0,245)");
            gt.addchild(build_winner_mark());
        } else {
            return None;
        }
        Some(gt)
    }

    /// Builds the whole diagram of the position.
    pub fn to_svg(
        &self,
        lastmove: Option<(usize, usize)>,
        sname: String,
        gname: String,
        title: String,
    ) -> (r: Result<SVG, String>)
        requires
            lastmove matches Some(pos) ==> is_square(pos),
        ensures
            svg_view(r) == diagram(
                self.ban@,
                self.teban@,
                self.tegoma@,
                lastmove,
                sname@,
                gname@,
                title@,
            ),
    {
        let mut top = Tag::new("g");
        match self.build_title(title) {
            Some(ttl) => {
                top.addchild(ttl);
            },
            None => {},
        }
        match self.build_teban() {
            Some(tbn) => {
                top.addchild(tbn);
            },
            None => {},
        }
        top.addchild(self.build_sentename(sname));
        top.addchild(self.build_gotename(gname));
        match self.buildboard(lastmove) {
            Ok(tag) => {
                top.addchild(tag);
            },
            Err(msg) => {
                return Err(msg);
            },
        }
        match self.buildtegoma() {
            Ok((st, gt)) => {
                top.addchild(st);
                top.addchild(gt);
            },
            Err(msg) => {
                return Err(msg);
            },
        }
        let mut svg = SVG::new();
        svg.tag.addchild(top);
        Ok(svg)
    }
}

} // verus!
