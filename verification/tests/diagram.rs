use sfenimage::diagram::{banborder, komatag};
use sfenimage::koma::{Koma, KomaType, Promotion, Teban};
use sfenimage::lastmove::LastMove;
use sfenimage::sfen::Sfen;
use sfenimage::svgbuilder::{Tag, SVG};

const START: &str = "lnsgkgsnl/1r5b1/ppppppppp/9/9/9/PPPPPPPPP/1B5R1/LNSGKGSNL b - 1";

fn attr(tag: &Tag, name: &str) -> Option<String> {
    tag.attribs.iter().find(|a| a.name == name).map(|a| a.val.clone())
}

fn child_with_id(tag: &Tag, id: &str) -> Option<usize> {
    tag.children.iter().position(|c| attr(c, "id").as_deref() == Some(id))
}

fn count_named(tag: &Tag, name: &str) -> usize {
    let own = if tag.name == name { 1 } else { 0 };
    own + tag.children.iter().map(|c| count_named(c, name)).sum::<usize>()
}

#[test]
fn start_position_has_forty_pieces_and_first_side_to_move() {
    let svg = Sfen::new(START)
        .to_svg(None, String::new(), String::new(), String::new())
        .unwrap();
    assert_eq!(svg.tag.name, "svg");
    assert_eq!(svg.tag.children.len(), 1);
    let top = &svg.tag.children[0];
    assert_eq!(top.name, "g");
    let ids: Vec<Option<String>> = top.children.iter().map(|c| attr(c, "id")).collect();
    let expected = ["teban", "sname", "gname", "board", "stegoma", "gtegoma"];
    assert_eq!(ids.len(), expected.len());
    for (id, want) in ids.iter().zip(expected) {
        assert_eq!(id.as_deref(), Some(want));
    }

    let board = &top.children[child_with_id(top, "board").unwrap()];
    assert_eq!(attr(board, "transform").unwrap(), "translate(35,65)");
    assert_eq!(attr(&board.children[0], "id").unwrap(), "ban");
    let ranks = &board.children[1..];
    let rank_ids: Vec<String> = ranks.iter().map(|r| attr(r, "id").unwrap()).collect();
    assert_eq!(rank_ids, vec!["dan1", "dan2", "dan3", "dan7", "dan8", "dan9"]);
    let pieces: usize = ranks.iter().map(|r| r.children.len()).sum();
    assert_eq!(pieces, 40);
    let texts: usize = ranks.iter().map(|r| count_named(r, "text")).sum();
    assert_eq!(texts, 40);
    let turned = board.to_svg("").matches("rotate(180)").count();
    assert_eq!(turned, 20);

    let teban = &top.children[child_with_id(top, "teban").unwrap()];
    assert_eq!(teban.to_svg(""), "<g id=\"teban\" transform=\"translate(230,245)\">\n \
        <rect x=\"0\" y=\"0\" width=\"30\" height=\"30\" fill=\"#F3C\" stroke=\"none\"/>\n\
        </g>\n");
}

#[test]
fn turn_marks_for_every_code() {
    let mark = |code: &str| Sfen::new(&format!("9 {} - 1", code)).build_teban().map(|t| t.to_svg(""));
    let square = " <rect x=\"0\" y=\"0\" width=\"30\" height=\"30\" fill=\"#F3C\" stroke=\"none\"/>\n";
    let notched =
        " <rect points=\"15,0 22.5,5 30,0 30,30 0,30 0,0 7.5,5\" fill=\"#F3C\" stroke=\"none\"/>\n";
    assert_eq!(
        mark("w").unwrap(),
        format!("<g id=\"teban\" transform=\"translate(0,20)\">\n{}</g>\n", square)
    );
    assert_eq!(
        mark("b").unwrap(),
        format!("<g id=\"teban\" transform=\"translate(230,245)\">\n{}</g>\n", square)
    );
    assert_eq!(
        mark("fw").unwrap(),
        format!("<g id=\"teban\" transform=\"translate(30,20)\">\n{}</g>\n", notched)
    );
    assert_eq!(
        mark("fb").unwrap(),
        format!("<g id=\"teban\" transform=\"translate(0,245)\">\n{}</g>\n", notched)
    );
    assert_eq!(mark("d"), None);
    assert_eq!(mark("bw"), None);
    assert!(Sfen::new("").build_teban().is_none());
}

#[test]
fn last_move_mark_is_placed_by_file_and_rank() {
    let sfen = Sfen::new(START);
    let mark = " <rect x=\"0\" y=\"0\" width=\"20\" height=\"20\" fill=\"#FF4\"/>\n";
    assert_eq!(
        sfen.build_lastmove(7, 6).to_svg(""),
        format!("<g id=\"lastmove\" transform=\"translate(40, 100)\">\n{}</g>\n", mark)
    );
    assert_eq!(
        sfen.build_lastmove(9, 1).to_svg(""),
        format!("<g id=\"lastmove\" transform=\"translate(0, 0)\">\n{}</g>\n", mark)
    );
    assert_eq!(
        sfen.build_lastmove(1, 9).to_svg(""),
        format!("<g id=\"lastmove\" transform=\"translate(160, 160)\">\n{}</g>\n", mark)
    );
}

#[test]
fn board_with_last_move_starts_with_its_mark() {
    let lm = LastMove::read("7776FU").unwrap();
    let board = Sfen::new(START).buildboard(lm.topos()).unwrap();
    assert_eq!(attr(&board.children[0], "id").unwrap(), "lastmove");
    assert_eq!(attr(&board.children[0], "transform").unwrap(), "translate(40, 100)");
    assert_eq!(attr(&board.children[1], "id").unwrap(), "ban");
    assert_eq!(board.children.len(), 8);
    let board = Sfen::new(START).buildboard(None).unwrap();
    assert_eq!(board.children.len(), 7);
}

#[test]
fn pieces_are_placed_by_column() {
    let k = Koma::from('P', Promotion::Unspecified);
    assert_eq!(
        komatag(&k, 2, 0).unwrap().to_svg(""),
        "<g transform=\"translate(40,0)\">\n \
         <text font-size=\"18px\" text-anchor=\"middle\" x=\"10\" y=\"17\">歩</text>\n\
         </g>\n"
    );
    let k = Koma::from('r', Promotion::Promoted);
    assert_eq!(
        komatag(&k, 8, 3).unwrap().to_svg(""),
        "<g transform=\"translate(160,60)\">\n \
         <g transform=\"translate(10,10) rotate(180)\">\n  \
         <text font-size=\"18px\" text-anchor=\"middle\" x=\"0\" y=\"6\">龍</text>\n \
         </g>\n\
         </g>\n"
    );
    assert!(komatag(&Koma::from('1', Promotion::Unspecified), 0, 0).is_none());
    assert!(komatag(&Koma::from(' ', Promotion::Promoted), 4, 4).is_none());
}

#[test]
fn board_rank_groups() {
    let board = Sfen::new("9/4k4/9/9/9/9/9/9/9 b - 1").buildboard(None).unwrap();
    assert_eq!(board.children.len(), 2);
    assert_eq!(
        board.children[1].to_svg(""),
        "<g id=\"dan2\" transform=\"translate(0,20)\">\n \
         <g transform=\"translate(80,0)\">\n  \
         <g transform=\"translate(10,10) rotate(180)\">\n   \
         <text font-size=\"18px\" text-anchor=\"middle\" x=\"0\" y=\"6\">玉</text>\n  \
         </g>\n \
         </g>\n\
         </g>\n"
    );
}

#[test]
fn frame_of_the_board() {
    let frame = banborder();
    assert_eq!(attr(&frame, "id").unwrap(), "ban");
    assert_eq!(frame.children.len(), 11);
    assert_eq!(
        frame.children[0].to_svg(""),
        "<rect x=\"0\" y=\"0\" width=\"180\" height=\"180\" fill=\"none\" stroke=\"black\" \
         stroke-width=\"2\"/>\n"
    );
    for i in 0..4 {
        assert_eq!(
            frame.children[1 + i].to_svg(""),
            format!(
                "<rect x=\"0\" width=\"180\" height=\"20\" fill=\"none\" stroke=\"black\" \
                 stroke-width=\"1\" y=\"{}\"/>\n",
                i * 40 + 20
            )
        );
        assert_eq!(
            frame.children[5 + i].to_svg(""),
            format!(
                "<rect y=\"0\" width=\"20\" height=\"180\" fill=\"none\" stroke=\"black\" \
                 stroke-width=\"1\" x=\"{}\"/>\n",
                i * 40 + 20
            )
        );
    }
    let files = &frame.children[9];
    assert_eq!(attr(files, "transform").unwrap(), "translate(0,-5)");
    assert_eq!(files.children.len(), 9);
    for (i, ch) in "９８７６５４３２１".chars().enumerate() {
        assert_eq!(
            files.children[i].to_svg(""),
            format!(
                "<text y=\"0\" font-size=\"10px\" text-anchor=\"middle\" x=\"{}\">{}</text>\n",
                i * 20 + 10,
                ch
            )
        );
    }
    let ranks = &frame.children[10];
    assert_eq!(attr(ranks, "transform").unwrap(), "translate(183,0)");
    assert_eq!(ranks.children.len(), 9);
    for (i, ch) in "一二三四五六七八九".chars().enumerate() {
        assert_eq!(
            ranks.children[i].to_svg(""),
            format!(
                "<text x=\"0\" font-size=\"10px\" text-anchor=\"left\" y=\"{}\">{}</text>\n",
                i * 20 + 13,
                ch
            )
        );
    }
}

#[test]
fn pieces_in_hand_are_listed_from_the_top() {
    let (st, gt) = Sfen::new("9 b 2PLg 1").buildtegoma().unwrap();
    assert_eq!(
        st.to_svg(""),
        "<g id=\"stegoma\" transform=\"translate(239,75)\">\n \
         <g transform=\"translate(0,-7)\">\n  \
         <polygon points=\"0,-5 4,-4 5,5 -5,5 -4,-4\" fill=\"black\" stroke=\"black\"/>\n \
         </g>\n \
         <text x=\"0\" font-size=\"16px\" text-anchor=\"middle\" y=\"20\">歩</text>\n \
         <text x=\"8\" font-size=\"12px\" text-anchor=\"left\" y=\"20\">2</text>\n \
         <text x=\"0\" font-size=\"16px\" text-anchor=\"middle\" y=\"40\">香</text>\n\
         </g>\n"
    );
    assert_eq!(
        gt.to_svg(""),
        "<g id=\"gtegoma\" transform=\"translate(9,75)\">\n \
         <g transform=\"translate(0,-7)\">\n  \
         <polygon points=\"0,-5 4,-4 5,5 -5,5 -4,-4\" fill=\"none\" stroke=\"black\"/>\n \
         </g>\n \
         <text x=\"0\" font-size=\"16px\" text-anchor=\"middle\" y=\"20\">金</text>\n\
         </g>\n"
    );
    let (st, gt) = Sfen::new("9 b - 1").buildtegoma().unwrap();
    assert_eq!(st.children.len(), 1);
    assert_eq!(gt.children.len(), 1);
    let (st, _) = Sfen::new("9 b 19P 1").buildtegoma().unwrap();
    assert_eq!(st.children[2].value, "19");
}

#[test]
fn names_and_title() {
    let sfen = Sfen::new(START);
    let mark = "<polygon points=\"10,0 18,2 20,20 0,20 2,2\" fill=\"{}\" stroke=\"black\" \
                stroke-width=\"1\"/>\n";
    assert_eq!(
        sfen.build_sentename(String::new()).to_svg(""),
        format!(
            "<g id=\"sname\" transform=\"translate(5,250)\">\n \
             <g transform=\"translate(230,0)\">\n  {} </g>\n</g>\n",
            mark.replace("{}", "black")
        )
    );
    assert_eq!(
        sfen.build_sentename(String::from("先手")).to_svg(""),
        format!(
            "<g id=\"sname\" transform=\"translate(5,250)\">\n \
             <g transform=\"translate(230,0)\">\n  {} </g>\n \
             <text x=\"0\" y=\"15\" font-size=\"16px\" text-anchor=\"left\" width=\"230px\" \
             text-overflow=\"ellipsis\">先手</text>\n</g>\n",
            mark.replace("{}", "black")
        )
    );
    assert_eq!(
        sfen.build_gotename(String::new()).to_svg(""),
        format!(
            "<g id=\"gname\" transform=\"translate(5,25)\">\n {}</g>\n",
            mark.replace("{}", "none")
        )
    );
    assert_eq!(
        sfen.build_gotename(String::from("後手")).to_svg(""),
        format!(
            "<g id=\"gname\" transform=\"translate(5,25)\">\n {} \
             <text x=\"25\" y=\"15\" font-size=\"16px\" text-anchor=\"left\" width=\"230px\" \
             text-overflow=\"ellipsis\">後手</text>\n</g>\n",
            mark.replace("{}", "none")
        )
    );
    assert!(sfen.build_title(String::new()).is_none());
    assert_eq!(
        sfen.build_title(String::from("第1局")).unwrap().to_svg(""),
        "<g id=\"title\">\n \
         <text x=\"130\" y=\"15\" font-size=\"16px\" text-anchor=\"middle\" width=\"260px\" \
         text-overflow=\"ellipsis\">第1局</text>\n</g>\n"
    );
}

#[test]
fn diagram_parts_come_in_order() {
    let svg = Sfen::new("9/9/9/9/9/9/9/9/9 x 2P 1")
        .to_svg(Some((5, 5)), String::from("s"), String::from("g"), String::from("t"))
        .unwrap();
    let top = &svg.tag.children[0];
    let ids: Vec<String> = top.children.iter().map(|c| attr(c, "id").unwrap()).collect();
    assert_eq!(ids, vec!["title", "sname", "gname", "board", "stegoma", "gtegoma"]);
    let board = &top.children[3];
    assert_eq!(attr(&board.children[0], "transform").unwrap(), "translate(80, 80)");
}

#[test]
fn diagram_is_all_or_nothing() {
    let none = || (String::new(), String::new(), String::new());
    let (s, g, t) = none();
    let r = Sfen::new("9/9?/9 b - 1").to_svg(None, s, g, t);
    assert_eq!(r.err().unwrap(), "? is not allowed to use!!");
    let (s, g, t) = none();
    let r = Sfen::new("9/9/9/9/9/9/9/9/9 b 2P= 1").to_svg(None, s, g, t);
    assert_eq!(r.err().unwrap(), "= is not allowed to use!!");
    let (s, g, t) = none();
    let r = Sfen::new("9 b 2P= 1").to_svg(None, s, g, t);
    assert_eq!(r.err().unwrap(), "9 does not have 9 ranks.");
    let (s, g, t) = none();
    let r = Sfen::new("9/9/9/9/9/9/9/9/3p4 b - 1").to_svg(None, s, g, t);
    assert_eq!(r.err().unwrap(), "3p4 does not have 9 squares.");
    let (s, g, t) = none();
    let r = Sfen::new("9# b 2P= 1").to_svg(None, s, g, t);
    assert_eq!(r.err().unwrap(), "# is not allowed to use!!");
    assert_eq!(
        Sfen::new("9 b 2P= 1").buildtegoma().err().unwrap(),
        "= is not allowed to use!!"
    );
    assert_eq!(
        Sfen::new("9# b - 1").buildboard(None).err().unwrap(),
        "# is not allowed to use!!"
    );
}

#[test]
fn invalid_position_is_not_drawn() {
    for text in ["", "9/9/9/9/9/9/9/9/9 b -"] {
        let r = Sfen::new(text).to_svg(None, String::new(), String::new(), String::new());
        assert_eq!(r.err().unwrap(), " does not have 9 ranks.");
        assert_eq!(Sfen::new(text).buildboard(None).err().unwrap(), " does not have 9 ranks.");
    }
}

#[test]
fn empty_board_draws_the_frame_alone() {
    let board = Sfen::new("9/9/9/9/9/9/9/9/9 b - 1").buildboard(None).unwrap();
    assert_eq!(board.children.len(), 1);
}

#[test]
fn a_piece_without_a_side_is_an_empty_square() {
    let k = Koma { koma: KomaType::Fu, promotion: Promotion::Unspecified, teban: Teban::Neither };
    assert!(komatag(&k, 3, 0).is_none());
    let k = Koma { koma: KomaType::Aki, promotion: Promotion::Unspecified, teban: Teban::Gote };
    assert!(komatag(&k, 3, 0).is_none());
}

#[test]
fn document_root_and_declaration() {
    let svg = SVG::new();
    assert_eq!(
        svg.to_string(),
        "<?xml version='1.0'?>\n\
         <svg width=\"260\" height=\"275\" viewBox=\"0 0 260 275\" version=\"1.1\" \
         xmlns=\"http://www.w3.org/2000/svg\"/>\n"
    );
    let text = Sfen::new(START)
        .to_svg(None, String::new(), String::new(), String::new())
        .unwrap()
        .to_string();
    assert!(text.starts_with(
        "<?xml version='1.0'?>\n\
         <svg width=\"260\" height=\"275\" viewBox=\"0 0 260 275\" version=\"1.1\" \
         xmlns=\"http://www.w3.org/2000/svg\">\n <g>\n  <g id=\"teban\""
    ));
    assert!(text.ends_with("  </g>\n </g>\n</svg>\n"));
}

#[test]
fn two_level_tree_is_written_with_indentation() {
    let mut root = Tag::new("root");
    let mut child = Tag::new("child");
    child.newattrib("a", "1");
    child.newattrib("b", "");
    child.newattrib("a", "2");
    root.addchild(child);
    assert_eq!(root.to_svg(""), "<root>\n <child a=\"1\" b a=\"2\"/>\n</root>\n");
    assert_eq!(root.to_svg("  "), "  <root>\n   <child a=\"1\" b a=\"2\"/>\n  </root>\n");
    root.value = String::from("v");
    root.newattrib("k", "w");
    assert_eq!(root.to_svg(""), "<root value=\"v\" k=\"w\">\n <child a=\"1\" b a=\"2\"/>\n</root>\n");
}
