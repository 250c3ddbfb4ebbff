use sfenimage::koma::{Koma, KomaType, Promotion, Teban};
use sfenimage::lastmove::LastMove;

#[test]
fn read_a_plain_move() {
    let lm = LastMove::read("7776FU").unwrap();
    assert_eq!(lm.from, (7, 7));
    assert_eq!(lm.to, (7, 6));
    assert_eq!(lm.koma.koma, KomaType::Fu);
    assert_eq!(lm.koma.promotion, Promotion::Unspecified);
    assert!(!lm.koma.promotion.is_promoted());
    assert_eq!(lm.promote, Promotion::Unspecified);
    assert_eq!(lm.dir, "");
    assert!(lm.is_ok());
    assert_eq!(lm.topos(), Some((7, 6)));
    assert!(!lm.is_from_komadai());
    assert_eq!(lm.to_string().unwrap(), "７六歩まで");
}

#[test]
fn drop_with_promotion_flag_fails() {
    let lm = LastMove::read("0034FUP").unwrap();
    assert!(lm.is_from_komadai());
    assert_eq!(lm.promote, Promotion::Promoted);
    assert_eq!(lm.to_string().err().unwrap(), "invalid last move.");
    let lm = LastMove::read("0034FUN").unwrap();
    assert_eq!(lm.promote, Promotion::NotPromoted);
    assert_eq!(lm.to_string().err().unwrap(), "invalid last move.");
}

#[test]
fn drop_with_direction_fails() {
    let lm = LastMove::read("0034FUR").unwrap();
    assert_eq!(lm.dir, "R");
    assert_eq!(lm.to_string().err().unwrap(), "invalid last move.");
}

#[test]
fn plain_drop_is_marked() {
    let lm = LastMove::read("0034FU").unwrap();
    assert_eq!(lm.from, (0, 0));
    assert_eq!(lm.to, (3, 4));
    assert!(lm.is_ok());
    assert!(lm.is_from_komadai());
    assert_eq!(lm.to_string().unwrap(), "３四歩打まで");
}

#[test]
fn every_piece_code() {
    let codes = [
        ("FU", 'P', false, "歩"),
        ("KY", 'L', false, "香"),
        ("KE", 'N', false, "桂"),
        ("GI", 'S', false, "銀"),
        ("KI", 'G', false, "金"),
        ("KA", 'B', false, "角"),
        ("HI", 'R', false, "飛"),
        ("OU", 'K', false, "玉"),
        ("GY", 'K', false, "玉"),
        ("TO", 'P', true, "と"),
        ("NY", 'L', true, "杏"),
        ("NE", 'N', true, "圭"),
        ("NG", 'S', true, "全"),
        ("UM", 'B', true, "馬"),
        ("RY", 'R', true, "龍"),
    ];
    for (code, letter, promoted, kanji) in codes {
        let k = Koma::fromcsa(code).unwrap();
        assert_eq!(k.koma, KomaType::from(letter), "{}", code);
        assert_eq!(k.promotion.is_promoted(), promoted, "{}", code);
        assert_eq!(k.teban, Teban::Sente, "{}", code);
        assert_eq!(k.to_kstring().unwrap(), kanji, "{}", code);
        let lm = LastMove::read(&format!("1234{}", code)).unwrap();
        assert_eq!(lm.koma, k, "{}", code);
        assert_eq!(lm.to_string().unwrap(), format!("３四{}まで", kanji), "{}", code);
    }
}

#[test]
fn piece_code_in_either_case() {
    assert_eq!(Koma::fromcsa("fu"), Koma::fromcsa("FU"));
    assert_eq!(Koma::fromcsa("Ry"), Koma::fromcsa("RY"));
    assert_eq!(LastMove::read("7776fu").unwrap().koma, Koma::from('P', Promotion::Unspecified));
}

#[test]
fn unknown_piece_code() {
    assert_eq!(Koma::fromcsa("XX"), None);
    assert_eq!(Koma::fromcsa(""), None);
    assert_eq!(Koma::fromcsa("F"), None);
    assert_eq!(Koma::fromcsa("FUU"), None);
    assert_eq!(Koma::fromcsa("ＦＵ"), None);
    assert_eq!(
        LastMove::read("7776XX").err().unwrap(),
        "\"7776XX\" is invalid lastmove about koma."
    );
}

#[test]
fn text_that_is_no_move() {
    for txt in ["", "776FU", "7776", "7776F", "FU7776", "77-76FU", "7776 FU"] {
        assert_eq!(
            LastMove::read(txt).err().unwrap(),
            format!("\"{}\" is invalid lastmove.", txt)
        );
    }
}

#[test]
fn digits_of_other_scripts_are_no_squares() {
    let txt = "\u{0667}\u{0667}76FU";
    assert_eq!(LastMove::read(txt).err().unwrap(), format!("\"{}\" is invalid lastmove.", txt));
    let txt = "77\u{ff17}\u{ff16}FU";
    assert_eq!(LastMove::read(txt).err().unwrap(), format!("\"{}\" is invalid lastmove.", txt));
}

#[test]
fn move_is_found_anywhere_in_the_text() {
    let lm = LastMove::read("lm=2838GIN!").unwrap();
    assert_eq!(lm.from, (2, 8));
    assert_eq!(lm.to, (3, 8));
    assert_eq!(lm.koma.koma, KomaType::Gin);
    assert_eq!(lm.promote, Promotion::NotPromoted);
    assert_eq!(lm.to_string().unwrap(), "３八銀不成まで");
    let lm = LastMove::read("12345FU").unwrap();
    assert_eq!(lm.from, (2, 3));
    assert_eq!(lm.to, (4, 5));
    assert_eq!(LastMove::read("123456FU").unwrap().from, (3, 4));
}

#[test]
fn promotion_and_directions() {
    let lm = LastMove::read("8822KAP").unwrap();
    assert_eq!(lm.promote, Promotion::Promoted);
    assert_eq!(lm.dir, "");
    assert_eq!(lm.to_string().unwrap(), "２二角成まで");
    let lm = LastMove::read("6978KIR").unwrap();
    assert_eq!(lm.promote, Promotion::Unspecified);
    assert_eq!(lm.dir, "R");
    assert_eq!(lm.to_string().unwrap(), "７八金右まで");
    let lm = LastMove::read("4958KINLRAUHSCY").unwrap();
    assert_eq!(lm.promote, Promotion::NotPromoted);
    assert_eq!(lm.dir, "LRAUHSCY");
    assert_eq!(lm.to_string().unwrap(), "５八金左右上上引下直寄不成まで");
    let lm = LastMove::read("4958KILD").unwrap();
    assert_eq!(lm.dir, "LD");
    assert_eq!(lm.to_string().unwrap(), "５八金左下まで");
}

#[test]
fn down_is_written_with_either_letter() {
    let lm = LastMove::read("7978KID").unwrap();
    assert_eq!(lm.from, (7, 9));
    assert_eq!(lm.to, (7, 8));
    assert_eq!(lm.koma.koma, KomaType::Kin);
    assert_eq!(lm.promote, Promotion::Unspecified);
    assert_eq!(lm.dir, "D");
    assert_eq!(lm.to_string().unwrap(), "７八金下まで");
    let lm = LastMove::read("7978KIS").unwrap();
    assert_eq!(lm.dir, "S");
    assert_eq!(lm.to_string().unwrap(), "７八金下まで");
}

#[test]
fn a_letter_that_is_no_direction_is_named() {
    assert_eq!(LastMove::read("7776FUX").err().unwrap(), "X is not supported in LastMove.");
    assert_eq!(LastMove::read("7776FURXQ").err().unwrap(), "X is not supported in LastMove.");
    assert_eq!(LastMove::read("4958KIPN").err().unwrap(), "N is not supported in LastMove.");
    assert_eq!(LastMove::read("4958KINP").err().unwrap(), "P is not supported in LastMove.");
    assert_eq!(LastMove::read("4958KIr").err().unwrap(), "r is not supported in LastMove.");
    assert_eq!(LastMove::read("4958XXQ").err().unwrap(), "\"4958XXQ\" is invalid lastmove about koma.");
    assert!(LastMove::read("4958KIR!Q").is_ok());
    assert!(LastMove::read("4958KI Q").is_ok());
}

#[test]
fn direction_letter_without_a_word() {
    let mut lm = LastMove::read("4958KI").unwrap();
    lm.dir = String::from("RDX");
    assert_eq!(lm.to_string().err().unwrap(), "X is not supported in LastMove.");
    lm.dir = String::from("DS");
    assert_eq!(lm.to_string().unwrap(), "５八金下下まで");
    lm.dir = String::from("r");
    assert_eq!(lm.to_string().err().unwrap(), "r is not supported in LastMove.");
}

#[test]
fn no_move_is_inert() {
    let lm = LastMove::new();
    assert_eq!(lm.from, (0, 0));
    assert_eq!(lm.to, (0, 0));
    assert!(lm.koma.is_blank());
    assert_eq!(lm.promote, Promotion::Unspecified);
    assert_eq!(lm.dir, "");
    assert!(!lm.is_ok());
    assert_eq!(lm.topos(), None);
    assert!(lm.is_from_komadai());
    assert_eq!(lm.to_string().unwrap(), "");
}

#[test]
fn a_zero_coordinate_is_no_move() {
    for txt in ["7700FU", "7706FU", "7770FU"] {
        let lm = LastMove::read(txt).unwrap();
        assert!(!lm.is_ok());
        assert_eq!(lm.topos(), None);
        assert_eq!(lm.to_string().unwrap(), "");
    }
    let lm = LastMove::read("0777FU").unwrap();
    assert!(lm.is_ok());
    assert!(!lm.is_from_komadai());
    assert_eq!(lm.to_string().unwrap(), "７七歩まで");
}

#[test]
fn a_move_needs_a_piece() {
    let mut lm = LastMove::new();
    lm.to = (5, 5);
    assert_eq!(lm.to_string().err().unwrap(), "invalid last move.");
}

#[test]
fn from_captures_for_every_outcome() {
    let some = |s: &str| Some(String::from(s));
    let groups = vec![some("7776FU"), some("77"), some("76"), some("FU"), some(""), some("")];
    let lm = LastMove::from_captures("7776FU", Some(groups)).unwrap();
    assert_eq!((lm.from, lm.to), ((7, 7), (7, 6)));
    assert_eq!(
        LastMove::from_captures("abc", None).err().unwrap(),
        "\"abc\" is invalid lastmove."
    );
    let groups = vec![some("x"), some("7"), some("76"), some("FU")];
    assert_eq!(
        LastMove::from_captures("x", Some(groups)).err().unwrap(),
        "\"x\" is invalid lastmove."
    );
    let groups = vec![some("x"), some("77"), some("7a"), some("FU")];
    assert_eq!(
        LastMove::from_captures("x", Some(groups)).err().unwrap(),
        "\"x\" is invalid lastmove."
    );
    let groups = vec![some("x"), some("77"), some("76"), None];
    assert_eq!(
        LastMove::from_captures("x", Some(groups)).err().unwrap(),
        "\"x\" is invalid lastmove about koma."
    );
    let groups = vec![some("x"), some("77"), some("76"), some("HI"), None, some("LL")];
    let lm = LastMove::from_captures("x", Some(groups)).unwrap();
    assert_eq!(lm.promote, Promotion::Unspecified);
    assert_eq!(lm.dir, "LL");
    let groups = vec![some("x"), some("77"), some("76"), some("HI"), some("P"), some("RB")];
    assert_eq!(
        LastMove::from_captures("x", Some(groups)).err().unwrap(),
        "B is not supported in LastMove."
    );
    let groups = vec![some("x"), some("77"), some("76"), some("HI"), some("N")];
    let lm = LastMove::from_captures("x", Some(groups)).unwrap();
    assert_eq!(lm.promote, Promotion::NotPromoted);
    assert_eq!(lm.dir, "");
    assert_eq!(
        LastMove::from_captures("x", Some(Vec::new())).err().unwrap(),
        "\"x\" is invalid lastmove."
    );
}
