use legal_moves::engine::legal_moves_line;
use legal_moves::errors::RenderError;
use legal_moves::guard::record_accepted;
use legal_moves::labels::LabelScheme;
use legal_moves::ordering::Ordering;

const REJECT_MESSAGE: &str = "unsupported or malformed game record";

fn rejected(sgf: &str) {
    assert!(!record_accepted(sgf));
    let r = legal_moves_line(sgf, &LabelScheme::Fixed, Ordering::XY);
    assert_eq!(r, Err(RenderError::Parse(REJECT_MESSAGE.to_string())));
}

#[test]
fn plain_records_are_accepted() {
    assert!(record_accepted("(;GM[1]SZ[2])"));
    assert!(record_accepted("()"));
    assert!(record_accepted(" (;GM[1] ;B[aa] )\n"));
    assert!(record_accepted("(;GM[1]SZ[19]KM[6.5]PB[one]PW[two];B[pd];W[dp])"));
}

#[test]
fn free_form_values_may_hold_anything() {
    assert!(record_accepted("(;GM[1]SZ[2]C[héllo, wörld — 你好])"));
    assert!(record_accepted("(;GM[1]SZ[2]C[escaped \\] bracket])"));
    assert!(record_accepted("(;GM[1]SZ[2]CoPyRiGhT[x]PB[GM[2 inside a name])"));
}

#[test]
fn markup_with_plain_coordinates_is_accepted() {
    assert!(record_accepted("(;GM[1]SZ[3]TR[ab]SQ[bb]LB[ab:A])"));
    rejected("(;GM[1]SZ[3]TR[!!])");
}

#[test]
fn repeated_stone_points_are_rejected() {
    rejected("(;GM[1]AB[aa][ba][aa])");
    rejected("(;GM[1]SZ[3];B[aa];W[bb];B[aa])");
    rejected("(;GM[1]AB[aa][ba][aa];B[ss];W[ca];B[sr];W[bb];B[sq];W[ab])");
}

#[test]
fn non_go_game_kind_is_rejected() {
    rejected("(;GM[2])");
}

#[test]
fn unsupported_ruleset_is_rejected() {
    rejected("(;GM[1]RU[AGA])");
    rejected("(;GM[1]RU[NZ])");
}

#[test]
fn supported_rulesets_pass_the_guard() {
    assert!(record_accepted("(;GM[1]SZ[2]RU[Chinese])"));
    assert!(record_accepted("(;GM[1]SZ[2]RU[Japanese])"));
}

#[test]
fn board_beyond_nineteen_is_rejected() {
    rejected("(;GM[1]SZ[20])");
    rejected("(;GM[1]SZ[20:5])");
}

#[test]
fn stone_off_the_declared_board_is_rejected() {
    rejected("(;GM[1]SZ[3]AB[dd])");
    rejected("(;GM[1]SZ[3];B[dd])");
}

#[test]
fn third_consecutive_pass_is_rejected() {
    rejected("(;GM[1]SZ[3];B[];W[];B[])");
}

#[test]
fn turn_setting_allows_only_black_or_white() {
    rejected("(;GM[1]PL[C])");
    assert!(record_accepted("(;GM[1]PL[W])"));
}

#[test]
fn structural_oddities_are_rejected() {
    rejected("");
    rejected("no record at all");
    rejected("(;GM[1]");
    rejected("(;GM[1])trailing");
    rejected("(;GM[1](;B[aa]))");
}

#[test]
fn a_single_pass_still_renders() {
    let line = legal_moves_line("(;GM[1]SZ[2];B[])", &LabelScheme::Fixed, Ordering::XY).unwrap();
    assert_eq!(line, "(a1|a2|b1|b2)");
}
