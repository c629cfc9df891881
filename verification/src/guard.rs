use vstd::prelude::*;
use vstd::string::StrSliceExecFns;

verus! {

// The rules engine aborts on some records instead of reporting them: a game
// token other than Go, a ruleset other than Japanese or Chinese, a PL value
// other than B or W, a board beyond 19, stones outside the board, a third
// consecutive pass, malformed markup coordinates, and any stone placed on a
// point that an earlier stone already named (the engine plays every placement
// unconditionally and its chain bookkeeping breaks on an occupied point).
// This scanner accepts a record only when none of those can be reached: every
// structure it accepts is read identically by the engine's own grammar
// (identifiers are unbroken letter runs glued to their values, and a value
// boundary moves past an escaped bracket exactly as the grammar's does), and
// within that structure the properties the engine acts on are pinned to its
// safe set. Anything unusual is rejected, which trades some exotic or
// point-revisiting but harmless records for the guarantee that the engine is
// never handed one it cannot survive.

/// Where the scanner stands in the record's structure.
#[derive(Copy, Clone, PartialEq, Eq, Structural, Debug)]
pub enum ScanMode {
    /// Leading whitespace before the opening parenthesis.
    Start,
    /// Inside the tree, before its first node.
    AfterOpen,
    /// Inside a node, before a property or the next node.
    ExpectProp,
    /// Reading a property identifier.
    InIdent,
    /// Reading one bracketed property value.
    InValue,
    /// Directly after a backslash in a free-form value.
    InValueEscape,
    /// Directly after a closing bracket.
    AfterValue,
    /// Whitespace after a value: a following bracket would be ambiguous.
    AfterValueGap,
    /// After the closing parenthesis; only whitespace may follow.
    Done,
    /// The record was rejected.
    Failed,
}

/// How the current property's values must be checked. The engine classifies a
/// property by the uppercase letters of its identifier, so the scanner does
/// the same; every property it acts on has a one- or two-letter name.
#[derive(Copy, Clone, PartialEq, Eq, Structural, Debug)]
pub enum PropKind {
    /// GM: the game kind, which must be 1 (Go).
    GameKind,
    /// SZ: the board size, at most 19 on each axis.
    BoardSize,
    /// RU: the ruleset, which the engine only accepts as Japanese or Chinese.
    Ruleset,
    /// PL: the side to play, B or W only.
    TurnSetting,
    /// B or W: a move, a pass or an on-board coordinate pair.
    PlacedMove,
    /// AB or AW: a setup stone, an on-board coordinate pair.
    AddedStone,
    /// SQ or TR: point markup; a two-byte value must not underflow the
    /// engine's coordinate arithmetic.
    MarkPoint,
    /// LB: label markup; the engine splits the value after two bytes, which
    /// must be plain coordinates on character boundaries.
    MarkLabel,
    /// Anything else: ignored by the engine or handled without aborting.
    Other,
}

/// Everything the scanner carries from one byte to the next. The `occ` words
/// are a bitset over the 19 by 19 coordinate grid of every stone-placing
/// value seen so far.
#[derive(Copy, Clone, PartialEq, Eq, Structural, Debug)]
pub struct ScanState {
    pub mode: ScanMode,
    pub kind: PropKind,
    pub ident_first: u8,
    pub ident_second: u8,
    pub ident_len: u8,
    pub val_len: u8,
    pub coord_first: u8,
    pub sz_part: u8,
    pub sz_first: u8,
    pub sz_digits: u8,
    pub sz_colon: bool,
    pub ru_japanese: bool,
    pub ru_chinese: bool,
    pub mark0: bool,
    pub mark1: bool,
    pub mark2: bool,
    pub max_coord: u8,
    pub min_dim: u8,
    pub passes: u8,
    pub in_root_node: bool,
    pub seen_root_node: bool,
    pub prop_is_first: bool,
    pub next_prop_is_first: bool,
    pub value_is_first: bool,
    pub occ0: u64,
    pub occ1: u64,
    pub occ2: u64,
    pub occ3: u64,
    pub occ4: u64,
    pub occ5: u64,
}

pub open spec fn spec_scan_start() -> ScanState {
    ScanState {
        mode: ScanMode::Start,
        kind: PropKind::Other,
        ident_first: 0,
        ident_second: 0,
        ident_len: 0,
        val_len: 0,
        coord_first: 0,
        sz_part: 0,
        sz_first: 0,
        sz_digits: 0,
        sz_colon: false,
        ru_japanese: false,
        ru_chinese: false,
        mark0: true,
        mark1: true,
        mark2: true,
        max_coord: 0,
        min_dim: 19,
        passes: 0,
        in_root_node: false,
        seen_root_node: false,
        prop_is_first: false,
        next_prop_is_first: false,
        value_is_first: false,
        occ0: 0,
        occ1: 0,
        occ2: 0,
        occ3: 0,
        occ4: 0,
        occ5: 0,
    }
}

/// The whitespace the record grammar skips between structural elements.
pub open spec fn spec_is_ws(b: u8) -> bool {
    b == 32 || b == 10 || b == 13
}

pub open spec fn spec_is_upper(b: u8) -> bool {
    65 <= b <= 90
}

pub open spec fn spec_is_lower(b: u8) -> bool {
    97 <= b <= 122
}

pub open spec fn spec_is_digit(b: u8) -> bool {
    48 <= b <= 57
}

/// The byte at `i` of "Japanese".
pub open spec fn spec_japanese_byte(i: u8) -> u8 {
    if i == 0 {
        74
    } else if i == 1 || i == 3 {
        97
    } else if i == 2 {
        112
    } else if i == 4 {
        110
    } else if i == 5 || i == 7 {
        101
    } else if i == 6 {
        115
    } else {
        0
    }
}

/// The byte at `i` of "Chinese".
pub open spec fn spec_chinese_byte(i: u8) -> u8 {
    if i == 0 {
        67
    } else if i == 1 {
        104
    } else if i == 2 {
        105
    } else if i == 3 {
        110
    } else if i == 4 || i == 6 {
        101
    } else if i == 5 {
        115
    } else {
        0
    }
}

/// Which checks an identifier's values get, from its uppercase letters.
pub open spec fn spec_classify(first: u8, second: u8, len: u8) -> PropKind {
    if len == 1 {
        if first == 66 || first == 87 {
            PropKind::PlacedMove
        } else {
            PropKind::Other
        }
    } else if len == 2 {
        if first == 71 && second == 77 {
            PropKind::GameKind
        } else if first == 83 && second == 90 {
            PropKind::BoardSize
        } else if first == 82 && second == 85 {
            PropKind::Ruleset
        } else if first == 80 && second == 76 {
            PropKind::TurnSetting
        } else if first == 65 && (second == 66 || second == 87) {
            PropKind::AddedStone
        } else if (first == 83 && second == 81) || (first == 84 && second == 82) {
            PropKind::MarkPoint
        } else if first == 76 && second == 66 {
            PropKind::MarkLabel
        } else {
            PropKind::Other
        }
    } else {
        PropKind::Other
    }
}

pub open spec fn spec_fail(st: ScanState) -> ScanState {
    ScanState { mode: ScanMode::Failed, ..st }
}

/// A node starts: the first node of the tree is the root node.
pub open spec fn spec_start_node(st: ScanState) -> ScanState {
    ScanState {
        mode: ScanMode::ExpectProp,
        in_root_node: !st.seen_root_node,
        seen_root_node: true,
        next_prop_is_first: true,
        ..st
    }
}

/// An identifier starts; only its uppercase letters classify it.
pub open spec fn spec_begin_ident(st: ScanState, b: u8) -> ScanState {
    ScanState {
        mode: ScanMode::InIdent,
        ident_first: if spec_is_upper(b) {
            b
        } else {
            0
        },
        ident_second: 0,
        ident_len: if spec_is_upper(b) {
            1
        } else {
            0
        },
        prop_is_first: st.next_prop_is_first,
        next_prop_is_first: false,
        ..st
    }
}

pub open spec fn spec_enter_value(st: ScanState, kind: PropKind, first: bool) -> ScanState {
    ScanState {
        mode: ScanMode::InValue,
        kind,
        val_len: 0,
        coord_first: 0,
        sz_part: 0,
        sz_first: 0,
        sz_digits: 0,
        sz_colon: false,
        ru_japanese: true,
        ru_chinese: true,
        mark0: true,
        mark1: true,
        mark2: true,
        value_is_first: first,
        ..st
    }
}

/// Records a stone on grid point `idx` of the occupancy bitset, or fails if
/// an earlier value already named that point.
pub open spec fn spec_mark_occupied(st: ScanState, idx: u16) -> ScanState {
    let word = idx / 64;
    let mask = 1u64 << ((idx % 64) as u64);
    if word == 0 {
        if st.occ0 & mask != 0 {
            spec_fail(st)
        } else {
            ScanState { occ0: st.occ0 | mask, ..st }
        }
    } else if word == 1 {
        if st.occ1 & mask != 0 {
            spec_fail(st)
        } else {
            ScanState { occ1: st.occ1 | mask, ..st }
        }
    } else if word == 2 {
        if st.occ2 & mask != 0 {
            spec_fail(st)
        } else {
            ScanState { occ2: st.occ2 | mask, ..st }
        }
    } else if word == 3 {
        if st.occ3 & mask != 0 {
            spec_fail(st)
        } else {
            ScanState { occ3: st.occ3 | mask, ..st }
        }
    } else if word == 4 {
        if st.occ4 & mask != 0 {
            spec_fail(st)
        } else {
            ScanState { occ4: st.occ4 | mask, ..st }
        }
    } else {
        if st.occ5 & mask != 0 {
            spec_fail(st)
        } else {
            ScanState { occ5: st.occ5 | mask, ..st }
        }
    }
}

/// One value byte, checked under the current property kind.
pub open spec fn spec_value_byte(st: ScanState, b: u8) -> ScanState {
    let bumped = if st.val_len < 250 {
        (st.val_len + 1) as u8
    } else {
        250
    };
    match st.kind {
        PropKind::GameKind => if st.val_len == 0 && b == 49 {
            ScanState { val_len: bumped, ..st }
        } else {
            spec_fail(st)
        },
        PropKind::TurnSetting => if st.val_len == 0 && (b == 66 || b == 87) {
            ScanState { val_len: bumped, ..st }
        } else {
            spec_fail(st)
        },
        PropKind::Ruleset => {
            let jap = st.ru_japanese && st.val_len < 8 && b == spec_japanese_byte(st.val_len);
            let chi = st.ru_chinese && st.val_len < 7 && b == spec_chinese_byte(st.val_len);
            if jap || chi {
                ScanState { ru_japanese: jap, ru_chinese: chi, val_len: bumped, ..st }
            } else {
                spec_fail(st)
            }
        },
        PropKind::BoardSize => if spec_is_digit(b) {
            if st.sz_digits == 0 {
                ScanState { sz_part: (b - 48) as u8, sz_digits: 1, val_len: bumped, ..st }
            } else if st.sz_digits == 1 && st.sz_part <= 9 {
                ScanState {
                    sz_part: (st.sz_part * 10 + (b - 48)) as u8,
                    sz_digits: 2,
                    val_len: bumped,
                    ..st
                }
            } else {
                spec_fail(st)
            }
        } else if b == 58 {
            if st.sz_colon || st.sz_digits == 0 {
                spec_fail(st)
            } else {
                ScanState {
                    sz_first: st.sz_part,
                    sz_part: 0,
                    sz_digits: 0,
                    sz_colon: true,
                    val_len: bumped,
                    ..st
                }
            }
        } else {
            spec_fail(st)
        },
        PropKind::PlacedMove | PropKind::AddedStone => if st.val_len == 0 && 97 <= b <= 115 {
            let coord = (b - 96) as u8;
            ScanState {
                coord_first: b,
                max_coord: if coord > st.max_coord {
                    coord
                } else {
                    st.max_coord
                },
                val_len: bumped,
                ..st
            }
        } else if st.val_len == 1 && 97 <= b <= 115 && 97 <= st.coord_first <= 115 {
            let coord = (b - 96) as u8;
            let idx = ((st.coord_first - 97) as u16 * 19 + (b - 97) as u16) as u16;
            ScanState {
                max_coord: if coord > st.max_coord {
                    coord
                } else {
                    st.max_coord
                },
                val_len: bumped,
                ..spec_mark_occupied(st, idx)
            }
        } else {
            spec_fail(st)
        },
        PropKind::MarkPoint => if st.val_len == 0 {
            ScanState { mark0: b >= 38, val_len: bumped, ..st }
        } else if st.val_len == 1 {
            ScanState { mark1: b >= 38, val_len: bumped, ..st }
        } else {
            ScanState { val_len: bumped, ..st }
        },
        PropKind::MarkLabel => if st.val_len == 0 {
            ScanState { mark0: 38 <= b < 128, val_len: bumped, ..st }
        } else if st.val_len == 1 {
            ScanState { mark1: 38 <= b < 128, val_len: bumped, ..st }
        } else if st.val_len == 2 {
            ScanState { mark2: b < 128, val_len: bumped, ..st }
        } else {
            ScanState { val_len: bumped, ..st }
        },
        PropKind::Other => ScanState { val_len: bumped, ..st },
    }
}

/// A value closes: the per-kind completeness checks, the board-size bound, and
/// the pass count (a move only counts when the engine will play it: the first
/// value of the first property of a node after the root).
pub open spec fn spec_end_value(st: ScanState) -> ScanState {
    let closed = ScanState { mode: ScanMode::AfterValue, ..st };
    match st.kind {
        PropKind::GameKind => if st.val_len == 1 {
            closed
        } else {
            spec_fail(st)
        },
        PropKind::TurnSetting => if st.val_len == 1 {
            closed
        } else {
            spec_fail(st)
        },
        PropKind::Ruleset => if (st.ru_japanese && st.val_len == 8) || (st.ru_chinese && st.val_len
            == 7) {
            closed
        } else {
            spec_fail(st)
        },
        PropKind::BoardSize => if st.sz_digits == 0 || st.sz_part > 19 || (st.sz_colon
            && st.sz_first > 19) {
            spec_fail(st)
        } else {
            let low = if st.sz_colon && st.sz_first < st.sz_part {
                st.sz_first
            } else {
                st.sz_part
            };
            ScanState {
                mode: ScanMode::AfterValue,
                min_dim: if low < st.min_dim {
                    low
                } else {
                    st.min_dim
                },
                ..st
            }
        },
        PropKind::PlacedMove => {
            let played = !st.in_root_node && st.prop_is_first && st.value_is_first;
            if st.val_len == 0 {
                if !played {
                    closed
                } else if st.passes >= 2 {
                    spec_fail(st)
                } else {
                    ScanState { mode: ScanMode::AfterValue, passes: (st.passes + 1) as u8, ..st }
                }
            } else if st.val_len == 2 {
                if played {
                    ScanState { mode: ScanMode::AfterValue, passes: 0, ..st }
                } else {
                    closed
                }
            } else {
                spec_fail(st)
            }
        },
        PropKind::AddedStone => if st.val_len == 2 {
            closed
        } else {
            spec_fail(st)
        },
        PropKind::MarkPoint => if st.val_len != 2 || (st.mark0 && st.mark1) {
            closed
        } else {
            spec_fail(st)
        },
        PropKind::MarkLabel => if st.val_len < 4 || (st.mark0 && st.mark1 && st.mark2) {
            closed
        } else {
            spec_fail(st)
        },
        PropKind::Other => closed,
    }
}

/// One byte of the record.
pub open spec fn spec_scan_step(st: ScanState, b: u8) -> ScanState {
    match st.mode {
        ScanMode::Start => if spec_is_ws(b) {
            st
        } else if b == 40 {
            ScanState { mode: ScanMode::AfterOpen, ..st }
        } else {
            spec_fail(st)
        },
        ScanMode::AfterOpen => if spec_is_ws(b) {
            st
        } else if b == 59 {
            spec_start_node(st)
        } else if b == 41 {
            ScanState { mode: ScanMode::Done, ..st }
        } else {
            spec_fail(st)
        },
        ScanMode::ExpectProp => if spec_is_ws(b) {
            st
        } else if b == 59 {
            spec_start_node(st)
        } else if b == 41 {
            ScanState { mode: ScanMode::Done, ..st }
        } else if spec_is_upper(b) || spec_is_lower(b) {
            spec_begin_ident(st, b)
        } else {
            spec_fail(st)
        },
        ScanMode::InIdent => if spec_is_upper(b) {
            if st.ident_len == 0 {
                ScanState { ident_first: b, ident_len: 1, ..st }
            } else if st.ident_len == 1 {
                ScanState { ident_second: b, ident_len: 2, ..st }
            } else {
                ScanState { ident_len: 3, ..st }
            }
        } else if spec_is_lower(b) {
            st
        } else if b == 91 {
            spec_enter_value(
                st,
                spec_classify(st.ident_first, st.ident_second, st.ident_len),
                true,
            )
        } else {
            spec_fail(st)
        },
        ScanMode::InValue => if b == 93 {
            spec_end_value(st)
        } else if b == 92 {
            if st.kind == PropKind::Other {
                ScanState { mode: ScanMode::InValueEscape, ..st }
            } else {
                spec_fail(st)
            }
        } else {
            spec_value_byte(st, b)
        },
        ScanMode::InValueEscape => if b == 92 {
            st
        } else {
            ScanState { mode: ScanMode::InValue, ..st }
        },
        ScanMode::AfterValue => if b == 91 {
            spec_enter_value(st, st.kind, false)
        } else if spec_is_ws(b) {
            ScanState { mode: ScanMode::AfterValueGap, ..st }
        } else if b == 59 {
            spec_start_node(st)
        } else if b == 41 {
            ScanState { mode: ScanMode::Done, ..st }
        } else if spec_is_upper(b) || spec_is_lower(b) {
            spec_begin_ident(st, b)
        } else {
            spec_fail(st)
        },
        ScanMode::AfterValueGap => if spec_is_ws(b) {
            st
        } else if b == 59 {
            spec_start_node(st)
        } else if b == 41 {
            ScanState { mode: ScanMode::Done, ..st }
        } else if spec_is_upper(b) || spec_is_lower(b) {
            spec_begin_ident(st, b)
        } else {
            spec_fail(st)
        },
        ScanMode::Done => if spec_is_ws(b) {
            st
        } else {
            spec_fail(st)
        },
        ScanMode::Failed => st,
    }
}

pub open spec fn spec_scan_fn() -> spec_fn(ScanState, u8) -> ScanState {
    |st: ScanState, b: u8| spec_scan_step(st, b)
}

/// Whether a whole byte sequence is accepted: the scan ends cleanly and every
/// stone named in the record lies on the smallest board the record declares.
pub open spec fn spec_scan_accepts(bytes: Seq<u8>) -> bool {
    let end = bytes.fold_left(spec_scan_start(), spec_scan_fn());
    end.mode == ScanMode::Done && end.max_coord <= end.min_dim
}

/// Whether the record is one the rules engine is known to handle without
/// aborting: its UTF-8 bytes pass the scan.
pub open spec fn spec_record_accepted(s: Seq<char>) -> bool {
    spec_scan_accepts(vstd::utf8::encode_utf8(s))
}

fn scan_step(st: ScanState, b: u8) -> (r: ScanState)
    ensures
        r == spec_scan_step(st, b),
{
    let failed = ScanState { mode: ScanMode::Failed, ..st };
    match st.mode {
        ScanMode::Start => {
            if b == 32 || b == 10 || b == 13 {
                st
            } else if b == 40 {
                ScanState { mode: ScanMode::AfterOpen, ..st }
            } else {
                failed
            }
        },
        ScanMode::AfterOpen | ScanMode::ExpectProp | ScanMode::AfterValue
            | ScanMode::AfterValueGap => {
            if b == 91 && st.mode == ScanMode::AfterValue {
                enter_value(st, st.kind, false)
            } else if (b == 32 || b == 10 || b == 13) && st.mode == ScanMode::AfterValue {
                ScanState { mode: ScanMode::AfterValueGap, ..st }
            } else if (b == 32 || b == 10 || b == 13) && st.mode != ScanMode::AfterValue {
                st
            } else if b == 59 {
                ScanState {
                    mode: ScanMode::ExpectProp,
                    in_root_node: !st.seen_root_node,
                    seen_root_node: true,
                    next_prop_is_first: true,
                    ..st
                }
            } else if (65 <= b && b <= 90 || 97 <= b && b <= 122) && st.mode
                != ScanMode::AfterOpen {
                ScanState {
                    mode: ScanMode::InIdent,
                    ident_first: if 65 <= b && b <= 90 {
                        b
                    } else {
                        0
                    },
                    ident_second: 0,
                    ident_len: if 65 <= b && b <= 90 {
                        1
                    } else {
                        0
                    },
                    prop_is_first: st.next_prop_is_first,
                    next_prop_is_first: false,
                    ..st
                }
            } else if b == 41 {
                ScanState { mode: ScanMode::Done, ..st }
            } else {
                failed
            }
        },
        ScanMode::InIdent => {
            if 65 <= b && b <= 90 {
                if st.ident_len == 0 {
                    ScanState { ident_first: b, ident_len: 1, ..st }
                } else if st.ident_len == 1 {
                    ScanState { ident_second: b, ident_len: 2, ..st }
                } else {
                    ScanState { ident_len: 3, ..st }
                }
            } else if 97 <= b && b <= 122 {
                st
            } else if b == 91 {
                let kind = classify(st.ident_first, st.ident_second, st.ident_len);
                enter_value(st, kind, true)
            } else {
                failed
            }
        },
        ScanMode::InValue => {
            if b == 93 {
                end_value(st)
            } else if b == 92 {
                if st.kind == PropKind::Other {
                    ScanState { mode: ScanMode::InValueEscape, ..st }
                } else {
                    failed
                }
            } else {
                value_byte(st, b)
            }
        },
        ScanMode::InValueEscape => {
            if b == 92 {
                st
            } else {
                ScanState { mode: ScanMode::InValue, ..st }
            }
        },
        ScanMode::Done => {
            if b == 32 || b == 10 || b == 13 {
                st
            } else {
                failed
            }
        },
        ScanMode::Failed => st,
    }
}

fn enter_value(st: ScanState, kind: PropKind, first: bool) -> (r: ScanState)
    ensures
        r == spec_enter_value(st, kind, first),
{
    ScanState {
        mode: ScanMode::InValue,
        kind,
        val_len: 0,
        coord_first: 0,
        sz_part: 0,
        sz_first: 0,
        sz_digits: 0,
        sz_colon: false,
        ru_japanese: true,
        ru_chinese: true,
        mark0: true,
        mark1: true,
        mark2: true,
        value_is_first: first,
        ..st
    }
}

fn classify(first: u8, second: u8, len: u8) -> (r: PropKind)
    ensures
        r == spec_classify(first, second, len),
{
    if len == 1 {
        if first == 66 || first == 87 {
            PropKind::PlacedMove
        } else {
            PropKind::Other
        }
    } else if len == 2 {
        if first == 71 && second == 77 {
            PropKind::GameKind
        } else if first == 83 && second == 90 {
            PropKind::BoardSize
        } else if first == 82 && second == 85 {
            PropKind::Ruleset
        } else if first == 80 && second == 76 {
            PropKind::TurnSetting
        } else if first == 65 && (second == 66 || second == 87) {
            PropKind::AddedStone
        } else if (first == 83 && second == 81) || (first == 84 && second == 82) {
            PropKind::MarkPoint
        } else if first == 76 && second == 66 {
            PropKind::MarkLabel
        } else {
            PropKind::Other
        }
    } else {
        PropKind::Other
    }
}

fn japanese_byte(i: u8) -> (r: u8)
    ensures
        r == spec_japanese_byte(i),
{
    if i == 0 {
        74
    } else if i == 1 || i == 3 {
        97
    } else if i == 2 {
        112
    } else if i == 4 {
        110
    } else if i == 5 || i == 7 {
        101
    } else if i == 6 {
        115
    } else {
        0
    }
}

fn chinese_byte(i: u8) -> (r: u8)
    ensures
        r == spec_chinese_byte(i),
{
    if i == 0 {
        67
    } else if i == 1 {
        104
    } else if i == 2 {
        105
    } else if i == 3 {
        110
    } else if i == 4 || i == 6 {
        101
    } else if i == 5 {
        115
    } else {
        0
    }
}

fn mark_occupied(st: ScanState, idx: u16) -> (r: ScanState)
    ensures
        r == spec_mark_occupied(st, idx),
{
    let word: u16 = idx / 64;
    let mask: u64 = 1u64 << ((idx % 64) as u64);
    let failed = ScanState { mode: ScanMode::Failed, ..st };
    if word == 0 {
        if st.occ0 & mask != 0 {
            failed
        } else {
            ScanState { occ0: st.occ0 | mask, ..st }
        }
    } else if word == 1 {
        if st.occ1 & mask != 0 {
            failed
        } else {
            ScanState { occ1: st.occ1 | mask, ..st }
        }
    } else if word == 2 {
        if st.occ2 & mask != 0 {
            failed
        } else {
            ScanState { occ2: st.occ2 | mask, ..st }
        }
    } else if word == 3 {
        if st.occ3 & mask != 0 {
            failed
        } else {
            ScanState { occ3: st.occ3 | mask, ..st }
        }
    } else if word == 4 {
        if st.occ4 & mask != 0 {
            failed
        } else {
            ScanState { occ4: st.occ4 | mask, ..st }
        }
    } else {
        if st.occ5 & mask != 0 {
            failed
        } else {
            ScanState { occ5: st.occ5 | mask, ..st }
        }
    }
}

#[verifier::rlimit(60)]
fn value_byte(st: ScanState, b: u8) -> (r: ScanState)
    ensures
        r == spec_value_byte(st, b),
{
    let failed = ScanState { mode: ScanMode::Failed, ..st };
    let bumped: u8 = if st.val_len < 250 {
        st.val_len + 1
    } else {
        250
    };
    match st.kind {
        PropKind::GameKind => {
            if st.val_len == 0 && b == 49 {
                ScanState { val_len: bumped, ..st }
            } else {
                failed
            }
        },
        PropKind::TurnSetting => {
            if st.val_len == 0 && (b == 66 || b == 87) {
                ScanState { val_len: bumped, ..st }
            } else {
                failed
            }
        },
        PropKind::Ruleset => {
            let jap = st.ru_japanese && st.val_len < 8 && b == japanese_byte(st.val_len);
            let chi = st.ru_chinese && st.val_len < 7 && b == chinese_byte(st.val_len);
            if jap || chi {
                ScanState { ru_japanese: jap, ru_chinese: chi, val_len: bumped, ..st }
            } else {
                failed
            }
        },
        PropKind::BoardSize => {
            if 48 <= b && b <= 57 {
                if st.sz_digits == 0 {
                    ScanState { sz_part: b - 48, sz_digits: 1, val_len: bumped, ..st }
                } else if st.sz_digits == 1 && st.sz_part <= 9 {
                    ScanState {
                        sz_part: st.sz_part * 10 + (b - 48),
                        sz_digits: 2,
                        val_len: bumped,
                        ..st
                    }
                } else {
                    failed
                }
            } else if b == 58 {
                if st.sz_colon || st.sz_digits == 0 {
                    failed
                } else {
                    ScanState {
                        sz_first: st.sz_part,
                        sz_part: 0,
                        sz_digits: 0,
                        sz_colon: true,
                        val_len: bumped,
                        ..st
                    }
                }
            } else {
                failed
            }
        },
        PropKind::PlacedMove | PropKind::AddedStone => {
            if st.val_len == 0 && 97 <= b && b <= 115 {
                let coord: u8 = b - 96;
                ScanState {
                    coord_first: b,
                    max_coord: if coord > st.max_coord {
                        coord
                    } else {
                        st.max_coord
                    },
                    val_len: bumped,
                    ..st
                }
            } else if st.val_len == 1 && 97 <= b && b <= 115 && 97 <= st.coord_first
                && st.coord_first <= 115 {
                let coord: u8 = b - 96;
                let idx: u16 = (st.coord_first - 97) as u16 * 19 + (b - 97) as u16;
                ScanState {
                    max_coord: if coord > st.max_coord {
                        coord
                    } else {
                        st.max_coord
                    },
                    val_len: bumped,
                    ..mark_occupied(st, idx)
                }
            } else {
                failed
            }
        },
        PropKind::MarkPoint => {
            if st.val_len == 0 {
                ScanState { mark0: b >= 38, val_len: bumped, ..st }
            } else if st.val_len == 1 {
                ScanState { mark1: b >= 38, val_len: bumped, ..st }
            } else {
                ScanState { val_len: bumped, ..st }
            }
        },
        PropKind::MarkLabel => {
            if st.val_len == 0 {
                ScanState { mark0: 38 <= b && b < 128, val_len: bumped, ..st }
            } else if st.val_len == 1 {
                ScanState { mark1: 38 <= b && b < 128, val_len: bumped, ..st }
            } else if st.val_len == 2 {
                ScanState { mark2: b < 128, val_len: bumped, ..st }
            } else {
                ScanState { val_len: bumped, ..st }
            }
        },
        PropKind::Other => ScanState { val_len: bumped, ..st },
    }
}

fn end_value(st: ScanState) -> (r: ScanState)
    ensures
        r == spec_end_value(st),
{
    let failed = ScanState { mode: ScanMode::Failed, ..st };
    let closed = ScanState { mode: ScanMode::AfterValue, ..st };
    match st.kind {
        PropKind::GameKind | PropKind::TurnSetting => {
            if st.val_len == 1 {
                closed
            } else {
                failed
            }
        },
        PropKind::Ruleset => {
            if (st.ru_japanese && st.val_len == 8) || (st.ru_chinese && st.val_len == 7) {
                closed
            } else {
                failed
            }
        },
        PropKind::BoardSize => {
            if st.sz_digits == 0 || st.sz_part > 19 || (st.sz_colon && st.sz_first > 19) {
                failed
            } else {
                let low: u8 = if st.sz_colon && st.sz_first < st.sz_part {
                    st.sz_first
                } else {
                    st.sz_part
                };
                ScanState {
                    mode: ScanMode::AfterValue,
                    min_dim: if low < st.min_dim {
                        low
                    } else {
                        st.min_dim
                    },
                    ..st
                }
            }
        },
        PropKind::PlacedMove => {
            let played = !st.in_root_node && st.prop_is_first && st.value_is_first;
            if st.val_len == 0 {
                if !played {
                    closed
                } else if st.passes >= 2 {
                    failed
                } else {
                    ScanState { mode: ScanMode::AfterValue, passes: st.passes + 1, ..st }
                }
            } else if st.val_len == 2 {
                if played {
                    ScanState { mode: ScanMode::AfterValue, passes: 0, ..st }
                } else {
                    closed
                }
            } else {
                failed
            }
        },
        PropKind::AddedStone => {
            if st.val_len == 2 {
                closed
            } else {
                failed
            }
        },
        PropKind::MarkPoint => {
            if st.val_len != 2 || (st.mark0 && st.mark1) {
                closed
            } else {
                failed
            }
        },
        PropKind::MarkLabel => {
            if st.val_len < 4 || (st.mark0 && st.mark1 && st.mark2) {
                closed
            } else {
                failed
            }
        },
        PropKind::Other => closed,
    }
}

/// Decides `spec_record_accepted` for a record.
pub fn record_accepted(sgf: &str) -> (r: bool)
    ensures
        r == spec_record_accepted(sgf@),
{
    let bytes = sgf.as_bytes_vec();
    let mut st = ScanState {
        mode: ScanMode::Start,
        kind: PropKind::Other,
        ident_first: 0,
        ident_second: 0,
        ident_len: 0,
        val_len: 0,
        coord_first: 0,
        sz_part: 0,
        sz_first: 0,
        sz_digits: 0,
        sz_colon: false,
        ru_japanese: false,
        ru_chinese: false,
        mark0: true,
        mark1: true,
        mark2: true,
        max_coord: 0,
        min_dim: 19,
        passes: 0,
        in_root_node: false,
        seen_root_node: false,
        prop_is_first: false,
        next_prop_is_first: false,
        value_is_first: false,
        occ0: 0,
        occ1: 0,
        occ2: 0,
        occ3: 0,
        occ4: 0,
        occ5: 0,
    };
    assert(st == spec_scan_start());
    let mut i: usize = 0;
    while i < bytes.len()
        invariant
            0 <= i <= bytes@.len(),
            bytes@ == vstd::utf8::encode_utf8(sgf@),
            st == bytes@.take(i as int).fold_left(spec_scan_start(), spec_scan_fn()),
        decreases bytes@.len() - i,
    {
        st = scan_step(st, bytes[i]);
        proof {
            let prefix = bytes@.take((i + 1) as int);
            assert(prefix.drop_last() =~= bytes@.take(i as int));
            assert(prefix.last() == bytes@[i as int]);
            assert(prefix.fold_left(spec_scan_start(), spec_scan_fn()) == spec_scan_fn()(
                bytes@.take(i as int).fold_left(spec_scan_start(), spec_scan_fn()),
                bytes@[i as int],
            ));
        }
        i += 1;
    }
    proof {
        assert(bytes@.take(bytes@.len() as int) =~= bytes@);
    }
    st.mode == ScanMode::Done && st.max_coord <= st.min_dim
}

} // verus!
