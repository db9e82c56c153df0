use buj::command::parse_command;
use buj::error::{JobStartError, ParseError};
use buj::geometry::{Rect, Size};
use buj::input::{Input, InputState};
use buj::paint::{pill, Color};

const EDGE: [u16; 7] = [0, 1, 2, 3, 100, 65534, 65535];

fn sat_add(a: i64, b: i64) -> i64 {
    (a + b).min(65535)
}

/// The inset as the library states it, written out once more.
fn inset(r: Rect, horizontal: u16, vertical: u16) -> Rect {
    let across = sat_add(horizontal.into(), horizontal.into());
    let down = sat_add(vertical.into(), vertical.into());
    if i64::from(r.width) < across || i64::from(r.height) < down {
        Rect { x: 0, y: 0, width: 0, height: 0 }
    } else {
        Rect {
            x: sat_add(r.x.into(), horizontal.into()) as u16,
            y: sat_add(r.y.into(), vertical.into()) as u16,
            width: (i64::from(r.width) - across) as u16,
            height: (i64::from(r.height) - down) as u16,
        }
    }
}

fn right(r: Rect) -> i64 {
    sat_add(r.x.into(), r.width.into())
}

fn bottom(r: Rect) -> i64 {
    sat_add(r.y.into(), r.height.into())
}

/// The intersection as the library states it, written out once more.
fn crossing(a: Rect, b: Rect) -> Rect {
    let x1 = a.x.max(b.x);
    let y1 = a.y.max(b.y);
    let x2 = right(a).min(right(b));
    let y2 = bottom(a).min(bottom(b));
    Rect {
        x: x1,
        y: y1,
        width: (x2 - i64::from(x1)).max(0) as u16,
        height: (y2 - i64::from(y1)).max(0) as u16,
    }
}

#[test]
fn inset_follows_its_formula_at_the_edges() {
    for x in EDGE {
        for y in [0, 7, 65535] {
            for width in EDGE {
                for height in [0, 1, 2, 9] {
                    let area = Rect { x, y, width, height };
                    let row = Rect { height: height.min(1), ..area };
                    assert_eq!(pill(Color::Reset, area).inner, inset(row, 1, 0), "{area:?}");

                    if u32::from(x) + u32::from(width) <= 65535 {
                        let mut state = InputState::new();
                        let laid = Input::layout(area, &mut state);
                        assert_eq!(laid.area, inset(area, 1, 1), "{area:?}");
                    }
                }
            }
        }
    }
}

#[test]
fn move_follows_its_formula_at_the_edges() {
    let moves = [i32::MIN, -70000, -65536, -65535, -5, -1, 0, 1, 5, 65535, 65536, 70000, i32::MAX];
    for x in EDGE {
        for width in EDGE {
            for by in moves {
                let area = Rect { x, y: 9, width, height: 4 };
                let moved = area.inner_x(by);
                let expected = (i64::from(x) + i64::from(by)).clamp(0, 65535 - i64::from(width));
                assert_eq!(i64::from(moved.x), expected, "{area:?} by {by}");
                assert_eq!((moved.y, moved.height), (9, 4));
                let narrowed = (i64::from(width) - i64::from(by as i16)).clamp(0, 65535);
                assert_eq!(i64::from(moved.width), narrowed, "{area:?} by {by}");

                let down = Rect { x: 9, y: x, width: 4, height: width }.inner_y(by);
                assert_eq!(i64::from(down.y), expected);
                assert_eq!(i64::from(down.height), narrowed);
            }
        }
    }
}

#[test]
fn centring_follows_its_formula_at_the_edges() {
    for x in EDGE {
        for width in EDGE {
            for wanted in EDGE {
                if wanted / 2 > width / 2 {
                    continue;
                }
                let area = Rect { x, y: x, width, height: width };
                let size = Size { width: wanted, height: wanted };
                let shift = i64::from(width / 2 - wanted / 2);
                let at = sat_add(x.into(), shift) as u16;
                let moved = Rect { x: at, y: at, width: wanted, height: wanted };
                assert_eq!(area.centered(size), crossing(moved, area), "{area:?} {size:?}");
            }
        }
    }
}

/// Every line over `alphabet` of at most `len` characters.
fn lines(alphabet: &[char], len: usize) -> Vec<String> {
    let mut all = vec![String::new()];
    let mut last = vec![String::new()];
    for _ in 0..len {
        let mut next = Vec::new();
        for line in &last {
            for c in alphabet {
                let mut longer = line.clone();
                longer.push(*c);
                next.push(longer);
            }
        }
        all.extend(next.iter().cloned());
        last = next;
    }
    all
}

#[test]
fn lines_of_blanks_hold_no_command() {
    for line in lines(&[' ', '\t', '\n'], 6) {
        assert!(matches!(parse_command(&line), Err(JobStartError::NoCommand)), "{line:?}");
    }
}

#[test]
fn an_odd_number_of_quotes_leaves_a_string_open() {
    for quote in ['"', '\''] {
        for line in lines(&['a', ' ', '\n', 'é', quote], 6) {
            let quotes = line.chars().filter(|c| *c == quote).count();
            let parsed = parse_command(&line);
            if quotes % 2 == 1 {
                assert!(
                    matches!(parsed, Err(JobStartError::Parse(ParseError::DanglingString))),
                    "{line:?}"
                );
            } else {
                assert!(!matches!(parsed, Err(JobStartError::Parse(_))), "{line:?}");
            }
        }
    }
}
