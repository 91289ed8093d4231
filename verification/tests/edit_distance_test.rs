use vype::pure::edit_distance::{cost, edit_ops};
use vype::sources::KeyOp;

#[test]
fn empty_to_text_types_all() {
    let ops = edit_ops("", "hello");
    assert_eq!(
        ops,
        vec![
            KeyOp::Type('h'),
            KeyOp::Type('e'),
            KeyOp::Type('l'),
            KeyOp::Type('l'),
            KeyOp::Type('o'),
        ]
    );
}

#[test]
fn text_to_empty_backspaces_all() {
    let ops = edit_ops("hello", "");
    assert_eq!(ops, vec![KeyOp::Backspace(5)]);
}

#[test]
fn same_text_no_ops() {
    let ops = edit_ops("hello", "hello");
    assert!(ops.is_empty());
}

#[test]
fn prefix_match_types_suffix() {
    let ops = edit_ops("hello", "hello world");
    assert_eq!(
        ops,
        vec![
            KeyOp::Type(' '),
            KeyOp::Type('w'),
            KeyOp::Type('o'),
            KeyOp::Type('r'),
            KeyOp::Type('l'),
            KeyOp::Type('d'),
        ]
    );
}

#[test]
fn middle_edit_uses_backspace_and_retype() {
    let ops = edit_ops("hello", "hallo");
    assert_eq!(
        ops,
        vec![
            KeyOp::Backspace(4),
            KeyOp::Type('a'),
            KeyOp::Type('l'),
            KeyOp::Type('l'),
            KeyOp::Type('o'),
        ]
    );
}

#[test]
fn complete_replace() {
    let ops = edit_ops("abc", "xyz");
    assert_eq!(
        ops,
        vec![
            KeyOp::Backspace(3),
            KeyOp::Type('x'),
            KeyOp::Type('y'),
            KeyOp::Type('z'),
        ]
    );
}

#[test]
fn backspace_is_more_efficient_than_retyping_prefix() {
    let ops = edit_ops("abcdefgh", "abcd");
    assert_eq!(ops, vec![KeyOp::Backspace(4)]);
}

#[test]
fn handles_unicode_correctly() {
    let ops = edit_ops("", "héllo");
    assert_eq!(
        ops,
        vec![
            KeyOp::Type('h'),
            KeyOp::Type('é'),
            KeyOp::Type('l'),
            KeyOp::Type('l'),
            KeyOp::Type('o'),
        ]
    );
}

#[test]
fn unicode_is_counted_by_character() {
    let ops = edit_ops("héllo wörld", "héllo");
    assert_eq!(ops, vec![KeyOp::Backspace(6)]);

    let ops = edit_ops("日本語", "日本人");
    assert_eq!(ops, vec![KeyOp::Backspace(1), KeyOp::Type('人')]);
}

#[test]
fn both_empty_no_ops() {
    assert!(edit_ops("", "").is_empty());
}

#[test]
fn a_character_that_recurs_later_is_retyped() {
    let ops = edit_ops("abcd", "xbcd");
    assert_eq!(
        ops,
        vec![
            KeyOp::Backspace(4),
            KeyOp::Type('x'),
            KeyOp::Type('b'),
            KeyOp::Type('c'),
            KeyOp::Type('d'),
        ]
    );
}

#[test]
fn partial_then_final_types_only_the_rest() {
    let ops = edit_ops("hel", "hello");
    assert_eq!(ops, vec![KeyOp::Type('l'), KeyOp::Type('o')]);
}

#[test]
fn cost_adds_counts_and_typed_characters() {
    assert_eq!(cost(&[]), 0);
    assert_eq!(
        cost(&[
            KeyOp::Backspace(4),
            KeyOp::Delete(3),
            KeyOp::Type('a'),
            KeyOp::Left(2),
            KeyOp::Right(5),
            KeyOp::Type('b'),
        ]),
        16
    );
    assert_eq!(cost(&edit_ops("hello", "hallo")), 8);
    assert_eq!(cost(&[KeyOp::Backspace(0)]), 0);
}

fn apply(start: &str, ops: &[KeyOp]) -> String {
    let mut text: Vec<char> = start.chars().collect();
    let mut cursor = text.len();
    for op in ops {
        match *op {
            KeyOp::Backspace(n) => {
                let k = n.min(cursor);
                text.drain(cursor - k..cursor);
                cursor -= k;
            }
            KeyOp::Delete(n) => {
                let k = n.min(text.len() - cursor);
                text.drain(cursor..cursor + k);
            }
            KeyOp::Type(c) => {
                text.insert(cursor, c);
                cursor += 1;
            }
            KeyOp::Left(n) => cursor -= n.min(cursor),
            KeyOp::Right(n) => cursor += n.min(text.len() - cursor),
        }
    }
    text.into_iter().collect()
}

#[test]
fn applying_the_ops_gives_the_new_text_and_never_costs_more_than_retyping() {
    let texts = ["", "a", "hello", "hallo", "hello world", "héllo", "help", "日本語", "abcdefgh", "abcd"];
    for a in texts {
        for b in texts {
            let ops = edit_ops(a, b);
            assert_eq!(apply(a, &ops), b);
            assert!(cost(&ops) <= a.chars().count() + b.chars().count());
            if a == b {
                assert!(ops.is_empty());
            }
            if a.is_empty() {
                let typed: Vec<KeyOp> = b.chars().map(KeyOp::Type).collect();
                assert_eq!(ops, typed);
            }
            if b.is_empty() && !a.is_empty() {
                assert_eq!(ops, vec![KeyOp::Backspace(a.chars().count())]);
            }
        }
    }
}
