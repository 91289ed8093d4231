//! Prefix-anchored reconciliation of rendered text with a new hypothesis.
//!
//! The text on screen and the new hypothesis are compared from the start. What
//! follows their longest common prefix on screen is removed with one
//! `Backspace`, and what follows it in the hypothesis is typed, one `Type` per
//! character. Nothing beyond the first mismatch is ever matched again.

use vstd::prelude::*;

use crate::pure::text::chars_of;
pub use crate::sources::KeyOp;

verus! {

/// The number of leading positions at which `a` and `b` hold the same character.
pub open spec fn common_prefix_len(a: Seq<char>, b: Seq<char>) -> nat
    decreases a.len(),
{
    if a.len() > 0 && b.len() > 0 && a[0] == b[0] {
        1 + common_prefix_len(a.drop_first(), b.drop_first())
    } else {
        0
    }
}

/// One `Type` per character of `s`, in order.
pub open spec fn type_all(s: Seq<char>) -> Seq<KeyOp> {
    Seq::new(s.len(), |i: int| type_op(s[i]))
}

/// The operation that types `c`.
pub open spec fn type_op(c: char) -> KeyOp {
    KeyOp::Type(c)
}

/// The operations that turn the rendered text `previous` into `current`.
pub open spec fn spec_edit_ops(previous: Seq<char>, current: Seq<char>) -> Seq<KeyOp> {
    let l = common_prefix_len(previous, current);
    let retyped = type_all(current.skip(l as int));
    if previous.len() > l {
        seq![KeyOp::Backspace((previous.len() - l) as usize)] + retyped
    } else {
        retyped
    }
}

/// What one operation costs: its count, or one for a typed character.
pub open spec fn op_cost(op: KeyOp) -> nat {
    match op {
        KeyOp::Backspace(n) | KeyOp::Delete(n) | KeyOp::Left(n) | KeyOp::Right(n) => n as nat,
        KeyOp::Type(_) => 1,
    }
}

/// The sum of the costs of `ops`.
pub open spec fn spec_cost(ops: Seq<KeyOp>) -> nat
    decreases ops.len(),
{
    if ops.len() == 0 {
        0
    } else {
        spec_cost(ops.drop_last()) + op_cost(ops.last())
    }
}

/// A line of text with a cursor in it: `cursor` characters stand before the cursor.
pub struct Screen {
    pub text: Seq<char>,
    pub cursor: nat,
}

impl Screen {
    /// The screen that shows `text` with the cursor behind its last character.
    pub open spec fn at_end(text: Seq<char>) -> Screen {
        Screen { text, cursor: text.len() }
    }

    /// The cursor stands inside the text or at one of its ends.
    pub open spec fn wf(self) -> bool {
        self.cursor <= self.text.len()
    }

    /// The screen after one operation. A count that reaches past an end of the
    /// text stops at that end.
    pub open spec fn apply(self, op: KeyOp) -> Screen {
        let len = self.text.len();
        let cur = self.cursor;
        match op {
            KeyOp::Backspace(n) => {
                let k = if n <= cur { n as nat } else { cur };
                Screen {
                    text: self.text.take(cur - k) + self.text.skip(cur as int),
                    cursor: (cur - k) as nat,
                }
            },
            KeyOp::Delete(n) => {
                let k = if cur + n <= len { n as nat } else { (len - cur) as nat };
                Screen {
                    text: self.text.take(cur as int) + self.text.skip((cur + k) as int),
                    cursor: cur,
                }
            },
            KeyOp::Type(c) => Screen {
                text: self.text.take(cur as int).push(c) + self.text.skip(cur as int),
                cursor: cur + 1,
            },
            KeyOp::Left(n) => Screen {
                text: self.text,
                cursor: if n <= cur { (cur - n) as nat } else { 0 },
            },
            KeyOp::Right(n) => Screen {
                text: self.text,
                cursor: if cur + n <= len { (cur + n) as nat } else { len },
            },
        }
    }

    /// The screen after `ops`, applied from left to right.
    pub open spec fn apply_all(self, ops: Seq<KeyOp>) -> Screen
        decreases ops.len(),
    {
        if ops.len() == 0 {
            self
        } else {
            self.apply(ops[0]).apply_all(ops.drop_first())
        }
    }
}

/// `common_prefix_len(a, b)` is the one length `l` at which `a` and `b` agree
/// on every earlier position and either one of them ends or they differ.
pub proof fn lemma_common_prefix_len(a: Seq<char>, b: Seq<char>)
    ensures
        common_prefix_len(a, b) <= a.len(),
        common_prefix_len(a, b) <= b.len(),
        forall|i: int| 0 <= i < common_prefix_len(a, b) ==> a[i] == b[i],
        common_prefix_len(a, b) < a.len() && common_prefix_len(a, b) < b.len() ==> a[common_prefix_len(
            a,
            b,
        ) as int] != b[common_prefix_len(a, b) as int],
    decreases a.len(),
{
    if a.len() > 0 && b.len() > 0 && a[0] == b[0] {
        let a1 = a.drop_first();
        let b1 = b.drop_first();
        lemma_common_prefix_len(a1, b1);
        let l1 = common_prefix_len(a1, b1);
        assert forall|i: int| 0 <= i < l1 + 1 implies a[i] == b[i] by {
            if i > 0 {
                assert(a[i] == a1[i - 1]);
                assert(b[i] == b1[i - 1]);
            }
        }
        if l1 + 1 < a.len() && l1 + 1 < b.len() {
            assert(a[l1 as int + 1] == a1[l1 as int]);
            assert(b[l1 as int + 1] == b1[l1 as int]);
        }
    }
}

/// Any length that has the two properties of the common prefix length is it.
pub proof fn lemma_common_prefix_len_unique(a: Seq<char>, b: Seq<char>, l: nat)
    requires
        l <= a.len(),
        l <= b.len(),
        forall|i: int| 0 <= i < l ==> a[i] == b[i],
        l < a.len() && l < b.len() ==> a[l as int] != b[l as int],
    ensures
        common_prefix_len(a, b) == l,
{
    lemma_common_prefix_len(a, b);
    let m = common_prefix_len(a, b);
    if m < l {
        assert(a[m as int] == b[m as int]);
    } else if l < m {
        assert(a[l as int] == b[l as int]);
    }
}

/// `type_all(s)` is as long as `s` and holds `Type` of each character at its place.
pub proof fn lemma_type_all(s: Seq<char>)
    ensures
        type_all(s).len() == s.len(),
        forall|i: int| 0 <= i < s.len() ==> #[trigger] type_all(s)[i] == KeyOp::Type(s[i]),
{
}

/// The cost of two runs of operations, one after the other, is the sum of their costs.
pub proof fn lemma_cost_concat(x: Seq<KeyOp>, y: Seq<KeyOp>)
    ensures
        spec_cost(x + y) == spec_cost(x) + spec_cost(y),
    decreases y.len(),
{
    if y.len() == 0 {
        assert(x + y =~= x);
    } else {
        assert((x + y).drop_last() =~= x + y.drop_last());
        assert((x + y).last() == y.last());
        lemma_cost_concat(x, y.drop_last());
    }
}

/// Typing a text costs one per character.
pub proof fn lemma_cost_type_all(s: Seq<char>)
    ensures
        spec_cost(type_all(s)) == s.len(),
    decreases s.len(),
{
    if s.len() > 0 {
        assert(type_all(s).drop_last() =~= type_all(s.drop_last()));
        assert(type_all(s).last() == KeyOp::Type(s.last()));
        lemma_cost_type_all(s.drop_last());
    }
}

/// Typing `s` at the cursor puts `s` there and leaves the cursor behind it.
pub proof fn lemma_apply_type_all(screen: Screen, s: Seq<char>)
    requires
        screen.wf(),
    ensures
        screen.apply_all(type_all(s)) == (Screen {
            text: screen.text.take(screen.cursor as int) + s + screen.text.skip(
                screen.cursor as int,
            ),
            cursor: screen.cursor + s.len(),
        }),
    decreases s.len(),
{
    let cur = screen.cursor as int;
    if s.len() == 0 {
        assert(screen.text.take(cur) + s + screen.text.skip(cur) =~= screen.text);
    } else {
        let next = screen.apply(KeyOp::Type(s[0]));
        lemma_type_all(s);
        lemma_type_all(s.drop_first());
        assert(type_all(s)[0] == KeyOp::Type(s[0]));
        assert(type_all(s).drop_first() =~= type_all(s.drop_first()));
        lemma_apply_type_all(next, s.drop_first());
        assert(next.text.take(cur + 1) =~= screen.text.take(cur).push(s[0]));
        assert(next.text.skip(cur + 1) =~= screen.text.skip(cur));
        assert(next.text.take(cur + 1) + s.drop_first() + next.text.skip(cur + 1)
            =~= screen.text.take(cur) + s + screen.text.skip(cur));
    }
}

/// Applied to a screen that shows `a` with the cursor at its end, the
/// operations for `a` and `b` leave `b` on the screen, the cursor at its end.
pub proof fn lemma_edit_ops_reach_target(a: Seq<char>, b: Seq<char>)
    requires
        a.len() <= usize::MAX,
    ensures
        Screen::at_end(a).apply_all(spec_edit_ops(a, b)) == Screen::at_end(b),
{
    lemma_common_prefix_len(a, b);
    let l = common_prefix_len(a, b);
    let retyped = type_all(b.skip(l as int));
    let kept = Screen::at_end(a.take(l as int));
    lemma_type_all(b.skip(l as int));
    assert(a.take(l as int) =~= b.take(l as int));
    lemma_apply_type_all(kept, b.skip(l as int));
    assert(kept.text.take(l as int) + b.skip(l as int) + kept.text.skip(l as int) =~= b);
    if a.len() > l {
        let ops = spec_edit_ops(a, b);
        let erase = KeyOp::Backspace((a.len() - l) as usize);
        assert(ops[0] == erase);
        assert(ops.drop_first() =~= retyped);
        assert(a.take(l as int) + a.skip(a.len() as int) =~= a.take(l as int));
        assert(Screen::at_end(a).apply(erase) == kept);
    } else {
        assert(a.take(l as int) =~= a);
    }
}

/// A text that is already on screen needs no operation.
pub proof fn lemma_edit_ops_same_text(a: Seq<char>)
    ensures
        spec_edit_ops(a, a) == Seq::<KeyOp>::empty(),
{
    lemma_common_prefix_len_unique(a, a, a.len());
    assert(spec_edit_ops(a, a) =~= Seq::<KeyOp>::empty());
}

/// On an empty screen the whole text is typed, character by character.
pub proof fn lemma_edit_ops_from_empty(s: Seq<char>)
    ensures
        spec_edit_ops(Seq::<char>::empty(), s) == type_all(s),
        spec_edit_ops(Seq::<char>::empty(), s).len() == s.len(),
        forall|i: int|
            0 <= i < s.len() ==> #[trigger] spec_edit_ops(Seq::<char>::empty(), s)[i] == KeyOp::Type(
                s[i],
            ),
{
    assert(s.skip(0) =~= s);
    lemma_type_all(s);
}

/// A text on screen is removed by one backspace over all of its characters.
pub proof fn lemma_edit_ops_to_empty(s: Seq<char>)
    requires
        0 < s.len() <= usize::MAX,
    ensures
        spec_edit_ops(s, Seq::<char>::empty()) == seq![KeyOp::Backspace(s.len() as usize)],
{
    let e = Seq::<char>::empty();
    assert(e.skip(0) =~= e);
    lemma_type_all(e);
    assert(spec_edit_ops(s, e) =~= seq![KeyOp::Backspace(s.len() as usize)]);
}

/// Reconciling never costs more than clearing the screen and typing the new text.
pub proof fn lemma_edit_ops_cost_bound(a: Seq<char>, b: Seq<char>)
    ensures
        spec_cost(spec_edit_ops(a, b)) <= a.len() + b.len(),
{
    lemma_common_prefix_len(a, b);
    let l = common_prefix_len(a, b);
    let retyped = type_all(b.skip(l as int));
    lemma_cost_type_all(b.skip(l as int));
    if a.len() > l {
        let erase = seq![KeyOp::Backspace((a.len() - l) as usize)];
        lemma_cost_concat(erase, retyped);
        assert(erase.drop_last() =~= Seq::<KeyOp>::empty());
        assert(spec_cost(erase.drop_last()) == 0);
        assert(spec_cost(erase) <= a.len() - l);
    }
}

/// The length of the longest common prefix of `a` and `b`, found in one pass
/// that stops at the first mismatch.
fn common_prefix(a: &Vec<char>, b: &Vec<char>) -> (l: usize)
    ensures
        l == common_prefix_len(a@, b@),
{
    let mut l: usize = 0;
    while l < a.len() && l < b.len() && a[l] == b[l]
        invariant
            l <= a.len(),
            l <= b.len(),
            forall|i: int| 0 <= i < l ==> a@[i] == b@[i],
        decreases a.len() - l,
    {
        l += 1;
    }
    proof {
        lemma_common_prefix_len_unique(a@, b@, l as nat);
    }
    l
}

/// The operations that turn the rendered text `previous` into `current`: at
/// most one `Backspace` over what follows the longest common prefix in
/// `previous`, then one `Type` for each character that follows it in `current`.
/// Applied to a screen that shows `previous`, they leave `current` on it, and
/// they cost no more than clearing the screen and typing `current`.
pub fn edit_ops(previous: &str, current: &str) -> (ops: Vec<KeyOp>)
    ensures
        ops@ == spec_edit_ops(previous@, current@),
        Screen::at_end(previous@).apply_all(ops@) == Screen::at_end(current@),
        spec_cost(ops@) <= previous@.len() + current@.len(),
{
    proof {
        lemma_edit_ops_cost_bound(previous@, current@);
    }
    let prev = chars_of(previous);
    let curr = chars_of(current);
    let l = common_prefix(&prev, &curr);
    proof {
        lemma_common_prefix_len(prev@, curr@);
        assert(prev@.len() == prev.len());
        lemma_edit_ops_reach_target(prev@, curr@);
    }
    let mut ops: Vec<KeyOp> = Vec::new();
    if prev.len() > l {
        ops.push(KeyOp::Backspace(prev.len() - l));
    }
    let ghost erased = ops@;
    assert(curr@.subrange(l as int, l as int) =~= Seq::<char>::empty());
    let mut i: usize = l;
    while i < curr.len()
        invariant
            l <= i <= curr.len(),
            ops@ == erased + type_all(curr@.subrange(l as int, i as int)),
        decreases curr.len() - i,
    {
        proof {
            let typed = type_all(curr@.subrange(l as int, i as int));
            let more = type_all(curr@.subrange(l as int, i as int + 1));
            assert(more =~= typed.push(type_op(curr@[i as int])));
            assert((erased + typed).push(type_op(curr@[i as int])) =~= erased + more);
        }
        ops.push(KeyOp::Type(curr[i]));
        i += 1;
    }
    assert(curr@.subrange(l as int, curr.len() as int) =~= curr@.skip(l as int));
    ops
}

/// The cost of `ops`: the counts of its `Backspace`, `Delete`, `Left` and
/// `Right` operations and one for each `Type`, added up.
pub fn cost(ops: &[KeyOp]) -> (total: usize)
    requires
        spec_cost(ops@) <= usize::MAX,
    ensures
        total == spec_cost(ops@),
{
    let mut total: usize = 0;
    let mut i: usize = 0;
    while i < ops.len()
        invariant
            i <= ops.len(),
            total == spec_cost(ops@.take(i as int)),
            spec_cost(ops@) <= usize::MAX,
        decreases ops.len() - i,
    {
        proof {
            let done = ops@.take(i as int + 1);
            assert(done.drop_last() =~= ops@.take(i as int));
            assert(done.last() == ops@[i as int]);
            lemma_cost_concat(done, ops@.skip(i as int + 1));
            assert(done + ops@.skip(i as int + 1) =~= ops@);
        }
        let step: usize = match ops[i] {
            KeyOp::Backspace(n) | KeyOp::Delete(n) | KeyOp::Left(n) | KeyOp::Right(n) => n,
            KeyOp::Type(_) => 1,
        };
        total = total + step;
        i += 1;
    }
    assert(ops@.take(ops.len() as int) =~= ops@);
    total
}

} // verus!
