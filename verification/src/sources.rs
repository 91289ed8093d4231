//! The capabilities through which the core reaches its collaborators, and the
//! plan by which keyboard operations become calls on a keyboard sink.

use vstd::prelude::*;

pub mod dbus_service;
pub mod fakes;

verus! {

/// A failure of a collaborator. It never stops the core: the turn is lost and
/// what is on screen stays.
#[derive(Debug, PartialEq, Clone)]
pub enum SourceError {
    /// Capture could not be started or stopped.
    Audio(String),
    /// Inference failed.
    Transcription(String),
}

impl SourceError {
    /// The words that stand before the detail of this error.
    pub open spec fn spec_prefix(&self) -> Seq<char> {
        match self {
            SourceError::Audio(_) => "Audio source error: "@,
            SourceError::Transcription(_) => "Transcription error: "@,
        }
    }

    /// The detail that the failing collaborator gave.
    pub open spec fn spec_detail(&self) -> Seq<char> {
        match self {
            SourceError::Audio(detail) => detail@,
            SourceError::Transcription(detail) => detail@,
        }
    }

    /// The error as one line of text: what failed, then the detail.
    pub fn to_string(&self) -> (text: String)
        ensures
            text@ == self.spec_prefix() + self.spec_detail(),
    {
        match self {
            SourceError::Audio(detail) => String::from_str("Audio source error: ").concat(
                detail.as_str(),
            ),
            SourceError::Transcription(detail) => String::from_str("Transcription error: ").concat(
                detail.as_str(),
            ),
        }
    }
}

/// What an audio source holds: whether a capture runs, and the samples
/// gathered so far.
pub struct Capture<S> {
    pub running: bool,
    pub gathered: Seq<S>,
}

/// A source of audio samples of type `S`. One capture runs at a time.
///
/// A source may say what it holds (`capture`). Of a source that does, `stop`
/// and `get_current_samples` state what they hand over; of a source that does
/// not, nothing is claimed.
pub trait AudioSource<S> {
    /// What the source holds, if the source keeps account of it.
    open spec fn capture(&self) -> Option<Capture<S>> {
        None
    }

    /// Starts a capture. What an earlier capture had gathered is discarded,
    /// unless the source says otherwise.
    fn start(&mut self) -> (started: Result<(), SourceError>)
        ensures
            old(self).capture() is Some ==> final(self).capture() is Some,
            old(self).capture() is Some && started is Ok ==> final(self).capture()->0.running,
    ;

    /// Ends the capture and hands over what it gathered. Nothing is left in
    /// the source.
    fn stop(&mut self) -> (samples: Vec<S>)
        ensures
            old(self).capture() matches Some(held) ==> {
                &&& samples@ == held.gathered
                &&& final(self).capture() == Some(
                    Capture { running: false, gathered: Seq::<S>::empty() },
                )
            },
    ;

    /// Samples per second and channel.
    fn sample_rate(&self) -> u32;

    /// The number of interleaved channels.
    fn channels(&self) -> u16;

    /// A copy of what the running capture has gathered so far. The capture
    /// goes on.
    fn get_current_samples(&self) -> (samples: Vec<S>)
        ensures
            self.capture() matches Some(held) ==> samples@ == held.gathered,
    ;
}

/// Speech recognition over samples of type `S`.
///
/// A transcriber may say what it hears in an audio (`hears`): a text, or the
/// detail of a failure. Of a transcriber that does, `transcribe` returns just
/// that; of one that does not, nothing is claimed.
pub trait Transcriber<S> {
    /// What the transcriber hears in `audio`, if it says so beforehand.
    open spec fn hears(&self, audio: Seq<S>) -> Option<Result<Seq<char>, Seq<char>>> {
        None
    }

    /// The text heard in `audio`.
    fn transcribe(&self, audio: &[S]) -> (heard: Result<String, SourceError>)
        ensures
            self.hears(audio@) matches Some(answer) ==> answers(heard, answer),
    ;
}

/// Whether the result `heard` of a transcription is the announced `answer`:
/// the same text, or a transcription error with the same detail.
pub open spec fn answers(heard: Result<String, SourceError>, answer: Result<Seq<char>, Seq<char>>) -> bool {
    match answer {
        Ok(text) => heard matches Ok(t) && t@ == text,
        Err(detail) => heard matches Err(SourceError::Transcription(d)) && d@ == detail,
    }
}

/// One keyboard operation. A sequence of operations is applied left to right.
#[derive(Debug, Clone, Copy, PartialEq, Eq, Structural)]
pub enum KeyOp {
    /// Remove this many characters before the cursor.
    Backspace(usize),
    /// Remove this many characters after the cursor.
    Delete(usize),
    /// Insert one character at the cursor.
    Type(char),
    /// Move the cursor this many characters to the left.
    Left(usize),
    /// Move the cursor this many characters to the right.
    Right(usize),
}

/// One step of carrying out keyboard operations on a sink.
#[derive(Debug, Clone, PartialEq, Eq)]
pub enum SinkCall {
    /// Hand this text to `type_text`.
    Text(String),
    /// Call `left` this many times.
    Left(usize),
    /// Call `right` this many times.
    Right(usize),
}

/// What a `SinkCall` stands for.
pub enum SinkCallView {
    Text(Seq<char>),
    Left(nat),
    Right(nat),
}

impl View for SinkCall {
    type V = SinkCallView;

    open spec fn view(&self) -> SinkCallView {
        match self {
            SinkCall::Text(text) => SinkCallView::Text(text@),
            SinkCall::Left(n) => SinkCallView::Left(*n as nat),
            SinkCall::Right(n) => SinkCallView::Right(*n as nat),
        }
    }
}

/// The character that a keyboard takes for one backspace.
pub const BACKSPACE_CHAR: char = '\x08';

/// The character that a keyboard takes for one delete.
pub const DELETE_CHAR: char = '\x7F';

/// The escape sequence that moves the cursor one place to the left.
pub open spec fn left_sequence() -> Seq<char> {
    seq!['\x1B', '[', 'D']
}

/// The escape sequence that moves the cursor one place to the right.
pub open spec fn right_sequence() -> Seq<char> {
    seq!['\x1B', '[', 'C']
}

/// `unit`, `n` times in a row.
pub open spec fn repeated(unit: Seq<char>, n: nat) -> Seq<char>
    decreases n,
{
    if n == 0 {
        Seq::empty()
    } else {
        repeated(unit, (n - 1) as nat) + unit
    }
}

/// The number of `Type` operations that `ops` starts with.
pub open spec fn type_run_len(ops: Seq<KeyOp>) -> nat
    decreases ops.len(),
{
    if ops.len() > 0 && ops[0] is Type {
        1 + type_run_len(ops.drop_first())
    } else {
        0
    }
}

/// The character that `op` types, for a `Type` operation.
pub open spec fn typed_char(op: KeyOp) -> char {
    match op {
        KeyOp::Type(c) => c,
        _ => ' ',
    }
}

/// The characters that a run of `Type` operations types.
pub open spec fn typed_chars(run: Seq<KeyOp>) -> Seq<char> {
    Seq::new(run.len(), |i: int| typed_char(run[i]))
}

/// The call that carries out one operation by itself.
pub open spec fn single_call(op: KeyOp) -> SinkCallView {
    match op {
        KeyOp::Backspace(n) => SinkCallView::Text(repeated(seq![BACKSPACE_CHAR], n as nat)),
        KeyOp::Delete(n) => SinkCallView::Text(repeated(seq![DELETE_CHAR], n as nat)),
        KeyOp::Type(c) => SinkCallView::Text(seq![c]),
        KeyOp::Left(n) => SinkCallView::Left(n as nat),
        KeyOp::Right(n) => SinkCallView::Right(n as nat),
    }
}

/// The calls that carry out `ops`: each maximal run of `Type` operations
/// becomes one text, every other operation one call of its own.
pub open spec fn spec_plan(ops: Seq<KeyOp>) -> Seq<SinkCallView>
    decreases ops.len(),
{
    if ops.len() == 0 {
        Seq::empty()
    } else {
        let run = type_run_len(ops);
        if 0 < run <= ops.len() {
            seq![SinkCallView::Text(typed_chars(ops.take(run as int)))] + spec_plan(
                ops.skip(run as int),
            )
        } else {
            seq![single_call(ops[0])] + spec_plan(ops.drop_first())
        }
    }
}

/// The characters that a sink without overrides receives for one call.
pub open spec fn call_text(call: SinkCallView) -> Seq<char> {
    match call {
        SinkCallView::Text(text) => text,
        SinkCallView::Left(n) => repeated(left_sequence(), n),
        SinkCallView::Right(n) => repeated(right_sequence(), n),
    }
}

/// The characters that a sink without overrides receives for `calls`, in order.
pub open spec fn calls_text(calls: Seq<SinkCallView>) -> Seq<char>
    decreases calls.len(),
{
    if calls.len() == 0 {
        Seq::empty()
    } else {
        call_text(calls[0]) + calls_text(calls.drop_first())
    }
}

/// The characters that a sink without overrides receives when the
/// operations are carried out one at a time.
pub open spec fn ops_text(ops: Seq<KeyOp>) -> Seq<char>
    decreases ops.len(),
{
    if ops.len() == 0 {
        Seq::empty()
    } else {
        call_text(single_call(ops[0])) + ops_text(ops.drop_first())
    }
}

/// A run of `Type` operations is no longer than the operations it starts.
pub proof fn lemma_type_run_len(ops: Seq<KeyOp>)
    ensures
        type_run_len(ops) <= ops.len(),
        forall|i: int| 0 <= i < type_run_len(ops) ==> ops[i] is Type,
        type_run_len(ops) < ops.len() ==> !(ops[type_run_len(ops) as int] is Type),
    decreases ops.len(),
{
    if ops.len() > 0 && ops[0] is Type {
        let rest = ops.drop_first();
        lemma_type_run_len(rest);
        assert forall|i: int| 0 <= i < type_run_len(ops) implies ops[i] is Type by {
            if i > 0 {
                assert(ops[i] == rest[i - 1]);
            }
        }
        if type_run_len(ops) < ops.len() {
            assert(ops[type_run_len(ops) as int] == rest[type_run_len(rest) as int]);
        }
    }
}

/// Any length with the two properties of the run length is the run length.
pub proof fn lemma_type_run_len_unique(ops: Seq<KeyOp>, run: nat)
    requires
        run <= ops.len(),
        forall|i: int| 0 <= i < run ==> ops[i] is Type,
        run < ops.len() ==> !(ops[run as int] is Type),
    ensures
        type_run_len(ops) == run,
{
    lemma_type_run_len(ops);
}

/// One text for a whole run of `Type` operations holds the characters that
/// the operations of the run type one at a time.
pub proof fn lemma_run_text(run: Seq<KeyOp>)
    requires
        forall|i: int| 0 <= i < run.len() ==> run[i] is Type,
    ensures
        ops_text(run) == typed_chars(run),
    decreases run.len(),
{
    if run.len() > 0 {
        let rest = run.drop_first();
        assert forall|i: int| 0 <= i < rest.len() implies rest[i] is Type by {
            assert(rest[i] == run[i + 1]);
        }
        lemma_run_text(rest);
        assert(seq![typed_char(run[0])] + typed_chars(rest) =~= typed_chars(run));
    } else {
        assert(typed_chars(run) =~= Seq::<char>::empty());
    }
}

/// Carrying out two runs of operations one at a time, one run after the
/// other, sends the characters of the first and then those of the second.
pub proof fn lemma_ops_text_concat(x: Seq<KeyOp>, y: Seq<KeyOp>)
    ensures
        ops_text(x + y) == ops_text(x) + ops_text(y),
    decreases x.len(),
{
    if x.len() == 0 {
        assert(x + y =~= y);
    } else {
        assert((x + y).drop_first() =~= x.drop_first() + y);
        lemma_ops_text_concat(x.drop_first(), y);
    }
}

/// Batching changes nothing that a sink without overrides receives: the calls
/// planned for `ops` send the same characters, in the same order, as the
/// operations carried out one at a time.
pub proof fn lemma_plan_preserves_text(ops: Seq<KeyOp>)
    ensures
        calls_text(spec_plan(ops)) == ops_text(ops),
    decreases ops.len(),
{
    if ops.len() > 0 {
        lemma_type_run_len(ops);
        let run = type_run_len(ops);
        if run > 0 {
            let head = ops.take(run as int);
            let tail = ops.skip(run as int);
            let plan = spec_plan(ops);
            assert(plan[0] == SinkCallView::Text(typed_chars(head)));
            assert(plan.drop_first() =~= spec_plan(tail));
            lemma_plan_preserves_text(tail);
            lemma_run_text(head);
            lemma_ops_text_concat(head, tail);
            assert(head + tail =~= ops);
        } else {
            let plan = spec_plan(ops);
            assert(plan[0] == single_call(ops[0]));
            assert(plan.drop_first() =~= spec_plan(ops.drop_first()));
            lemma_plan_preserves_text(ops.drop_first());
        }
    }
}

/// A single operation is planned as the call that carries it out by itself.
pub proof fn lemma_plan_single(op: KeyOp)
    ensures
        spec_plan(seq![op]) == seq![single_call(op)],
{
    let ops = seq![op];
    assert(ops.drop_first() =~= Seq::<KeyOp>::empty());
    assert(type_run_len(ops.drop_first()) == 0);
    assert(spec_plan(ops.drop_first()) =~= Seq::<SinkCallView>::empty());
    if op is Type {
        assert(type_run_len(ops) == 1);
        assert(ops.take(1) =~= ops);
        assert(ops.skip(1) =~= Seq::<KeyOp>::empty());
        assert(typed_chars(ops) =~= seq![typed_char(op)]);
        assert(spec_plan(ops) =~= seq![single_call(op)]);
    } else {
        assert(spec_plan(ops) =~= seq![single_call(op)]);
    }
}

/// `String::push` appends one character to the string.
pub assume_specification[ String::push ](text: &mut String, ch: char)
    ensures
        final(text)@ == old(text)@.push(ch),
;

/// The text that holds `c`, `n` times.
pub fn repeat_char(c: char, n: usize) -> (text: String)
    ensures
        text@ == repeated(seq![c], n as nat),
{
    let mut text = String::new();
    let mut i: usize = 0;
    while i < n
        invariant
            i <= n,
            text@ == repeated(seq![c], i as nat),
        decreases n - i,
    {
        text.push(c);
        i += 1;
        assert(text@ =~= repeated(seq![c], (i - 1) as nat) + seq![c]);
    }
    text
}

/// The calls that carry out `ops` on a keyboard sink, in order. Consecutive
/// `Type` operations are merged into one text; `Backspace` and `Delete`
/// become a text of that many control characters; `Left` and `Right` become
/// that many cursor moves.
pub fn plan_ops(ops: &[KeyOp]) -> (calls: Vec<SinkCall>)
    ensures
        calls@.len() == spec_plan(ops@).len(),
        forall|i: int| 0 <= i < calls@.len() ==> (#[trigger] calls@[i])@ == spec_plan(ops@)[i],
{
    let mut calls: Vec<SinkCall> = Vec::new();
    let ghost mut planned: Seq<SinkCallView> = Seq::empty();
    let mut i: usize = 0;
    proof {
        assert(ops@.skip(0) =~= ops@);
        assert(planned + spec_plan(ops@) =~= spec_plan(ops@));
    }
    while i < ops.len()
        invariant
            i <= ops.len(),
            calls@.len() == planned.len(),
            forall|k: int| 0 <= k < calls@.len() ==> (#[trigger] calls@[k])@ == planned[k],
            planned + spec_plan(ops@.skip(i as int)) == spec_plan(ops@),
        decreases ops.len() - i,
    {
        let ghost rest = ops@.skip(i as int);
        assert(rest.len() > 0 && rest[0] == ops@[i as int]);
        proof {
            lemma_type_run_len(rest);
        }
        match ops[i] {
            KeyOp::Type(first) => {
                let mut text = String::new();
                text.push(first);
                let start = i;
                i += 1;
                while i < ops.len() && is_type(&ops[i])
                    invariant
                        start < i <= ops.len(),
                        rest == ops@.skip(start as int),
                        forall|k: int| start <= k < i ==> ops@[k] is Type,
                        text@ == typed_chars(ops@.subrange(start as int, i as int)),
                    decreases ops.len() - i,
                {
                    let next = typed_of(&ops[i]);
                    text.push(next);
                    i += 1;
                    assert(text@ =~= typed_chars(ops@.subrange(start as int, i as int)));
                }
                proof {
                    let run = (i - start) as nat;
                    assert forall|k: int| 0 <= k < run implies rest[k] is Type by {
                        assert(rest[k] == ops@[start + k]);
                    }
                    lemma_type_run_len_unique(rest, run);
                    assert(rest.take(run as int) =~= ops@.subrange(start as int, i as int));
                    assert(rest.skip(run as int) =~= ops@.skip(i as int));
                    let call = SinkCallView::Text(text@);
                    assert(planned.push(call) + spec_plan(ops@.skip(i as int)) =~= planned + spec_plan(
                        rest,
                    ));
                    planned = planned.push(call);
                }
                calls.push(SinkCall::Text(text));
            },
            other => {
                let call = match other {
                    KeyOp::Backspace(n) => SinkCall::Text(repeat_char(BACKSPACE_CHAR, n)),
                    KeyOp::Delete(n) => SinkCall::Text(repeat_char(DELETE_CHAR, n)),
                    KeyOp::Left(n) => SinkCall::Left(n),
                    KeyOp::Right(n) => SinkCall::Right(n),
                    KeyOp::Type(c) => SinkCall::Text(repeat_char(c, 1)),
                };
                i += 1;
                proof {
                    assert(type_run_len(rest) == 0);
                    assert(rest.drop_first() =~= ops@.skip(i as int));
                    assert(call@ == single_call(rest[0]));
                    assert(planned.push(call@) + spec_plan(ops@.skip(i as int)) =~= planned + spec_plan(
                        rest,
                    ));
                    planned = planned.push(call@);
                }
                calls.push(call);
            },
        }
    }
    proof {
        assert(ops@.skip(ops@.len() as int) =~= Seq::<KeyOp>::empty());
        assert(planned + Seq::<SinkCallView>::empty() =~= planned);
    }
    calls
}

/// Whether `op` types a character.
fn is_type(op: &KeyOp) -> (yes: bool)
    ensures
        yes == (*op is Type),
{
    match op {
        KeyOp::Type(_) => true,
        _ => false,
    }
}

/// The character that `op` types.
fn typed_of(op: &KeyOp) -> (c: char)
    requires
        *op is Type,
    ensures
        c == typed_char(*op),
{
    match op {
        KeyOp::Type(c) => *c,
        _ => ' ',
    }
}

/// The texts that a sink receives for one call when none of its methods is
/// replaced: the text itself, or one escape sequence for each cursor move.
pub open spec fn call_texts(call: SinkCallView) -> Seq<Seq<char>> {
    match call {
        SinkCallView::Text(text) => seq![text],
        SinkCallView::Left(n) => Seq::new(n, |i: int| left_sequence()),
        SinkCallView::Right(n) => Seq::new(n, |i: int| right_sequence()),
    }
}

/// The texts that a sink receives for `calls`, in order.
pub open spec fn calls_texts(calls: Seq<SinkCallView>) -> Seq<Seq<char>>
    decreases calls.len(),
{
    if calls.len() == 0 {
        Seq::empty()
    } else {
        calls_texts(calls.drop_last()) + call_texts(calls.last())
    }
}

/// Something that takes text as if it were typed on a keyboard.
///
/// Only `type_text` has to be written. The other methods may be replaced by
/// faster ones that have the same effect.
///
/// A sink may say what it has received so far (`received`). Of a sink that
/// does, every method states how that record grows; of a sink that does not,
/// nothing is claimed.
pub trait KeyboardSink {
    /// The texts that the sink has received, oldest first, if the sink keeps
    /// account of them.
    open spec fn received(&self) -> Option<Seq<Seq<char>>> {
        None
    }

    /// Types `text`.
    fn type_text(&mut self, text: &str)
        ensures
            old(self).received() matches Some(log) ==> final(self).received() == Some(
                log.push(text@),
            ),
    ;

    /// Carries out `ops` from left to right, as the calls that `plan_ops`
    /// gives for them: consecutive `Type` operations arrive as one text.
    fn execute_ops(&mut self, ops: &[KeyOp])
        ensures
            old(self).received() matches Some(log) ==> final(self).received() == Some(
                log + calls_texts(spec_plan(ops@)),
            ),
    {
        let calls = plan_ops(ops);
        let ghost plan = spec_plan(ops@);
        let mut i: usize = 0;
        proof {
            assert(plan.take(0) =~= Seq::<SinkCallView>::empty());
            if let Some(log) = self.received() {
                assert(log + calls_texts(plan.take(0)) =~= log);
            }
        }
        while i < calls.len()
            invariant
                i <= calls.len(),
                plan == spec_plan(ops@),
                calls@.len() == plan.len(),
                forall|k: int| 0 <= k < calls@.len() ==> (#[trigger] calls@[k])@ == plan[k],
                old(self).received() matches Some(log) ==> self.received() == Some(
                    log + calls_texts(plan.take(i as int)),
                ),
            decreases calls.len() - i,
        {
            let ghost before = self.received();
            let ghost done = calls_texts(plan.take(i as int));
            proof {
                assert(plan.take(i as int + 1).drop_last() =~= plan.take(i as int));
                assert(plan.take(i as int + 1).last() == plan[i as int]);
            }
            match &calls[i] {
                SinkCall::Text(text) => {
                    self.type_text(text.as_str());
                    proof {
                        if let Some(log) = old(self).received() {
                            assert((log + done).push(text@) =~= log + (done + seq![text@]));
                        }
                    }
                },
                SinkCall::Left(n) => {
                    let mut k: usize = 0;
                    proof {
                        if let Some(log) = before {
                            assert(log + Seq::new(0, |j: int| left_sequence()) =~= log);
                        }
                    }
                    while k < *n
                        invariant
                            k <= *n,
                            before matches Some(log) ==> self.received() == Some(
                                log + Seq::new(k as nat, |j: int| left_sequence()),
                            ),
                        decreases *n - k,
                    {
                        self.left();
                        k += 1;
                        proof {
                            if let Some(log) = before {
                                assert((log + Seq::new((k - 1) as nat, |j: int| left_sequence())).push(
                                    left_sequence(),
                                ) =~= log + Seq::new(k as nat, |j: int| left_sequence()));
                            }
                        }
                    }
                    proof {
                        if let Some(log) = old(self).received() {
                            assert((log + done) + Seq::new(*n as nat, |j: int| left_sequence()) =~= log
                                + (done + call_texts(plan[i as int])));
                        }
                    }
                },
                SinkCall::Right(n) => {
                    let mut k: usize = 0;
                    proof {
                        if let Some(log) = before {
                            assert(log + Seq::new(0, |j: int| right_sequence()) =~= log);
                        }
                    }
                    while k < *n
                        invariant
                            k <= *n,
                            before matches Some(log) ==> self.received() == Some(
                                log + Seq::new(k as nat, |j: int| right_sequence()),
                            ),
                        decreases *n - k,
                    {
                        self.right();
                        k += 1;
                        proof {
                            if let Some(log) = before {
                                assert((log + Seq::new((k - 1) as nat, |j: int| right_sequence())).push(
                                    right_sequence(),
                                ) =~= log + Seq::new(k as nat, |j: int| right_sequence()));
                            }
                        }
                    }
                    proof {
                        if let Some(log) = old(self).received() {
                            assert((log + done) + Seq::new(*n as nat, |j: int| right_sequence()) =~= log
                                + (done + call_texts(plan[i as int])));
                        }
                    }
                },
            }
            i += 1;
        }
        proof {
            assert(plan.take(plan.len() as int) =~= plan);
        }
    }

    /// Removes the character before the cursor.
    fn backspace(&mut self)
        ensures
            old(self).received() matches Some(log) ==> final(self).received() == Some(
                log.push(seq![BACKSPACE_CHAR]),
            ),
    {
        proof {
            reveal_strlit("\x08");
            assert("\x08"@ =~= seq![BACKSPACE_CHAR]);
        }
        self.type_text("\x08");
    }

    /// Removes the character after the cursor.
    fn delete(&mut self)
        ensures
            old(self).received() matches Some(log) ==> final(self).received() == Some(
                log.push(seq![DELETE_CHAR]),
            ),
    {
        proof {
            reveal_strlit("\x7F");
            assert("\x7F"@ =~= seq![DELETE_CHAR]);
        }
        self.type_text("\x7F");
    }

    /// Moves the cursor one place to the left.
    fn left(&mut self)
        ensures
            old(self).received() matches Some(log) ==> final(self).received() == Some(
                log.push(left_sequence()),
            ),
    {
        proof {
            reveal_strlit("\x1B[D");
            assert("\x1B[D"@ =~= left_sequence());
        }
        self.type_text("\x1B[D");
    }

    /// Moves the cursor one place to the right.
    fn right(&mut self)
        ensures
            old(self).received() matches Some(log) ==> final(self).received() == Some(
                log.push(right_sequence()),
            ),
    {
        proof {
            reveal_strlit("\x1B[C");
            assert("\x1B[C"@ =~= right_sequence());
        }
        self.type_text("\x1B[C");
    }
}

} // verus!
