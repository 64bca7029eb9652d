use vstd::prelude::*;
use crate::error::Stream;

verus! {

/// Receives each line that a child process writes to one of its streams.
/// Callers of a runner implement it to act on output as it is produced.
pub trait LineObserver: Send {
    /// The lines received so far, in order. An implementation in verified
    /// code defines it; for one outside, `on_line` is taken on trust.
    closed spec fn received(&self) -> Seq<Seq<char>> {
        Seq::empty()
    }

    /// Called once per line, in the order the lines were produced; `line`
    /// holds the line without its newline.
    fn on_line(&mut self, line: &str)
        ensures
            final(self).received() == old(self).received().push(line@),
    ;
}

/// An observer as a runner holds it.
pub type Observer = Box<dyn LineObserver>;

/// The captured text of a stream that produced `lines`: each line followed
/// by a newline.
pub open spec fn captured_text(lines: Seq<Seq<char>>) -> Seq<char>
    decreases lines.len(),
{
    if lines.len() == 0 {
        Seq::empty()
    } else {
        captured_text(lines.drop_last()) + lines.last() + seq!['\n']
    }
}

/// Appends `line` and a newline to the text, if there is one.
fn append_line(text: &mut Option<String>, line: &str)
    ensures
        final(text).deep_view() == match old(text).deep_view() {
            Some(t) => Some(t + line@ + seq!['\n']),
            None => None,
        },
{
    match text {
        Some(t) => {
            t.append(line);
            t.append("\n");
            proof {
                reveal_strlit("\n");
            }
        },
        None => {},
    }
}

/// One call of an observer: its place in the registration order, and the
/// line it was given.
pub type Call = (nat, Seq<char>);

/// The calls that dispatching `line` to `n` observers makes: the first
/// observer registered, then the second, and so on.
pub open spec fn line_calls(n: nat, line: Seq<char>) -> Seq<Call> {
    Seq::new(n, |k: int| (k as nat, line))
}

/// The calls that dispatching each of `lines` in turn to `n` observers
/// makes.
pub open spec fn calls_for(n: nat, lines: Seq<Seq<char>>) -> Seq<Call>
    decreases lines.len(),
{
    if lines.len() == 0 {
        Seq::empty()
    } else {
        calls_for(n, lines.drop_last()) + line_calls(n, lines.last())
    }
}

/// Every line reaches each of the `n` observers exactly once: line `i`
/// goes first to observer 0, then 1, up to `n - 1`, before line `i + 1`.
pub open spec fn each_line_to_each_observer(n: nat, lines: Seq<Seq<char>>, calls: Seq<Call>) -> bool {
    &&& calls.len() == n * lines.len()
    &&& forall|i: int, k: int|
        0 <= i < lines.len() && 0 <= k < n ==> #[trigger] calls[i * n + k] == (k as nat, #[trigger] lines[i])
}

/// The calls of a drain are, line by line, one call of each observer in
/// registration order.
pub proof fn lemma_calls_in_order(n: nat, lines: Seq<Seq<char>>)
    ensures
        each_line_to_each_observer(n, lines, calls_for(n, lines)),
    decreases lines.len(),
{
    if lines.len() > 0 {
        let front = lines.drop_last();
        lemma_calls_in_order(n, front);
        let c = calls_for(n, lines);
        let m = front.len();
        assert(m * n + n == n * lines.len()) by (nonlinear_arith)
            requires
                m + 1 == lines.len(),
        ;
        assert(n * m == m * n) by (nonlinear_arith);
        assert forall|i: int, k: int| 0 <= i < lines.len() && 0 <= k < n implies #[trigger] c[i * n + k] == (
            k as nat,
            #[trigger] lines[i],
        ) by {
            if i < m {
                assert(i * n + k < m * n) by (nonlinear_arith)
                    requires
                        0 <= i < m,
                        0 <= k < n,
                ;
                assert(front[i] == lines[i]);
                assert(0 <= i * n + k) by (nonlinear_arith)
                    requires
                        0 <= i,
                        0 <= k,
                        0 <= n,
                ;
            } else {
                assert(i * n == m * n);
            }
        }
    }
}

/// The model of a `Drain`: its stream, whether it captures, how many
/// observers its stream has, and the lines it has received so far.
pub struct DrainView {
    pub stream: Stream,
    pub capture: bool,
    pub observers: nat,
    pub lines: Seq<Seq<char>>,
}

impl DrainView {
    /// The observer calls the drain has made, in order.
    pub open spec fn calls(self) -> Seq<Call> {
        calls_for(self.observers, self.lines)
    }

    /// What the drain hands back when its stream closes.
    pub open spec fn captured(self) -> Option<Seq<char>> {
        if self.capture {
            Some(captured_text(self.lines))
        } else {
            None
        }
    }
}

/// The lines each observer of `after` has received are those it had in
/// `before`, followed by `line`.
pub open spec fn each_received(before: Seq<Observer>, after: Seq<Observer>, line: Seq<char>) -> bool {
    &&& after.len() == before.len()
    &&& forall|k: int| 0 <= k < after.len() ==> #[trigger] after[k].received() == before[k].received().push(line)
}

/// Each observer of `after` has received, after what it had in `before`,
/// exactly `lines`, in order.
pub open spec fn received_all(before: Seq<Observer>, after: Seq<Observer>, lines: Seq<Seq<char>>) -> bool {
    &&& after.len() == before.len()
    &&& forall|k: int| 0 <= k < after.len() ==> #[trigger] after[k].received() == before[k].received() + lines
}

/// Lines handed one after the other to the observers of a stream reach
/// every observer, each exactly once and in the order they were produced.
pub proof fn lemma_lines_reach_every_observer(
    start: Seq<Observer>,
    before: Seq<Observer>,
    after: Seq<Observer>,
    lines: Seq<Seq<char>>,
    line: Seq<char>,
)
    requires
        received_all(start, before, lines),
        each_received(before, after, line),
    ensures
        received_all(start, after, lines.push(line)),
{
    assert forall|k: int| 0 <= k < after.len() implies #[trigger] after[k].received() == start[k].received()
        + lines.push(line) by {
        assert(start[k].received() + lines.push(line) =~= (start[k].received() + lines).push(line));
    }
}

/// No line handed to any observer yet.
pub proof fn lemma_no_lines_received(observers: Seq<Observer>)
    ensures
        received_all(observers, observers, Seq::empty()),
{
    assert forall|k: int| 0 <= k < observers.len() implies #[trigger] observers[k].received() == observers[k].received()
        + Seq::<Seq<char>>::empty() by {
        assert(observers[k].received() + Seq::<Seq<char>>::empty() =~= observers[k].received());
    }
}

/// Passes `line` to every observer, in registration order, and returns
/// the log of the calls it made.
pub fn dispatch(observers: &mut Vec<Observer>, line: &str) -> (calls: Ghost<Seq<Call>>)
    ensures
        each_received(old(observers)@, final(observers)@, line@),
        calls@ == line_calls(old(observers)@.len(), line@),
{
    let ghost start = observers@;
    let mut calls: Ghost<Seq<Call>> = Ghost(Seq::empty());
    proof {
        assert(calls@ =~= line_calls(0, line@));
    }
    let mut i: usize = 0;
    while i < observers.len()
        invariant
            0 <= i <= observers.len(),
            observers@.len() == start.len(),
            calls@ == line_calls(i as nat, line@),
            forall|k: int| 0 <= k < i ==> #[trigger] observers@[k].received() == start[k].received().push(line@),
            forall|k: int| i <= k < observers@.len() ==> #[trigger] observers@[k] == start[k],
        decreases observers.len() - i,
    {
        observers[i].on_line(line);
        proof {
            assert(calls@.push((i as nat, line@)) =~= line_calls((i + 1) as nat, line@));
        }
        calls = Ghost(calls@.push((i as nat, line@)));
        i = i + 1;
    }
    calls
}

/// The consumer of one output pipe: it passes every line to the observers
/// of its stream and, when capturing, keeps the text.
pub struct Drain {
    stream: Stream,
    buffer: Option<String>,
    observers: usize,
    lines: Ghost<Seq<Seq<char>>>,
    calls: Ghost<Seq<Call>>,
}

impl View for Drain {
    type V = DrainView;

    closed spec fn view(&self) -> DrainView {
        DrainView {
            stream: self.stream,
            capture: self.buffer is Some,
            observers: self.observers as nat,
            lines: self.lines@,
        }
    }
}

impl Drain {
    /// The captured text is that of the lines received so far, and the log
    /// holds the observer calls made for them.
    pub closed spec fn wf(&self) -> bool {
        &&& self.buffer is Some ==> self.buffer->Some_0@ == captured_text(self.lines@)
        &&& self.calls@ == calls_for(self.observers as nat, self.lines@)
    }

    /// The log of the observer calls the drain has made, in order.
    pub closed spec fn call_log(&self) -> Seq<Call> {
        self.calls@
    }

    /// A drain for `stream`, whose stream has `observers` observers, that
    /// has received no line yet.
    pub fn new(stream: Stream, capture: bool, observers: usize) -> (r: Drain)
        ensures
            r.wf(),
            r@ == (DrainView { stream, capture, observers: observers as nat, lines: Seq::empty() }),
    {
        let buffer = if capture {
            Some(String::new())
        } else {
            None
        };
        Drain { stream, buffer, observers, lines: Ghost(Seq::empty()), calls: Ghost(Seq::empty()) }
    }

    /// The log agrees with the model.
    pub proof fn lemma_call_log(&self)
        requires
            self.wf(),
        ensures
            self.call_log() == self@.calls(),
    {
    }

    pub fn stream(&self) -> (r: Stream)
        ensures
            r == self@.stream,
    {
        self.stream
    }

    /// Handles one line read from the stream (without its newline): every
    /// observer of the stream receives it, in registration order, and a
    /// capturing drain appends it and a newline to its text.
    pub fn line(&mut self, observers: &mut Vec<Observer>, line: &str)
        requires
            old(self).wf(),
            old(observers)@.len() == old(self)@.observers,
        ensures
            final(self).wf(),
            final(self)@ == (DrainView { lines: old(self)@.lines.push(line@), ..old(self)@ }),
            final(self).call_log() == old(self).call_log() + line_calls(old(self)@.observers, line@),
            each_received(old(observers)@, final(observers)@, line@),
    {
        let made = dispatch(observers, line);
        let ghost before = self.lines@;
        let ghost after = before.push(line@);
        append_line(&mut self.buffer, line);
        proof {
            assert(after.drop_last() =~= before);
        }
        self.lines = Ghost(after);
        self.calls = Ghost(self.calls@ + made@);
    }

    /// Ends the drain when its stream has closed, handing back the captured
    /// text, if capturing.
    pub fn finish(self) -> (r: Option<String>)
        requires
            self.wf(),
        ensures
            r.deep_view() == self@.captured(),
    {
        self.buffer
    }
}

} // verus!
