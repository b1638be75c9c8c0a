//! Diagnostics: a severity, an optional message and nested diagnostics.

use vstd::prelude::*;
use crate::clock::now;
use crate::text::push_str;

verus! {

/// How serious a diagnostic is.
#[derive(Debug, Clone, Copy, PartialEq, Eq, PartialOrd, Ord, Hash, Structural)]
pub enum Severity {
    Debug,
    Info,
    Warn,
    Error,
}

impl Severity {
    pub open spec fn rendered(self) -> Seq<char> {
        match self {
            Severity::Debug => "debug"@,
            Severity::Info => "info"@,
            Severity::Warn => "warn"@,
            Severity::Error => "error"@,
        }
    }

    pub fn to_string(&self) -> (s: String)
        ensures
            s@ == self.rendered(),
    {
        match self {
            Severity::Debug => String::from_str("debug"),
            Severity::Info => String::from_str("info"),
            Severity::Warn => String::from_str("warn"),
            Severity::Error => String::from_str("error"),
        }
    }
}

impl Default for Severity {
    fn default() -> (s: Self)
        ensures
            s == Severity::Info,
    {
        Severity::Info
    }
}

/// Identifies a diagnostic.
#[derive(Debug, Default, Copy, Clone, PartialEq, Eq, PartialOrd, Ord, Hash, Structural)]
pub struct DiagnosticId(pub u64);

impl DiagnosticId {
    /// The identifier after this one.
    pub fn next(&self) -> (n: Self)
        requires
            self.0 < u64::MAX,
        ensures
            n.0 == self.0 + 1,
    {
        DiagnosticId(self.0 + 1)
    }

    pub fn from_u64(value: u64) -> (id: Self)
        ensures
            id.0 == value,
    {
        DiagnosticId(value)
    }
}

impl From<u64> for DiagnosticId {
    fn from(value: u64) -> (id: Self) {
        DiagnosticId(value)
    }
}

impl vstd::std_specs::convert::FromSpecImpl<u64> for DiagnosticId {
    open spec fn obeys_from_spec() -> bool {
        true
    }

    open spec fn from_spec(v: u64) -> Self {
        DiagnosticId(v)
    }
}

/// A diagnostic and the diagnostics nested under it.
#[derive(Debug)]
pub struct Diagnostic {
    pub severity: Severity,
    pub message: Option<String>,
    pub children: Vec<Diagnostic>,
    pub timestamp: std::time::SystemTime,
}

/// `depth` levels of indentation, two spaces each.
pub open spec fn indent(depth: nat) -> Seq<char>
    decreases depth,
{
    if depth == 0 {
        Seq::empty()
    } else {
        indent((depth - 1) as nat) + "  "@
    }
}

impl Diagnostic {
    /// The diagnostic written at `depth`: indentation, `[severity]`, the
    /// message after a space, then each child on a new line one level deeper.
    pub open spec fn rendered(&self, depth: nat) -> Seq<char>
        decreases self,
    {
        indent(depth) + "["@ + self.severity.rendered() + "]"@ + match self.message {
            None => Seq::empty(),
            Some(m) => " "@ + m@,
        } + children_rendered(self.children@, depth + 1)
    }

    /// Appends the diagnostic written at `depth`.
    pub fn fmt_indent(&self, out: &mut String, depth: usize)
        requires
            depth + self.height() < usize::MAX,
        ensures
            final(out)@ == old(out)@ + self.rendered(depth as nat),
        decreases self,
    {
        let mut k: usize = 0;
        while k < depth
            invariant
                k <= depth,
                out@ == old(out)@ + indent(k as nat),
            decreases depth - k,
        {
            push_str(out, "  ");
            k = k + 1;
        }
        push_str(out, "[");
        let sev = self.severity.to_string();
        push_str(out, sev.as_str());
        push_str(out, "]");
        match &self.message {
            None => {},
            Some(m) => {
                push_str(out, " ");
                push_str(out, m.as_str());
            },
        }
        let ghost before = out@;
        let mut i: usize = 0;
        proof {
            lemma_heights(self.children@);
        }
        while i < self.children.len()
            invariant
                i <= self.children@.len(),
                forall|j: int| 0 <= j < self.children@.len() ==> #[trigger] self.children@[j].height() < self.height(),
                depth + self.height() < usize::MAX,
                out@ == before + children_rendered(self.children@.take(i as int), depth as nat + 1),
            decreases self.children@.len() - i,
        {
            push_str(out, "\n");
            self.children[i].fmt_indent(out, depth + 1);
            assert(self.children@.take(i + 1).drop_last() =~= self.children@.take(i as int));
            i = i + 1;
        }
        assert(self.children@.take(i as int) =~= self.children@);
        assert(out@ =~= old(out)@ + self.rendered(depth as nat));
    }

    /// The diagnostic and its children, written out.
    pub fn to_string(&self) -> (s: String)
        requires
            self.height() < usize::MAX,
        ensures
            s@ == self.rendered(0),
    {
        let mut s = String::new();
        self.fmt_indent(&mut s, 0);
        assert(s@ =~= self.rendered(0));
        s
    }

    /// The number of levels of nesting below this diagnostic.
    pub open spec fn height(&self) -> nat
        decreases self,
    {
        children_height(self.children@)
    }
}

/// Each child on a new line, written at `depth`.
pub open spec fn children_rendered(s: Seq<Diagnostic>, depth: nat) -> Seq<char>
    decreases s,
{
    if s.len() == 0 {
        Seq::empty()
    } else {
        children_rendered(s.drop_last(), depth) + "\n"@ + s.last().rendered(depth)
    }
}

/// One more than the greatest height among `s`, or 0 when `s` is empty.
pub open spec fn children_height(s: Seq<Diagnostic>) -> nat
    decreases s,
{
    if s.len() == 0 {
        0
    } else {
        let h = children_height(s.drop_last());
        let l = s.last().height() + 1;
        if h > l { h } else { l }
    }
}

pub proof fn lemma_heights(s: Seq<Diagnostic>)
    ensures
        forall|j: int| 0 <= j < s.len() ==> #[trigger] s[j].height() < children_height(s),
    decreases s.len(),
{
    if s.len() > 0 {
        let d = s.drop_last();
        lemma_heights(d);
        assert forall|j: int| 0 <= j < s.len() implies #[trigger] s[j].height() < children_height(s) by {
            if j < s.len() - 1 {
                assert(d[j] == s[j]);
            }
        }
    }
}

/// `indent(depth)` is `2 * depth` spaces.
proof fn lemma_indent(depth: nat)
    ensures
        indent(depth).len() == 2 * depth,
        forall|k: int| 0 <= k < 2 * depth ==> #[trigger] indent(depth)[k] == ' ',
    decreases depth,
{
    reveal_strlit("  ");
    if depth > 0 {
        lemma_indent((depth - 1) as nat);
    }
}

/// The children of `a + b` are written as those of `a`, then those of `b`.
proof fn lemma_children_concat(a: Seq<Diagnostic>, b: Seq<Diagnostic>, depth: nat)
    ensures
        children_rendered(a + b, depth) == children_rendered(a, depth) + children_rendered(b, depth),
    decreases b.len(),
{
    if b.len() == 0 {
        assert(a + b =~= a);
        assert(children_rendered(a, depth) + children_rendered(b, depth) =~= children_rendered(a, depth));
    } else {
        let d = b.drop_last();
        lemma_children_concat(a, d, depth);
        assert((a + b).drop_last() =~= a + d);
        assert((a + b).last() == b.last());
        assert(children_rendered(a + b, depth) =~= children_rendered(a, depth) + children_rendered(b, depth));
    }
}

/// Written at `depth`, a diagnostic begins with exactly `2 * depth` spaces,
/// then `[`.
pub proof fn law_rendered_indent(d: Diagnostic, depth: nat)
    ensures
        d.rendered(depth).len() > 2 * depth,
        forall|k: int| 0 <= k < 2 * depth ==> #[trigger] d.rendered(depth)[k] == ' ',
        d.rendered(depth)[2 * depth as int] == '[',
{
    reveal_strlit("[");
    lemma_indent(depth);
    let r = d.rendered(depth);
    let rest = "["@ + d.severity.rendered() + "]"@ + match d.message {
        None => Seq::empty(),
        Some(m) => " "@ + m@,
    } + children_rendered(d.children@, depth + 1);
    assert(r =~= indent(depth) + rest);
    assert(rest[0] == '[');
}

/// The children `s` written at `depth`, split around the child at `i`.
proof fn lemma_children_split(s: Seq<Diagnostic>, i: int, depth: nat)
    requires
        0 <= i < s.len(),
    ensures
        children_rendered(s, depth) == children_rendered(s.take(i), depth) + "\n"@ + s[i].rendered(depth)
            + children_rendered(s.skip(i + 1), depth),
{
    let before = s.take(i);
    let one = seq![s[i]];
    let after = s.skip(i + 1);
    assert(s =~= before + one + after);
    lemma_children_concat(before + one, after, depth);
    lemma_children_concat(before, one, depth);
    assert(one.drop_last() =~= Seq::<Diagnostic>::empty());
    assert(one.last() == s[i]);
    assert(children_rendered(one.drop_last(), depth) == Seq::<char>::empty());
    assert(children_rendered(one, depth) =~= "\n"@ + s[i].rendered(depth));
    assert(children_rendered(s, depth) =~= children_rendered(before, depth) + "\n"@ + s[i].rendered(depth)
        + children_rendered(after, depth));
}

/// What a diagnostic written at `depth` holds before its children.
spec fn head_rendered(d: Diagnostic, depth: nat) -> Seq<char> {
    indent(depth) + "["@ + d.severity.rendered() + "]"@ + match d.message {
        None => Seq::empty(),
        Some(m) => " "@ + m@,
    }
}

/// Where the line of the child at `i` starts.
spec fn child_line_start(d: Diagnostic, depth: nat, i: int) -> int {
    (head_rendered(d, depth).len() + children_rendered(d.children@.take(i), depth + 1).len()) as int
}

proof fn lemma_child_line(d: Diagnostic, depth: nat, i: int)
    requires
        0 <= i < d.children@.len(),
    ensures
        child_line_start(d, depth, i) + 1 + d.children@[i].rendered(depth + 1).len() <= d.rendered(depth).len(),
        d.rendered(depth).subrange(
            child_line_start(d, depth, i),
            child_line_start(d, depth, i) + 1 + d.children@[i].rendered(depth + 1).len(),
        ) == "\n"@ + d.children@[i].rendered(depth + 1),
{
    reveal_strlit("\n");
    let s = d.children@;
    let k = depth + 1;
    lemma_children_split(s, i, k);
    let line = "\n"@ + s[i].rendered(k);
    let pre = head_rendered(d, depth) + children_rendered(s.take(i), k);
    let r = d.rendered(depth);
    assert(r =~= pre + line + children_rendered(s.skip(i + 1), k));
    let p = pre.len() as int;
    assert(r.subrange(p, p + line.len()) =~= line);
}

/// Each child of a diagnostic written at `depth` stands in it on a line of
/// its own, written one level deeper: at position `p` the text holds a line
/// break followed by the child written at `depth + 1`.
pub proof fn law_child_one_level_deeper(d: Diagnostic, depth: nat, i: int) -> (p: int)
    requires
        0 <= i < d.children@.len(),
    ensures
        0 <= p,
        p + 1 + d.children@[i].rendered(depth + 1).len() <= d.rendered(depth).len(),
        d.rendered(depth).subrange(p, p + 1 + d.children@[i].rendered(depth + 1).len()) == "\n"@
            + d.children@[i].rendered(depth + 1),
{
    lemma_child_line(d, depth, i);
    child_line_start(d, depth, i)
}

/// The children's lines come in the children's order: the line of an
/// earlier child ends before that of a later child begins.
pub proof fn law_children_in_order(d: Diagnostic, depth: nat, i: int, j: int) -> (pq: (int, int))
    requires
        0 <= i < j < d.children@.len(),
    ensures
        0 <= pq.0,
        pq.0 + 1 + d.children@[i].rendered(depth + 1).len() <= pq.1,
        pq.1 + 1 + d.children@[j].rendered(depth + 1).len() <= d.rendered(depth).len(),
        d.rendered(depth).subrange(pq.0, pq.0 + 1 + d.children@[i].rendered(depth + 1).len()) == "\n"@
            + d.children@[i].rendered(depth + 1),
        d.rendered(depth).subrange(pq.1, pq.1 + 1 + d.children@[j].rendered(depth + 1).len()) == "\n"@
            + d.children@[j].rendered(depth + 1),
{
    reveal_strlit("\n");
    lemma_child_line(d, depth, i);
    lemma_child_line(d, depth, j);
    let s = d.children@;
    let t = s.take(j);
    lemma_children_split(t, i, depth + 1);
    assert(t.take(i) =~= s.take(i));
    assert(t[i] == s[i]);
    (child_line_start(d, depth, i), child_line_start(d, depth, j))
}

/// One call on a diagnostic builder: setting the severity, setting the
/// message, or adding a child.
pub enum BuildStep {
    Severity(Severity),
    Message(Seq<char>),
    Child(Diagnostic),
}

/// What a builder holds: its severity, its message text and its children.
pub type BuildParts = (Severity, Option<Seq<char>>, Seq<Diagnostic>);

/// What a builder holds after one more call.
pub open spec fn after_step(p: BuildParts, step: BuildStep) -> BuildParts {
    match step {
        BuildStep::Severity(s) => (s, p.1, p.2),
        BuildStep::Message(m) => (p.0, Some(m), p.2),
        BuildStep::Child(c) => (p.0, p.1, p.2.push(c)),
    }
}

/// What a builder holds after the calls `steps`, first to last.
pub open spec fn after_steps(p: BuildParts, steps: Seq<BuildStep>) -> BuildParts
    decreases steps.len(),
{
    if steps.len() == 0 {
        p
    } else {
        after_step(after_steps(p, steps.drop_last()), steps.last())
    }
}

/// The severity set last, or `Info` when none was set.
pub open spec fn last_severity(steps: Seq<BuildStep>) -> Severity
    decreases steps.len(),
{
    if steps.len() == 0 {
        Severity::Info
    } else {
        match steps.last() {
            BuildStep::Severity(s) => s,
            _ => last_severity(steps.drop_last()),
        }
    }
}

/// The message set last, or none.
pub open spec fn last_message(steps: Seq<BuildStep>) -> Option<Seq<char>>
    decreases steps.len(),
{
    if steps.len() == 0 {
        None
    } else {
        match steps.last() {
            BuildStep::Message(m) => Some(m),
            _ => last_message(steps.drop_last()),
        }
    }
}

/// The children added, in the order they were added.
pub open spec fn added_children(steps: Seq<BuildStep>) -> Seq<Diagnostic>
    decreases steps.len(),
{
    if steps.len() == 0 {
        Seq::empty()
    } else {
        match steps.last() {
            BuildStep::Child(c) => added_children(steps.drop_last()).push(c),
            _ => added_children(steps.drop_last()),
        }
    }
}

/// Any chain of calls on a new builder gives the severity set last (`Info`
/// if none), the message set last (none if none) and all children added,
/// in order; `build_at` then carries these into the diagnostic.
pub proof fn law_builder_chain(steps: Seq<BuildStep>)
    ensures
        after_steps((Severity::Info, None, Seq::empty()), steps) == (
            last_severity(steps),
            last_message(steps),
            added_children(steps),
        ),
    decreases steps.len(),
{
    if steps.len() > 0 {
        law_builder_chain(steps.drop_last());
    }
}

/// Builds a `Diagnostic` one part at a time.
#[derive(Debug)]
pub struct DiagnosticBuilder {
    pub severity: Severity,
    pub message: Option<String>,
    pub children: Vec<Diagnostic>,
}

impl DiagnosticBuilder {
    /// What the builder holds.
    pub open spec fn parts(&self) -> BuildParts {
        (self.severity, match self.message {
            Some(m) => Some(m@),
            None => None,
        }, self.children@)
    }

    pub fn new() -> (b: Self)
        ensures
            b.parts() == (Severity::Info, None::<Seq<char>>, Seq::<Diagnostic>::empty()),
            b.severity == Severity::Info,
            b.message is None,
            b.children@.len() == 0,
    {
        DiagnosticBuilder { severity: Severity::Info, message: None, children: Vec::new() }
    }

    pub fn severity(self, severity: Severity) -> (b: Self)
        ensures
            b == (DiagnosticBuilder { severity, ..self }),
            b.parts() == after_step(self.parts(), BuildStep::Severity(severity)),
    {
        let mut b = self;
        b.severity = severity;
        b
    }

    pub fn message(self, value: &str) -> (b: Self)
        ensures
            b.message matches Some(m) && m@ == value@,
            b.severity == self.severity,
            b.children == self.children,
            b.parts() == after_step(self.parts(), BuildStep::Message(value@)),
    {
        let mut b = self;
        b.message = Some(String::from_str(value));
        b
    }

    pub fn child(self, child: Diagnostic) -> (b: Self)
        ensures
            b.children@ == self.children@.push(child),
            b.severity == self.severity,
            b.message == self.message,
            b.parts() == after_step(self.parts(), BuildStep::Child(child)),
    {
        let mut b = self;
        b.children.push(child);
        b
    }

    /// The diagnostic, stamped with the current time.
    pub fn build(self) -> (d: Diagnostic)
        ensures
            d.severity == self.severity,
            d.message == self.message,
            d.children == self.children,
    {
        let timestamp = now();
        self.build_at(timestamp)
    }

    /// The diagnostic, stamped with `timestamp`.
    pub fn build_at(self, timestamp: std::time::SystemTime) -> (d: Diagnostic)
        ensures
            d.severity == self.severity,
            d.message == self.message,
            d.children == self.children,
            d.timestamp == timestamp,
    {
        Diagnostic {
            severity: self.severity,
            message: self.message,
            children: self.children,
            timestamp,
        }
    }
}

impl Default for DiagnosticBuilder {
    fn default() -> (b: Self)
        ensures
            b.severity == Severity::Info,
            b.message is None,
            b.children@.len() == 0,
    {
        DiagnosticBuilder::new()
    }
}

/// A builder for a new diagnostic.
pub fn new() -> (b: DiagnosticBuilder)
    ensures
        b.severity == Severity::Info,
        b.message is None,
        b.children@.len() == 0,
{
    DiagnosticBuilder::new()
}

} // verus!
