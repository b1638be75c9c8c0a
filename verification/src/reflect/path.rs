//! Item paths such as `std::collections::HashMap`: building, writing and parsing them.

use vstd::prelude::*;
use crate::text::{join, trim, chars_of, string_of, trim_chars, push_str, lemma_join_front};
use crate::reflect::shape::Shape;

verus! {

/// A `::`-separated item path such as `std::collections::HashMap`.
#[derive(Debug)]
pub struct Path(pub Vec<String>);

impl View for Path {
    type V = Seq<Seq<char>>;

    open spec fn view(&self) -> Seq<Seq<char>> {
        self.0@.map_values(|s: String| s@)
    }
}

/// `::` as characters.
pub open spec fn sep() -> Seq<char> {
    seq![':', ':']
}

/// The raw keyword part that paths leave out.
pub open spec fn mod_keyword() -> Seq<char> {
    seq!['r', '#', 'm', 'o', 'd']
}

/// Splits `s` at each `::`, scanning from the left; `cur` is the part read so far.
pub open spec fn split_acc(s: Seq<char>, cur: Seq<char>) -> Seq<Seq<char>>
    decreases s.len(),
{
    if s.len() == 0 {
        seq![cur]
    } else if s.len() >= 2 && s[0] == ':' && s[1] == ':' {
        seq![cur] + split_acc(s.skip(2), Seq::empty())
    } else {
        split_acc(s.drop_first(), cur.push(s[0]))
    }
}

/// The parts of `s` between `::` separators (what `str::split("::")` yields).
pub open spec fn split_path(s: Seq<char>) -> Seq<Seq<char>> {
    split_acc(s, Seq::empty())
}

/// Drops the parts equal to `r#mod` and trims the others.
pub open spec fn keep_parts(parts: Seq<Seq<char>>) -> Seq<Seq<char>>
    decreases parts.len(),
{
    if parts.len() == 0 {
        Seq::empty()
    } else if parts.last() == mod_keyword() {
        keep_parts(parts.drop_last())
    } else {
        keep_parts(parts.drop_last()).push(trim(parts.last()))
    }
}

/// The parts of the path written as `s`.
pub open spec fn parse_path(s: Seq<char>) -> Seq<Seq<char>> {
    keep_parts(split_path(s))
}

impl Path {
    pub open spec fn shape(&self) -> Shape {
        Shape::Node(0, self@.map_values(|p: Seq<char>| Shape::Text(p)))
    }

    pub fn new() -> (p: Self)
        ensures
            p@ == Seq::<Seq<char>>::empty(),
    {
        Path(Vec::new())
    }

    pub fn len(&self) -> (n: usize)
        ensures
            n == self@.len(),
    {
        self.0.len()
    }

    pub fn is_empty(&self) -> (r: bool)
        ensures
            r == (self@.len() == 0),
    {
        self.0.len() == 0
    }

    /// The last part.
    pub fn name(&self) -> (s: &str)
        requires
            self@.len() > 0,
        ensures
            s@ == self@.last(),
    {
        self.0[self.0.len() - 1].as_str()
    }

    /// The parts, in order.
    pub fn parts(&self) -> (s: &[String])
        ensures
            s@ == self.0@,
    {
        self.0.as_slice()
    }

    /// The path with `part` appended.
    pub fn push(self, part: &str) -> (p: Self)
        ensures
            p@ == self@.push(part@),
    {
        let mut v = self.0;
        let s = String::from_str(part);
        v.push(s);
        let p = Path(v);
        assert(p@ =~= self@.push(part@));
        p
    }

    /// The path with the parts of `rhs` appended.
    pub fn add(self, rhs: &Path) -> (p: Self)
        ensures
            p@ == self@ + rhs@,
    {
        let mut next = self;
        let mut i: usize = 0;
        while i < rhs.0.len()
            invariant
                i <= rhs@.len(),
                next@ == self@ + rhs@.take(i as int),
            decreases rhs@.len() - i,
        {
            next = next.push(rhs.0[i].as_str());
            assert(rhs@.take(i + 1) =~= rhs@.take(i as int).push(rhs@[i as int]));
            i = i + 1;
        }
        assert(rhs@.take(rhs@.len() as int) =~= rhs@);
        next
    }

    /// A copy of this path.
    pub fn duplicate(&self) -> (p: Self)
        ensures
            p@ == self@,
    {
        let mut v: Vec<String> = Vec::new();
        let mut i: usize = 0;
        while i < self.0.len()
            invariant
                i <= self.0.len(),
                v@.map_values(|s: String| s@) == self@.take(i as int),
            decreases self.0.len() - i,
        {
            let ghost before = v@.map_values(|s: String| s@);
            let c = self.0[i].clone();
            assert(c@ == self@[i as int]);
            v.push(c);
            assert(v@.map_values(|s: String| s@) =~= before.push(c@));
            assert(self@.take(i + 1) =~= self@.take(i as int).push(self@[i as int]));
            i = i + 1;
        }
        assert(self@.take(self.0.len() as int) =~= self@);
        Path(v)
    }

    /// Whether the two paths have the same parts.
    pub fn same(&self, other: &Path) -> (r: bool)
        ensures
            r == (self@ == other@),
    {
        if self.0.len() != other.0.len() {
            return false;
        }
        let mut i: usize = 0;
        while i < self.0.len()
            invariant
                i <= self.0.len(),
                self.0.len() == other.0.len(),
                self@.take(i as int) == other@.take(i as int),
            decreases self.0.len() - i,
        {
            if self.0[i] != other.0[i] {
                assert(self@[i as int] != other@[i as int]);
                return false;
            }
            assert(self@.take(i + 1) =~= other@.take(i + 1));
            i = i + 1;
        }
        assert(self@ =~= self@.take(i as int));
        assert(other@ =~= other@.take(i as int));
        true
    }

    /// The parts joined with `::`.
    pub fn to_string(&self) -> (s: String)
        ensures
            s@ == join(self@, sep()),
    {
        let mut s = String::new();
        let mut i: usize = 0;
        while i < self.0.len()
            invariant
                i <= self.0.len(),
                s@ == join(self@.take(i as int), sep()),
            decreases self.0.len() - i,
        {
            proof {
                reveal_strlit("::");
            }
            if i > 0 {
                push_str(&mut s, "::");
            }
            push_str(&mut s, self.0[i].as_str());
            assert(self@.take(i + 1).drop_last() =~= self@.take(i as int));
            i = i + 1;
        }
        assert(self@.take(i as int) =~= self@);
        s
    }

    /// The path written as `value`: split at each `::`, without `r#mod`
    /// parts, each part trimmed of white space.
    pub fn parse(value: &str) -> (p: Self)
        ensures
            p@ == parse_path(value@),
    {
        let cs = chars_of(value);
        let raw = split_chars(&cs);
        let mut parts: Vec<String> = Vec::new();
        let mut j: usize = 0;
        while j < raw.len()
            invariant
                j <= raw.len(),
                raw@.map_values(|v: Vec<char>| v@) == split_path(value@),
                parts@.map_values(|s: String| s@) == keep_parts(split_path(value@).take(j as int)),
            decreases raw.len() - j,
        {
            let ghost rv = raw@.map_values(|v: Vec<char>| v@);
            assert(rv.take(j + 1).drop_last() =~= rv.take(j as int));
            assert(rv.take(j + 1).last() == raw@[j as int]@);
            if !is_mod_keyword(&raw[j]) {
                let t = trim_chars(&raw[j]);
                let ghost before = parts@.map_values(|s: String| s@);
                parts.push(string_of(&t));
                assert(parts@.map_values(|s: String| s@) =~= before.push(t@));
            }
            j = j + 1;
        }
        let ghost rv = raw@.map_values(|v: Vec<char>| v@);
        assert(rv.take(raw.len() as int) =~= rv);
        let p = Path(parts);
        p
    }
}

/// Two paths have the same shape exactly when they have the same parts.
pub proof fn lemma_path_shape(a: &Path, b: &Path)
    ensures
        (a.shape() == b.shape()) <==> (a@ == b@),
{
    let sa = a@.map_values(|p: Seq<char>| Shape::Text(p));
    let sb = b@.map_values(|p: Seq<char>| Shape::Text(p));
    if a.shape() == b.shape() {
        assert(sa == sb);
        assert(sa.len() == a@.len() && sb.len() == b@.len());
        assert forall|i: int| 0 <= i < a@.len() implies a@[i] == b@[i] by {
            assert(sa[i] == Shape::Text(a@[i]));
            assert(sb[i] == Shape::Text(b@[i]));
        }
        assert(a@ =~= b@);
    }
}

/// Whether `s` holds no `:`.
pub open spec fn colon_free(s: Seq<char>) -> bool {
    forall|i: int| 0 <= i < s.len() ==> s[i] != ':'
}

/// A part that reads back as itself: no `:`, no white space at its ends,
/// and not `r#mod`.
pub open spec fn plain_part(s: Seq<char>) -> bool {
    &&& colon_free(s)
    &&& trim(s) == s
    &&& s != mod_keyword()
}

/// Characters without `:` are taken into the current part as they are.
proof fn lemma_split_plain(s: Seq<char>, t: Seq<char>, cur: Seq<char>)
    requires
        colon_free(s),
    ensures
        split_acc(s + t, cur) == split_acc(t, cur + s),
    decreases s.len(),
{
    if s.len() == 0 {
        assert(s + t =~= t);
        assert(cur + s =~= cur);
    } else {
        assert((s + t)[0] == s[0]);
        assert((s + t).drop_first() =~= s.drop_first() + t);
        lemma_split_plain(s.drop_first(), t, cur.push(s[0]));
        assert(cur.push(s[0]) + s.drop_first() =~= cur + s);
    }
}

/// Splitting a joined path whose parts hold no `:` gives the parts back.
proof fn lemma_split_join(parts: Seq<Seq<char>>)
    requires
        parts.len() > 0,
        forall|i: int| 0 <= i < parts.len() ==> colon_free(#[trigger] parts[i]),
    ensures
        split_path(join(parts, sep())) == parts,
    decreases parts.len(),
{
    let e = Seq::<char>::empty();
    if parts.len() == 1 {
        lemma_split_plain(parts[0], e, e);
        assert(parts[0] + e =~= parts[0]);
        assert(e + parts[0] =~= parts[0]);
        assert(parts =~= seq![parts[0]]);
    } else {
        let rest = parts.drop_first();
        assert forall|i: int| 0 <= i < rest.len() implies colon_free(#[trigger] rest[i]) by {
            assert(rest[i] == parts[i + 1]);
        }
        lemma_split_join(rest);
        lemma_join_front(parts, sep());
        let tail = sep() + join(rest, sep());
        assert(parts[0] + sep() + join(rest, sep()) =~= parts[0] + tail);
        lemma_split_plain(parts[0], tail, e);
        assert(e + parts[0] =~= parts[0]);
        assert(tail.len() >= 2 && tail[0] == ':' && tail[1] == ':');
        assert(tail.skip(2) =~= join(rest, sep()));
        assert(parts =~= seq![parts[0]] + rest);
    }
}

/// Parts that are all plain are kept as they are.
proof fn lemma_keep_plain(parts: Seq<Seq<char>>)
    requires
        forall|i: int| 0 <= i < parts.len() ==> plain_part(#[trigger] parts[i]),
    ensures
        keep_parts(parts) == parts,
    decreases parts.len(),
{
    if parts.len() > 0 {
        let init = parts.drop_last();
        assert forall|i: int| 0 <= i < init.len() implies plain_part(#[trigger] init[i]) by {
            assert(init[i] == parts[i]);
        }
        lemma_keep_plain(init);
        assert(plain_part(parts[parts.len() - 1]));
        assert(init.push(parts.last()) =~= parts);
    }
}

/// Writing a path out with `to_string` and reading it back with `parse`
/// gives the same path, when it has at least one part and every part is
/// plain. (The empty path is written as the empty string, which reads back
/// as one empty part.)
pub proof fn law_parse_to_string(p: &Path)
    requires
        p@.len() > 0,
        forall|i: int| 0 <= i < p@.len() ==> plain_part(#[trigger] p@[i]),
    ensures
        parse_path(join(p@, sep())) == p@,
{
    assert forall|i: int| 0 <= i < p@.len() implies colon_free(#[trigger] p@[i]) by {
        assert(plain_part(p@[i]));
    }
    lemma_split_join(p@);
    lemma_keep_plain(p@);
}

/// Whether `v` spells `r#mod`.
fn is_mod_keyword(v: &Vec<char>) -> (r: bool)
    ensures
        r == (v@ == mod_keyword()),
{
    if v.len() == 5 && v[0] == 'r' && v[1] == '#' && v[2] == 'm' && v[3] == 'o' && v[4] == 'd' {
        assert(v@ =~= mod_keyword());
        true
    } else {
        proof {
            if v@ == mod_keyword() {
                assert(v@[0] == 'r' && v@[1] == '#' && v@[2] == 'm' && v@[3] == 'o' && v@[4] == 'd');
            }
        }
        false
    }
}

/// The parts of `cs` between `::` separators.
fn split_chars(cs: &Vec<char>) -> (raw: Vec<Vec<char>>)
    ensures
        raw@.map_values(|v: Vec<char>| v@) == split_path(cs@),
{
    let mut raw: Vec<Vec<char>> = Vec::new();
    let mut cur: Vec<char> = Vec::new();
    let mut i: usize = 0;
    assert(cs@.skip(0) =~= cs@);
    assert(raw@.map_values(|v: Vec<char>| v@) =~= Seq::<Seq<char>>::empty());
    while i < cs.len()
        invariant
            i <= cs.len(),
            split_path(cs@) == raw@.map_values(|v: Vec<char>| v@) + split_acc(cs@.skip(i as int), cur@),
        decreases cs.len() - i,
    {
        let ghost rest = cs@.skip(i as int);
        let ghost before = raw@.map_values(|v: Vec<char>| v@);
        if i + 1 < cs.len() && cs[i] == ':' && cs[i + 1] == ':' {
            assert(rest.skip(2) =~= cs@.skip(i + 2));
            let ghost c = cur@;
            raw.push(cur);
            cur = Vec::new();
            assert(raw@.map_values(|v: Vec<char>| v@) =~= before.push(c));
            assert(before.push(c) + split_acc(cs@.skip(i + 2), Seq::empty()) =~= before + (seq![c]
                + split_acc(cs@.skip(i + 2), Seq::empty())));
            i = i + 2;
        } else {
            assert(rest.drop_first() =~= cs@.skip(i + 1));
            cur.push(cs[i]);
            i = i + 1;
        }
    }
    let ghost before = raw@.map_values(|v: Vec<char>| v@);
    let ghost c = cur@;
    assert(cs@.skip(i as int) =~= Seq::<char>::empty());
    raw.push(cur);
    assert(raw@.map_values(|v: Vec<char>| v@) =~= before + seq![c]);
    raw
}

} // verus!
