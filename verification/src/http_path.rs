//! Segment-based keys for URL paths, with prefix comparison.
//!
//! A path key is an ordered sequence of text segments. The empty path has no
//! segment, the root path `"/"` has exactly one (the empty segment), and
//! `"/foo/bar"` has three: `""`, `"foo"` and `"bar"`. Every contract in this
//! module is stated over that sequence, the view of an `HttpPath`.

use vstd::prelude::*;
use vstd::string::StringExecFns;

verus! {

/// The character that separates the segments of a path.
pub const SEPARATOR: char = '/';

/// Splits text at every separator. The empty text gives one empty segment, a
/// separator opens a new empty segment, and any other character extends the
/// last segment.
pub open spec fn split_spec(s: Seq<char>) -> Seq<Seq<char>>
    decreases s.len(),
{
    if s.len() == 0 {
        seq![Seq::<char>::empty()]
    } else if s.last() == SEPARATOR {
        split_spec(s.drop_last()).push(Seq::<char>::empty())
    } else {
        let head = split_spec(s.drop_last());
        head.drop_last().push(head.last().push(s.last()))
    }
}

/// Concatenates segments with one separator between each two neighbours.
pub open spec fn join_spec(parts: Seq<Seq<char>>) -> Seq<char>
    decreases parts.len(),
{
    if parts.len() == 0 {
        Seq::<char>::empty()
    } else if parts.len() == 1 {
        parts[0]
    } else {
        join_spec(parts.drop_last()).push(SEPARATOR) + parts.last()
    }
}

/// The segments that a path text stands for: none for the empty text, the one
/// empty segment for `"/"`, and the split at every separator otherwise.
pub open spec fn parse_spec(s: Seq<char>) -> Seq<Seq<char>> {
    if s.len() == 0 {
        Seq::<Seq<char>>::empty()
    } else if s =~= seq![SEPARATOR] {
        seq![Seq::<char>::empty()]
    } else {
        split_spec(s)
    }
}

/// The text of a path: empty for no segment, `"/"` for the root, which is
/// the single empty segment, and the segments joined by separators
/// otherwise; a single segment that is not empty is its own text.
pub open spec fn text_spec(parts: Seq<Seq<char>>) -> Seq<char> {
    if parts.len() == 0 {
        Seq::<char>::empty()
    } else if parts.len() == 1 && parts[0].len() == 0 {
        seq![SEPARATOR]
    } else {
        join_spec(parts)
    }
}

/// The segments after appending `segment`: an empty path first receives the
/// empty root segment.
pub open spec fn push_spec(parts: Seq<Seq<char>>, segment: Seq<char>) -> Seq<Seq<char>> {
    if parts.len() == 0 {
        seq![Seq::<char>::empty(), segment]
    } else {
        parts.push(segment)
    }
}

/// `prefix` is a prefix of `parts`: it is no longer, and equal segment by
/// segment.
pub open spec fn starts_with_spec(parts: Seq<Seq<char>>, prefix: Seq<Seq<char>>) -> bool {
    &&& prefix.len() <= parts.len()
    &&& forall|i: int| 0 <= i < prefix.len() ==> parts[i] == prefix[i]
}

/// Whether the text holds a separator.
pub open spec fn has_separator(s: Seq<char>) -> bool {
    exists|i: int| 0 <= i < s.len() && s[i] == SEPARATOR
}

/// Splits `s` at every separator.
pub fn split(s: &str) -> (parts: Vec<String>)
    ensures
        parts.deep_view() == split_spec(s@),
{
    broadcast use vstd::string::group_string_axioms;

    let mut parts: Vec<String> = Vec::new();
    let mut current = String::new();
    assert(s@.take(0) =~= Seq::<char>::empty());
    assert(parts.deep_view().push(current@) =~= seq![Seq::<char>::empty()]);
    for c in it: s.chars()
        invariant
            it.seq() == s@,
            parts.deep_view().push(current@) == split_spec(s@.take(it.index() as int)),
    {
        let ghost before = s@.take(it.index() as int);
        let ghost after = s@.take(it.index() + 1);
        assert(after.drop_last() =~= before);
        assert(after.last() == c);
        let ghost old_parts = parts.deep_view();
        let ghost old_current = current@;
        if c == SEPARATOR {
            parts.push(current);
            current = String::new();
            assert(parts.deep_view() =~= old_parts.push(old_current));
        } else {
            current.push(c);
            assert(old_parts.push(old_current).drop_last() =~= old_parts);
        }
    }
    assert(s@.take(s@.len() as int) =~= s@);
    let ghost done = parts.deep_view();
    let ghost last = current@;
    parts.push(current);
    assert(parts.deep_view() =~= done.push(last));
    parts
}

/// Whether `s` holds a separator.
pub fn contains_separator(s: &str) -> (found: bool)
    ensures
        found == has_separator(s@),
{
    broadcast use vstd::string::group_string_axioms;

    let mut found = false;
    for c in it: s.chars()
        invariant
            it.seq() == s@,
            found == has_separator(s@.take(it.index() as int)),
    {
        let ghost before = s@.take(it.index() as int);
        let ghost after = s@.take(it.index() + 1);
        assert(forall|i: int| 0 <= i < before.len() ==> before[i] == after[i]);
        if c == SEPARATOR {
            assert(after[it.index() as int] == SEPARATOR);
            found = true;
        } else {
            assert(has_separator(after) ==> has_separator(before)) by {
                if has_separator(after) {
                    let i = choose|i: int| 0 <= i < after.len() && after[i] == SEPARATOR;
                    assert(before[i] == SEPARATOR);
                }
            }
        }
    }
    assert(s@.take(s@.len() as int) =~= s@);
    found
}

/// Whether `text` is the text of the root path, `"/"`.
pub fn is_root_text(text: &str) -> (root: bool)
    ensures
        root == (text@ == seq![SEPARATOR]),
{
    broadcast use vstd::string::group_string_axioms;

    let mut count: usize = 0;
    let mut first = SEPARATOR;
    for c in it: text.chars()
        invariant
            it.seq() == text@,
            count == if it.index() < 2 {
                it.index()
            } else {
                2
            },
            it.index() > 0 ==> first == text@[0],
    {
        if count == 0 {
            first = c;
        }
        if count < 2 {
            count += 1;
        }
    }
    let root = count == 1 && first == SEPARATOR;
    assert(root == (text@ =~= seq![SEPARATOR]));
    root
}

/// A normalized URL path: the sequence of its segments.
#[derive(Debug)]
pub struct HttpPath {
    parts: Vec<String>,
}

impl View for HttpPath {
    type V = Seq<Seq<char>>;

    closed spec fn view(&self) -> Seq<Seq<char>> {
        self.parts.deep_view()
    }
}

impl HttpPath {
    /// The empty path.
    pub fn new() -> (path: HttpPath)
        ensures
            path@ == Seq::<Seq<char>>::empty(),
    {
        let path = HttpPath { parts: Vec::new() };
        assert(path@ =~= Seq::<Seq<char>>::empty());
        path
    }

    /// The path that `text` stands for.
    pub fn parse(text: &str) -> (path: HttpPath)
        ensures
            path@ == parse_spec(text@),
    {
        let mut path = HttpPath::new();
        if text.is_empty() {
            return path;
        }
        if is_root_text(text) {
            path.parts.push(String::new());
            assert(path@ =~= seq![Seq::<char>::empty()]);
            return path;
        }
        path.parts = split(text);
        path
    }

    /// The segments, in order.
    pub fn parts(&self) -> (parts: &Vec<String>)
        ensures
            parts.deep_view() == self@,
    {
        &self.parts
    }

    /// The text of the path: empty for the empty path, `"/"` for the root,
    /// the segments joined by `/` otherwise.
    pub fn to_string(&self) -> (text: String)
        ensures
            text@ == text_spec(self@),
    {
        let mut result = String::new();
        let n = self.parts.len();
        if n == 1 && self.parts[0].as_str().is_empty() {
            assert(self@[0] == self.parts[0]@);
            result.push(SEPARATOR);
            assert(result@ =~= seq![SEPARATOR]);
        } else if n >= 1 {
            assert(self@[0] == self.parts[0]@);
            let mut i: usize = 0;
            while i < n
                invariant
                    n == self.parts.len(),
                    i <= n,
                    i == 0 ==> result@ == Seq::<char>::empty(),
                    i > 0 ==> result@ == join_spec(self@.take(i as int)),
                decreases n - i,
            {
                let ghost before = result@;
                let ghost prefix = self@.take(i as int);
                let ghost next = self@.take(i + 1);
                assert(next.drop_last() =~= prefix);
                assert(next.last() == self.parts[i as int]@);
                if i > 0 {
                    result.push(SEPARATOR);
                }
                result.append(self.parts[i].as_str());
                proof {
                    if i == 0 {
                        assert(result@ =~= next[0]);
                    } else {
                        assert(result@ =~= before.push(SEPARATOR) + next.last());
                    }
                }
                i += 1;
            }
            assert(self@.take(n as int) =~= self@);
        }
        result
    }

    /// Appends one segment. An empty path first receives the empty root
    /// segment, so the pushed segment always comes below the root.
    pub fn push(&mut self, segment: &str)
        ensures
            final(self)@ == push_spec(old(self)@, segment@),
            final(self)@.len() > old(self)@.len(),
    {
        let ghost before = self@;
        if self.parts.len() == 0 {
            self.parts.push(String::new());
            assert(self@ =~= seq![Seq::<char>::empty()]);
        }
        let ghost rooted = self@;
        self.parts.push(segment.to_owned());
        assert(self@ =~= rooted.push(segment@));
        assert(self@ =~= push_spec(before, segment@));
    }

    /// Whether the segments of `other` are a prefix of the segments of
    /// `self`.
    pub fn starts_with(&self, other: &HttpPath) -> (result: bool)
        ensures
            result == starts_with_spec(self@, other@),
    {
        if self.parts.len() < other.parts.len() {
            return false;
        }
        let mut i: usize = 0;
        while i < other.parts.len()
            invariant
                i <= other.parts.len() <= self.parts.len(),
                forall|j: int| 0 <= j < i ==> self@[j] == other@[j],
            decreases other.parts.len() - i,
        {
            if !(self.parts[i] == other.parts[i]) {
                assert(self@[i as int] != other@[i as int]);
                return false;
            }
            i += 1;
        }
        true
    }
}

impl Default for HttpPath {
    /// The empty path.
    fn default() -> (path: HttpPath)
        ensures
            path@ == Seq::<Seq<char>>::empty(),
    {
        HttpPath::new()
    }
}

impl Clone for HttpPath {
    fn clone(&self) -> (copy: HttpPath)
        ensures
            copy@ == self@,
    {
        let mut parts: Vec<String> = Vec::new();
        let mut i: usize = 0;
        assert(self@.take(0) =~= parts.deep_view());
        while i < self.parts.len()
            invariant
                i <= self.parts.len(),
                parts.deep_view() == self@.take(i as int),
            decreases self.parts.len() - i,
        {
            let ghost before = parts.deep_view();
            parts.push(self.parts[i].clone());
            assert(parts.deep_view() =~= before.push(self.parts[i as int]@));
            assert(self@.take(i + 1) =~= self@.take(i as int).push(self.parts[i as int]@));
            i += 1;
        }
        assert(self@.take(i as int) =~= self@);
        HttpPath { parts }
    }
}

impl PartialEq for HttpPath {
    fn eq(&self, other: &HttpPath) -> (equal: bool)
    {
        if self.parts.len() != other.parts.len() {
            assert(self@.len() != other@.len());
            return false;
        }
        let mut i: usize = 0;
        while i < self.parts.len()
            invariant
                i <= self.parts.len(),
                self.parts.len() == other.parts.len(),
                forall|j: int| 0 <= j < i ==> self@[j] == other@[j],
            decreases self.parts.len() - i,
        {
            if !(self.parts[i] == other.parts[i]) {
                assert(self@[i as int] != other@[i as int]);
                return false;
            }
            i += 1;
        }
        assert(self@ =~= other@);
        true
    }
}

impl vstd::std_specs::cmp::PartialEqSpecImpl for HttpPath {
    open spec fn obeys_eq_spec() -> bool {
        true
    }

    open spec fn eq_spec(&self, other: &HttpPath) -> bool {
        self@ == other@
    }
}

impl vstd::std_specs::convert::FromSpecImpl<&str> for HttpPath {
    /// What `from` returns is stated on `from` itself, over the view.
    open spec fn obeys_from_spec() -> bool {
        false
    }

    open spec fn from_spec(text: &str) -> HttpPath {
        arbitrary()
    }
}

impl From<&str> for HttpPath {
    /// The path that `text` stands for.
    fn from(text: &str) -> (path: HttpPath)
        ensures
            path@ == parse_spec(text@),
    {
        HttpPath::parse(text)
    }
}

/// Splitting yields at least one segment, and none of them holds a separator.
pub proof fn lemma_split_segments(s: Seq<char>)
    ensures
        split_spec(s).len() >= 1,
        forall|i: int| 0 <= i < split_spec(s).len() ==> !has_separator(#[trigger] split_spec(s)[i]),
    decreases s.len(),
{
    if s.len() > 0 {
        lemma_split_segments(s.drop_last());
        let head = split_spec(s.drop_last());
        if s.last() != SEPARATOR {
            let grown = head.last().push(s.last());
            assert(!has_separator(head[head.len() - 1]));
            assert(!has_separator(grown)) by {
                if has_separator(grown) {
                    let i = choose|i: int| 0 <= i < grown.len() && grown[i] == SEPARATOR;
                    assert(head.last()[i] == SEPARATOR);
                }
            }
        }
    }
}

/// Splitting yields a single segment exactly when the text holds no
/// separator.
pub proof fn lemma_split_single(s: Seq<char>)
    ensures
        split_spec(s).len() >= 1,
        split_spec(s).len() == 1 <==> !has_separator(s),
    decreases s.len(),
{
    if s.len() > 0 {
        let front = s.drop_last();
        lemma_split_single(front);
        if s.last() == SEPARATOR {
            assert(s[s.len() - 1] == SEPARATOR);
        } else {
            if has_separator(s) {
                let i = choose|i: int| 0 <= i < s.len() && s[i] == SEPARATOR;
                assert(front[i] == SEPARATOR);
            }
            if has_separator(front) {
                let i = choose|i: int| 0 <= i < front.len() && front[i] == SEPARATOR;
                assert(s[i] == SEPARATOR);
            }
        }
    }
}

/// Joining what a text splits into gives the text back.
pub proof fn lemma_join_split(s: Seq<char>)
    ensures
        join_spec(split_spec(s)) == s,
    decreases s.len(),
{
    if s.len() == 0 {
        assert(join_spec(split_spec(s)) =~= s);
    } else {
        let front = s.drop_last();
        lemma_join_split(front);
        lemma_split_single(front);
        let head = split_spec(front);
        if s.last() == SEPARATOR {
            let whole = head.push(Seq::<char>::empty());
            assert(whole.drop_last() =~= head);
            assert(join_spec(whole) =~= s);
        } else {
            let grown = head.last().push(s.last());
            let whole = head.drop_last().push(grown);
            if head.len() == 1 {
                assert(join_spec(whole) =~= s);
            } else {
                assert(whole.drop_last() =~= head.drop_last());
                assert(join_spec(whole) =~= join_spec(head).push(s.last()));
                assert(join_spec(whole) =~= s);
            }
        }
    }
}

/// A text without separator splits into itself.
pub proof fn lemma_split_plain(s: Seq<char>)
    requires
        !has_separator(s),
    ensures
        split_spec(s) == seq![s],
{
    lemma_split_single(s);
    lemma_join_split(s);
    assert(split_spec(s) =~= seq![s]);
}

/// Splitting after a separator: what follows the last separator is the last
/// segment.
pub proof fn lemma_split_after_separator(front: Seq<char>, last: Seq<char>)
    requires
        !has_separator(last),
    ensures
        split_spec(front.push(SEPARATOR) + last) == split_spec(front).push(last),
    decreases last.len(),
{
    let whole = front.push(SEPARATOR) + last;
    if last.len() == 0 {
        assert(last =~= Seq::<char>::empty());
        assert(whole =~= front.push(SEPARATOR));
        assert(whole.drop_last() =~= front);
        assert(whole.last() == SEPARATOR);
    } else {
        let shorter = last.drop_last();
        assert(!has_separator(shorter)) by {
            if has_separator(shorter) {
                let i = choose|i: int| 0 <= i < shorter.len() && shorter[i] == SEPARATOR;
                assert(last[i] == SEPARATOR);
            }
        }
        assert(last[last.len() - 1] != SEPARATOR);
        lemma_split_after_separator(front, shorter);
        let before = front.push(SEPARATOR) + shorter;
        let head = split_spec(before);
        assert(whole.drop_last() =~= before);
        assert(whole.last() == last.last());
        assert(head == split_spec(front).push(shorter));
        assert(head.drop_last() =~= split_spec(front));
        assert(head.last() == shorter);
        assert(shorter.push(last.last()) =~= last);
        assert(split_spec(whole) == head.drop_last().push(head.last().push(whole.last())));
    }
}

/// Splitting what segments without separator join into gives the segments
/// back.
pub proof fn lemma_split_join(parts: Seq<Seq<char>>)
    requires
        parts.len() >= 1,
        forall|i: int| 0 <= i < parts.len() ==> !has_separator(#[trigger] parts[i]),
    ensures
        split_spec(join_spec(parts)) == parts,
    decreases parts.len(),
{
    if parts.len() == 1 {
        lemma_split_plain(parts[0]);
        assert(seq![parts[0]] =~= parts);
    } else {
        let front = parts.drop_last();
        assert forall|i: int| 0 <= i < front.len() implies !has_separator(#[trigger] front[i]) by {
            assert(front[i] == parts[i]);
        }
        lemma_split_join(front);
        lemma_split_after_separator(join_spec(front), parts.last());
        assert(front.push(parts.last()) =~= parts);
    }
}

/// Round trip from the path: a path none of whose segments holds a
/// separator is the path that its text stands for, unless its segments are
/// two empty ones, whose text is that of the root.
pub proof fn lemma_round_trip_of_path(parts: Seq<Seq<char>>)
    requires
        forall|i: int| 0 <= i < parts.len() ==> !has_separator(#[trigger] parts[i]),
        parts.len() == 2 ==> parts[0].len() > 0 || parts[1].len() > 0,
    ensures
        parse_spec(text_spec(parts)) == parts,
{
    if parts.len() == 0 {
        assert(parse_spec(text_spec(parts)) =~= parts);
    } else if parts.len() == 1 && parts[0].len() == 0 {
        assert(parts[0] =~= Seq::<char>::empty());
        assert(parse_spec(text_spec(parts)) =~= parts);
    } else {
        lemma_split_join(parts);
        let text = join_spec(parts);
        if parts.len() == 1 {
            assert(text.len() > 0);
            assert(!(text =~= seq![SEPARATOR])) by {
                if text =~= seq![SEPARATOR] {
                    assert(parts[0][0] == SEPARATOR);
                }
            }
        } else {
            assert(text == join_spec(parts.drop_last()).push(SEPARATOR) + parts.last());
            assert(text.len() > 0);
            if text =~= seq![SEPARATOR] {
                assert(parts.last().len() == 0);
                assert(join_spec(parts.drop_last()).len() == 0);
                if parts.len() == 2 {
                    assert(parts.drop_last()[0] == parts[0]);
                    assert(join_spec(parts.drop_last()) == parts[0]);
                } else {
                    let front = parts.drop_last();
                    assert(join_spec(front) == join_spec(front.drop_last()).push(SEPARATOR)
                        + front.last());
                }
            }
        }
    }
}

/// Every path starts with itself.
pub proof fn lemma_starts_with_reflexive(path: Seq<Seq<char>>)
    ensures
        starts_with_spec(path, path),
{
}

/// Every path that a text stands for starts with itself.
pub proof fn lemma_parsed_starts_with_itself(text: Seq<char>)
    ensures
        starts_with_spec(parse_spec(text), parse_spec(text)),
{
}

/// A path that starts with a second, which starts with a third, starts with
/// the third.
pub proof fn lemma_starts_with_transitive(
    a: Seq<Seq<char>>,
    b: Seq<Seq<char>>,
    c: Seq<Seq<char>>,
)
    requires
        starts_with_spec(a, b),
        starts_with_spec(b, c),
    ensures
        starts_with_spec(a, c),
{
}

/// The empty path starts with no path but itself, and every path starts with
/// the empty path.
pub proof fn lemma_empty_path(path: Seq<Seq<char>>)
    ensures
        starts_with_spec(Seq::<Seq<char>>::empty(), path) <==> path.len() == 0,
        starts_with_spec(path, Seq::<Seq<char>>::empty()),
{
}

/// Two paths that start with each other are equal.
pub proof fn lemma_starts_with_antisymmetric(a: Seq<Seq<char>>, b: Seq<Seq<char>>)
    requires
        starts_with_spec(a, b),
        starts_with_spec(b, a),
    ensures
        a == b,
{
    assert(a =~= b);
}

/// Pushing a segment makes the path strictly longer, keeps the path it was
/// (rooted, if it was empty) as a prefix, and puts the segment last.
pub proof fn lemma_push_grows(path: Seq<Seq<char>>, segment: Seq<char>)
    ensures
        push_spec(path, segment).len() > path.len(),
        push_spec(path, segment).len() >= 2,
        starts_with_spec(push_spec(path, segment), path),
        push_spec(path, segment).last() == segment,
{
}

/// Round trip: every text is the text of the path that it stands for.
pub proof fn lemma_round_trip(text: Seq<char>)
    ensures
        text_spec(parse_spec(text)) == text,
{
    if text.len() == 0 {
        assert(text_spec(parse_spec(text)) =~= text);
    } else if text =~= seq![SEPARATOR] {
        assert(text_spec(parse_spec(text)) =~= text);
    } else {
        lemma_split_single(text);
        lemma_join_split(text);
        let parts = split_spec(text);
        if parts.len() == 1 && parts[0].len() == 0 {
            assert(join_spec(parts) =~= Seq::<char>::empty());
        }
    }
}

} // verus!
