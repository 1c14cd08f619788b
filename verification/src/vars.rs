//! Variables and their substitution into text.
//!
//! A variable is a name with a value, both plain text. Substitution is
//! textual and flat: the text is read once from the left, a name that stands
//! at the place that is read is replaced by its value, and a value that was
//! put in is not read again. Where several names stand at one place, the
//! variable that was inserted first is taken. Text in which no name occurs
//! is left as it is.

use vstd::prelude::*;
use vstd::std_specs::iter::IteratorSpec;
use vstd::string::StrSliceExecFns;

verus! {

/// Variables as name and value, in order.
pub type VarSeq = Seq<(Seq<char>, Seq<char>)>;

/// Whether `pattern` stands in `text` at position `at`.
pub open spec fn occurs_at(text: Seq<char>, pattern: Seq<char>, at: int) -> bool {
    &&& 0 <= at
    &&& at + pattern.len() <= text.len()
    &&& text.subrange(at, at + pattern.len()) == pattern
}

/// Whether `pattern` stands anywhere in `text`.
pub open spec fn occurs_in(text: Seq<char>, pattern: Seq<char>) -> bool {
    exists|at: int| occurs_at(text, pattern, at)
}

/// `text` with each occurrence of `pattern` replaced by `to`: occurrences
/// are found from the left and do not overlap, and the replacement is not
/// searched again. An empty pattern occurs nowhere.
pub open spec fn replaced(text: Seq<char>, pattern: Seq<char>, to: Seq<char>) -> Seq<char>
    decreases text.len(),
{
    if pattern.len() == 0 || text.len() < pattern.len() {
        text
    } else if occurs_at(text, pattern, 0) {
        to + replaced(text.subrange(pattern.len() as int, text.len() as int), pattern, to)
    } else {
        seq![text[0]] + replaced(text.drop_first(), pattern, to)
    }
}

/// The names of `vars`, in order.
pub open spec fn names_of(vars: VarSeq) -> Seq<Seq<char>> {
    vars.map_values(|var: (Seq<char>, Seq<char>)| var.0)
}

/// The place of the first of `names`, at or behind place `from`, that is
/// not empty and stands in `text` at position `at`.
pub open spec fn first_match(text: Seq<char>, names: Seq<Seq<char>>, at: int, from: int) -> Option<
    int,
>
    decreases names.len() - from,
{
    if from < 0 || from >= names.len() {
        None
    } else if names[from].len() > 0 && occurs_at(text, names[from], at) {
        Some(from)
    } else {
        first_match(text, names, at, from + 1)
    }
}

/// What substitution makes of `text` from position `at` on: where the name
/// of a variable stands at `at`, the value of the first such variable,
/// followed by what it makes of the text behind the name; otherwise the
/// character at `at`, followed by what it makes of the text behind it.
pub open spec fn substituted_from(text: Seq<char>, vars: VarSeq, at: int) -> Seq<char>
    decreases text.len() - at,
{
    if at < 0 || at >= text.len() {
        Seq::empty()
    } else {
        match first_match(text, names_of(vars), at, 0) {
            Some(k) => if 0 <= k < vars.len() && vars[k].0.len() > 0 && at + vars[k].0.len()
                <= text.len() {
                vars[k].1 + substituted_from(text, vars, at + vars[k].0.len())
            } else {
                seq![text[at]] + substituted_from(text, vars, at + 1)
            },
            None => seq![text[at]] + substituted_from(text, vars, at + 1),
        }
    }
}

/// `text` after the variables of `vars` have been substituted, in one pass
/// from the left.
pub open spec fn substituted(text: Seq<char>, vars: VarSeq) -> Seq<char> {
    substituted_from(text, vars, 0)
}

/// Whether every variable of `vars` has a name that is not empty.
pub open spec fn named(vars: VarSeq) -> bool {
    forall|i: int| 0 <= i < vars.len() ==> (#[trigger] vars[i]).0.len() > 0
}

/// The views of `names`, in order.
pub open spec fn chars_views(names: Seq<Vec<char>>) -> Seq<Seq<char>> {
    names.map_values(|name: Vec<char>| name@)
}

/// Whether a variable called `name` is among `vars`.
pub open spec fn has_name(vars: VarSeq, name: Seq<char>) -> bool {
    exists|i: int| 0 <= i < vars.len() && (#[trigger] vars[i]).0 == name
}

/// The place of the variable called `name` in `vars`.
pub open spec fn index_of(vars: VarSeq, name: Seq<char>) -> int {
    choose|i: int| 0 <= i < vars.len() && (#[trigger] vars[i]).0 == name
}

/// Whether no two variables of `vars` share a name.
pub open spec fn distinct_names(vars: VarSeq) -> bool {
    forall|i: int, j: int|
        0 <= i < vars.len() && 0 <= j < vars.len() && i != j ==> (#[trigger] vars[i]).0 != (
        #[trigger] vars[j]).0
}

/// `vars` with `name` set to `value`: a variable of that name keeps its place
/// and takes the new value, a new variable goes to the end.
pub open spec fn inserted(vars: VarSeq, name: Seq<char>, value: Seq<char>) -> VarSeq {
    if has_name(vars, name) {
        vars.update(index_of(vars, name), (name, value))
    } else {
        vars.push((name, value))
    }
}

/// The value of the variable called `name`, if there is one.
pub open spec fn value_of(vars: VarSeq, name: Seq<char>) -> Option<Seq<char>> {
    if has_name(vars, name) {
        Some(vars[index_of(vars, name)].1)
    } else {
        None
    }
}

/// Text in which the pattern does not occur is left as it is.
pub proof fn lemma_replaced_absent(text: Seq<char>, pattern: Seq<char>, to: Seq<char>)
    requires
        !occurs_in(text, pattern),
    ensures
        replaced(text, pattern, to) == text,
    decreases text.len(),
{
    if pattern.len() > 0 && text.len() >= pattern.len() {
        assert(!occurs_at(text, pattern, 0));
        let rest = text.drop_first();
        assert forall|at: int| !occurs_at(rest, pattern, at) by {
            if occurs_at(rest, pattern, at) {
                assert(rest.subrange(at, at + pattern.len()) =~= text.subrange(
                    at + 1,
                    at + 1 + pattern.len(),
                ));
                assert(occurs_at(text, pattern, at + 1));
            }
        }
        lemma_replaced_absent(rest, pattern, to);
        assert(seq![text[0]] + rest =~= text);
    }
}

/// The first occurrence of the pattern is replaced by the new text as it
/// is; what stands before it is kept, and what stands behind it is replaced
/// in turn.
pub proof fn lemma_replaced_first(text: Seq<char>, pattern: Seq<char>, to: Seq<char>, at: int)
    requires
        pattern.len() > 0,
        occurs_at(text, pattern, at),
        forall|before: int| 0 <= before < at ==> !occurs_at(text, pattern, before),
    ensures
        replaced(text, pattern, to) == text.subrange(0, at) + to + replaced(
            text.subrange(at + pattern.len(), text.len() as int),
            pattern,
            to,
        ),
    decreases at,
{
    if at == 0 {
        assert(text.subrange(0, 0) + to =~= to);
    } else {
        let rest = text.drop_first();
        assert(rest.subrange(at - 1, at - 1 + pattern.len()) =~= text.subrange(
            at,
            at + pattern.len(),
        ));
        assert forall|before: int| 0 <= before < at - 1 implies !occurs_at(
            rest,
            pattern,
            before,
        ) by {
            if occurs_at(rest, pattern, before) {
                assert(rest.subrange(before, before + pattern.len()) =~= text.subrange(
                    before + 1,
                    before + 1 + pattern.len(),
                ));
                assert(occurs_at(text, pattern, before + 1));
            }
        }
        lemma_replaced_first(rest, pattern, to, at - 1);
        assert(rest.subrange(at - 1 + pattern.len(), rest.len() as int) =~= text.subrange(
            at + pattern.len(),
            text.len() as int,
        ));
        assert(seq![text[0]] + rest.subrange(0, at - 1) =~= text.subrange(0, at));
        assert(seq![text[0]] + (rest.subrange(0, at - 1) + to + replaced(
            text.subrange(at + pattern.len(), text.len() as int),
            pattern,
            to,
        )) =~= text.subrange(0, at) + to + replaced(
            text.subrange(at + pattern.len(), text.len() as int),
            pattern,
            to,
        ));
    }
}

/// What [`first_match`] finds is a name that is not empty and stands at the
/// position, and no such name comes before it.
pub proof fn lemma_first_match(text: Seq<char>, names: Seq<Seq<char>>, at: int, from: int)
    requires
        0 <= from,
    ensures
        match first_match(text, names, at, from) {
            Some(k) => {
                &&& from <= k < names.len()
                &&& names[k].len() > 0
                &&& occurs_at(text, names[k], at)
                &&& forall|j: int|
                    from <= j < k ==> !((#[trigger] names[j]).len() > 0 && occurs_at(
                        text,
                        names[j],
                        at,
                    ))
            },
            None => forall|j: int|
                from <= j < names.len() ==> !((#[trigger] names[j]).len() > 0 && occurs_at(
                    text,
                    names[j],
                    at,
                )),
        },
    decreases names.len() - from,
{
    if from < names.len() && !(names[from].len() > 0 && occurs_at(text, names[from], at)) {
        lemma_first_match(text, names, at, from + 1);
    }
}

/// Text in which no name stands between the positions `from` and `to` is
/// kept between them as it is.
pub proof fn lemma_substituted_kept(text: Seq<char>, vars: VarSeq, from: int, to: int)
    requires
        0 <= from <= to <= text.len(),
        forall|at: int| from <= at < to ==> first_match(text, names_of(vars), at, 0) is None,
    ensures
        substituted_from(text, vars, from) == text.subrange(from, to) + substituted_from(
            text,
            vars,
            to,
        ),
    decreases to - from,
{
    if from < to {
        lemma_substituted_kept(text, vars, from + 1, to);
        assert(seq![text[from]] + (text.subrange(from + 1, to) + substituted_from(text, vars, to))
            =~= text.subrange(from, to) + substituted_from(text, vars, to));
    } else {
        assert(text.subrange(from, to) + substituted_from(text, vars, to) =~= substituted_from(
            text,
            vars,
            to,
        ));
    }
}

/// Text in which no variable's name occurs is left as it is by
/// substitution.
pub proof fn lemma_substituted_absent(text: Seq<char>, vars: VarSeq)
    requires
        forall|i: int|
            0 <= i < vars.len() && (#[trigger] vars[i]).0.len() > 0 ==> !occurs_in(
                text,
                vars[i].0,
            ),
    ensures
        substituted(text, vars) == text,
{
    assert forall|at: int| 0 <= at < text.len() implies first_match(
        text,
        names_of(vars),
        at,
        0,
    ) is None by {
        lemma_first_match(text, names_of(vars), at, 0);
        if let Some(k) = first_match(text, names_of(vars), at, 0) {
            assert(names_of(vars)[k] == vars[k].0);
            assert(occurs_at(text, vars[k].0, at));
        }
    }
    lemma_substituted_kept(text, vars, 0, text.len() as int);
    assert(text.subrange(0, text.len() as int) + Seq::<char>::empty() =~= text);
}

/// The first name that stands in the text is replaced by its value as it
/// is: what stands before the name is kept, the value follows, and
/// substitution goes on behind the name, not in the value.
pub proof fn lemma_substituted_first(text: Seq<char>, vars: VarSeq, at: int, k: int)
    requires
        0 <= at < text.len(),
        first_match(text, names_of(vars), at, 0) == Some(k),
        forall|before: int| 0 <= before < at ==> first_match(text, names_of(vars), before, 0) is None,
    ensures
        0 <= k < vars.len(),
        substituted(text, vars) == text.subrange(0, at) + vars[k].1 + substituted_from(
            text,
            vars,
            at + vars[k].0.len(),
        ),
{
    lemma_first_match(text, names_of(vars), at, 0);
    assert(names_of(vars)[k] == vars[k].0);
    lemma_substituted_kept(text, vars, 0, at);
}

/// A table with distinct names holds each name at one place only.
pub proof fn lemma_index_of(vars: VarSeq, name: Seq<char>, at: int)
    requires
        distinct_names(vars),
        0 <= at < vars.len(),
        vars[at].0 == name,
    ensures
        has_name(vars, name),
        index_of(vars, name) == at,
{
}

/// After a name has been set it has the value that was set, the table still
/// has distinct names, and every other name has the value that it had.
pub proof fn lemma_inserted(vars: VarSeq, name: Seq<char>, value: Seq<char>, other: Seq<char>)
    requires
        distinct_names(vars),
    ensures
        distinct_names(inserted(vars, name, value)),
        value_of(inserted(vars, name, value), name) == Some(value),
        other != name ==> value_of(inserted(vars, name, value), other) == value_of(vars, other),
{
    let after = inserted(vars, name, value);
    if has_name(vars, name) {
        let at = index_of(vars, name);
        assert(after[at] == (name, value));
        lemma_index_of(after, name, at);
        if other != name {
            if has_name(vars, other) {
                let place = index_of(vars, other);
                assert(after[place] == vars[place]);
                lemma_index_of(after, other, place);
            } else if has_name(after, other) {
                let place = index_of(after, other);
                assert(vars[place].0 == other);
            }
        }
    } else {
        let at = vars.len() as int;
        assert(after[at] == (name, value));
        assert forall|i: int, j: int|
            0 <= i < after.len() && 0 <= j < after.len() && i != j implies (#[trigger] after[i]).0
            != (#[trigger] after[j]).0 by {
            if i < vars.len() {
                assert(after[i] == vars[i]);
            }
            if j < vars.len() {
                assert(after[j] == vars[j]);
            }
        }
        lemma_index_of(after, name, at);
        if other != name {
            if has_name(vars, other) {
                let place = index_of(vars, other);
                assert(after[place] == vars[place]);
                lemma_index_of(after, other, place);
            } else if has_name(after, other) {
                let place = index_of(after, other);
                assert(vars[place].0 == other);
            }
        }
    }
}

/// Calls `str::replace` with a string pattern that is not empty. Trusted:
/// every match of the pattern, found from the left and not overlapping an
/// earlier match, is replaced by `to`, and the text between the matches is
/// kept.
#[verifier::external_body]
pub(crate) fn replace_all(text: &str, pattern: &str, to: &str) -> (out: String)
    requires
        pattern@.len() > 0,
    ensures
        out@ == replaced(text@, pattern@, to@),
{
    text.replace(pattern, to)
}

/// A table of variables with distinct, non-empty names, in the order in
/// which the names were first inserted.
#[derive(Debug, Clone)]
pub struct Variables {
    entries: Vec<(String, String)>,
}

impl View for Variables {
    type V = VarSeq;

    closed spec fn view(&self) -> VarSeq {
        self.entries@.map_values(|entry: (String, String)| (entry.0@, entry.1@))
    }
}

impl Variables {
    /// What holds of every table: no name occurs twice and none is empty.
    pub open spec fn wf(&self) -> bool {
        distinct_names(self@) && named(self@)
    }

    /// An empty table.
    pub fn new() -> (vars: Self)
        ensures
            vars.wf(),
            vars@ == VarSeq::empty(),
    {
        let vars = Variables { entries: Vec::new() };
        assert(vars@ =~= VarSeq::empty());
        vars
    }

    /// The number of variables.
    pub fn len(&self) -> (len: usize)
        ensures
            len == self@.len(),
    {
        self.entries.len()
    }

    /// The name and the value of the variable at place `index`.
    pub fn entry(&self, index: usize) -> (entry: (&String, &String))
        requires
            index < self@.len(),
        ensures
            entry.0@ == self@[index as int].0,
            entry.1@ == self@[index as int].1,
    {
        let entry = &self.entries[index];
        (&entry.0, &entry.1)
    }

    /// The place of the variable called `name`, if there is one.
    pub fn position(&self, name: &str) -> (place: Option<usize>)
        requires
            self.wf(),
        ensures
            place is Some <==> has_name(self@, name@),
            place matches Some(i) ==> i < self@.len() && i == index_of(self@, name@),
    {
        let wanted = name.to_owned();
        let mut i: usize = 0;
        while i < self.entries.len()
            invariant
                i <= self.entries.len(),
                wanted@ == name@,
                distinct_names(self@),
                forall|j: int| 0 <= j < i ==> (#[trigger] self@[j]).0 != name@,
            decreases self.entries.len() - i,
        {
            assert(self@[i as int].0 == self.entries@[i as int].0@);
            if self.entries[i].0 == wanted {
                return Some(i);
            }
            i += 1;
        }
        None
    }

    /// The value of the variable called `name`, if there is one.
    pub fn get(&self, name: &str) -> (value: Option<&String>)
        requires
            self.wf(),
        ensures
            value is Some <==> has_name(self@, name@),
            value matches Some(v) ==> Some(v@) == value_of(self@, name@),
    {
        match self.position(name) {
            Some(i) => Some(&self.entries[i].1),
            None => None,
        }
    }

    /// Sets the variable called `name` to `value`.
    pub fn insert(&mut self, name: &str, value: String)
        requires
            old(self).wf(),
            name@.len() > 0,
        ensures
            final(self).wf(),
            final(self)@ == inserted(old(self)@, name@, value@),
    {
        match self.position(name) {
            Some(i) => {
                self.entries.set(i, (name.to_owned(), value));
                assert(self@ =~= inserted(old(self)@, name@, value@));
            },
            None => {
                self.entries.push((name.to_owned(), value));
                assert(self@ =~= inserted(old(self)@, name@, value@));
            },
        }
    }

    /// Substitutes the variables into `text`, in one pass from the left.
    pub fn substitute(&self, text: &str) -> (out: String)
        ensures
            out@ == substituted(text@, self@),
    {
        let chars = chars_of(text);
        let mut names: Vec<Vec<char>> = Vec::new();
        let mut k: usize = 0;
        while k < self.entries.len()
            invariant
                k <= self.entries.len(),
                names@.len() == k,
                forall|j: int| 0 <= j < k ==> (#[trigger] names@[j])@ == self@[j].0,
            decreases self.entries.len() - k,
        {
            assert(self@[k as int].0 == self.entries@[k as int].0@);
            names.push(chars_of(self.entries[k].0.as_str()));
            k += 1;
        }
        assert(chars_views(names@) =~= names_of(self@));
        let mut out = String::new();
        let mut start: usize = 0;
        let mut at: usize = 0;
        assert(out@ + text@.subrange(0, 0) + substituted_from(text@, self@, 0) =~= substituted(
            text@,
            self@,
        ));
        while at < chars.len()
            invariant
                start <= at <= chars.len(),
                chars@ == text@,
                names@.len() == self.entries@.len(),
                chars_views(names@) == names_of(self@),
                substituted(text@, self@) == out@ + text@.subrange(start as int, at as int)
                    + substituted_from(text@, self@, at as int),
            decreases chars.len() - at,
        {
            proof {
                lemma_first_match(text@, names_of(self@), at as int, 0);
            }
            match match_at(&chars, &names, at) {
                Some(k) => {
                    assert(names_of(self@)[k as int] == self@[k as int].0);
                    assert(self@[k as int].1 == self.entries@[k as int].1@);
                    let ghost before = out@;
                    out.append(text.substring_char(start, at));
                    out.append(self.entries[k].1.as_str());
                    let next = at + names[k].len();
                    assert(before + text@.subrange(start as int, at as int) + (self@[k as int].1
                        + substituted_from(text@, self@, next as int)) =~= out@ + text@.subrange(
                        next as int,
                        next as int,
                    ) + substituted_from(text@, self@, next as int));
                    at = next;
                    start = next;
                },
                None => {
                    assert(out@ + text@.subrange(start as int, at as int) + (seq![text@[at as int]]
                        + substituted_from(text@, self@, at + 1)) =~= out@ + text@.subrange(
                        start as int,
                        at + 1,
                    ) + substituted_from(text@, self@, at + 1));
                    at += 1;
                },
            }
        }
        let ghost before = out@;
        out.append(text.substring_char(start, at));
        assert(before + text@.subrange(start as int, at as int) + substituted_from(
            text@,
            self@,
            at as int,
        ) =~= out@);
        out
    }
}

/// The characters of `text`.
pub fn chars_of(text: &str) -> (chars: Vec<char>)
    ensures
        chars@ == text@,
{
    let mut chars: Vec<char> = Vec::new();
    let mut rest = text.chars();
    let ghost mut seen: int = 0;
    assert(text@.skip(0) =~= text@);
    assert(text@.take(0) =~= chars@);
    loop
        invariant
            0 <= seen <= text@.len(),
            rest.obeys_prophetic_iter_laws(),
            rest.remaining() == text@.skip(seen),
            chars@ == text@.take(seen),
        decreases text@.len() - seen,
    {
        match rest.next() {
            None => {
                assert(text@.skip(seen).len() == 0);
                assert(text@.take(seen) =~= text@);
                return chars;
            },
            Some(c) => {
                chars.push(c);
                proof {
                    assert(text@.skip(seen).drop_first() =~= text@.skip(seen + 1));
                    assert(text@.take(seen).push(c) =~= text@.take(seen + 1));
                    seen = seen + 1;
                }
            },
        }
    }
}

/// Tells whether `pattern` stands in `text` at position `at`.
pub fn stands_at(text: &Vec<char>, pattern: &Vec<char>, at: usize) -> (found: bool)
    requires
        at <= text@.len(),
    ensures
        found == occurs_at(text@, pattern@, at as int),
{
    if pattern.len() > text.len() - at {
        return false;
    }
    let mut i: usize = 0;
    while i < pattern.len()
        invariant
            i <= pattern.len(),
            at + pattern.len() <= text.len(),
            forall|j: int| 0 <= j < i ==> text@[at + j] == #[trigger] pattern@[j],
        decreases pattern.len() - i,
    {
        if text[at + i] != pattern[i] {
            assert(text@.subrange(at as int, at + pattern@.len())[i as int] != pattern@[i as int]);
            return false;
        }
        i += 1;
    }
    assert(text@.subrange(at as int, at + pattern@.len()) =~= pattern@);
    true
}

/// The place of the first of `names` that is not empty and stands in `text`
/// at position `at`.
pub fn match_at(text: &Vec<char>, names: &Vec<Vec<char>>, at: usize) -> (found: Option<usize>)
    requires
        at <= text@.len(),
    ensures
        match found {
            Some(k) => k < names@.len() && first_match(text@, chars_views(names@), at as int, 0)
                == Some(k as int),
            None => first_match(text@, chars_views(names@), at as int, 0) is None,
        },
{
    let mut k: usize = 0;
    while k < names.len()
        invariant
            k <= names.len(),
            at <= text@.len(),
            first_match(text@, chars_views(names@), at as int, 0) == first_match(
                text@,
                chars_views(names@),
                at as int,
                k as int,
            ),
        decreases names.len() - k,
    {
        assert(chars_views(names@)[k as int] == names@[k as int]@);
        if names[k].len() > 0 && stands_at(text, &names[k], at) {
            return Some(k);
        }
        k += 1;
    }
    None
}

} // verus!
