//! Absolute paths as sequences of names.

use vstd::prelude::*;
use vstd::string::StringExecFns;

verus! {

/// The names held by a vector of strings.
pub open spec fn names_of(components: Seq<String>) -> Seq<Seq<char>> {
    components.map_values(|s: String| s@)
}

/// The names that a written path holds: the runs of characters between its
/// slashes, in order. Slashes that follow each other hold nothing between them.
pub open spec fn names_in(s: Seq<char>) -> Seq<Seq<char>>
    decreases s.len(),
{
    if s.len() == 0 {
        Seq::empty()
    } else {
        let before = names_in(s.drop_last());
        if s.last() == '/' {
            before
        } else if s.len() >= 2 && s[s.len() - 2] != '/' {
            // the last character goes on with the last name
            before.drop_last().push(before.last().push(s.last()))
        } else {
            // the last character begins a name
            before.push(seq![s.last()])
        }
    }
}

/// Whether a written path starts at the root.
pub open spec fn is_absolute(s: Seq<char>) -> bool {
    s.len() > 0 && s[0] == '/'
}

/// The path that `input` names for someone who stands in `cwd`: `input` itself
/// where it starts at the root, else `input` below `cwd`.
pub open spec fn resolved(cwd: Seq<Seq<char>>, input: Seq<char>) -> Seq<Seq<char>> {
    if is_absolute(input) {
        names_in(input)
    } else {
        cwd + names_in(input)
    }
}

/// The names of a path written one after the other, a slash before each.
pub open spec fn slashed(path: Seq<Seq<char>>) -> Seq<char>
    decreases path.len(),
{
    if path.len() == 0 {
        Seq::empty()
    } else {
        slashed(path.drop_last()) + seq!['/'] + path.last()
    }
}

/// A path as it is written: a slash before each name, and a lone slash for the
/// root.
pub open spec fn rendered(path: Seq<Seq<char>>) -> Seq<char> {
    if path.len() == 0 {
        seq!['/']
    } else {
        slashed(path)
    }
}

/// Whether the characters can be a name of a path: there is at least one, and
/// none is a slash.
pub open spec fn is_name(name: Seq<char>) -> bool {
    name.len() > 0 && forall|i: int| 0 <= i < name.len() ==> name[i] != '/'
}

/// A name written behind a slash is read as one more name.
pub proof fn lemma_names_in_slashed_name(s: Seq<char>, name: Seq<char>, k: int)
    requires
        is_name(name),
        1 <= k <= name.len(),
    ensures
        names_in(s + seq!['/'] + name.take(k)) == names_in(s).push(name.take(k)),
    decreases k,
{
    let t = s + seq!['/'] + name.take(k);
    assert(t.last() == name[k - 1]);
    assert(name[k - 1] != '/');
    if k == 1 {
        let head = s + seq!['/'];
        assert(t.drop_last() =~= head);
        assert(head.last() == '/');
        assert(head.drop_last() =~= s);
        assert(names_in(head) == names_in(s));
        assert(t[t.len() - 2] == '/');
        assert(name.take(1) =~= seq![name[0]]);
        assert(names_in(t) == names_in(head).push(seq![t.last()]));
    } else {
        let head = s + seq!['/'] + name.take(k - 1);
        assert(t.drop_last() =~= head);
        lemma_names_in_slashed_name(s, name, k - 1);
        assert(t[t.len() - 2] == name[k - 2]);
        assert(name[k - 2] != '/');
        let before = names_in(s).push(name.take(k - 1));
        assert(names_in(head) == before);
        assert(before.drop_last() =~= names_in(s));
        assert(before.last() == name.take(k - 1));
        assert(name.take(k - 1).push(name[k - 1]) =~= name.take(k));
        assert(names_in(t) == before.drop_last().push(before.last().push(t.last())));
    }
}

/// Reading what was written gives the names back.
pub proof fn lemma_names_in_slashed(path: Seq<Seq<char>>)
    requires
        forall|i: int| 0 <= i < path.len() ==> is_name(#[trigger] path[i]),
    ensures
        names_in(slashed(path)) == path,
        path.len() > 0 ==> is_absolute(slashed(path)),
    decreases path.len(),
{
    if path.len() > 0 {
        lemma_names_in_slashed(path.drop_last());
        let name = path.last();
        lemma_names_in_slashed_name(slashed(path.drop_last()), name, name.len() as int);
        assert(name.take(name.len() as int) =~= name);
        assert(path.drop_last().push(name) =~= path);
        if path.len() == 1 {
            assert(slashed(path.drop_last()) =~= Seq::<char>::empty());
        }
    }
}

/// A path that is written and read again is the path it was, as long as each of
/// its names is a name: what is written starts at the root, and holds the names
/// of the path and no others.
pub proof fn theorem_reading_undoes_writing(path: Seq<Seq<char>>, cwd: Seq<Seq<char>>)
    requires
        forall|i: int| 0 <= i < path.len() ==> is_name(#[trigger] path[i]),
    ensures
        is_absolute(rendered(path)),
        names_in(rendered(path)) == path,
        resolved(cwd, rendered(path)) == path,
{
    lemma_names_in_slashed(path);
    if path.len() == 0 {
        let root = seq!['/'];
        assert(root.drop_last() =~= Seq::<char>::empty());
        assert(names_in(root) =~= path);
    }
}

/// An absolute path: the names that lead from the root to an object. The root
/// itself has no names.
#[derive(Debug)]
pub struct AbsPath {
    pub components: Vec<String>,
}

impl View for AbsPath {
    type V = Seq<Seq<char>>;

    open spec fn view(&self) -> Seq<Seq<char>> {
        names_of(self.components@)
    }
}

/// Copies a vector of names.
pub fn clone_names(names: &Vec<String>) -> (copy: Vec<String>)
    ensures
        names_of(copy@) == names_of(names@),
{
    let mut copy: Vec<String> = Vec::new();
    let mut i: usize = 0;
    while i < names.len()
        invariant
            i <= names.len(),
            copy.len() == i,
            forall|j: int| 0 <= j < i ==> copy[j]@ == names[j]@,
        decreases names.len() - i,
    {
        copy.push(names[i].clone());
        i += 1;
    }
    assert(names_of(copy@) =~= names_of(names@));
    copy
}

impl Clone for AbsPath {
    fn clone(&self) -> (copy: AbsPath)
        ensures
            copy@ == self@,
    {
        AbsPath { components: clone_names(&self.components) }
    }
}

impl AbsPath {
    /// The root of the file system.
    pub fn root() -> (path: AbsPath)
        ensures
            path@ == Seq::<Seq<char>>::empty(),
    {
        let path = AbsPath { components: Vec::new() };
        assert(path@ =~= Seq::<Seq<char>>::empty());
        path
    }

    /// The number of names on the way from the root.
    pub fn depth(&self) -> (n: usize)
        ensures
            n == self@.len(),
    {
        self.components.len()
    }

    /// The path of the object called `name` inside this directory.
    pub fn join(&self, name: &str) -> (path: AbsPath)
        ensures
            path@ == self@.push(name@),
    {
        let mut components = clone_names(&self.components);
        components.push(name.to_owned());
        let path = AbsPath { components };
        assert(path@ =~= self@.push(name@));
        path
    }

    /// The path reached by descending through `names` in turn.
    pub fn join_all(&self, names: &Vec<String>) -> (path: AbsPath)
        ensures
            path@ == self@ + names_of(names@),
    {
        let mut components = clone_names(&self.components);
        let mut i: usize = 0;
        while i < names.len()
            invariant
                i <= names.len(),
                names_of(components@) == self@ + names_of(names@).take(i as int),
            decreases names.len() - i,
        {
            let ghost before = components@;
            components.push(names[i].clone());
            assert(names_of(components@) =~= names_of(before).push(names[i as int]@));
            assert(names_of(names@).take(i + 1) =~= names_of(names@).take(i as int).push(
                names[i as int]@,
            ));
            assert(names_of(components@) =~= self@ + names_of(names@).take(i + 1));
            i += 1;
        }
        assert(names_of(names@).take(names.len() as int) =~= names_of(names@));
        AbsPath { components }
    }

    /// The directory that holds this object; the root has none.
    pub fn parent(&self) -> (up: Option<AbsPath>)
        ensures
            self@.len() == 0 ==> up is None,
            self@.len() > 0 ==> up is Some && up->0@ == self@.drop_last(),
    {
        let n = self.components.len();
        if n == 0 {
            return None;
        }
        let mut components: Vec<String> = Vec::new();
        let mut i: usize = 0;
        while i < n - 1
            invariant
                n == self.components.len(),
                n > 0,
                i <= n - 1,
                components.len() == i,
                forall|j: int| 0 <= j < i ==> components[j]@ == self.components[j]@,
            decreases n - i,
        {
            components.push(self.components[i].clone());
            i += 1;
        }
        let up = AbsPath { components };
        assert(up@ =~= self@.drop_last());
        Some(up)
    }

    /// The last name of the path; the root has none.
    pub fn file_name(&self) -> (name: Option<&String>)
        ensures
            self@.len() == 0 ==> name is None,
            self@.len() > 0 ==> name is Some && name->0@ == self@.last(),
    {
        let n = self.components.len();
        if n == 0 {
            None
        } else {
            Some(&self.components[n - 1])
        }
    }

    /// Whether both paths hold the same names.
    pub fn same(&self, other: &AbsPath) -> (equal: bool)
        ensures
            equal == (self@ == other@),
    {
        if self.components.len() != other.components.len() {
            assert(self@.len() != other@.len());
            return false;
        }
        let mut i: usize = 0;
        while i < self.components.len()
            invariant
                i <= self.components.len(),
                self.components.len() == other.components.len(),
                forall|j: int| 0 <= j < i ==> self@[j] == other@[j],
            decreases self.components.len() - i,
        {
            if self.components[i] != other.components[i] {
                assert(self@[i as int] != other@[i as int]);
                return false;
            }
            i += 1;
        }
        assert(self@ =~= other@);
        true
    }

    /// Whether this path lies at or below `base`.
    pub fn starts_with(&self, base: &AbsPath) -> (below: bool)
        ensures
            below == base@.is_prefix_of(self@),
    {
        if base.components.len() > self.components.len() {
            return false;
        }
        let mut i: usize = 0;
        while i < base.components.len()
            invariant
                i <= base.components.len(),
                base.components.len() <= self.components.len(),
                forall|j: int| 0 <= j < i ==> self@[j] == base@[j],
            decreases base.components.len() - i,
        {
            if self.components[i] != base.components[i] {
                assert(self@.subrange(0, base@.len() as int)[i as int] != base@[i as int]);
                return false;
            }
            i += 1;
        }
        assert(base@ =~= self@.subrange(0, base@.len() as int));
        true
    }

    /// The names that lead from `base` down to this path, where it lies at or
    /// below `base`.
    pub fn relative_to(&self, base: &AbsPath) -> (rel: Option<Vec<String>>)
        ensures
            rel is Some <==> base@.is_prefix_of(self@),
            rel is Some ==> names_of(rel->0@) == self@.skip(base@.len() as int),
    {
        if !self.starts_with(base) {
            return None;
        }
        let mut names: Vec<String> = Vec::new();
        let start = base.components.len();
        let mut i: usize = start;
        while i < self.components.len()
            invariant
                start <= i <= self.components.len(),
                names.len() == i - start,
                forall|j: int| 0 <= j < i - start ==> names[j]@ == self.components[start + j]@,
            decreases self.components.len() - i,
        {
            names.push(self.components[i].clone());
            i += 1;
        }
        assert(names_of(names@) =~= self@.skip(base@.len() as int));
        Some(names)
    }

    /// The path that lies below `to` as this path lies below `from`.
    pub fn rebase(&self, from: &AbsPath, to: &AbsPath) -> (moved: Option<AbsPath>)
        ensures
            moved is Some <==> from@.is_prefix_of(self@),
            moved is Some ==> moved->0@ == to@ + self@.skip(from@.len() as int),
    {
        match self.relative_to(from) {
            Some(names) => Some(to.join_all(&names)),
            None => None,
        }
    }
}

/// The names that a written path holds.
pub fn split_names(input: &str) -> (names: Vec<String>)
    ensures
        names_of(names@) == names_in(input@),
{
    let ghost s = input@;
    let n = input.unicode_len();
    let mut names: Vec<String> = Vec::new();
    // While a name is open it began at `start`.
    let mut open = false;
    let mut start: usize = 0;
    let mut i: usize = 0;
    assert(names_of(names@) =~= names_in(s.take(0)));
    for c in it: input.chars()
        invariant
            it.seq() == s,
            s == input@,
            n == s.len(),
            i == it.index(),
            i <= n,
            open ==> start < i,
            open <==> i > 0 && s[i - 1] != '/',
            names_in(s.take(i as int)) == if open {
                names_of(names@).push(s.subrange(start as int, i as int))
            } else {
                names_of(names@)
            },
    {
        let ghost was = names_of(names@);
        proof {
            assert(s.take(i + 1).drop_last() =~= s.take(i as int));
            assert(s.take(i + 1).last() == c);
            if i >= 1 {
                assert(s.take(i + 1)[i - 1] == s[i - 1]);
            }
        }
        if c == '/' {
            if open {
                names.push(input.substring_char(start, i).to_owned());
                assert(names_of(names@) =~= was.push(s.subrange(start as int, i as int)));
            }
            open = false;
        } else if open {
            assert(was.push(s.subrange(start as int, i as int)).drop_last() =~= was);
            assert(s.subrange(start as int, i as int).push(c) =~= s.subrange(
                start as int,
                i + 1,
            ));
        } else {
            start = i;
            open = true;
            assert(seq![c] =~= s.subrange(i as int, i + 1));
        }
        i += 1;
    }
    assert(s.take(s.len() as int) =~= s);
    if open {
        let ghost was = names_of(names@);
        names.push(input.substring_char(start, i).to_owned());
        assert(names_of(names@) =~= was.push(s.subrange(start as int, i as int)));
    }
    names
}

impl AbsPath {
    /// The path that `input` names for someone who stands in this directory.
    pub fn resolve(&self, input: &str) -> (path: AbsPath)
        ensures
            path@ == resolved(self@, input@),
    {
        let names = split_names(input);
        if !input.is_empty() && input.get_char(0) == '/' {
            AbsPath { components: names }
        } else {
            self.join_all(&names)
        }
    }

    /// The path that is written as `input`, where `input` starts at the root.
    pub fn parse(input: &str) -> (path: Option<AbsPath>)
        ensures
            path is Some <==> is_absolute(input@),
            path is Some ==> path->0@ == names_in(input@),
    {
        if !input.is_empty() && input.get_char(0) == '/' {
            Some(AbsPath { components: split_names(input) })
        } else {
            None
        }
    }

    /// The path as it is written.
    pub fn render(&self) -> (text: String)
        ensures
            text@ == rendered(self@),
    {
        let mut text = String::new();
        proof {
            reveal_strlit("/");
            assert("/"@ =~= seq!['/']);
        }
        if self.components.len() == 0 {
            text.append("/");
            assert(text@ =~= seq!['/']);
            return text;
        }
        let mut i: usize = 0;
        assert(self@.take(0) =~= Seq::<Seq<char>>::empty());
        while i < self.components.len()
            invariant
                i <= self.components.len(),
                text@ == slashed(self@.take(i as int)),
            decreases self.components.len() - i,
        {
            let ghost was = text@;
            text.append("/");
            text.append(self.components[i].as_str());
            proof {
                reveal_strlit("/");
                assert("/"@ =~= seq!['/']);
                assert(self@.take(i + 1).drop_last() =~= self@.take(i as int));
                assert(self@.take(i + 1).last() == self.components[i as int]@);
                assert(text@ =~= was + seq!['/'] + self.components[i as int]@);
            }
            i += 1;
        }
        assert(self@.take(self.components.len() as int) =~= self@);
        text
    }
}

} // verus!
