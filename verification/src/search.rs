//! Searching a side for names that match a pattern.

use crate::browser::Side;
use crate::entry::{entries_view, FileEntry, FileEntryView};
use crate::path::AbsPath;
use crate::watcher::path_views;
use vstd::prelude::*;

verus! {

/// Whether the pattern from its index `i` on matches the text from its index
/// `j` on. A `*` stands for any run of characters, a `?` for any one character,
/// every other character for itself.
pub open spec fn matches_from(pattern: Seq<char>, text: Seq<char>, i: int, j: int) -> bool
    decreases pattern.len() - i, text.len() - j,
{
    if i < 0 || j < 0 {
        false
    } else if i >= pattern.len() {
        j >= text.len()
    } else if pattern[i] == '*' {
        matches_from(pattern, text, i + 1, j) || (j < text.len() && matches_from(
            pattern,
            text,
            i,
            j + 1,
        ))
    } else {
        j < text.len() && (pattern[i] == '?' || pattern[i] == text[j]) && matches_from(
            pattern,
            text,
            i + 1,
            j + 1,
        )
    }
}

/// Whether the pattern matches the whole text.
pub open spec fn glob_matches(pattern: Seq<char>, text: Seq<char>) -> bool {
    matches_from(pattern, text, 0, 0)
}

/// A lone star matches every text, from every place in it.
pub proof fn lemma_star_matches_from(text: Seq<char>, j: int)
    requires
        0 <= j <= text.len(),
    ensures
        matches_from(seq!['*'], text, 0, j),
    decreases text.len() - j,
{
    let star = seq!['*'];
    assert(star.len() == 1 && star[0] == '*');
    if j < text.len() {
        lemma_star_matches_from(text, j + 1);
    } else {
        assert(matches_from(star, text, 1, j));
    }
}

/// A lone star matches every text.
pub proof fn theorem_star_matches_everything(text: Seq<char>)
    ensures
        glob_matches(seq!['*'], text),
{
    lemma_star_matches_from(text, 0);
}

/// A pattern without stars and question marks matches itself and nothing else.
pub proof fn theorem_plain_pattern_matches_itself_only(pattern: Seq<char>, text: Seq<char>, i: int)
    requires
        forall|k: int| 0 <= k < pattern.len() ==> pattern[k] != '*' && pattern[k] != '?',
        0 <= i <= pattern.len(),
        i <= text.len(),
    ensures
        matches_from(pattern, text, i, i) <==> pattern.skip(i) == text.skip(i),
    decreases pattern.len() - i,
{
    if i < pattern.len() {
        if i < text.len() {
            theorem_plain_pattern_matches_itself_only(pattern, text, i + 1);
            if pattern[i] == text[i] {
                if pattern.skip(i + 1) == text.skip(i + 1) {
                    assert(pattern.skip(i) =~= seq![pattern[i]] + pattern.skip(i + 1));
                    assert(text.skip(i) =~= seq![text[i]] + text.skip(i + 1));
                }
                if pattern.skip(i) == text.skip(i) {
                    assert(pattern.skip(i + 1) =~= pattern.skip(i).skip(1));
                    assert(text.skip(i + 1) =~= text.skip(i).skip(1));
                }
            } else {
                assert(pattern.skip(i)[0] != text.skip(i)[0]);
            }
        } else {
            assert(pattern.skip(i).len() != text.skip(i).len());
        }
    } else {
        if i < text.len() {
            assert(pattern.skip(i).len() != text.skip(i).len());
        } else {
            assert(pattern.skip(i) =~= text.skip(i));
        }
    }
}

/// The characters of a string.
fn chars_of(s: &str) -> (chars: Vec<char>)
    ensures
        chars@ == s@,
{
    let mut chars: Vec<char> = Vec::new();
    for c in it: s.chars()
        invariant
            it.seq() == s@,
            chars@ == s@.take(it.index() as int),
    {
        chars.push(c);
        assert(s@.take(it.index() + 1) == s@.take(it.index() as int).push(s@[it.index() as int]));
    }
    assert(s@.take(s@.len() as int) == s@);
    chars
}

/// Whether the pattern matches the whole text.
pub fn glob_match(pattern: &str, text: &str) -> (matched: bool)
    ensures
        matched == glob_matches(pattern@, text@),
{
    let p = chars_of(pattern);
    let t = chars_of(text);
    let n = t.len();
    // `row[j]` tells whether the pattern from `i` on matches the text from `j`
    // on. The pattern is walked from its end, each row from the end of the text.
    let mut row: Vec<bool> = Vec::new();
    let mut j: usize = 0;
    while j < n
        invariant
            j <= n,
            n == t.len(),
            row.len() == j,
            forall|k: int| 0 <= k < j ==> row[k] == matches_from(p@, t@, p.len() as int, k),
        decreases n - j,
    {
        row.push(false);
        j += 1;
    }
    row.push(true);
    let mut i: usize = p.len();
    while i > 0
        invariant
            i <= p.len(),
            n == t.len(),
            row.len() == n + 1,
            forall|k: int| 0 <= k <= n ==> row[k] == matches_from(p@, t@, i as int, k),
        decreases i,
    {
        i -= 1;
        let c = p[i];
        // The value that the row below held one place to the right.
        let mut right_below = row[n];
        if c != '*' {
            row.set(n, false);
        }
        let mut at: usize = n;
        while at > 0
            invariant
                at <= n,
                i < p.len(),
                c == p[i as int],
                n == t.len(),
                row.len() == n + 1,
                forall|k: int| at <= k <= n ==> row[k] == matches_from(p@, t@, i as int, k),
                forall|k: int| 0 <= k < at ==> row[k] == matches_from(p@, t@, i + 1, k),
                right_below == matches_from(p@, t@, i + 1, at as int),
            decreases at,
        {
            at -= 1;
            let below = row[at];
            let here = if c == '*' {
                below || row[at + 1]
            } else {
                (c == '?' || c == t[at]) && right_below
            };
            row.set(at, here);
            right_below = below;
        }
    }
    row[0]
}

/// The entries of a listing whose names match the pattern, in their order.
pub open spec fn matching(entries: Seq<FileEntryView>, pattern: Seq<char>) -> Seq<FileEntryView>
    decreases entries.len(),
{
    if entries.len() == 0 {
        entries
    } else if glob_matches(pattern, entries.last().name) {
        matching(entries.drop_last(), pattern).push(entries.last())
    } else {
        matching(entries.drop_last(), pattern)
    }
}

/// The paths of the directories of a listing, in their order.
pub open spec fn subdirectories(entries: Seq<FileEntryView>) -> Seq<Seq<Seq<char>>>
    decreases entries.len(),
{
    if entries.len() == 0 {
        Seq::empty()
    } else if entries.last().kind is Directory {
        subdirectories(entries.drop_last()).push(entries.last().absolute_path)
    } else {
        subdirectories(entries.drop_last())
    }
}

/// The mathematical value of a [`Search`].
pub struct SearchView {
    pub side: Side,
    pub pattern: Seq<char>,
    /// The directories that are still to be listed; the last is next.
    pub pending: Seq<Seq<Seq<char>>>,
    /// What was found so far.
    pub found: Seq<FileEntryView>,
}

impl SearchView {
    /// The search after the listing of one directory came in: what matches is
    /// found, and the directories in it are to be listed in their turn.
    pub open spec fn fed(self, listing: Seq<FileEntryView>) -> SearchView {
        SearchView {
            pending: self.pending + subdirectories(listing),
            found: self.found + matching(listing, self.pattern),
            ..self
        }
    }

    /// The search after it was asked for the next directory: the last pending
    /// directory is taken; an abort drops all that is pending.
    pub open spec fn advanced(self, aborted: bool) -> SearchView {
        if aborted {
            SearchView { pending: Seq::empty(), ..self }
        } else if self.pending.len() > 0 {
            SearchView { pending: self.pending.drop_last(), ..self }
        } else {
            self
        }
    }
}

/// A search in progress: a walk through a directory and all below it, one
/// listing at a time.
#[derive(Debug)]
pub struct Search {
    side: Side,
    pattern: String,
    pending: Vec<AbsPath>,
    found: Vec<FileEntry>,
}

impl View for Search {
    type V = SearchView;

    closed spec fn view(&self) -> SearchView {
        SearchView {
            side: self.side,
            pattern: self.pattern@,
            pending: path_views(self.pending@),
            found: entries_view(self.found@),
        }
    }
}

impl Search {
    /// A search on `side` for `pattern`, starting in the directory `root`.
    pub fn start(side: Side, pattern: String, root: AbsPath) -> (search: Search)
        ensures
            search@ == (SearchView {
                side,
                pattern: pattern@,
                pending: seq![root@],
                found: Seq::empty(),
            }),
    {
        let mut pending: Vec<AbsPath> = Vec::new();
        pending.push(root);
        let search = Search { side, pattern, pending, found: Vec::new() };
        assert(search@.pending =~= seq![root@]);
        assert(search@.found =~= Seq::<FileEntryView>::empty());
        search
    }

    /// The side that is searched.
    pub fn side(&self) -> (side: Side)
        ensures
            side == self@.side,
    {
        self.side
    }

    /// Whether every directory was listed.
    pub fn is_done(&self) -> (done: bool)
        ensures
            done == (self@.pending.len() == 0),
    {
        self.pending.len() == 0
    }

    /// The directory to list next. None once every directory was listed, and
    /// none after an abort, which ends the walk.
    pub fn next_directory(&mut self, aborted: bool) -> (dir: Option<AbsPath>)
        ensures
            final(self)@ == old(self)@.advanced(aborted),
            dir is Some <==> !aborted && old(self)@.pending.len() > 0,
            dir is Some ==> dir->0@ == old(self)@.pending.last(),
    {
        let ghost before = self@;
        if aborted {
            self.pending.clear();
            assert(self@.pending =~= Seq::<Seq<Seq<char>>>::empty());
            return None;
        }
        let dir = self.pending.pop();
        assert(before.pending.len() > 0 ==> self@.pending =~= before.pending.drop_last());
        dir
    }

    /// Takes in the listing of the directory that was asked for.
    pub fn feed(&mut self, listing: &Vec<FileEntry>)
        ensures
            final(self)@ == old(self)@.fed(entries_view(listing@)),
    {
        let ghost before = self@;
        let ghost all = entries_view(listing@);
        let mut i: usize = 0;
        assert(before.pending + subdirectories(all.take(0)) =~= before.pending);
        assert(before.found + matching(all.take(0), before.pattern) =~= before.found);
        while i < listing.len()
            invariant
                i <= listing.len(),
                all == entries_view(listing@),
                self@.side == before.side,
                self@.pattern == before.pattern,
                self@.pending == before.pending + subdirectories(all.take(i as int)),
                self@.found == before.found + matching(all.take(i as int), before.pattern),
            decreases listing.len() - i,
        {
            let entry = &listing[i];
            proof {
                assert(all.take(i + 1).drop_last() =~= all.take(i as int));
                assert(all.take(i + 1).last() == entry@);
            }
            if glob_match(self.pattern.as_str(), entry.name.as_str()) {
                let ghost was = self@.found;
                self.found.push(entry.clone());
                assert(self@.found =~= was.push(entry@));
            }
            if entry.is_dir() {
                let ghost was = self@.pending;
                self.pending.push(entry.absolute_path.clone());
                assert(self@.pending =~= was.push(entry@.absolute_path));
            }
            assert(self@.pending =~= before.pending + subdirectories(all.take(i + 1)));
            assert(self@.found =~= before.found + matching(all.take(i + 1), before.pattern));
            i += 1;
        }
        assert(all.take(listing.len() as int) =~= all);
    }

    /// Ends the search and hands out what was found.
    pub fn finish(self) -> (found: Vec<FileEntry>)
        ensures
            entries_view(found@) == self@.found,
    {
        self.found
    }
}

} // verus!
