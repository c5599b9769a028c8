//! The process snapshot: the set of executable names running at one instant.

use crate::listing::{entry_name, entry_name_of, listing_names, names_in, split_lines};
use vstd::hash_set::StringHashSet;
use vstd::prelude::*;

verus! {

/// What `String::from_utf8_lossy` makes of `bytes`: the text they encode,
/// with U+FFFD in place of every sequence that is not valid UTF-8.
pub uninterp spec fn lossy_text(bytes: Seq<u8>) -> Seq<char>;

/// `String::from_utf8_lossy` of std, the result made an owned `String`. The
/// result is a function of `bytes` alone; nothing more is claimed of it.
#[verifier::external_body]
fn decode_lossy(bytes: &[u8]) -> (text: String)
    ensures
        text@ == lossy_text(bytes@),
{
    String::from_utf8_lossy(bytes).into_owned()
}

/// The lowercase executable base-names captured at one instant. There is no
/// order among them; a snapshot is filled once and then only asked whether it
/// holds a name.
pub struct ProcessSnapshot {
    names: StringHashSet,
}

impl View for ProcessSnapshot {
    type V = Set<Seq<char>>;

    closed spec fn view(&self) -> Set<Seq<char>> {
        self.names@
    }
}

impl ProcessSnapshot {
    /// The empty snapshot: what a failed or unavailable process query
    /// amounts to.
    pub fn new() -> (snapshot: ProcessSnapshot)
        ensures
            snapshot@ == Set::<Seq<char>>::empty(),
    {
        ProcessSnapshot { names: StringHashSet::new() }
    }

    /// Adds `name` to the snapshot. An empty name is a malformed entry and is
    /// dropped.
    pub fn record(&mut self, name: String)
        ensures
            final(self)@ == if name@.len() > 0 {
                old(self)@.insert(name@)
            } else {
                old(self)@
            },
    {
        if !name.as_str().is_empty() {
            self.names.insert(name);
        }
    }

    /// Whether a process with executable name `name` was running.
    pub fn contains(&self, name: &str) -> (held: bool)
        ensures
            held == self@.contains(name@),
    {
        self.names.contains(name)
    }

    /// Whether no process was captured.
    pub fn is_empty(&self) -> (empty: bool)
        ensures
            empty == self@.is_empty(),
    {
        self.names.is_empty()
    }

    /// The number of distinct names captured.
    pub fn len(&self) -> (count: usize)
        ensures
            count == self@.len(),
    {
        self.names.len()
    }
}

/// One more line adds its name to the names of the lines before it, unless
/// the name is empty.
pub proof fn lemma_names_in_push(lines: Seq<Seq<char>>, line: Seq<char>)
    ensures
        names_in(lines.push(line)) == if entry_name(line).len() > 0 {
            names_in(lines).insert(entry_name(line))
        } else {
            names_in(lines)
        },
{
    let more = lines.push(line);
    let expected = if entry_name(line).len() > 0 {
        names_in(lines).insert(entry_name(line))
    } else {
        names_in(lines)
    };
    assert forall|name: Seq<char>| names_in(more).contains(name) implies expected.contains(
        name,
    ) by {
        let i = choose|i: int| 0 <= i < more.len() && #[trigger] entry_name(more[i]) == name;
        if i < lines.len() {
            assert(more[i] == lines[i]);
        }
    }
    assert forall|name: Seq<char>| expected.contains(name) implies names_in(more).contains(
        name,
    ) by {
        if names_in(lines).contains(name) {
            let i = choose|i: int| 0 <= i < lines.len() && #[trigger] entry_name(lines[i]) == name;
            assert(more[i] == lines[i]);
        } else {
            assert(more[lines.len() as int] == line);
        }
    }
    assert(names_in(more) =~= expected);
}

/// Reads a process listing: every line gives the name of one running
/// process, its image name in lowercase; lines that give no name are passed
/// over.
pub fn parse_listing(text: &str) -> (snapshot: ProcessSnapshot)
    ensures
        snapshot@ == listing_names(text@),
{
    let lines = split_lines(text);
    let mut snapshot = ProcessSnapshot::new();
    let mut i: usize = 0;
    assert(names_in(lines.deep_view().take(0)) =~= Set::<Seq<char>>::empty());
    while i < lines.len()
        invariant
            i <= lines.len(),
            lines.deep_view() == crate::listing::listing_lines(text@),
            snapshot@ == names_in(lines.deep_view().take(i as int)),
        decreases lines.len() - i,
    {
        let name = entry_name_of(lines[i]);
        proof {
            let seen = lines.deep_view().take(i as int);
            assert(lines.deep_view().take(i + 1) == seen.push(lines[i as int]@));
            lemma_names_in_push(seen, lines[i as int]@);
        }
        snapshot.record(name);
        i = i + 1;
    }
    assert(lines.deep_view().take(i as int) == lines.deep_view());
    snapshot
}

/// The names a process query amounts to: those in the listing it printed,
/// read as text, or none at all when the query gave nothing.
pub open spec fn captured_names(output: Option<&[u8]>) -> Set<Seq<char>> {
    match output {
        Some(bytes) => listing_names(lossy_text(bytes@)),
        None => Set::empty(),
    }
}

/// Turns the outcome of the OS process query into a snapshot. `output` is
/// what the listing command printed, or `None` when the query failed or the
/// platform has none; that case gives the empty snapshot, never an error.
pub fn get_processes(output: Option<&[u8]>) -> (snapshot: ProcessSnapshot)
    ensures
        snapshot@ == captured_names(output),
{
    match output {
        Some(bytes) => {
            let text = decode_lossy(bytes);
            parse_listing(text.as_str())
        },
        None => ProcessSnapshot::new(),
    }
}

} // verus!
