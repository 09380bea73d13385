//! Paths as text, compared by what they name.
//!
//! A path is read lexically, with `/` as its separator: repeated separators,
//! a separator at the end and components that are a single dot do not change
//! what it names. Nothing here asks the file system, so `..` and links are
//! left as they stand.

use vstd::prelude::*;
use vstd::string::*;

verus! {

/// What reading a path from the left has gathered.
pub ghost struct Scan {
    /// The components that are closed, each behind a separator.
    pub spine: Seq<char>,
    /// The component that is still open.
    pub open: Seq<char>,
}

/// `spine` with the component `open` closed onto it, unless that component
/// is empty or a single dot.
pub open spec fn closed(spine: Seq<char>, open: Seq<char>) -> Seq<char> {
    if open.len() == 0 || (open.len() == 1 && open[0] == '.') {
        spine
    } else {
        spine + seq!['/'] + open
    }
}

/// The scan of `path`: a separator closes the open component, any other
/// character extends it.
pub open spec fn scan(path: Seq<char>) -> Scan
    decreases path.len(),
{
    if path.len() == 0 {
        Scan { spine: Seq::empty(), open: Seq::empty() }
    } else {
        let before = scan(path.drop_last());
        if path.last() == '/' {
            Scan { spine: closed(before.spine, before.open), open: Seq::empty() }
        } else {
            Scan { spine: before.spine, open: before.open.push(path.last()) }
        }
    }
}

/// Whether `path` starts at the root.
pub open spec fn is_absolute(path: Seq<char>) -> bool {
    path.len() > 0 && path[0] == '/'
}

/// The normal form of `path`: `/` and its components for a path from the
/// root, `.` and its components for any other, each component behind one
/// separator.
pub open spec fn normalized(path: Seq<char>) -> Seq<char> {
    let spine = closed(scan(path).spine, scan(path).open);
    if !is_absolute(path) {
        seq!['.'] + spine
    } else if spine.len() == 0 {
        seq!['/']
    } else {
        spine
    }
}

/// Whether two paths name the same place, as far as their text tells.
pub open spec fn same_path(a: Seq<char>, b: Seq<char>) -> bool {
    normalized(a) == normalized(b)
}

/// Whether `path` ends in the name of a file: it is not empty and does not
/// end in a separator.
pub open spec fn names_a_file(path: Seq<char>) -> bool {
    path.len() > 0 && path.last() != '/'
}

/// Closes the open component onto the spine.
fn close(spine: &mut Vec<char>, open: &mut Vec<char>)
    ensures
        final(spine)@ == closed(old(spine)@, old(open)@),
        final(open)@ == Seq::<char>::empty(),
{
    if open.len() == 0 || (open.len() == 1 && open[0] == '.') {
        open.clear();
    } else {
        spine.push('/');
        spine.append(open);
    }
}

/// The normal form of `path`.
pub fn normalize(path: &str) -> (out: Vec<char>)
    ensures
        out@ == normalized(path@),
{
    let len: usize = path.unicode_len();
    let mut spine: Vec<char> = Vec::new();
    let mut open: Vec<char> = Vec::new();
    let mut absolute = false;
    let mut i: usize = 0;
    while i < len
        invariant
            i <= len,
            len == path@.len(),
            spine@ == scan(path@.take(i as int)).spine,
            open@ == scan(path@.take(i as int)).open,
            absolute == (i > 0 && path@[0] == '/'),
        decreases len - i,
    {
        let c = path.get_char(i);
        proof {
            assert(path@.take(i + 1).drop_last() =~= path@.take(i as int));
        }
        if i == 0 && c == '/' {
            absolute = true;
        }
        if c == '/' {
            close(&mut spine, &mut open);
        } else {
            open.push(c);
        }
        i = i + 1;
    }
    proof {
        assert(path@.take(len as int) =~= path@);
    }
    close(&mut spine, &mut open);
    if !absolute {
        let mut out: Vec<char> = Vec::new();
        out.push('.');
        out.append(&mut spine);
        assert(out@ =~= normalized(path@));
        out
    } else if spine.len() == 0 {
        let mut out: Vec<char> = Vec::new();
        out.push('/');
        assert(out@ =~= normalized(path@));
        out
    } else {
        spine
    }
}

/// Whether two texts are the same, character by character.
fn same_text(a: &Vec<char>, b: &Vec<char>) -> (same: bool)
    ensures
        same == (a@ == b@),
{
    if a.len() != b.len() {
        return false;
    }
    let mut i: usize = 0;
    while i < a.len()
        invariant
            i <= a.len(),
            a.len() == b.len(),
            a@.take(i as int) == b@.take(i as int),
        decreases a.len() - i,
    {
        if a[i] != b[i] {
            return false;
        }
        assert(a@.take(i + 1) =~= a@.take(i as int).push(a@[i as int]));
        assert(b@.take(i + 1) =~= b@.take(i as int).push(b@[i as int]));
        i = i + 1;
    }
    assert(a@ =~= a@.take(a.len() as int));
    assert(b@ =~= b@.take(b.len() as int));
    true
}

/// Whether two paths name the same place, as far as their text tells.
pub fn is_same_path(a: &str, b: &str) -> (same: bool)
    ensures
        same == same_path(a@, b@),
{
    let x = normalize(a);
    let y = normalize(b);
    same_text(&x, &y)
}

/// Whether `path` ends in the name of a file.
pub fn ends_in_file_name(path: &str) -> (named: bool)
    ensures
        named == names_a_file(path@),
{
    let len: usize = path.unicode_len();
    len > 0 && path.get_char(len - 1) != '/'
}

/// A path is the same as itself, and sameness goes both ways and carries
/// over: it is an equivalence. Paths that are the same text are the same
/// path, so paths that are not the same path differ as text.
pub proof fn lemma_same_path_equivalence(a: Seq<char>, b: Seq<char>, c: Seq<char>)
    ensures
        same_path(a, a),
        same_path(a, b) ==> same_path(b, a),
        same_path(a, b) && same_path(b, c) ==> same_path(a, c),
        !same_path(a, b) ==> a != b,
{
}

} // verus!
