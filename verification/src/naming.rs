//! The naming convention: a compressed file carries the suffix `.gz`.
//!
//! The convention is textual. A path is the sequence of its characters;
//! nothing here looks at the file system or at what a file holds.

use crate::error::{ErrorView, TransferError};
use crate::path::{is_same_path, same_path};
use vstd::prelude::*;
use vstd::string::*;

verus! {

/// The suffix that marks a compressed file: `.gz`.
pub open spec fn marker() -> Seq<char> {
    seq!['.', 'g', 'z']
}

/// Whether `name` ends in the marker.
pub open spec fn has_marker(name: Seq<char>) -> bool {
    name.len() >= 3 && name.subrange(name.len() - 3, name.len() as int) == marker()
}

/// `name` with the marker appended.
pub open spec fn with_marker(name: Seq<char>) -> Seq<char> {
    name + marker()
}

/// `name` without its last three characters, which is `name` without the
/// marker where it has one.
pub open spec fn without_marker(name: Seq<char>) -> Seq<char> {
    name.subrange(0, name.len() - 3)
}

/// The output path of a compression for which none was given: the whole
/// input path, extension included, followed by `.gz`.
pub fn default_out_compress(input: &str) -> (out: String)
    ensures
        out@ == with_marker(input@),
{
    proof {
        reveal_strlit(".gz");
    }
    let out = String::from_str(input).concat(".gz");
    assert(out@ =~= with_marker(input@));
    out
}

/// The output path of a decompression for which none was given: the input
/// path without its trailing `.gz`. An input that does not end in `.gz` is
/// refused; one that is nothing but `.gz` gives the empty path.
pub fn default_out_decompress(input: &str) -> (r: Result<String, TransferError>)
    ensures
        match r {
            Ok(out) => has_marker(input@) && out@ == without_marker(input@),
            Err(e) => !has_marker(input@) && e@ == (ErrorView::InvalidInput { path: input@ }),
        },
{
    let len: usize = input.unicode_len();
    if len >= 3 && input.get_char(len - 3) == '.' && input.get_char(len - 2) == 'g'
        && input.get_char(len - 1) == 'z' {
        assert(input@.subrange(len - 3, len as int) =~= marker());
        Ok(String::from_str(input.substring_char(0, len - 3)))
    } else {
        assert(has_marker(input@) ==> {
            let end = input@.subrange(len - 3, len as int);
            end[0] == '.' && end[1] == 'g' && end[2] == 'z'
        });
        Err(TransferError::InvalidInput { path: String::from_str(input) })
    }
}

/// Refuses a transfer whose output would be its own input. Two paths are the
/// same when their normal forms are: repeated separators, a separator at the
/// end and components that are a single dot make no difference.
pub fn validate_distinct(input: &str, output: &str) -> (r: Result<(), TransferError>)
    ensures
        match r {
            Ok(_) => !same_path(input@, output@),
            Err(e) => same_path(input@, output@) && e@ == (ErrorView::SamePath { path: input@ }),
        },
{
    if is_same_path(input, output) {
        Err(TransferError::SamePath { path: String::from_str(input) })
    } else {
        Ok(())
    }
}

/// Appending the marker and removing it again gives back the name, whatever
/// the name: the derived compressed name always carries the marker, and the
/// derived decompressed name of that is the name one began with.
pub proof fn lemma_marker_round_trip(name: Seq<char>)
    ensures
        has_marker(with_marker(name)),
        without_marker(with_marker(name)) == name,
{
    let full = with_marker(name);
    assert(full.subrange(full.len() - 3, full.len() as int) =~= marker());
    assert(full.subrange(0, full.len() - 3) =~= name);
}

/// Removing the marker from a name that has it and appending it again gives
/// back the name.
pub proof fn lemma_marker_restored(name: Seq<char>)
    requires
        has_marker(name),
    ensures
        with_marker(without_marker(name)) == name,
{
    assert(with_marker(without_marker(name)) =~= name.subrange(0, name.len() - 3)
        + name.subrange(name.len() - 3, name.len() as int));
    assert(name.subrange(0, name.len() - 3) + name.subrange(name.len() - 3, name.len() as int)
        =~= name);
}

/// The derived compressed name depends on the input alone, and tells inputs
/// apart: equal inputs give equal names, and equal names come from equal
/// inputs.
pub proof fn lemma_compressed_name_determined(a: Seq<char>, b: Seq<char>)
    ensures
        a == b <==> with_marker(a) == with_marker(b),
{
    lemma_marker_round_trip(a);
    lemma_marker_round_trip(b);
}

} // verus!
