//! The order in which the entries of a directory are shown: directories
//! first, then by name without regard to case.

use std::cmp::Ordering;
use vstd::prelude::*;
use crate::error::ShellError;
use crate::fs::{DirectoryContents, FileInfo, FileSystem};
use crate::security::access_denied;
use crate::text::{lowercase, to_lowercase};

verus! {

/// How two texts stand to each other: the first pair of characters that
/// differ decides, and a text goes before every text it is the beginning of.
pub open spec fn text_ordering(a: Seq<char>, b: Seq<char>) -> Ordering
    decreases a.len(),
{
    if a.len() == 0 {
        if b.len() == 0 {
            Ordering::Equal
        } else {
            Ordering::Less
        }
    } else if b.len() == 0 {
        Ordering::Greater
    } else if a[0] == b[0] {
        text_ordering(a.drop_first(), b.drop_first())
    } else if a[0] < b[0] {
        Ordering::Less
    } else {
        Ordering::Greater
    }
}

/// `Ord::cmp` on string slices: the order of the two texts by their bytes,
/// which is their order character by character.
#[verifier::external_body]
pub(crate) fn compare_text(a: &str, b: &str) -> (order: Ordering)
    ensures
        order == text_ordering(a@, b@),
{
    a.cmp(b)
}

/// How two entries stand to each other: a directory goes before a file, and
/// two of a kind go by their names in lower case.
pub open spec fn entry_ordering(a: FileInfo, b: FileInfo) -> Ordering {
    if a.is_directory && !b.is_directory {
        Ordering::Less
    } else if !a.is_directory && b.is_directory {
        Ordering::Greater
    } else {
        text_ordering(lowercase(a.name@), lowercase(b.name@))
    }
}

/// How two entries stand to each other.
pub fn compare_entries(a: &FileInfo, b: &FileInfo) -> (order: Ordering)
    ensures
        order == entry_ordering(*a, *b),
{
    if a.is_directory && !b.is_directory {
        Ordering::Less
    } else if !a.is_directory && b.is_directory {
        Ordering::Greater
    } else {
        let a_lower = to_lowercase(a.name.as_str());
        let b_lower = to_lowercase(b.name.as_str());
        compare_text(a_lower.as_str(), b_lower.as_str())
    }
}

/// The opposite of an order.
pub open spec fn reversed(order: Ordering) -> Ordering {
    match order {
        Ordering::Less => Ordering::Greater,
        Ordering::Equal => Ordering::Equal,
        Ordering::Greater => Ordering::Less,
    }
}

/// Two texts taken the other way round stand in the opposite order.
pub proof fn text_ordering_reverses(a: Seq<char>, b: Seq<char>)
    ensures
        text_ordering(b, a) == reversed(text_ordering(a, b)),
    decreases a.len(),
{
    if a.len() > 0 && b.len() > 0 && a[0] == b[0] {
        text_ordering_reverses(a.drop_first(), b.drop_first());
    }
}

/// Where one text does not come after a second and the second does not come
/// after a third, the first does not come after the third; and it comes
/// before the third where either step is strict.
pub proof fn text_ordering_is_transitive(a: Seq<char>, b: Seq<char>, c: Seq<char>)
    requires
        text_ordering(a, b) != Ordering::Greater,
        text_ordering(b, c) != Ordering::Greater,
    ensures
        text_ordering(a, c) != Ordering::Greater,
        text_ordering(a, b) == Ordering::Less || text_ordering(b, c) == Ordering::Less
            ==> text_ordering(a, c) == Ordering::Less,
    decreases a.len(),
{
    if a.len() > 0 && b.len() > 0 && c.len() > 0 && a[0] == b[0] && b[0] == c[0] {
        text_ordering_is_transitive(a.drop_first(), b.drop_first(), c.drop_first());
    }
}

/// The order of entries is a total one: two entries taken the other way
/// round stand in the opposite order, and the order carries over from one
/// pair to the next. This is what sorting by it takes.
pub proof fn entry_ordering_is_total(a: FileInfo, b: FileInfo, c: FileInfo)
    ensures
        entry_ordering(b, a) == reversed(entry_ordering(a, b)),
        entry_ordering(a, b) != Ordering::Greater && entry_ordering(b, c) != Ordering::Greater
            ==> entry_ordering(a, c) != Ordering::Greater,
{
    text_ordering_reverses(lowercase(a.name@), lowercase(b.name@));
    if entry_ordering(a, b) != Ordering::Greater && entry_ordering(b, c) != Ordering::Greater {
        if a.is_directory == b.is_directory && b.is_directory == c.is_directory {
            text_ordering_is_transitive(
                lowercase(a.name@),
                lowercase(b.name@),
                lowercase(c.name@),
            );
        }
    }
}

/// Whether no entry of the list comes after an entry that follows it.
pub open spec fn in_order(entries: Seq<FileInfo>) -> bool {
    forall|i: int, j: int|
        0 <= i < j < entries.len() ==> entry_ordering(entries[i], entries[j])
            != Ordering::Greater
}

/// `slice::sort_unstable_by` with the order of entries: the same entries,
/// put so that none comes after one that follows it. Entries that stand
/// equal may come out in any order.
#[verifier::external_body]
pub(crate) fn sort_entries(entries: &mut Vec<FileInfo>)
    ensures
        final(entries)@.to_multiset() == old(entries)@.to_multiset(),
        in_order(final(entries)@),
{
    entries.sort_unstable_by(|a, b| compare_entries(a, b));
}

impl FileSystem {
    /// The contents of a directory as they are shown, given what was found
    /// in it: the same entries, directories first, then by name without
    /// regard to case. A directory that may not be touched is refused.
    pub fn list_directory(
        &self,
        path: &str,
        resolved: &str,
        entries: Vec<FileInfo>,
    ) -> (result: Result<DirectoryContents, ShellError>)
        ensures
            self.policy().allows(resolved@) ==> (result matches Ok(contents) && contents.path@
                == path@ && contents.entries@.to_multiset() == entries@.to_multiset() && in_order(
                contents.entries@,
            )),
            !self.policy().allows(resolved@) ==> (result matches Err(ShellError::Security(text))
                && text@ == access_denied(path@)),
    {
        match self.validate(path, resolved) {
            Ok(()) => {},
            Err(error) => {
                return Err(error);
            },
        }
        let mut entries = entries;
        sort_entries(&mut entries);
        Ok(DirectoryContents { path: path.to_owned(), entries })
    }
}

} // verus!
