use vstd::prelude::*;

use crate::entry::{file_length_spec, DirentInfo, UdfDirType};
use crate::error::UdfError;
use crate::reader::UdfFile;

verus! {

/// What a stat of an entry reports.
#[derive(Debug, Clone, Copy, PartialEq, Eq, Structural)]
pub struct Metadata {
    pub file_type: UdfDirType,
    /// The length in bytes; `0` for a directory.
    pub len: u64,
}

/// The outcome of a path lookup: the entry, or `FileNotFound`.
pub fn resolve<T>(found: Option<T>) -> (r: Result<T, UdfError>)
    ensures
        found is None ==> r == Err::<T, UdfError>(UdfError::FileNotFound),
        found is Some ==> r == Ok::<T, UdfError>(found->0),
{
    match found {
        Some(e) => Ok(e),
        None => Err(UdfError::FileNotFound),
    }
}

/// What `metadata` reports for an entry.
pub open spec fn metadata_spec(e: DirentInfo) -> Result<Metadata, UdfError> {
    if e.spec_is_dir() {
        Ok(Metadata { file_type: UdfDirType::Directory, len: 0 })
    } else {
        match file_length_spec(e.spec_raw_length()) {
            Some(l) => Ok(Metadata { file_type: UdfDirType::File, len: l as u64 }),
            None => Err(UdfError::UnknownLength),
        }
    }
}

/// The metadata of the entry a path lookup found.
pub fn metadata(found: Option<DirentInfo>) -> (r: Result<Metadata, UdfError>)
    ensures
        found is None ==> r == Err::<Metadata, UdfError>(UdfError::FileNotFound),
        found is Some ==> r == metadata_spec(found->0),
{
    let e = resolve(found)?;
    if e.is_dir() {
        Ok(Metadata { file_type: UdfDirType::Directory, len: 0 })
    } else {
        match e.file_length() {
            Some(l) => Ok(Metadata { file_type: UdfDirType::File, len: l as u64 }),
            None => Err(UdfError::UnknownLength),
        }
    }
}

/// A reader over the entry a path lookup found, which must be a regular
/// file of known length.
pub fn open_file(found: Option<DirentInfo>) -> (r: Result<UdfFile, UdfError>)
    ensures
        found is None ==> r is Err && r->Err_0 == UdfError::FileNotFound,
        found is Some && found->0.spec_is_dir() ==> r is Err && r->Err_0 == UdfError::NotAFile,
        found is Some && !found->0.spec_is_dir() ==> match file_length_spec(found->0.spec_raw_length()) {
            Some(l) => r is Ok && r->Ok_0.wf() && r->Ok_0.len() == l && r->Ok_0.position() == 0
                && r->Ok_0.content() == Seq::<u8>::empty(),
            None => r is Err && r->Err_0 == UdfError::UnknownLength,
        },
{
    let e = match found {
        Some(e) => e,
        None => return Err(UdfError::FileNotFound),
    };
    if e.is_dir() {
        return Err(UdfError::NotAFile);
    }
    match e.file_length() {
        Some(l) => Ok(UdfFile::new(l)),
        None => Err(UdfError::UnknownLength),
    }
}

/// Directories cannot be created on a read-only medium.
pub fn create_dir(path: &str) -> (r: Result<(), UdfError>)
    ensures
        r == Err::<(), UdfError>(UdfError::NotSupported),
{
    Err(UdfError::NotSupported)
}

/// Files cannot be created on a read-only medium.
pub fn create_file(path: &str) -> (r: Result<(), UdfError>)
    ensures
        r == Err::<(), UdfError>(UdfError::NotSupported),
{
    Err(UdfError::NotSupported)
}

/// Files cannot be appended to on a read-only medium.
pub fn append_file(path: &str) -> (r: Result<(), UdfError>)
    ensures
        r == Err::<(), UdfError>(UdfError::NotSupported),
{
    Err(UdfError::NotSupported)
}

/// Files cannot be removed from a read-only medium.
pub fn remove_file(path: &str) -> (r: Result<(), UdfError>)
    ensures
        r == Err::<(), UdfError>(UdfError::NotSupported),
{
    Err(UdfError::NotSupported)
}

/// Directories cannot be removed from a read-only medium.
pub fn remove_dir(path: &str) -> (r: Result<(), UdfError>)
    ensures
        r == Err::<(), UdfError>(UdfError::NotSupported),
{
    Err(UdfError::NotSupported)
}

/// The names of a listing's entries, in listing order: every entry that has a
/// name contributes it once, and entries with no name contribute nothing.
pub open spec fn named(entries: Seq<Option<Vec<u8>>>) -> Seq<Vec<u8>>
    decreases entries.len(),
{
    if entries.len() == 0 {
        Seq::empty()
    } else {
        let before = named(entries.drop_last());
        match entries.last() {
            Some(n) => before.push(n),
            None => before,
        }
    }
}

/// The names of a directory's entries, gathered as its listing is walked
/// from the first child through each next sibling.
pub struct DirListing {
    names: Vec<Vec<u8>>,
}

impl DirListing {
    pub closed spec fn spec_names(&self) -> Seq<Vec<u8>> {
        self.names@
    }

    pub fn new() -> (r: DirListing)
        ensures
            r.spec_names() == Seq::<Vec<u8>>::empty(),
    {
        DirListing { names: Vec::new() }
    }

    /// Records the next entry of the listing; one with no name is skipped,
    /// as no path can reach it.
    pub fn push_entry(&mut self, name: Option<Vec<u8>>)
        ensures
            name is Some ==> final(self).spec_names() == old(self).spec_names().push(name->0),
            name is None ==> final(self).spec_names() == old(self).spec_names(),
    {
        if let Some(n) = name {
            self.names.push(n);
        }
    }

    /// The names in listing order.
    pub fn into_names(self) -> (r: Vec<Vec<u8>>)
        ensures
            r@ == self.spec_names(),
    {
        self.names
    }

    /// Records a run of entries of the listing, in the order given.
    pub fn push_entries(&mut self, entries: Vec<Option<Vec<u8>>>)
        ensures
            final(self).spec_names() == old(self).spec_names() + named(entries@),
    {
        let n = entries.len();
        let ghost all = entries@;
        let ghost start = self.names@;
        let mut rest = entries;
        let mut k: usize = 0;
        while rest.len() > 0
            invariant
                k <= all.len(),
                n == all.len(),
                rest@ == all.skip(k as int),
                self.names@ == start + named(all.take(k as int)),
            decreases rest@.len(),
        {
            let e = rest.remove(0);
            proof {
                assert(all.take(k + 1).drop_last() =~= all.take(k as int));
                assert(all.take(k + 1).last() == all[k as int]);
                assert(e == all[k as int]);
            }
            self.push_entry(e);
            proof {
                assert(rest@ =~= all.skip(k + 1));
                assert(self.names@ =~= start + named(all.take(k + 1)));
            }
            k = k + 1;
        }
        proof {
            assert(all.take(k as int) =~= all);
        }
    }
}

} // verus!

verus! {

/// The names of a whole directory listing, given its entries in the order the
/// walk from the first child through each next sibling met them.
pub fn list_names(entries: Vec<Option<Vec<u8>>>) -> (r: Vec<Vec<u8>>)
    ensures
        r@ == named(entries@),
{
    let mut listing = DirListing::new();
    listing.push_entries(entries);
    proof {
        assert(Seq::<Vec<u8>>::empty() + named(entries@) =~= named(entries@));
    }
    listing.into_names()
}

} // verus!
