//! File-backed storage: one file per item in a directory, each named after
//! its key and an optional extension.
//!
//! This type keeps what the directory holds; the caller reads the directory
//! once at creation, writes or removes the file named by `file_name_for`
//! before it updates an item here, and hands the results over.
use vstd::prelude::*;

use crate::storage::{MemoryStorage, SecureStorage};
use crate::text::{char_count, char_prefix, has_suffix};
use crate::types::SeetleError;

verus! {

/// An entry read from the storage directory.
#[derive(Debug, Clone)]
pub struct StoredFile {
    /// The file's name, or `None` when it is not valid Unicode.
    pub name: Option<String>,
    /// Whether the entry is a regular file.
    pub is_file: bool,
    /// The file's contents (empty for other entries).
    pub data: Vec<u8>,
}

/// An optional string by its characters.
pub open spec fn opt_text(o: Option<String>) -> Option<Seq<char>> {
    match o {
        Some(s) => Some(s@),
        None => None,
    }
}

/// The item key a file of this name holds, if any: the name without the
/// extension, and no key for a name that lacks the extension.
pub open spec fn key_for_file(name: Seq<char>, ext: Option<Seq<char>>) -> Option<Seq<char>> {
    match ext {
        None => Some(name),
        Some(e) => if e.len() <= name.len() && name.skip(name.len() - e.len()) == e {
            Some(name.take(name.len() - e.len()))
        } else {
            None
        },
    }
}

/// The name of the file that holds the item `key`.
pub open spec fn file_name(key: Seq<char>, ext: Option<Seq<char>>) -> Seq<char> {
    match ext {
        None => key,
        Some(e) => key + e,
    }
}

/// The items a directory listing yields, later entries replacing earlier
/// ones of the same key.
pub open spec fn listing_items(files: Seq<StoredFile>, ext: Option<Seq<char>>) -> Map<
    Seq<char>,
    Seq<u8>,
>
    decreases files.len(),
{
    if files.len() == 0 {
        Map::empty()
    } else {
        let prev = listing_items(files.drop_last(), ext);
        let f = files.last();
        if f.is_file && f.name is Some {
            match key_for_file(f.name->0@, ext) {
                Some(k) => prev.insert(k, f.data@),
                None => prev,
            }
        } else {
            prev
        }
    }
}

/// Some regular file of the listing has a name that is not valid Unicode.
pub open spec fn has_unreadable_name(files: Seq<StoredFile>) -> bool {
    exists|i: int| 0 <= i < files.len() && #[trigger] files[i].is_file && files[i].name is None
}

/// A simple file-based persistent storage for metadata.
pub struct FileStorage {
    path: String,
    extension: Option<String>,
    cache: MemoryStorage,
}

impl FileStorage {
    /// The directory the files live in.
    pub closed spec fn dir(&self) -> Seq<char> {
        self.path@
    }

    /// The extension every file name carries.
    pub closed spec fn ext(&self) -> Option<Seq<char>> {
        opt_text(self.extension)
    }

    /// Opens the storage over a directory whose files carry no extension.
    pub fn new(path: &str, files: Vec<StoredFile>) -> (r: Result<Self, SeetleError>)
        ensures
            r is Err <==> has_unreadable_name(files@),
            r is Err ==> r matches Err(SeetleError::DataError),
            r matches Ok(s) ==> s.wf() && s.dir() == path@ && s.ext() is None && s.items()
                == listing_items(files@, None),
    {
        Self::new_with_extension(path, None, files)
    }

    /// Opens the storage over a directory, keeping the regular files whose
    /// names end with `extension`, each under its name without it.
    pub fn new_with_extension(path: &str, extension: Option<String>, files: Vec<StoredFile>) -> (r:
        Result<Self, SeetleError>)
        ensures
            r is Err <==> has_unreadable_name(files@),
            r is Err ==> r matches Err(SeetleError::DataError),
            r matches Ok(s) ==> s.wf() && s.dir() == path@ && s.ext() == opt_text(extension)
                && s.items() == listing_items(files@, opt_text(extension)),
    {
        let mut cache = MemoryStorage::new();
        let ghost ext = opt_text(extension);
        let mut i: usize = 0;
        while i < files.len()
            invariant
                i <= files@.len(),
                ext == opt_text(extension),
                cache.wf(),
                cache.items() == listing_items(files@.take(i as int), ext),
                !has_unreadable_name(files@.take(i as int)),
            decreases files@.len() - i,
        {
            let f = &files[i];
            proof {
                assert(files@.take(i + 1).drop_last() =~= files@.take(i as int));
                assert(files@.take(i + 1).last() == files@[i as int]);
            }
            if f.is_file {
                let name = match &f.name {
                    Some(n) => n,
                    None => {
                        assert(has_unreadable_name(files@));
                        return Err(SeetleError::DataError);
                    },
                };
                let key = Self::key_of(name.as_str(), &extension);
                match key {
                    Some(k) => {
                        let data = f.data.clone();
                        assert(data@ =~= f.data@);
                        let _ = cache.set_item(k.as_str(), data);
                    },
                    None => {},
                }
            }
            i = i + 1;
            proof {
                assert forall|j: int| 0 <= j < i implies !(#[trigger] files@.take(i as int)[j].is_file
                    && files@.take(i as int)[j].name is None) by {
                    if j < i - 1 {
                        assert(files@.take(i as int)[j] == files@.take(i - 1)[j]);
                    }
                }
            }
        }
        proof {
            assert(files@.take(i as int) =~= files@);
        }
        Ok(FileStorage { path: String::from_str(path), extension, cache })
    }

    /// The key a file named `name` holds, if any.
    fn key_of(name: &str, extension: &Option<String>) -> (r: Option<String>)
        ensures
            opt_text(r) == key_for_file(name@, opt_text(*extension)),
    {
        match extension {
            None => Some(String::from_str(name)),
            Some(e) => {
                if has_suffix(name, e.as_str()) {
                    let n = char_count(name) - char_count(e.as_str());
                    Some(char_prefix(name, n))
                } else {
                    None
                }
            },
        }
    }

    /// The directory the files live in.
    pub fn path(&self) -> (p: &str)
        ensures
            p@ == self.dir(),
    {
        self.path.as_str()
    }

    /// The name of the file that holds the item `key`.
    pub fn file_name_for(&self, key: &str) -> (name: String)
        ensures
            name@ == file_name(key@, self.ext()),
    {
        let mut name = String::from_str(key);
        match &self.extension {
            Some(e) => {
                name.append(e.as_str());
            },
            None => {},
        }
        name
    }
}

impl SecureStorage for FileStorage {
    open spec fn wf(&self) -> bool {
        self.cache_wf()
    }

    open spec fn items(&self) -> Map<Seq<char>, Seq<u8>> {
        self.contents()
    }

    open spec fn available(&self) -> bool {
        true
    }

    fn get_item(&self, key: &str) -> (r: Result<Option<Vec<u8>>, SeetleError>)
        ensures
            r is Ok,
    {
        self.cache.get_item(key)
    }

    fn set_item(&mut self, key: &str, value: Vec<u8>) -> (r: Result<(), SeetleError>)
        ensures
            r is Ok,
            final(self).dir() == old(self).dir(),
            final(self).ext() == old(self).ext(),
    {
        self.cache.set_item(key, value)
    }

    fn remove_item(&mut self, key: &str) -> (r: Result<(), SeetleError>)
        ensures
            r is Ok,
            final(self).dir() == old(self).dir(),
            final(self).ext() == old(self).ext(),
    {
        self.cache.remove_item(key)
    }

    fn list_items(&self) -> (r: Result<Vec<String>, SeetleError>)
        ensures
            r is Ok,
    {
        self.cache.list_items()
    }
}

impl FileStorage {
    /// The cache is well formed.
    pub closed spec fn cache_wf(&self) -> bool {
        self.cache.wf()
    }

    /// What the files hold, by key.
    pub closed spec fn contents(&self) -> Map<Seq<char>, Seq<u8>> {
        self.cache.items()
    }
}

/// The file written for an item is read back as that item.
pub proof fn law_file_name_roundtrip(key: Seq<char>, ext: Option<Seq<char>>)
    ensures
        key_for_file(file_name(key, ext), ext) == Some(key),
{
    match ext {
        None => {},
        Some(e) => {
            let n = key + e;
            assert(n.skip(n.len() - e.len()) =~= e);
            assert(n.take(n.len() - e.len()) =~= key);
        },
    }
}

/// No two entries of the listing share a name.
pub open spec fn names_distinct(files: Seq<StoredFile>) -> bool {
    forall|i: int, j: int|
        0 <= i < files.len() && 0 <= j < files.len() && i != j && files[i].name is Some
            && files[j].name is Some ==> #[trigger] files[i].name->0@ != #[trigger] files[j].name->0@
}

proof fn lemma_key_for_file_names(name: Seq<char>, ext: Option<Seq<char>>, key: Seq<char>)
    requires
        key_for_file(name, ext) == Some(key),
    ensures
        name == file_name(key, ext),
{
    match ext {
        None => {},
        Some(e) => {
            assert(name =~= name.take(name.len() - e.len()) + name.skip(name.len() - e.len()));
        },
    }
}

/// A regular file written for `key` in a directory is read back as that
/// key's value when the storage is opened over the directory again: in a
/// listing whose names are all different, the entry named after `key`
/// gives the item stored under `key`.
pub proof fn law_written_file_read_back(
    files: Seq<StoredFile>,
    ext: Option<Seq<char>>,
    key: Seq<char>,
    value: Seq<u8>,
    i: int,
)
    requires
        0 <= i < files.len(),
        files[i].is_file,
        files[i].name matches Some(n) && n@ == file_name(key, ext),
        files[i].data@ == value,
        names_distinct(files),
    ensures
        crate::storage::lookup(listing_items(files, ext), key) == Some(value),
    decreases files.len(),
{
    law_file_name_roundtrip(key, ext);
    let last = files.len() - 1;
    if i == last {
        assert(files.last() == files[i]);
    } else {
        let rest = files.drop_last();
        assert(names_distinct(rest)) by {
            assert forall|a: int, b: int|
                0 <= a < rest.len() && 0 <= b < rest.len() && a != b && rest[a].name is Some
                    && rest[b].name is Some implies #[trigger] rest[a].name->0@
                != #[trigger] rest[b].name->0@ by {
                assert(rest[a] == files[a] && rest[b] == files[b]);
            }
        }
        assert(rest[i] == files[i]);
        law_written_file_read_back(rest, ext, key, value, i);
        let f = files.last();
        assert(f == files[last]);
        if f.is_file && f.name is Some {
            match key_for_file(f.name->0@, ext) {
                Some(k) => {
                    if k == key {
                        lemma_key_for_file_names(f.name->0@, ext, key);
                        assert(files[last].name->0@ == files[i].name->0@);
                        assert(false);
                    }
                },
                None => {},
            }
        }
    }
}

} // verus!
