//! A flat, in-memory store of byte blobs keyed by small integer identifiers.
//!
//! The store hands out identifiers from a counter, keeps at most one file per
//! identifier and refuses to overwrite a file that was stored read-only. There
//! are no directories and nothing is ever deleted.

use std::collections::HashMap;
use vstd::prelude::*;
use vstd::string::StringExecFns;

verus! {

/// Access flags of a stored file.
#[derive(Debug)]
pub struct VfsFileProperties {
    pub read_only: bool,
}

/// A file descriptor: the bytes, the identifier the store assigned, a display
/// name and the access flags.
#[derive(Debug)]
pub struct File {
    pub contents: Vec<u8>,
    pub identifier: u8,
    pub name: String,
    pub properties: VfsFileProperties,
}

/// The mathematical content of a [`File`].
pub struct FileView {
    pub contents: Seq<u8>,
    pub identifier: u8,
    pub name: Seq<char>,
    pub read_only: bool,
}

impl View for File {
    type V = FileView;

    open spec fn view(&self) -> FileView {
        FileView {
            contents: self.contents@,
            identifier: self.identifier,
            name: self.name@,
            read_only: self.properties.read_only,
        }
    }
}

/// Why a store operation was refused.
#[derive(Clone, Copy, Debug, PartialEq, Eq, Structural)]
pub enum VfsErrorCode {
    /// The identifier already holds a read-only file.
    PermissionDenied,
    /// No file is stored under the identifier.
    NotFound,
}

/// The error returned by the store.
#[derive(Clone, Copy, Debug)]
pub struct VfsError {
    pub code: VfsErrorCode,
}

impl VfsError {
    /// The text shown for this error.
    pub open spec fn text(self) -> Seq<char> {
        match self.code {
            VfsErrorCode::PermissionDenied => "VFS error: File is read-only!"@,
            VfsErrorCode::NotFound => "VFS error: File does not exist!"@,
        }
    }

    /// Renders the error for display.
    pub fn message(&self) -> (s: String)
        ensures
            s@ == self.text(),
    {
        match self.code {
            VfsErrorCode::PermissionDenied => String::from_str("VFS error: File is read-only!"),
            VfsErrorCode::NotFound => String::from_str("VFS error: File does not exist!"),
        }
    }
}

/// The store: identifier to file, plus the counter identifiers are drawn from.
pub struct VFS {
    files: HashMap<u8, File>,
    ct: u8,
}

/// The mathematical content of a [`VFS`].
pub struct VfsView {
    /// What is stored under each identifier.
    pub files: Map<u8, FileView>,
    /// The identifier most recently handed out by `create_file`.
    pub issued: u8,
}

impl View for VFS {
    type V = VfsView;

    open spec fn view(&self) -> VfsView {
        VfsView { files: self.entries().map_values(|f: File| f@), issued: self.issued() }
    }
}

impl VFS {
    /// The stored files, by identifier.
    pub closed spec fn entries(&self) -> Map<u8, File> {
        self.files@
    }

    /// The identifier most recently handed out.
    pub closed spec fn issued(&self) -> u8 {
        self.ct
    }

    /// Whether `identifier` holds a file that may not be overwritten.
    pub open spec fn is_locked(&self, identifier: u8) -> bool {
        self.entries().contains_key(identifier)
            && self.entries()[identifier].properties.read_only
    }

    /// Whether every stored identifier is one the counter has passed, so that
    /// the identifiers still to be drawn are all free.
    pub open spec fn all_issued(&self) -> bool {
        forall|k: u8| self.entries().contains_key(k) ==> k <= self.issued()
    }

    /// Adopts an existing table of files. The counter starts at the largest
    /// identifier in the table, or at zero for an empty table, so that no
    /// identifier drawn later is one the table holds.
    pub fn create_with_files(files: HashMap<u8, File>) -> (vfs: Self)
        ensures
            vfs.entries() == files@,
            forall|k: u8| files@.contains_key(k) ==> k <= vfs.issued(),
            vfs.issued() == 0 || files@.contains_key(vfs.issued()),
            vfs.all_issued(),
    {
        let mut ct: u8 = 0;
        let mut k: u8 = 0;
        while k < u8::MAX
            invariant
                ct <= k,
                ct == 0 || files@.contains_key(ct),
                forall|j: u8| j <= k && files@.contains_key(j) ==> j <= ct,
            decreases u8::MAX - k,
        {
            k += 1;
            if files.contains_key(&k) {
                ct = k;
            }
        }
        Self { ct, files }
    }

    /// An empty store whose counter is zero.
    pub fn create_empty() -> (vfs: Self)
        ensures
            vfs.entries() == Map::<u8, File>::empty(),
            vfs.issued() == 0,
            vfs.all_issued(),
    {
        Self { files: HashMap::new(), ct: 0 }
    }

    /// Draws the next identifier and returns a descriptor carrying it. The
    /// descriptor is not stored; pass it to `write_file` for that. The
    /// identifier is greater than every one drawn before, and it is free as
    /// long as nothing was stored under an identifier not yet drawn.
    pub fn create_file(&mut self, contents: Vec<u8>, name: String, read_only: bool) -> (file: File)
        requires
            old(self).issued() < u8::MAX,
        ensures
            file.identifier == old(self).issued() + 1,
            file.contents == contents,
            file.name == name,
            file.properties.read_only == read_only,
            final(self).issued() == file.identifier,
            final(self).entries() == old(self).entries(),
            old(self).all_issued() ==> final(self).all_issued(),
            old(self).all_issued() ==> !final(self).entries().contains_key(file.identifier),
    {
        self.ct += 1;
        File { contents, identifier: self.ct, name, properties: VfsFileProperties { read_only } }
    }

    /// Stores `file` under its identifier, replacing what was there, unless the
    /// identifier already holds a read-only file.
    pub fn write_file(&mut self, file: File) -> (r: Result<(), VfsError>)
        ensures
            r is Err <==> old(self).is_locked(file.identifier),
            r matches Err(e) ==> e.code == VfsErrorCode::PermissionDenied
                && final(self).entries() == old(self).entries(),
            r is Ok ==> final(self).entries() == old(self).entries().insert(file.identifier, file),
            final(self).issued() == old(self).issued(),
            old(self).all_issued() && file.identifier <= old(self).issued()
                ==> final(self).all_issued(),
    {
        if let Some(f) = self.files.get(&file.identifier) {
            if f.properties.read_only {
                return Err(VfsError { code: VfsErrorCode::PermissionDenied });
            }
        }
        self.files.insert(file.identifier, file);
        assert forall|k: u8| self.entries().contains_key(k) implies k == file.identifier
            || old(self).entries().contains_key(k) by {}
        Ok(())
    }

    /// Looks up the file stored under `identifier`.
    pub fn read_file(&self, identifier: u8) -> (r: Result<&File, VfsError>)
        ensures
            r is Ok <==> self.entries().contains_key(identifier),
            r matches Ok(f) ==> *f == self.entries()[identifier],
            r matches Err(e) ==> e.code == VfsErrorCode::NotFound,
    {
        if let Some(f) = self.files.get(&identifier) {
            return Ok(f);
        }
        Err(VfsError { code: VfsErrorCode::NotFound })
    }

    /// The whole table, for inspection.
    pub fn dmp(&self) -> (files: &HashMap<u8, File>)
        ensures
            files@ == self.entries(),
    {
        &self.files
    }

    /// The identifier most recently handed out (zero before the first).
    pub fn last_identifier(&self) -> (id: u8)
        ensures
            id == self.issued(),
    {
        self.ct
    }
}

} // verus!
