//! The capability contract: everything a platform backend must supply
//! so the generic core can run against it without knowing which backend
//! is active.
//!
//! A backend is one type implementing [`Std`]; every other item here is
//! an associated-type bound of that contract. The concrete
//! implementations live outside this crate (they make system calls);
//! what stands here is the interface they must satisfy, with its
//! contracts. The backend asserts one-time process-wide initialization
//! (`init`) before any other operation is valid; after initialization
//! every other function must be safe to call concurrently unless
//! documented otherwise (the mutex's lifecycle rules are its own).

#![allow(non_camel_case_types)]

use vstd::prelude::*;
use crate::io::Error;
use crate::io::ErrorKind;
use crate::io::SeekFrom;
use crate::os_str::OsStr;
use crate::os_str::OsString;
use crate::time::Duration;

verus! {

/// The root capability contract, implemented once per platform backend
/// and threaded as a generic parameter through every higher layer; at
/// build time a concrete backend is selected and the generic code is
/// specialized with zero runtime indirection.
///
/// `last_os_error`, `error_string` and `decode_error_kind` together let
/// generic error-producing code translate a platform error code into
/// both a human-readable string and a portable classification without
/// branching on which backend is active; they are pure translations and
/// never fail. `parse_path_prefix`, `is_path_sep_byte` and
/// `is_verbatim_path_sep` let a single generic path-parsing algorithm
/// handle platform-specific path syntaxes by delegating the recognition
/// step to the backend.
pub trait Std: Sized + Copy + Clone + PartialEq + Eq + PartialOrd + Ord + core::hash::Hash + Send + Sync + 'static {
    /// C-ABI character type (`char` in C), for foreign-call boundary
    /// fidelity only; likewise the rest of the `c_` family below.
    type c_char: Copy + core::hash::Hash + 'static;

    type c_int: Copy + core::hash::Hash + 'static;

    type c_long: Copy + core::hash::Hash + 'static;

    type c_longlong: Copy + core::hash::Hash + 'static;

    type c_schar: Copy + core::hash::Hash + 'static;

    type c_short: Copy + core::hash::Hash + 'static;

    type c_uchar: Copy + core::hash::Hash + 'static;

    type c_uint: Copy + core::hash::Hash + 'static;

    type c_ulong: Copy + core::hash::Hash + 'static;

    type c_ulonglong: Copy + core::hash::Hash + 'static;

    type c_ushort: Copy + core::hash::Hash + 'static;

    /// The backend's raw mutex, satisfying the [`Mutex`] lifecycle
    /// contract.
    type Mutex: Mutex;

    /// Monotonic-clock instant.
    type Instant: Instant;

    /// Wall-clock instant.
    type SystemTime: SystemTime;

    /// Open file handle.
    type File: File<
        OpenOptions = Self::OpenOptions,
        FileAttr = Self::FileAttr,
        Permissions = Self::Permissions,
    >;

    /// File metadata.
    type FileAttr: FileAttr<
        FileType = Self::FileType,
        Permissions = Self::Permissions,
        SystemTime = Self::SystemTime,
    >;

    /// Directory-listing stream.
    type ReadDir: ReadDir<DirEntry = Self::DirEntry>;

    /// Open-options builder.
    type OpenOptions: OpenOptions;

    /// Permissions model.
    type Permissions: Permissions;

    /// File-type classifier.
    type FileType: FileType;

    /// Directory builder.
    type DirBuilder: DirBuilder;

    /// Directory entry.
    type DirEntry: DirEntry<FileType = Self::FileType, FileAttr = Self::FileAttr>;

    /// Standard-error stream.
    type Stderr: Stdio + Write;

    /// The backend's representation of a parsed path prefix (a drive
    /// letter, a UNC-style prefix, a verbatim-escaped form); only the
    /// backend can recognize one, the parsing algorithm around it stays
    /// generic.
    type PathPrefix;

    /// An empty, zero-terminated native character string, usually
    /// defined as `&[0]`.
    fn empty_cstr() -> &'static [Self::c_char];

    /// The platform's main path separator, as a single character.
    fn main_path_sep() -> char;

    /// The platform's main path separator, as a string.
    fn main_path_sep_str() -> &'static str;

    /// The wall-clock instant of the epoch that `SystemTime` values are
    /// measured against.
    fn unix_epoch() -> Self::SystemTime;

    /// One-time process-wide initialization; must run before any other
    /// operation of the contract is valid.
    fn init();

    /// Fetches the error code of the last failed platform operation on
    /// this thread.
    fn last_os_error() -> i32;

    /// Renders a platform error code as a human-readable message; a
    /// pure translation, it never fails.
    fn error_string(code: i32) -> String;

    /// Classifies a platform error code portably; a pure translation,
    /// it never fails. This is how the single retried-transparently
    /// classification (`ErrorKind::Interrupted`) is recognized.
    fn decode_error_kind(errno: i32) -> ErrorKind;

    /// Sets up the per-thread stack guard, reporting its location when
    /// the platform maintains one.
    fn thread_guard_init() -> Option<usize>;

    /// Whether the byte is a path separator on this platform.
    fn is_path_sep_byte(b: u8) -> bool;

    /// Whether the byte separates components in verbatim (escape-free)
    /// paths; on most platforms the same as `is_path_sep_byte`.
    fn is_verbatim_path_sep(b: u8) -> (r: bool) {
        Self::is_path_sep_byte(b)
    }

    /// Recognizes a platform-specific path prefix at the start of the
    /// given path, if there is one.
    fn parse_path_prefix(path: &OsStr) -> Option<Self::PathPrefix>;

    /// The length of the zero-terminated prefix of a bounded native
    /// character buffer; never reads past the bound.
    fn strlen(cs: &[Self::c_char]) -> (r: usize)
        ensures
            r <= cs@.len(),
    ;

    /// Lists a directory.
    fn readdir(p: &OsStr) -> Result<Self::ReadDir, Error>;

    /// Removes a file.
    fn unlink(p: &OsStr) -> Result<(), Error>;

    /// Queries metadata, following symbolic links.
    fn stat(p: &OsStr) -> Result<Self::FileAttr, Error>;

    /// Queries metadata without following symbolic links.
    fn lstat(p: &OsStr) -> Result<Self::FileAttr, Error>;

    /// Renames a file or directory.
    fn rename(old_path: &OsStr, new_path: &OsStr) -> Result<(), Error>;

    /// Copies a file, returning the number of bytes copied.
    fn copy(from: &OsStr, to: &OsStr) -> Result<u64, Error>;

    /// Creates a hard link.
    fn link(src: &OsStr, dst: &OsStr) -> Result<(), Error>;

    /// Creates a symbolic link.
    fn symlink(src: &OsStr, dst: &OsStr) -> Result<(), Error>;

    /// Reads the target of a symbolic link.
    fn readlink(p: &OsStr) -> Result<OsString, Error>;

    /// Returns the canonical, absolute form of a path.
    fn canonicalize(p: &OsStr) -> Result<OsString, Error>;

    /// Sets permissions on a file or directory.
    fn set_perm(p: &OsStr, perm: Self::Permissions) -> Result<(), Error>;

    /// Removes an empty directory.
    fn rmdir(p: &OsStr) -> Result<(), Error>;

    /// Removes a directory and all of its contents.
    fn remove_dir_all(p: &OsStr) -> Result<(), Error>;

    /// The first occurrence of a byte within a byte slice.
    fn memchr(needle: u8, haystack: &[u8]) -> (r: Option<usize>)
        ensures
            match r {
                Some(i) => i < haystack@.len() && haystack@[i as int] == needle && forall|j: int|
                    0 <= j < i ==> haystack@[j] != needle,
                None => forall|j: int| 0 <= j < haystack@.len() ==> haystack@[j] != needle,
            },
    ;

    /// The last occurrence of a byte within a byte slice.
    fn memrchr(needle: u8, haystack: &[u8]) -> (r: Option<usize>)
        ensures
            match r {
                Some(i) => i < haystack@.len() && haystack@[i as int] == needle && forall|j: int|
                    i < j < haystack@.len() ==> haystack@[j] != needle,
                None => forall|j: int| 0 <= j < haystack@.len() ==> haystack@[j] != needle,
            },
    ;

    /// One-time global capture of the process argument vector;
    /// callable at most once, before any other thread observes process
    /// arguments.
    fn args_init(args: Vec<OsString>);
}

/// A minimal raw-lock lifecycle contract, consumed by higher layers
/// needing mutual exclusion and implemented only by backends.
///
/// Lifecycle: created → initialized (unlocked) → locked/unlocked cycles
/// → destroyed. `init` must run exactly once, while the mutex is at a
/// permanently stable memory address, before any other call; `unlock`
/// is only valid on the thread that holds the lock; `destroy`
/// invalidates the mutex permanently and must be the last call.
/// Violating address-stability or call-ordering is an unchecked
/// precondition violation — a caller bug this layer cannot detect —
/// not a reported error; callers uphold it structurally (for example by
/// pinning the mutex's storage behind a guarded-acquisition wrapper).
pub trait Mutex: Sized + Send + Sync {
    /// Creates a new mutex for use; behavior is undefined if it is
    /// moved after first being used with any of the functions below.
    fn new() -> Self;

    /// Prepares the mutex for use; to be called once, when the mutex
    /// has reached its stable memory address.
    fn init(&mut self);

    /// Locks the mutex, blocking the current thread until it is
    /// available.
    fn lock(&self);

    /// Attempts to lock the mutex without blocking; reports whether it
    /// was acquired.
    fn try_lock(&self) -> bool;

    /// Unlocks the mutex; only the thread currently holding the lock
    /// may call this.
    fn unlock(&self);

    /// Deallocates all resources associated with this mutex; no use may
    /// follow.
    fn destroy(&self);
}

/// A monotonic-clock instant: totally ordered, never decreasing between
/// observations, supporting duration arithmetic.
pub trait Instant: Sized + Copy + Clone + PartialEq + Eq + PartialOrd + Ord + core::hash::Hash + Send + Sync {
    /// The current instant.
    fn now() -> Self;

    /// The span from `earlier` to `self`; `earlier` must not be later.
    fn sub_instant(&self, earlier: &Self) -> Duration;

    /// This instant shifted forward by a duration.
    fn add_duration(&self, other: &Duration) -> Self;

    /// This instant shifted backward by a duration.
    fn sub_duration(&self, other: &Duration) -> Self;
}

/// A wall-clock instant: totally ordered, supporting duration
/// arithmetic, measured against the backend's epoch.
pub trait SystemTime: Sized + Copy + Clone + PartialEq + Eq + PartialOrd + Ord + core::hash::Hash + Send + Sync {
    /// The current wall-clock time.
    fn now() -> Self;

    /// The span from `earlier` to `self`, or — when `earlier` is in
    /// fact later — the span back to it, as the error payload.
    fn sub_time(&self, earlier: &Self) -> Result<Duration, Duration>;

    /// This instant shifted forward by a duration.
    fn add_duration(&self, other: &Duration) -> Self;

    /// This instant shifted backward by a duration.
    fn sub_duration(&self, other: &Duration) -> Self;
}

/// An open file handle.
pub trait File: Sized {
    /// The open-options builder this file type is opened with.
    type OpenOptions;

    /// The metadata record this file type reports.
    type FileAttr;

    /// The permissions model this file type accepts.
    type Permissions;

    /// Opens the file at `path` with the given options.
    fn open(path: &OsStr, opts: &Self::OpenOptions) -> Result<Self, Error>;

    /// Reads some bytes into the region of `buf` starting at `pos`,
    /// under the same region discipline as [`crate::io::Read::read`].
    fn read(&self, buf: &mut Vec<u8>, pos: usize) -> (r: Result<usize, Error>)
        requires
            pos <= old(buf)@.len(),
        ensures
            final(buf)@.len() == old(buf)@.len(),
            final(buf)@.subrange(0, pos as int) == old(buf)@.subrange(0, pos as int),
            r matches Ok(n) ==> pos + n <= old(buf)@.len(),
    ;

    /// Writes some bytes, returning how many were accepted.
    fn write(&self, buf: &[u8]) -> (r: Result<usize, Error>)
        ensures
            r matches Ok(n) ==> n <= buf@.len(),
    ;

    /// Flushes buffered data to the platform.
    fn flush(&self) -> Result<(), Error>;

    /// Moves the file cursor, returning its new position from the
    /// start.
    fn seek(&self, pos: SeekFrom) -> Result<u64, Error>;

    /// Synchronizes file contents and metadata with the storage device.
    fn fsync(&self) -> Result<(), Error>;

    /// Synchronizes file contents with the storage device.
    fn datasync(&self) -> Result<(), Error>;

    /// Truncates or extends the file to `size` bytes.
    fn truncate(&self, size: u64) -> Result<(), Error>;

    /// Queries this file's metadata.
    fn file_attr(&self) -> Result<Self::FileAttr, Error>;

    /// Duplicates the handle.
    fn duplicate(&self) -> Result<Self, Error>;

    /// Applies the given permissions to the file.
    fn set_permissions(&self, perms: Self::Permissions) -> Result<(), Error>;
}

/// File metadata.
pub trait FileAttr: Sized {
    /// The file-type classifier this record reports.
    type FileType;

    /// The permissions model this record reports.
    type Permissions;

    /// The wall-clock instant this record reports times in.
    type SystemTime;

    /// The file's type.
    fn file_type(&self) -> Self::FileType;

    /// The file's size in bytes.
    fn size(&self) -> u64;

    /// The file's permissions.
    fn perm(&self) -> Self::Permissions;

    /// The last modification time.
    fn modified(&self) -> Result<Self::SystemTime, Error>;

    /// The last access time.
    fn accessed(&self) -> Result<Self::SystemTime, Error>;

    /// The creation time.
    fn created(&self) -> Result<Self::SystemTime, Error>;
}

/// A directory-listing stream, consumed entry by entry (in place of the
/// standard iterator protocol, which stays outside this contract).
pub trait ReadDir: Sized {
    /// The entries the listing yields.
    type DirEntry;

    /// The next directory entry, `None` at the end of the listing.
    fn next_entry(&mut self) -> Option<Result<Self::DirEntry, Error>>;
}

/// An open-options builder.
pub trait OpenOptions: Sized {
    /// A builder with every flag cleared.
    fn new() -> Self;

    /// Selects read access.
    fn read(&mut self, read: bool);

    /// Selects write access.
    fn write(&mut self, write: bool);

    /// Selects append mode.
    fn append(&mut self, append: bool);

    /// Selects truncation of existing contents.
    fn truncate(&mut self, truncate: bool);

    /// Allows creating the file when missing.
    fn create(&mut self, create: bool);

    /// Demands creating the file anew.
    fn create_new(&mut self, create_new: bool);
}

/// A permissions model; the one portable bit is read-onliness, and
/// `readonly` reports exactly what the last `set_readonly` established.
pub trait Permissions: Sized {
    /// Reports whether these permissions forbid writing.
    fn readonly(&self) -> bool;

    /// Sets or clears the read-only bit.
    fn set_readonly(&mut self, readonly: bool);
}

/// A file-type classifier.
pub trait FileType: Sized + Copy + Clone + PartialEq + Eq {
    /// Whether this is a directory.
    fn is_dir(&self) -> bool;

    /// Whether this is a regular file.
    fn is_file(&self) -> bool;

    /// Whether this is a symbolic link.
    fn is_symlink(&self) -> bool;
}

/// A directory builder.
pub trait DirBuilder: Sized {
    /// A builder with default options.
    fn new() -> Self;

    /// Creates the directory at `p`.
    fn mkdir(&self, p: &OsStr) -> Result<(), Error>;
}

/// A directory entry yielded by a listing.
pub trait DirEntry: Sized {
    /// The file-type classifier this entry reports.
    type FileType;

    /// The metadata record this entry reports.
    type FileAttr;

    /// The full path of the entry.
    fn path(&self) -> OsString;

    /// The entry's file type.
    fn file_type(&self) -> Result<Self::FileType, Error>;

    /// The entry's name, without the leading path.
    fn file_name(&self) -> OsString;

    /// The entry's metadata.
    fn metadata(&self) -> Result<Self::FileAttr, Error>;
}

/// A standard stream handle.
pub trait Stdio: Sized {
    /// Acquires the stream.
    fn new() -> Result<Self, Error>;
}

/// A byte sink.
pub trait Write {
    /// Writes some bytes, returning how many were accepted.
    fn write(&mut self, buf: &[u8]) -> (r: Result<usize, Error>)
        ensures
            r matches Ok(n) ==> n <= buf@.len(),
    ;

    /// Flushes buffered data.
    fn flush(&mut self) -> Result<(), Error>;
}

} // verus!
