//! Buffered reading: the `Read` capability, the buffer-initialization
//! policy, the portable error taxonomy, and the adaptive
//! read-to-completion engine.

use vstd::prelude::*;

verus! {

/// A type used to conditionally initialize buffers passed to `Read` methods.
///
/// A reader that never inspects the destination region, and whose returned
/// count accurately bounds what it wrote, may opt out of pre-zeroing as an
/// optimization; zeroing is the conservative default.
pub struct Initializer(bool);

impl Initializer {
    /// Whether buffers handed to the reader are to be zeroed first.
    pub closed spec fn should_init(&self) -> bool {
        self.0
    }

    /// Returns a new `Initializer` which will zero out buffers.
    pub fn zeroing() -> (r: Initializer)
        ensures
            r.should_init(),
    {
        Initializer(true)
    }

    /// Returns a new `Initializer` which will not zero out buffers.
    ///
    /// Only a reader that never reads from the buffers passed to its `read`
    /// method, and whose returned count accurately reflects how many bytes
    /// it wrote to the head of the region, may use this.
    pub fn nop() -> (r: Initializer)
        ensures
            !r.should_init(),
    {
        Initializer(false)
    }

    /// Indicates if a buffer should be initialized.
    pub fn should_initialize(&self) -> (r: bool)
        ensures
            r == self.should_init(),
    {
        self.0
    }

    /// Initializes the tail of a buffer if necessary: every byte at index
    /// `from` or beyond is zeroed when this initializer asks for zeroing,
    /// and the buffer is left untouched otherwise.
    pub fn initialize(&self, buf: &mut Vec<u8>, from: usize)
        requires
            from <= old(buf)@.len(),
        ensures
            final(buf)@.len() == old(buf)@.len(),
            final(buf)@.subrange(0, from as int) == old(buf)@.subrange(0, from as int),
            self.should_init() ==> forall|i: int|
                from <= i < final(buf)@.len() ==> final(buf)@[i] == 0u8,
            !self.should_init() ==> final(buf)@ == old(buf)@,
    {
        if self.0 {
            let n: usize = buf.len();
            buf.truncate(from);
            while buf.len() < n
                invariant
                    from <= buf@.len() <= n <= old(buf)@.len(),
                    buf@.subrange(0, from as int) == old(buf)@.subrange(0, from as int),
                    forall|i: int| from <= i < buf@.len() ==> buf@[i] == 0u8,
                decreases n - buf@.len(),
            {
                buf.push(0);
            }
        }
    }
}

/// A position to seek to within a stream.
#[derive(Clone, Copy, Debug, PartialEq, Eq, Structural)]
pub enum SeekFrom {
    /// An offset from the start of the stream.
    Start(u64),
    /// An offset from the end of the stream.
    End(i64),
    /// An offset from the current position.
    Current(i64),
}

/// Portable classification of a platform operation failure.
///
/// `Interrupted` is the one classification that is retried transparently
/// by [`read_to_end`]; every other kind is surfaced to the caller.
#[derive(Clone, Copy, Debug, PartialEq, Eq, Hash, Structural)]
pub enum ErrorKind {
    /// An entity was not found.
    NotFound,
    /// The operation lacked the necessary privileges.
    PermissionDenied,
    /// An entity already exists.
    AlreadyExists,
    /// The operation needs to block to complete.
    WouldBlock,
    /// A parameter was incorrect.
    InvalidInput,
    /// Data not valid for the operation were encountered.
    InvalidData,
    /// The operation's deadline expired.
    TimedOut,
    /// A write returned `Ok(0)`.
    WriteZero,
    /// The operation was interrupted and can be retried.
    Interrupted,
    /// The end of a stream was reached prematurely.
    UnexpectedEof,
    /// Any error not covered by another classification.
    Other,
}

/// A platform operation failure: a portable classification, together
/// with the raw platform error code and a human-readable message when
/// the backend supplied them.
#[derive(Debug, Clone)]
pub struct Error {
    kind: ErrorKind,
    code: Option<i32>,
    message: String,
}

impl Error {
    /// The portable classification.
    pub closed spec fn spec_kind(&self) -> ErrorKind {
        self.kind
    }

    /// The raw platform error code, when there is one.
    pub closed spec fn spec_code(&self) -> Option<i32> {
        self.code
    }

    /// The human-readable message.
    pub closed spec fn spec_message(&self) -> Seq<char> {
        self.message@
    }

    /// An error from a portable classification alone.
    pub fn new(kind: ErrorKind) -> (r: Error)
        ensures
            r.spec_kind() == kind,
            r.spec_code() is None,
            r.spec_message() == Seq::<char>::empty(),
    {
        Error { kind: kind, code: None, message: String::new() }
    }

    /// An error carrying a raw platform code, its portable
    /// classification (the backend's `decode_error_kind`), and its
    /// rendered message (the backend's `error_string`).
    pub fn from_raw_os_error(code: i32, kind: ErrorKind, message: String) -> (r: Error)
        ensures
            r.spec_kind() == kind,
            r.spec_code() == Some(code),
            r.spec_message() == message@,
    {
        Error { kind: kind, code: Some(code), message: message }
    }

    /// The portable classification of this error.
    pub fn kind(&self) -> (r: ErrorKind)
        ensures
            r == self.spec_kind(),
    {
        self.kind
    }

    /// The raw platform error code, when this error came from one.
    pub fn raw_os_error(&self) -> (r: Option<i32>)
        ensures
            r == self.spec_code(),
    {
        self.code
    }

    /// The human-readable message.
    pub fn message(&self) -> (r: &String)
        ensures
            r@ == self.spec_message(),
    {
        &self.message
    }

    /// Builds the portable error for the platform's last error code:
    /// the raw code, its classification and its rendered message all
    /// come from the backend, so error-producing code never branches on
    /// which backend is active.
    pub fn last_os_error<STD: crate::traits::Std>() -> (r: Error)
        ensures
            r.spec_code() is Some,
    {
        let code: i32 = STD::last_os_error();
        Error::from_raw_os_error(code, STD::decode_error_kind(code), STD::error_string(code))
    }
}

/// A capability that can read an unbounded stream in chunks into a
/// caller-provided region of a growable byte buffer.
pub trait Read {
    /// Ghost budget of `Interrupted` reports this source may still
    /// make before its next real result. A conforming source does not
    /// report interruption indefinitely: each interrupted report
    /// strictly consumes from this (unbounded but finite) budget, and
    /// only a real result — progress, end of stream, or another error —
    /// may replenish it. This is what makes the transparent retry in
    /// [`read_to_end`] terminate; it costs implementors nothing at run
    /// time, and a source that never reports interruption (the default
    /// budget of zero) has nothing to prove.
    open spec fn interrupts(&self) -> nat {
        0
    }

    /// Pulls some bytes from this source into the region of `buf`
    /// starting at `pos`, returning how many bytes were read: zero
    /// means end of stream, a positive count partial progress. The
    /// buffer keeps its length, the region before `pos` is never
    /// touched, and a successful count never exceeds the region handed
    /// over.
    fn read(&mut self, buf: &mut Vec<u8>, pos: usize) -> (r: Result<usize, Error>)
        requires
            pos <= old(buf)@.len(),
        ensures
            final(buf)@.len() == old(buf)@.len(),
            final(buf)@.subrange(0, pos as int) == old(buf)@.subrange(0, pos as int),
            r matches Ok(n) ==> pos + n <= old(buf)@.len(),
            (r matches Err(e) && e.spec_kind() == ErrorKind::Interrupted)
                ==> final(self).interrupts() < old(self).interrupts(),
    ;

    /// The buffer-initialization policy this reader asks for: zeroing,
    /// unless the reader opts out via [`Initializer::nop`].
    fn initializer(&self) -> Initializer {
        Initializer::zeroing()
    }
}

/// Drains `r` to completion into `buf` and returns the total number of
/// bytes newly appended (pre-existing content is not counted and never
/// touched).
///
/// The buffer grows adaptively by a small fixed increment whenever its
/// logical length reaches its physical end: over-allocating a large
/// block up front is far more expensive for a stream that turns out to
/// be tiny than a few extra small growth steps are for a large one,
/// whose amortized cost the underlying allocator's own growth policy
/// absorbs. The newly exposed region is always created zeroed here, so
/// no uninitialized byte is ever observable; the reader's
/// [`Initializer`] policy decides whether the region is (re-)zeroed
/// before each read.
///
/// An `Interrupted` error is retried transparently and never surfaced.
/// Any other error stops the drain and is propagated, while the bytes
/// appended before it remain in the buffer: partial progress is
/// preserved, and the unread zeroed tail is trimmed back on every exit,
/// so the buffer's final length is exactly its committed content.
pub fn read_to_end<R: Read + ?Sized>(r: &mut R, buf: &mut Vec<u8>) -> (res: Result<usize, Error>)
    ensures
        old(buf)@.len() <= final(buf)@.len(),
        final(buf)@.subrange(0, old(buf)@.len() as int) == old(buf)@,
        res matches Ok(n) ==> old(buf)@.len() + n == final(buf)@.len(),
        res matches Err(e) ==> e.spec_kind() != ErrorKind::Interrupted,
{
    let start_len: usize = buf.len();
    let mut len: usize = buf.len();
    proof {
        assert(buf@.subrange(0, start_len as int) =~= old(buf)@);
    }
    loop
        invariant
            start_len <= len <= buf@.len(),
            start_len == old(buf)@.len(),
            buf@.subrange(0, start_len as int) == old(buf)@,
        decreases usize::MAX - len, r.interrupts(),
    {
        if len == buf.len() {
            let room: usize = usize::MAX - buf.len();
            let add: usize = if room < 32 {
                room
            } else {
                32
            };
            let ghost pre_grow = buf@;
            let new_len: usize = buf.len() + add;
            buf.resize(new_len, 0);
            proof {
                assert(buf@.subrange(0, start_len as int) =~= pre_grow.subrange(
                    0,
                    start_len as int,
                ));
            }
            let init: Initializer = r.initializer();
            let ghost pre_init = buf@;
            init.initialize(buf, len);
            proof {
                assert(buf@.subrange(0, start_len as int) =~= pre_init.subrange(
                    0,
                    start_len as int,
                ));
            }
        }
        let ghost pre_read = buf@;
        match r.read(buf, len) {
            Ok(n) => {
                proof {
                    assert(buf@.subrange(0, start_len as int) =~= pre_read.subrange(
                        0,
                        start_len as int,
                    ));
                }
                if n == 0 {
                    let ghost pre_trim = buf@;
                    buf.truncate(len);
                    proof {
                        assert(buf@.subrange(0, start_len as int) =~= pre_trim.subrange(
                            0,
                            start_len as int,
                        ));
                    }
                    return Ok(len - start_len);
                }
                len = len + n;
            },
            Err(e) => {
                proof {
                    assert(buf@.subrange(0, start_len as int) =~= pre_read.subrange(
                        0,
                        start_len as int,
                    ));
                }
                if e.kind() == ErrorKind::Interrupted {
                    // retried transparently; nothing advanced
                } else {
                    let ghost pre_trim = buf@;
                    buf.truncate(len);
                    proof {
                        assert(buf@.subrange(0, start_len as int) =~= pre_trim.subrange(
                            0,
                            start_len as int,
                        ));
                    }
                    return Err(e);
                }
            },
        }
    }
}

} // verus!
