//! A process attached through the host, and the conversion of what the host
//! reports about it into typed values or explicit failures.
use crate::pod::Pod;
use vstd::prelude::*;
use vstd::slice::slice_subrange;
use vstd::utf8::*;

verus! {

broadcast use vstd::seq::group_seq_axioms;

/// An address in the attached process's memory.
///
/// A 32-bit process may be attached too: reading outside its address space
/// is simply a read that fails.
pub type Address = u64;

/// Size of the buffer that a bounded string is read into.
pub const CSTR_BUF_LEN: usize = 256;

/// Number of bytes that are requested from the host for a bounded string;
/// its terminator must be among them.
pub const CSTR_READ_LEN: usize = 255;

/// What can go wrong when reading the attached process's memory.
#[derive(Debug, Clone, Copy, PartialEq, Eq, Structural)]
pub enum Error {
    /// A memory read on the attached process failed.
    FailedRead,
    /// No zero byte ended the string within the bytes that were read.
    Unterminated,
}

/// The text that `b` decodes to, with each invalid sequence replaced by
/// U+FFFD.
pub uninterp spec fn utf8_lossy(b: Seq<u8>) -> Seq<char>;

/// Relies on `String::from_utf8_lossy`: the result depends on the bytes
/// alone, and valid UTF-8 is decoded unchanged.
#[verifier::external_body]
fn decode_lossy(b: &[u8]) -> (r: String)
    ensures
        r@ == utf8_lossy(b@),
        valid_utf8(b@) ==> r@ == decode_utf8(b@),
{
    String::from_utf8_lossy(b).into_owned()
}

/// What a read that the host reported with `status` comes to.
pub open spec fn read_outcome(status: u32) -> Result<(), Error> {
    if status != 0 {
        Ok(())
    } else {
        Err(Error::FailedRead)
    }
}

/// The value that the host's answer `raw` to a lookup stands for: zero means
/// that nothing was found.
pub open spec fn found(raw: u64) -> Option<u64> {
    if raw == 0 {
        None
    } else {
        Some(raw)
    }
}

/// `i` is where the first zero byte of `b` stands, among the bytes read for
/// a bounded string.
pub open spec fn is_terminator(b: Seq<u8>, i: int) -> bool {
    &&& 0 <= i < CSTR_READ_LEN
    &&& i < b.len()
    &&& b[i] == 0
    &&& forall|j: int| 0 <= j < i ==> b[j] != 0
}

/// No zero byte stands among the bytes read for a bounded string.
pub open spec fn unterminated(b: Seq<u8>) -> bool {
    forall|j: int| 0 <= j < CSTR_READ_LEN && j < b.len() ==> b[j] != 0
}

/// Where the first zero byte of `buf` stands among its first
/// `CSTR_READ_LEN` bytes, if one does.
pub fn terminator_position(buf: &[u8]) -> (r: Option<usize>)
    ensures
        r matches Some(i) ==> is_terminator(buf@, i as int),
        r is None <==> unterminated(buf@),
{
    let mut i: usize = 0;
    while i < buf.len() && i < CSTR_READ_LEN
        invariant
            i <= CSTR_READ_LEN,
            i <= buf@.len(),
            forall|j: int| 0 <= j < i ==> buf@[j] != 0,
        decreases CSTR_READ_LEN - i,
    {
        if buf[i] == 0 {
            return Some(i);
        }
        i = i + 1;
    }
    None
}

/// A handle on a process that the host attached. Whoever owns it releases
/// the process once, by handing the handle back to the host.
#[derive(Debug)]
pub struct Process {
    handle: u64,
}

impl View for Process {
    type V = u64;

    closed spec fn view(&self) -> u64 {
        self.handle
    }
}

impl Process {
    #[verifier::type_invariant]
    spec fn inv(self) -> bool {
        self.handle != 0
    }

    /// The process that the host's answer `raw` to an attach request stands
    /// for: zero means that no process of that name was found.
    pub fn attach(raw: u64) -> (r: Option<Process>)
        ensures
            r is None <==> raw == 0,
            r matches Some(p) ==> p@ == raw,
    {
        if raw == 0 {
            None
        } else {
            Some(Process { handle: raw })
        }
    }

    /// The host's handle on the process, which is never zero.
    pub fn handle(&self) -> (r: u64)
        ensures
            r == self@,
            r != 0,
    {
        proof {
            use_type_invariant(self);
        }
        self.handle
    }

    /// Gives up the process and returns the handle that the host must now
    /// detach. The handle is handed out once, as the value is consumed.
    pub fn into_handle(self) -> (r: u64)
        ensures
            r == self@,
            r != 0,
    {
        proof {
            use_type_invariant(&self);
        }
        self.handle
    }

    /// The base address of a module of the process, from the host's answer
    /// `raw` to the lookup: zero means that the module is not loaded.
    pub fn module(&self, raw: u64) -> (r: Option<Address>)
        ensures
            r == found(raw),
    {
        if raw == 0 {
            None
        } else {
            Some(raw)
        }
    }

    /// The outcome of a read into a buffer that the host reported with
    /// `status`: any status but zero is a success.
    pub fn read_into_buf(&self, status: u32) -> (r: Result<(), Error>)
        ensures
            r == read_outcome(status),
    {
        if status != 0 {
            Ok(())
        } else {
            Err(Error::FailedRead)
        }
    }

    /// The value of type `T` that a read reported with `status` yields, from
    /// the `bytes` the host wrote. The bytes become a value only once the
    /// host reported success.
    pub fn read<T: Pod>(&self, status: u32, bytes: &[u8]) -> (r: Result<T, Error>)
        requires
            bytes@.len() == T::spec_size(),
        ensures
            status == 0 ==> r == Err::<T, Error>(Error::FailedRead),
            status != 0 ==> (r matches Ok(v) && v.spec_bytes() == bytes@),
    {
        match self.read_into_buf(status) {
            Ok(()) => Ok(T::from_bytes(bytes)),
            Err(e) => Err(e),
        }
    }

    /// The zero-terminated string that a read reported with `status` yields,
    /// from the `buf` the host wrote `CSTR_READ_LEN` bytes into. Invalid
    /// UTF-8 is replaced, not refused.
    pub fn read_cstr(&self, status: u32, buf: &[u8]) -> (r: Result<String, Error>)
        requires
            buf@.len() == CSTR_BUF_LEN,
        ensures
            status == 0 ==> r == Err::<String, Error>(Error::FailedRead),
            status != 0 && unterminated(buf@) ==> r == Err::<String, Error>(
                Error::Unterminated,
            ),
            forall|i: int|
                status != 0 && is_terminator(buf@, i) ==> (r matches Ok(s) && s@ == utf8_lossy(
                    buf@.subrange(0, i),
                )),
            forall|i: int|
                status != 0 && is_terminator(buf@, i) && valid_utf8(buf@.subrange(0, i)) ==> (r matches Ok(
                    s,
                ) && s@ == decode_utf8(buf@.subrange(0, i))),
    {
        if let Err(e) = self.read_into_buf(status) {
            return Err(e);
        }
        match terminator_position(buf) {
            None => Err(Error::Unterminated),
            Some(n) => {
                let s = decode_lossy(slice_subrange(buf, 0, n));
                proof {
                    assert forall|i: int| is_terminator(buf@, i) implies i == n as int by {
                        if i < n {
                            assert(buf@[i] == 0);
                        } else if i > n {
                            assert(buf@[n as int] != 0);
                        }
                    }
                }
                Ok(s)
            },
        }
    }
}

} // verus!
