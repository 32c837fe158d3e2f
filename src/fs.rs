//! Host files: open modes, the lifecycle of a handle, and the requests that
//! read, write, reposition, query and release it.

use vstd::prelude::*;
use crate::error::{check, checked, FAILURE};
use crate::op::{block2, block3, block4, is_block_call, Call, Op, Param};

verus! {

/// How an opened file can be used. These are the modes of C's `fopen`.
#[derive(Clone, Copy, Debug, PartialEq, Eq, Structural)]
pub enum OpenMode {
    /// `r`
    Read,
    /// `rb`
    ReadBinary,
    /// `r+`
    ReadWrite,
    /// `r+b`
    ReadWriteBinary,
    /// `w`
    Write,
    /// `wb`
    WriteBinary,
    /// `w+`
    WriteRead,
    /// `w+b`
    WriteReadBinary,
    /// `a`
    Append,
    /// `ab`
    AppendBinary,
    /// `a+`
    AppendRead,
    /// `a+b`
    AppendReadBinary,
}

/// The modes in the order the host numbers them.
pub open spec fn mode_order() -> Seq<OpenMode> {
    seq![
        OpenMode::Read,
        OpenMode::ReadBinary,
        OpenMode::ReadWrite,
        OpenMode::ReadWriteBinary,
        OpenMode::Write,
        OpenMode::WriteBinary,
        OpenMode::WriteRead,
        OpenMode::WriteReadBinary,
        OpenMode::Append,
        OpenMode::AppendBinary,
        OpenMode::AppendRead,
        OpenMode::AppendReadBinary,
    ]
}

/// The numeric code of a mode on the wire.
pub open spec fn mode_code(m: OpenMode) -> usize {
    match m {
        OpenMode::Read => 0,
        OpenMode::ReadBinary => 1,
        OpenMode::ReadWrite => 2,
        OpenMode::ReadWriteBinary => 3,
        OpenMode::Write => 4,
        OpenMode::WriteBinary => 5,
        OpenMode::WriteRead => 6,
        OpenMode::WriteReadBinary => 7,
        OpenMode::Append => 8,
        OpenMode::AppendBinary => 9,
        OpenMode::AppendRead => 10,
        OpenMode::AppendReadBinary => 11,
    }
}

impl OpenMode {
    /// The numeric code of this mode.
    pub fn code(self) -> (r: usize)
        ensures
            r == mode_code(self),
    {
        match self {
            OpenMode::Read => 0,
            OpenMode::ReadBinary => 1,
            OpenMode::ReadWrite => 2,
            OpenMode::ReadWriteBinary => 3,
            OpenMode::Write => 4,
            OpenMode::WriteBinary => 5,
            OpenMode::WriteRead => 6,
            OpenMode::WriteReadBinary => 7,
            OpenMode::Append => 8,
            OpenMode::AppendBinary => 9,
            OpenMode::AppendRead => 10,
            OpenMode::AppendReadBinary => 11,
        }
    }

    /// The mode with the given numeric code, if there is one.
    pub fn from_code(code: usize) -> (r: Option<OpenMode>)
        ensures
            r == (if code < 12 {
                Some(mode_order()[code as int])
            } else {
                None::<OpenMode>
            }),
    {
        match code {
            0 => Some(OpenMode::Read),
            1 => Some(OpenMode::ReadBinary),
            2 => Some(OpenMode::ReadWrite),
            3 => Some(OpenMode::ReadWriteBinary),
            4 => Some(OpenMode::Write),
            5 => Some(OpenMode::WriteBinary),
            6 => Some(OpenMode::WriteRead),
            7 => Some(OpenMode::WriteReadBinary),
            8 => Some(OpenMode::Append),
            9 => Some(OpenMode::AppendBinary),
            10 => Some(OpenMode::AppendRead),
            11 => Some(OpenMode::AppendReadBinary),
            _ => None,
        }
    }
}

/// A byte string that ends with its NUL terminator.
pub open spec fn nul_terminated(s: Seq<u8>) -> bool {
    s.len() > 0 && s.last() == 0
}

/// The length that goes on the wire for a NUL-terminated string: the
/// terminator is not counted.
pub open spec fn text_len(s: Seq<u8>) -> usize {
    (s.len() - 1) as usize
}

/// The path that selects the host's standard streams: `":tt"` and its NUL.
pub open spec fn stdio_path() -> Seq<u8> {
    seq![0x3a, 0x74, 0x74, 0x00]
}

/// The argument block of an open request.
pub open spec fn open_block(path_addr: usize, path: Seq<u8>, mode: OpenMode) -> Seq<usize> {
    seq![path_addr, mode_code(mode), text_len(path)]
}

/// A file that is about to be opened: a NUL-terminated path and a mode.
///
/// The request owns its path, so the path stays in place while the host reads
/// it; the trap is given the address of `path()`.
#[derive(Debug)]
pub struct OpenRequest {
    path: Vec<u8>,
    mode: OpenMode,
}

impl OpenRequest {
    #[verifier::type_invariant]
    spec fn inv(self) -> bool {
        nul_terminated(self.path@)
    }

    /// The path, with its terminator.
    pub closed spec fn spec_path(self) -> Seq<u8> {
        self.path@
    }

    /// The mode the file is opened with.
    pub closed spec fn spec_mode(self) -> OpenMode {
        self.mode
    }

    /// The path bytes, terminator included.
    pub fn path(&self) -> (r: &[u8])
        ensures
            r@ == self.spec_path(),
            nul_terminated(r@),
    {
        proof {
            use_type_invariant(self);
        }
        self.path.as_slice()
    }

    /// The mode.
    pub fn mode(&self) -> (r: OpenMode)
        ensures
            r == self.spec_mode(),
    {
        self.mode
    }

    /// The open request, given the address at which `path()` lies.
    pub fn call(&self, path_addr: usize) -> (c: Call)
        ensures
            is_block_call(c, Op::Open, open_block(path_addr, self.spec_path(), self.spec_mode())),
    {
        proof {
            use_type_invariant(self);
        }
        let len = self.path.len() - 1;
        block3(Op::Open, path_addr, self.mode.code(), len)
    }
}

/// Where a handle stands in its lifecycle.
pub enum HandleState {
    /// No handle: before a successful open and after the close.
    Closed,
    /// A live handle that the host gave.
    Open { handle: usize },
}

/// What the host may give back for an open: a word that is neither the
/// failure sentinel nor zero, which never names a file.
pub open spec fn valid_handle(ret: usize) -> bool {
    ret != FAILURE && ret != 0
}

/// The operations that act on an open handle.
pub open spec fn handle_op(op: Op) -> bool {
    op == Op::Read || op == Op::Write || op == Op::Seek || op == Op::FLen || op == Op::IsTty
        || op == Op::Close
}

/// The operations a handle in state `s` may be passed to.
pub open spec fn accepts(s: HandleState, op: Op) -> bool {
    s is Open && handle_op(op)
}

/// The state after `op` returned `ret`.
pub open spec fn after(s: HandleState, op: Op, ret: usize) -> HandleState {
    match s {
        HandleState::Closed => if op == Op::Open && valid_handle(ret) {
            HandleState::Open { handle: ret }
        } else {
            HandleState::Closed
        },
        HandleState::Open { handle } => if op == Op::Close {
            HandleState::Closed
        } else {
            HandleState::Open { handle }
        },
    }
}

/// A handle to an open file on the host.
///
/// Each request on the file carries the handle as the first word of its
/// argument block. `close` consumes the value, so a closed handle can no
/// longer be passed to the host and no handle is closed twice.
#[derive(Debug)]
pub struct File {
    handle: usize,
}

impl File {
    #[verifier::type_invariant]
    spec fn inv(self) -> bool {
        valid_handle(self.handle)
    }

    /// The host's handle.
    pub closed spec fn handle(self) -> usize {
        self.handle
    }

    /// The state of this file's handle.
    pub open spec fn state(self) -> HandleState {
        HandleState::Open { handle: self.handle() }
    }

    /// The request that opens `path` with `mode`. The path must end with its
    /// NUL terminator.
    pub fn open(path: &[u8], mode: OpenMode) -> (r: OpenRequest)
        requires
            nul_terminated(path@),
        ensures
            r.spec_path() == path@,
            r.spec_mode() == mode,
    {
        OpenRequest { path: vstd::slice::slice_to_vec(path), mode }
    }

    /// What an open request returned: a file for a valid handle, a failure
    /// otherwise.
    pub fn open_result(ret: usize) -> (r: Result<File, ()>)
        ensures
            r is Ok <==> valid_handle(ret),
            r matches Ok(f) ==> f.handle() == ret && f.state() == after(
                HandleState::Closed,
                Op::Open,
                ret,
            ),
    {
        match check(ret) {
            Ok(h) => if h != 0 {
                Ok(File { handle: h })
            } else {
                Err(())
            },
            Err(()) => Err(()),
        }
    }

    /// The request that opens the host's standard input.
    pub fn stdin() -> (r: OpenRequest)
        ensures
            r.spec_path() == stdio_path(),
            r.spec_mode() == OpenMode::ReadBinary,
    {
        File::open_stdio(OpenMode::ReadBinary)
    }

    /// The request that opens the host's standard output.
    pub fn stdout() -> (r: OpenRequest)
        ensures
            r.spec_path() == stdio_path(),
            r.spec_mode() == OpenMode::WriteBinary,
    {
        File::open_stdio(OpenMode::WriteBinary)
    }

    /// The request that opens the host's standard error stream, in append
    /// mode. Separating it from the output stream is an optional feature of
    /// the host, which may treat both alike.
    pub fn stderr() -> (r: OpenRequest)
        ensures
            r.spec_path() == stdio_path(),
            r.spec_mode() == OpenMode::AppendBinary,
    {
        File::open_stdio(OpenMode::AppendBinary)
    }

    fn open_stdio(mode: OpenMode) -> (r: OpenRequest)
        ensures
            r.spec_path() == stdio_path(),
            r.spec_mode() == mode,
    {
        let path: Vec<u8> = vec![0x3a, 0x74, 0x74, 0x00];
        assert(path@ == stdio_path());
        OpenRequest { path, mode }
    }

    /// The handle as a word.
    pub fn handle_word(&self) -> (r: usize)
        ensures
            r == self.handle(),
            valid_handle(r),
    {
        proof {
            use_type_invariant(self);
        }
        self.handle
    }

    /// The argument block that holds only the handle, for the requests
    /// that take nothing else.
    fn arg_block(&self) -> (r: Vec<usize>)
        ensures
            r@ == seq![self.handle()],
    {
        let mut words: Vec<usize> = Vec::new();
        words.push(self.handle);
        assert(words@ =~= seq![self.handle()]);
        words
    }

    /// The request that reads into the `buf_len` bytes at `buf_addr`, from
    /// the current position. The host returns how many bytes it did not read.
    pub fn read(&self, buf_addr: usize, buf_len: usize) -> (c: Call)
        ensures
            is_block_call(c, Op::Read, seq![self.handle(), buf_addr, buf_len]),
    {
        block3(Op::Read, self.handle, buf_addr, buf_len)
    }

    /// The request that writes the `buf_len` bytes at `buf_addr` at the
    /// current position. The host returns how many bytes it did not write.
    pub fn write(&self, buf_addr: usize, buf_len: usize) -> (c: Call)
        ensures
            is_block_call(c, Op::Write, seq![self.handle(), buf_addr, buf_len]),
    {
        block3(Op::Write, self.handle, buf_addr, buf_len)
    }

    /// The request that moves the position to `offset` bytes from the start.
    pub fn seek(&self, offset: usize) -> (c: Call)
        ensures
            is_block_call(c, Op::Seek, seq![self.handle(), offset]),
    {
        block2(Op::Seek, self.handle, offset)
    }

    /// What a seek returned: success unless the failure sentinel; the host's
    /// `errno` tells why it failed.
    pub fn seek_result(ret: usize) -> (r: Result<(), ()>)
        ensures
            r is Err <==> ret == FAILURE,
    {
        match check(ret) {
            Ok(_) => Ok(()),
            Err(()) => Err(()),
        }
    }

    /// The request for the file's length in bytes.
    pub fn len(&self) -> (c: Call)
        ensures
            is_block_call(c, Op::FLen, seq![self.handle()]),
    {
        Call { op: Op::FLen, param: Param::Block(self.arg_block()) }
    }

    /// What a length request returned.
    pub fn len_result(ret: usize) -> (r: Result<usize, ()>)
        ensures
            r == checked(ret),
    {
        check(ret)
    }

    /// Whether a file is empty, from the outcome of its length request. A
    /// length that could not be had counts as empty.
    pub fn is_empty(len: Result<usize, ()>) -> (r: bool)
        ensures
            r <==> (len is Err || len == Ok::<usize, ()>(0)),
    {
        match len {
            Ok(n) => n == 0,
            Err(()) => true,
        }
    }

    /// The request that asks whether the file is a terminal.
    pub fn is_tty(&self) -> (c: Call)
        ensures
            is_block_call(c, Op::IsTty, seq![self.handle()]),
    {
        Call { op: Op::IsTty, param: Param::Block(self.arg_block()) }
    }

    /// What a terminal query returned. This query never fails: `1` means a
    /// terminal, every other word means not one.
    pub fn is_tty_result(ret: usize) -> (r: bool)
        ensures
            r <==> ret == 1,
    {
        ret == 1
    }

    /// The request that releases the handle. It consumes the file.
    pub fn close(self) -> (c: Call)
        ensures
            is_block_call(c, Op::Close, seq![self.handle()]),
            after(self.state(), Op::Close, 0) is Closed,
    {
        Call { op: Op::Close, param: Param::Block(self.arg_block()) }
    }

    /// What a close returned.
    pub fn close_result(ret: usize) -> (r: Result<(), ()>)
        ensures
            r is Err <==> ret == FAILURE,
    {
        match check(ret) {
            Ok(_) => Ok(()),
            Err(()) => Err(()),
        }
    }
}

/// What the host's count of bytes not moved says was moved, for a request
/// on `requested` bytes: the difference, or `None` for a count larger than
/// the request, which no host gives.
pub open spec fn moved(requested: usize, not_moved: usize) -> Option<usize> {
    if not_moved <= requested {
        Some((requested - not_moved) as usize)
    } else {
        None
    }
}

/// How many bytes a read or a write moved, from the size of the request and
/// the count the host returned of the bytes it did not move. `0` is complete
/// success; a read at the end of the file moves fewer.
pub fn transferred(requested: usize, not_moved: usize) -> (r: Option<usize>)
    ensures
        r == moved(requested, not_moved),
{
    if not_moved <= requested {
        Some(requested - not_moved)
    } else {
        None
    }
}

/// The request for a temporary file name with identifier `id`, written into
/// the `buf_len` bytes at `buf_addr`. The same identifier gives the same
/// name. Its word goes through `check`.
pub fn tmp_name(buf_addr: usize, id: u8, buf_len: usize) -> (c: Call)
    ensures
        is_block_call(c, Op::TmpName, seq![buf_addr, id as usize, buf_len]),
{
    block3(Op::TmpName, buf_addr, id as usize, buf_len)
}

/// The request that deletes the file at the NUL-terminated `path`, which
/// lies at `path_addr`.
pub fn remove(path: &[u8], path_addr: usize) -> (c: Call)
    requires
        nul_terminated(path@),
    ensures
        is_block_call(c, Op::Remove, seq![path_addr, text_len(path@)]),
{
    block2(Op::Remove, path_addr, path.len() - 1)
}

/// The request that renames the file at `old` to `new`, both NUL-terminated,
/// which lie at `old_addr` and `new_addr`.
pub fn rename(old: &[u8], old_addr: usize, new: &[u8], new_addr: usize) -> (c: Call)
    requires
        nul_terminated(old@),
        nul_terminated(new@),
    ensures
        is_block_call(c, Op::Rename, seq![old_addr, text_len(old@), new_addr, text_len(new@)]),
{
    block4(Op::Rename, old_addr, old.len() - 1, new_addr, new.len() - 1)
}

/// What a remove or a rename returned: `0` is success, any other word is the
/// host's error code.
pub fn status(ret: usize) -> (r: Result<(), usize>)
    ensures
        r is Ok <==> ret == 0,
        r is Err ==> r == Err::<(), usize>(ret),
{
    if ret == 0 {
        Ok(())
    } else {
        Err(ret)
    }
}

/// A handle that an open gave is accepted by exactly the operations on an
/// open file; once closed it is accepted by none, so close comes at most once.
/// A failed open leaves no handle.
pub proof fn handle_lifecycle(ret: usize, op: Op, later: Op, later_ret: usize)
    ensures
        valid_handle(ret) ==> accepts(after(HandleState::Closed, Op::Open, ret), op) == handle_op(op),
        !valid_handle(ret) ==> after(HandleState::Closed, Op::Open, ret) is Closed,
        !accepts(after(after(HandleState::Closed, Op::Open, ret), Op::Close, later_ret), later),
        !accepts(HandleState::Closed, op),
{
}

/// A file from a successful open is in the open state of its handle, and the
/// requests built from it carry that handle.
pub proof fn opened_file_state(ret: usize, f: File)
    requires
        f.handle() == ret,
        valid_handle(ret),
    ensures
        f.state() == after(HandleState::Closed, Op::Open, ret),
        accepts(f.state(), Op::Close),
{
}

/// A transfer that moved every byte reports `0` bytes not moved, and one that
/// moved `m` of `len` bytes reports `len - m`, which reads back as `m`.
pub proof fn byte_accounting(len: usize, m: usize)
    requires
        m <= len,
    ensures
        moved(len, 0) == Some(len),
        moved(len, (len - m) as usize) == Some(m),
        moved(len, (len - m) as usize) == Some(len) <==> len - m == 0,
{
}

/// Each of the twelve modes, in the documented order, is sent as its position
/// in that order, and the code reads back as the same mode.
pub proof fn open_mode_codes(path_addr: usize, path: Seq<u8>, i: int, m: OpenMode)
    requires
        0 <= i < 12,
    ensures
        mode_code(m) < 12,
        mode_order()[mode_code(m) as int] == m,
        open_block(path_addr, path, mode_order()[i])[1] == i,
        mode_code(mode_order()[i]) == i,
        forall|j: int| 0 <= j < 12 && mode_order()[j] == mode_order()[i] ==> j == i,
{
}

} // verus!
