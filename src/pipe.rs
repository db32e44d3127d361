//! Bookkeeping of one anonymous pipe that connects the standard output of one
//! stage with the standard input of the next.
//!
//! A `Pipe` exists once per address space: it is created in the launching
//! process and copied into each child by the fork, so its flags are never
//! shared between processes. Its methods do not touch the descriptors
//! themselves; they return the descriptor operations that the calling process
//! performs, in order.

use vstd::prelude::*;

verus! {

/// The descriptor of standard input.
pub const STDIN_FILENO: i32 = 0;

/// The descriptor of standard output.
pub const STDOUT_FILENO: i32 = 1;

/// One of the two ends of a pipe.
#[derive(Debug, Clone, Copy, PartialEq, Eq, Structural)]
pub enum PipeEnd {
    Read,
    Write,
}

/// An operation on file descriptors that the calling process performs.
#[derive(Debug, Clone, Copy, PartialEq, Eq, Structural)]
pub enum FdOp {
    /// Close the descriptor.
    Close(i32),
    /// Duplicate descriptor `from` onto descriptor `onto`.
    Dup2 { from: i32, onto: i32 },
}

/// Mathematical model of a pipe in one address space.
pub struct PipeModel {
    pub read_fd: i32,
    pub write_fd: i32,
    pub locked: bool,
    pub read_closed: bool,
    pub write_closed: bool,
}

/// The descriptor of one end of a pipe.
pub open spec fn end_fd(p: PipeModel, pe: PipeEnd) -> i32 {
    match pe {
        PipeEnd::Read => p.read_fd,
        PipeEnd::Write => p.write_fd,
    }
}

/// A pipe with both ends open that no end was claimed of.
pub open spec fn fresh(p: PipeModel) -> bool {
    !p.locked && !p.read_closed && !p.write_closed
}

/// What claiming the read end performs: close the write end, then wire the
/// read end to standard input.
pub open spec fn read_claim_ops(p: PipeModel) -> Seq<FdOp> {
    seq![FdOp::Close(p.write_fd), FdOp::Dup2 { from: p.read_fd, onto: STDIN_FILENO }]
}

/// What claiming the write end performs: close the read end, then wire the
/// write end to standard output.
pub open spec fn write_claim_ops(p: PipeModel) -> Seq<FdOp> {
    seq![FdOp::Close(p.read_fd), FdOp::Dup2 { from: p.write_fd, onto: STDOUT_FILENO }]
}

/// What releasing a pipe performs: close each end that is still open, the
/// write end first.
pub open spec fn release_ops(p: PipeModel) -> Seq<FdOp> {
    (if p.write_closed { Seq::empty() } else { seq![FdOp::Close(p.write_fd)] }) + (if p.read_closed {
        Seq::empty()
    } else {
        seq![FdOp::Close(p.read_fd)]
    })
}

/// Abstraction over a UNIX pipe that connects one process's standard output
/// with the next process's standard input. A launching process creates n
/// children and n-1 pipes; each child knows the pipe that feeds it and the pipe
/// that it feeds.
///
/// ```text
/// _______________    _______________    _________
/// | cat foo.txt |    | grep -i abc |    | wc -l |
/// ---------------    ---------------    ---------
///             ^        ^         ^        ^
///       WRITE |--------|  R / W  |--------| READ
///       END               E   E             END
///                    (current child)
///         -Pipe to Current-   -Pipe to Next-
/// ```
#[derive(Debug)]
pub struct Pipe {
    /// The descriptor of the read end.
    read_fd: i32,
    /// The descriptor of the write end.
    write_fd: i32,
    /// Whether an end was claimed already in this address space.
    locked: bool,
    /// Whether the read end was closed already.
    read_closed: bool,
    /// Whether the write end was closed already.
    write_closed: bool,
}

impl View for Pipe {
    type V = PipeModel;

    closed spec fn view(&self) -> PipeModel {
        PipeModel {
            read_fd: self.read_fd,
            write_fd: self.write_fd,
            locked: self.locked,
            read_closed: self.read_closed,
            write_closed: self.write_closed,
        }
    }
}

impl Pipe {
    /// The bookkeeping of a pipe that the operating system just created with
    /// the given two descriptors: both ends open, no end claimed.
    pub fn new(read_fd: i32, write_fd: i32) -> (r: Self)
        ensures
            r@ == (PipeModel {
                read_fd,
                write_fd,
                locked: false,
                read_closed: false,
                write_closed: false,
            }),
    {
        Pipe { read_fd, write_fd, locked: false, read_closed: false, write_closed: false }
    }

    /// The descriptor of one end.
    fn fd(&self, pe: PipeEnd) -> (r: i32)
        ensures
            r == end_fd(self@, pe),
    {
        match pe {
            PipeEnd::Read => self.read_fd,
            PipeEnd::Write => self.write_fd,
        }
    }

    /// Claims the pipe in this address space as the read end: the write end is
    /// closed and the read end becomes standard input. Only once per pipe.
    pub fn as_read_end(&mut self) -> (ops: Vec<FdOp>)
        requires
            fresh(old(self)@),
        ensures
            ops@ == read_claim_ops(old(self)@),
            final(self)@ == (PipeModel { locked: true, write_closed: true, ..old(self)@ }),
    {
        self.locked = true;
        let mut ops: Vec<FdOp> = Vec::new();
        ops.push(self.close_pipe_end(PipeEnd::Write));
        self.write_closed = true;
        ops.push(self.connect_pipe_end(PipeEnd::Read, STDIN_FILENO));
        assert(ops@ =~= read_claim_ops(old(self)@));
        ops
    }

    /// Claims the pipe in this address space as the write end: the read end is
    /// closed and the write end becomes standard output. Only once per pipe.
    pub fn as_write_end(&mut self) -> (ops: Vec<FdOp>)
        requires
            fresh(old(self)@),
        ensures
            ops@ == write_claim_ops(old(self)@),
            final(self)@ == (PipeModel { locked: true, read_closed: true, ..old(self)@ }),
    {
        self.locked = true;
        let mut ops: Vec<FdOp> = Vec::new();
        ops.push(self.close_pipe_end(PipeEnd::Read));
        self.read_closed = true;
        ops.push(self.connect_pipe_end(PipeEnd::Write, STDOUT_FILENO));
        assert(ops@ =~= write_claim_ops(old(self)@));
        ops
    }

    /// Wires one end of the pipe to standard input or standard output.
    fn connect_pipe_end(&self, pe: PipeEnd, file_no: i32) -> (op: FdOp)
        requires
            file_no == STDIN_FILENO || file_no == STDOUT_FILENO,
        ensures
            op == (FdOp::Dup2 { from: end_fd(self@, pe), onto: file_no }),
    {
        FdOp::Dup2 { from: self.fd(pe), onto: file_no }
    }

    /// Closes the descriptor of one end.
    fn close_pipe_end(&self, pe: PipeEnd) -> (op: FdOp)
        ensures
            op == FdOp::Close(end_fd(self@, pe)),
    {
        FdOp::Close(self.fd(pe))
    }

    /// Releases both ends in a process that uses neither: each end that is
    /// still open is closed, and closing again does nothing. The launching
    /// process must do this once a child has its copy of the pipe, or the
    /// reader would never see the end of the stream. Dropping a pipe's
    /// descriptors on any other path goes through here too.
    pub fn parent_close_all(&mut self) -> (ops: Vec<FdOp>)
        ensures
            ops@ == release_ops(old(self)@),
            final(self)@ == (PipeModel { read_closed: true, write_closed: true, ..old(self)@ }),
    {
        let mut ops: Vec<FdOp> = Vec::new();
        if !self.write_closed {
            ops.push(self.close_pipe_end(PipeEnd::Write));
            self.write_closed = true;
        }
        if !self.read_closed {
            ops.push(self.close_pipe_end(PipeEnd::Read));
            self.read_closed = true;
        }
        assert(ops@ =~= release_ops(old(self)@));
        ops
    }
}

} // verus!
