//! The debugger's process: how it is started, and what is kept of what it writes to its error
//! stream.

use vstd::prelude::*;

use crate::bytes;
use crate::error::{BackendError, BackendErrorView};
use crate::text;

verus! {

/// How many bytes are kept unless another number is asked for.
pub const DEFAULT_STDERR_CAP: usize = 4096;

/// The last `n` elements of `s`, or all of it when there are fewer.
pub open spec fn last_n(s: Seq<u8>, n: nat) -> Seq<u8> {
    if s.len() <= n {
        s
    } else {
        s.skip(s.len() - n)
    }
}

/// The last bytes that were written, up to a fixed number.
#[derive(Debug)]
pub struct StderrBuffer {
    inner: Vec<u8>,
    size: usize,
}

impl View for StderrBuffer {
    type V = Seq<u8>;

    /// The bytes that are kept.
    closed spec fn view(&self) -> Seq<u8> {
        self.inner@
    }
}

impl StderrBuffer {
    /// How many bytes are kept at most.
    pub closed spec fn limit(self) -> nat {
        self.size as nat
    }

    /// No more is kept than may be.
    pub open spec fn wf(self) -> bool {
        self.limit() > 0 && self@.len() <= self.limit()
    }

    /// Keeps the last `size` bytes; of size zero, the default number.
    pub fn new(size: usize) -> (buffer: Self)
        ensures
            buffer.wf(),
            buffer@ == Seq::<u8>::empty(),
            buffer.limit() == (if size == 0 {
                DEFAULT_STDERR_CAP
            } else {
                size
            }),
    {
        let size: usize = if size == 0 {
            DEFAULT_STDERR_CAP
        } else {
            size
        };
        StderrBuffer { inner: Vec::new(), size }
    }

    /// How many bytes are kept at most.
    pub fn capacity(&self) -> (n: usize)
        ensures
            n == self.limit(),
    {
        self.size
    }

    /// Takes `data` in, and lets go of the oldest bytes beyond the limit. All of `data` counts as
    /// written.
    pub fn write(&mut self, data: &[u8]) -> (n: usize)
        requires
            old(self).wf(),
        ensures
            final(self).wf(),
            final(self).limit() == old(self).limit(),
            final(self)@ == last_n(old(self)@ + data@, old(self).limit()),
            n == data@.len(),
    {
        let n: usize = data.len();
        let ghost before = self.inner@;
        if n >= self.size {
            let tail = vstd::slice::slice_subrange(data, n - self.size, n);
            self.inner.clear();
            self.inner.extend_from_slice(tail);
            assert(self.inner@ =~= last_n(before + data@, self.size as nat));
            return n;
        }
        self.inner.extend_from_slice(data);
        assert(self.inner@ =~= before + data@);
        if self.inner.len() > self.size {
            let excess: usize = self.inner.len() - self.size;
            let kept = self.inner.split_off(excess);
            self.inner = kept;
            assert(self.inner@ =~= last_n(before + data@, self.size as nat));
        }
        n
    }

    /// The kept bytes as text, with replacement characters for what is not UTF-8.
    pub fn contents(&self) -> (text: String)
        ensures
            text@ == bytes::lossy(self@),
            vstd::utf8::valid_utf8(self@) ==> text@ == vstd::utf8::decode_utf8(self@),
    {
        bytes::lossy_text(self.inner.as_slice())
    }
}

/// What is kept does not depend on how the bytes were divided into writes: it is always the end
/// of everything that was written.
pub proof fn law_writes_add_up(start: Seq<u8>, first: Seq<u8>, second: Seq<u8>, limit: nat)
    ensures
        last_n(last_n(start + first, limit) + second, limit) == last_n(
            start + (first + second),
            limit,
        ),
{
    assert(last_n(last_n(start + first, limit) + second, limit) =~= last_n(
        start + (first + second),
        limit,
    ));
}

/// The arguments that the debugger is started with: raw command mode is asked for exactly where
/// the binary has it.
pub fn spawn_args(is_lldb_dap: bool) -> (arguments: Vec<String>)
    ensures
        is_lldb_dap ==> crate::model::views(arguments@) == seq!["--repl-mode=command"@],
        !is_lldb_dap ==> arguments@.len() == 0,
{
    let mut arguments: Vec<String> = Vec::new();
    if is_lldb_dap {
        arguments.push("--repl-mode=command".to_owned());
        assert(crate::model::views(arguments@) =~= seq!["--repl-mode=command"@]);
    }
    arguments
}

/// The failure to start the program shown as `program`, because of `reason`.
pub fn spawn_failure(program: &str, reason: &str) -> (err: BackendError)
    ensures
        err@ == BackendErrorView::Spawn("starting subprocess "@ + program@ + ": "@ + reason@),
{
    BackendError::Spawn(text::concat4("starting subprocess ", program, ": ", reason))
}

/// The failure to get hold of the pipe called `name`.
pub open spec fn no_pipe(name: Seq<char>) -> BackendErrorView {
    BackendErrorView::Spawn("creating "@ + name + " pipe: no handle"@)
}

/// Whether the process can be used, given which of its pipes there are. The first that is missing
/// is the error.
pub fn check_pipes(stdin: bool, stdout: bool, stderr: bool) -> (outcome: Result<(), BackendError>)
    ensures
        match outcome {
            Ok(_) => stdin && stdout && stderr,
            Err(err) => if !stdin {
                err@ == no_pipe("stdin"@)
            } else if !stdout {
                err@ == no_pipe("stdout"@)
            } else {
                !stderr && err@ == no_pipe("stderr"@)
            },
        },
{
    let missing: &str = if !stdin {
        "stdin"
    } else if !stdout {
        "stdout"
    } else if !stderr {
        "stderr"
    } else {
        return Ok(());
    };
    Err(BackendError::Spawn(text::concat3("creating ", missing, " pipe: no handle")))
}

} // verus!
