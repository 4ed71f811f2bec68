use vstd::prelude::*;

verus! {

/// Byte accounting of a progress display for a transfer of known size.
///
/// Each write that the display accepts adds to the running count; the write
/// that brings the count exactly to the declared total signals completion.
/// A transfer that overshoots the total never signals it.
#[derive(Debug)]
pub struct ConsoleProgressBar {
    total: u64,
    current: u64,
}

/// Whether a write of `n` bytes, on top of `current` already seen, completes
/// a transfer of `total` bytes.
pub open spec fn completes(current: nat, n: nat, total: nat) -> bool {
    n > 0 && current + n == total
}

impl ConsoleProgressBar {
    pub closed spec fn declared_total(&self) -> nat {
        self.total as nat
    }

    pub closed spec fn bytes_seen(&self) -> nat {
        self.current as nat
    }

    pub fn new() -> (r: ConsoleProgressBar)
        ensures
            r.declared_total() == 0,
            r.bytes_seen() == 0,
    {
        ConsoleProgressBar { total: 0, current: 0 }
    }

    /// Declares the size of the transfer.
    pub fn size(&mut self, size: u64)
        ensures
            final(self).declared_total() == size,
            final(self).bytes_seen() == old(self).bytes_seen(),
    {
        self.total = size;
    }

    pub fn total(&self) -> (r: u64)
        ensures
            r == self.declared_total(),
    {
        self.total
    }

    pub fn current(&self) -> (r: u64)
        ensures
            r == self.bytes_seen(),
    {
        self.current
    }

    /// Accounts for `n` bytes accepted by the display; returns whether this
    /// write completes the transfer, in which case the caller ends the line.
    pub fn advance(&mut self, n: u64) -> (finished: bool)
        requires
            old(self).bytes_seen() + n <= u64::MAX,
        ensures
            final(self).bytes_seen() == old(self).bytes_seen() + n,
            final(self).declared_total() == old(self).declared_total(),
            finished == completes(old(self).bytes_seen(), n as nat, old(self).declared_total()),
    {
        self.current = self.current + n;
        n > 0 && self.current == self.total
    }
}

impl Default for ConsoleProgressBar {
    fn default() -> (r: ConsoleProgressBar)
        ensures
            r.declared_total() == 0,
            r.bytes_seen() == 0,
    {
        ConsoleProgressBar::new()
    }
}

/// Completion is signalled at most once: after a write that completes the
/// transfer, no later write completes it again, whatever its size.
pub proof fn completion_is_signalled_once(current: nat, n1: nat, n2: nat, total: nat)
    requires
        completes(current, n1, total),
    ensures
        !completes(current + n1, n2, total),
{
}

/// A transfer written in pieces that add up to the total signals completion
/// on the last non-empty piece, and on no earlier one.
pub proof fn completion_on_exact_total(first: nat, second: nat, total: nat)
    requires
        first + second == total,
        second > 0,
    ensures
        !completes(0, first, total),
        completes(first, second, total),
{
}

} // verus!
