//! Resource quantities: memory sizes in bytes, time spans in milliseconds,
//! and the per-process resource snapshot reported with every run outcome.

use vstd::prelude::*;

verus! {

/// Copies a byte vector.
pub fn clone_bytes(v: &Vec<u8>) -> (r: Vec<u8>)
    ensures
        r@ == v@,
{
    let mut out: Vec<u8> = Vec::new();
    let n = v.len();
    for i in 0..n
        invariant
            n == v.len(),
            out@ == v@.subrange(0, i as int),
    {
        out.push(v[i]);
        assert(out@ =~= v@.subrange(0, (i + 1) as int));
    }
    assert(out@ =~= v@);
    out
}

/// An amount of memory, byte-granular.
#[derive(Debug, Clone, Copy, PartialEq, Eq, PartialOrd, Ord, Structural)]
pub struct MemorySize(usize);

impl View for MemorySize {
    type V = nat;

    closed spec fn view(&self) -> nat {
        self.0 as nat
    }
}

impl MemorySize {
    pub fn new(bytes: usize) -> (r: Self)
        ensures
            r@ == bytes as nat,
    {
        MemorySize(bytes)
    }

    pub fn as_bytes(&self) -> (r: usize)
        ensures
            r as nat == self@,
    {
        self.0
    }

    pub fn as_kilobytes(&self) -> (r: usize)
        ensures
            r as nat == self@ / 1024,
    {
        self.0 / 1024
    }

    pub fn as_megabytes(&self) -> (r: usize)
        ensures
            r as nat == self@ / 1024 / 1024,
    {
        self.as_kilobytes() / 1024
    }

    pub fn as_gigabytes(&self) -> (r: usize)
        ensures
            r as nat == self@ / 1024 / 1024 / 1024,
    {
        self.as_megabytes() / 1024
    }

    pub fn from_bytes(value: usize) -> (r: Self)
        ensures
            r@ == value as nat,
    {
        Self::new(value)
    }

    pub fn from_kilobytes(value: usize) -> (r: Self)
        requires
            value * 1024 <= usize::MAX,
        ensures
            r@ == value * 1024,
    {
        MemorySize::new(value * 1024)
    }

    pub fn from_megabytes(value: usize) -> (r: Self)
        requires
            value * 1024 * 1024 <= usize::MAX,
        ensures
            r@ == value * 1024 * 1024,
    {
        MemorySize::new(value * 1024 * 1024)
    }

    pub fn from_gigabytes(value: usize) -> (r: Self)
        requires
            value * 1024 * 1024 * 1024 <= usize::MAX,
        ensures
            r@ == value * 1024 * 1024 * 1024,
    {
        MemorySize::new(value * 1024 * 1024 * 1024)
    }

    /// Sum of two sizes.
    pub fn add(self, other: Self) -> (r: Self)
        requires
            self@ + other@ <= usize::MAX,
        ensures
            r@ == self@ + other@,
    {
        MemorySize::new(self.0 + other.0)
    }

    /// Difference of two sizes, saturating at zero.
    pub fn sub(self, other: Self) -> (r: Self)
        ensures
            self@ >= other@ ==> r@ == self@ - other@,
            self@ < other@ ==> r@ == 0,
    {
        if self.0 >= other.0 {
            MemorySize::new(self.0 - other.0)
        } else {
            MemorySize::new(0)
        }
    }
}

impl Default for MemorySize {
    fn default() -> (r: Self)
        ensures
            r@ == 0,
    {
        MemorySize(0)
    }
}

/// A span of time, millisecond-granular.
#[derive(Debug, Clone, Copy, PartialEq, Eq, PartialOrd, Ord, Structural)]
pub struct TimeSpan(u64);

impl View for TimeSpan {
    type V = nat;

    closed spec fn view(&self) -> nat {
        self.0 as nat
    }
}

impl TimeSpan {
    pub fn from_milliseconds(milliseconds: u64) -> (r: Self)
        ensures
            r@ == milliseconds as nat,
    {
        TimeSpan(milliseconds)
    }

    pub fn from_seconds(seconds: u64) -> (r: Self)
        requires
            seconds * 1000 <= u64::MAX,
        ensures
            r@ == seconds * 1000,
    {
        TimeSpan(seconds * 1000)
    }

    pub fn from_minutes(minutes: u64) -> (r: Self)
        requires
            minutes * 60 * 1000 <= u64::MAX,
        ensures
            r@ == minutes * 60 * 1000,
    {
        TimeSpan(minutes * 60 * 1000)
    }

    pub fn from_hours(hours: u64) -> (r: Self)
        requires
            hours * 60 * 60 * 1000 <= u64::MAX,
        ensures
            r@ == hours * 60 * 60 * 1000,
    {
        TimeSpan(hours * 60 * 60 * 1000)
    }

    pub fn as_milliseconds(&self) -> (r: u64)
        ensures
            r as nat == self@,
    {
        self.0
    }

    pub fn as_seconds(&self) -> (r: u64)
        ensures
            r as nat == self@ / 1000,
    {
        self.0 / 1000
    }

    pub fn as_minutes(&self) -> (r: u64)
        ensures
            r as nat == self@ / 1000 / 60,
    {
        self.0 / 60 / 1000
    }

    pub fn as_hours(&self) -> (r: u64)
        ensures
            r as nat == self@ / 1000 / 60 / 60,
    {
        self.0 / 60 / 60 / 1000
    }

    /// Sum of two spans.
    pub fn add(self, other: Self) -> (r: Self)
        requires
            self@ + other@ <= u64::MAX,
        ensures
            r@ == self@ + other@,
    {
        TimeSpan(self.0 + other.0)
    }

    /// Difference of two spans.
    pub fn sub(self, other: Self) -> (r: Self)
        requires
            self@ >= other@,
        ensures
            r@ == self@ - other@,
    {
        TimeSpan(self.0 - other.0)
    }
}

impl Default for TimeSpan {
    fn default() -> (r: Self)
        ensures
            r@ == 0,
    {
        TimeSpan(0)
    }
}

/// What one process execution is measured to have used: peak memory, wall
/// runtime, and the captured output streams.
#[derive(Debug)]
pub struct ProcessResource {
    pub runtime: TimeSpan,
    pub memory: MemorySize,
    pub stdout: Vec<u8>,
    pub stderr: Vec<u8>,
}

/// Mathematical image of a [`ProcessResource`].
pub ghost struct ProcessResourceView {
    pub runtime: nat,
    pub memory: nat,
    pub stdout: Seq<u8>,
    pub stderr: Seq<u8>,
}

impl ProcessResourceView {
    /// The placeholder snapshot of a process that never ran.
    pub open spec fn zero() -> ProcessResourceView {
        ProcessResourceView { runtime: 0, memory: 0, stdout: seq![], stderr: seq![] }
    }

    /// The same measurements with both streams withheld.
    pub open spec fn withholding_streams(self) -> ProcessResourceView {
        ProcessResourceView { runtime: self.runtime, memory: self.memory, stdout: seq![], stderr: seq![] }
    }
}

impl View for ProcessResource {
    type V = ProcessResourceView;

    open spec fn view(&self) -> ProcessResourceView {
        ProcessResourceView {
            runtime: self.runtime@,
            memory: self.memory@,
            stdout: self.stdout@,
            stderr: self.stderr@,
        }
    }
}

impl DeepView for ProcessResource {
    type V = ProcessResourceView;

    open spec fn deep_view(&self) -> ProcessResourceView {
        self.view()
    }
}

impl Clone for ProcessResource {
    fn clone(&self) -> (r: Self)
        ensures
            r@ == self@,
    {
        ProcessResource {
            runtime: self.runtime,
            memory: self.memory,
            stdout: clone_bytes(&self.stdout),
            stderr: clone_bytes(&self.stderr),
        }
    }
}

impl ProcessResource {
    /// The zero/empty placeholder used when a process never ran.
    pub fn default() -> (r: Self)
        ensures
            r@ == ProcessResourceView::zero(),
    {
        ProcessResource {
            runtime: TimeSpan::from_milliseconds(0),
            memory: MemorySize::new(0),
            stdout: Vec::new(),
            stderr: Vec::new(),
        }
    }
}

} // verus!
