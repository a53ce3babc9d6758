//! Drivers that register themselves at link time, and their enumeration.
//!
//! A unit registers a driver by placing one `CallEntry` record in the
//! section that the linker gathers between two boundary symbols.  The
//! records lie back to back, in an order that the link decides.  A record is
//! a tag followed by the driver's initializer, each one machine word wide;
//! the stride of the walk is the size of that record.

use vstd::prelude::*;

verus! {

/// What a driver says of itself.
#[derive(Clone, Copy, Debug, PartialEq, Eq)]
pub struct Driver<'a> {
    /// The driver's name.
    pub name: &'a str,
    /// The device-tree `compatible` string that the driver binds to.
    pub compatible: &'a str,
}

impl<'a> View for Driver<'a> {
    type V = (Seq<char>, Seq<char>);

    /// The name and the compatible string, as text.
    open spec fn view(&self) -> (Seq<char>, Seq<char>) {
        (self.name@, self.compatible@)
    }
}

impl<'a> Driver<'a> {
    /// Describes a driver.
    pub fn info(name: &'a str, compatible: &'a str) -> (driver: Driver<'a>)
        ensures
            driver@ == (name@, compatible@),
    {
        Driver { name, compatible }
    }

    /// Describes a driver that is being registered.
    pub fn new(name: &'a str, compatible: &'a str) -> (driver: Driver<'a>)
        ensures
            driver@ == (name@, compatible@),
    {
        Driver { name, compatible }
    }
}

/// A registration record: a tag, and the initializer that yields the
/// driver's description.
pub struct CallEntry<F> {
    /// Tag that identifies the record.
    pub id: usize,
    /// The driver's initializer.
    pub init_fn: F,
}

/// Number of machine words in a record: the tag, then the initializer.
pub const CALL_ENTRY_WORDS: usize = 2;

/// Size of one record in bytes, which is the stride of the walk.
pub fn call_entry_size() -> (size: usize)
    ensures
        size == CALL_ENTRY_WORDS * vstd::layout::size_of::<usize>(),
        size == 8 || size == 16,
{
    broadcast use vstd::layout::layout_of_primitives;

    CALL_ENTRY_WORDS * core::mem::size_of::<usize>()
}

/// Initializer of the real-time clock driver.
pub fn drv0_init_fn() -> (driver: Driver<'static>)
    ensures
        driver@ == ("rtc"@, "google,goldfish-rtc"@),
{
    Driver::info("rtc", "google,goldfish-rtc")
}

/// Initializer of the serial port driver.
pub fn drv1_init_fn() -> (driver: Driver<'static>)
    ensures
        driver@ == ("uart"@, "ns16550a"@),
{
    Driver::info("uart", "ns16550a")
}

/// Number of records that a walk from `range_start` visits before it reaches
/// `range_end`: the size of the region in strides, a started stride counting
/// as a whole one.
pub open spec fn record_count(range_start: usize, range_end: usize, stride: usize) -> nat
    recommends
        stride > 0,
{
    if range_start < range_end {
        ((range_end - range_start + stride - 1) / (stride as int)) as nat
    } else {
        0
    }
}

/// Walks the registration region in strides of one record and lists the
/// address of each record, in the order of the walk.
pub fn initcall_addresses(range_start: usize, range_end: usize, stride: usize) -> (addrs: Vec<
    usize,
>)
    requires
        stride > 0,
    ensures
        addrs@.len() == record_count(range_start, range_end, stride),
        forall|i: int| 0 <= i < addrs@.len() ==> addrs@[i] == range_start + i * stride,
        range_start >= range_end ==> addrs@.len() == 0,
{
    let mut addrs: Vec<usize> = Vec::new();
    let mut cursor: usize = range_start;
    assert(0 * stride == 0);
    while cursor < range_end
        invariant
            stride > 0,
            range_start <= cursor,
            cursor < range_end ==> cursor == range_start + addrs@.len() * stride,
            cursor >= range_end ==> range_start + addrs@.len() * stride >= range_end,
            forall|i: int|
                0 <= i < addrs@.len() ==> addrs@[i] == range_start + i * stride && addrs@[i]
                    < range_end,
        decreases range_end - cursor,
    {
        let ghost n = addrs@.len() as int;
        addrs.push(cursor);
        assert((n + 1) * stride == n * stride + stride) by (nonlinear_arith);
        cursor = if range_end - cursor <= stride {
            range_end
        } else {
            cursor + stride
        };
    }
    proof {
        let visited = addrs@.len();
        if visited > 0 {
            assert(addrs@[visited - 1] == range_start + (visited - 1) * stride);
        }
        lemma_record_count(range_start, range_end, stride, visited);
    }
    addrs
}

/// A walk that stops at the first record at or beyond the end has visited
/// `record_count` records.
proof fn lemma_record_count(range_start: usize, range_end: usize, stride: usize, visited: nat)
    requires
        stride > 0,
        range_start + visited * stride >= range_end,
        visited > 0 ==> range_start + (visited - 1) * stride < range_end,
    ensures
        visited == record_count(range_start, range_end, stride),
{
    if range_start < range_end {
        let d = range_end - range_start;
        let s = stride as int;
        let v = visited as int;
        assert(v > 0);
        assert((d + s - 1) / s == v) by (nonlinear_arith)
            requires
                s > 0,
                d > 0,
                v > 0,
                v * s >= d,
                (v - 1) * s < d,
        ;
    } else {
        if visited > 0 {
            assert((visited - 1) * stride >= 0) by (nonlinear_arith)
                requires
                    visited > 0,
                    stride > 0,
            ;
        }
    }
}

/// A region of exactly `n` records holds `n` records.
pub proof fn lemma_whole_records(range_start: usize, range_end: usize, stride: usize, n: nat)
    requires
        stride > 0,
        range_end == range_start + n * stride,
    ensures
        record_count(range_start, range_end, stride) == n,
{
    let s = stride as int;
    let m = n as int;
    if n > 0 {
        assert(m * s > 0) by (nonlinear_arith)
            requires
                m > 0,
                s > 0,
        ;
        assert((m * s + s - 1) / s == m) by (nonlinear_arith)
            requires
                s > 0,
                m > 0,
        ;
    } else {
        assert(m * s == 0) by (nonlinear_arith)
            requires
                m == 0,
        ;
    }
}

/// Runs the initializer of every record, once each and in the order of the
/// records, and collects the descriptions.
pub fn traverse_drivers<F: Fn() -> Driver<'static>>(entries: &[CallEntry<F>]) -> (found: Vec<
    Driver<'static>,
>)
    requires
        forall|i: int| 0 <= i < entries@.len() ==> call_requires(#[trigger] entries@[i].init_fn, ()),
    ensures
        found@.len() == entries@.len(),
        forall|i: int|
            0 <= i < entries@.len() ==> call_ensures(entries@[i].init_fn, (), #[trigger] found@[i]),
{
    let mut found: Vec<Driver<'static>> = Vec::new();
    let mut i: usize = 0;
    while i < entries.len()
        invariant
            i <= entries@.len(),
            found@.len() == i,
            forall|j: int|
                0 <= j < entries@.len() ==> call_requires(#[trigger] entries@[j].init_fn, ()),
            forall|j: int|
                0 <= j < i ==> call_ensures(entries@[j].init_fn, (), #[trigger] found@[j]),
        decreases entries@.len() - i,
    {
        let driver = (entries[i].init_fn)();
        found.push(driver);
        i = i + 1;
    }
    found
}

} // verus!
