//! A mock peripheral with an eight-byte receive buffer and a read cursor,
//! together with the drain routines exercised against it. The property of
//! interest is that draining any reported receive count within the buffer's
//! capacity never reads past the backing storage.

use vstd::prelude::*;

verus! {

/// A mock peripheral: eight bytes of backing storage and a read cursor.
pub struct Device {
    buffer: [u8; 8],
    read_pos: u8,
}

impl Device {
    /// The bytes currently in the backing storage.
    pub closed spec fn bytes(&self) -> Seq<u8> {
        self.buffer@
    }

    /// The position of the read cursor within the backing storage.
    pub closed spec fn cursor(&self) -> int {
        self.read_pos as int
    }

    /// The cursor never leaves the backing storage: it is at most the
    /// capacity, eight.
    pub open spec fn wf(&self) -> bool {
        0 <= self.cursor() <= 8
    }

    /// A freshly reset device: zeroed storage, cursor at the start.
    pub fn reset() -> (d: Device)
        ensures
            d.wf(),
            d.cursor() == 0,
            d.bytes().len() == 8,
            forall|i: int| 0 <= i < 8 ==> d.bytes()[i] == 0,
    {
        Device { buffer: [0u8; 8], read_pos: 0 }
    }

    /// The device reports that `n` bytes arrived: the read cursor returns
    /// to the start of the storage and the reported count is handed back.
    /// The count comes from the caller because on real hardware the
    /// peripheral, not the program, decides it — and may report more bytes
    /// than the storage can hold.
    pub fn received(&mut self, n: u8) -> (r: u8)
        ensures
            final(self).cursor() == 0,
            final(self).bytes() == old(self).bytes(),
            r == n,
    {
        self.read_pos = 0;
        n
    }

    /// Reads the byte under the cursor and advances the cursor by one.
    /// The caller must keep the cursor inside the backing storage.
    pub fn data(&mut self) -> (r: u8)
        requires
            old(self).cursor() < 8,
        ensures
            r == old(self).bytes()[old(self).cursor()],
            final(self).cursor() == old(self).cursor() + 1,
            final(self).bytes() == old(self).bytes(),
            final(self).wf(),
    {
        let r = self.buffer[self.read_pos as usize];
        self.read_pos = self.read_pos + 1;
        r
    }

}

/// Drains the reported receive count from a freshly reset device. For
/// every count within the capacity, verification shows that no read
/// leaves the backing storage.
pub fn device_test(n: u8)
    requires
        n <= 8,
{
    let mut device = Device::reset();
    let count = device.received(n);
    for i in 0..count
        invariant
            count <= 8,
            device.cursor() == i,
    {
        let _data = device.data();
    }
}

/// Drains the reported receive count from a freshly reset device and
/// sums the bytes read. A reset device's storage holds only zeroes, so
/// the sum is exactly zero — in particular the addition never overflows.
pub fn device_test_sum(n: u8) -> (sum: u8)
    requires
        n <= 8,
    ensures
        sum == 0,
{
    let mut device = Device::reset();
    let count = device.received(n);
    let mut sum: u8 = 0;
    for i in 0..count
        invariant
            count <= 8,
            device.cursor() == i,
            device.bytes().len() == 8,
            forall|j: int| 0 <= j < 8 ==> device.bytes()[j] == 0,
            sum == 0,
    {
        let b = device.data();
        sum = sum + b;
    }
    sum
}

} // verus!
