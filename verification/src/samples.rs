use vstd::prelude::*;

verus! {

/// The signed 32-bit sample encoded little-endian in four bytes.
pub open spec fn le_i32(b0: u8, b1: u8, b2: u8, b3: u8) -> i32 {
    ((b0 as u32) | ((b1 as u32) << 8) | ((b2 as u32) << 16) | ((b3 as u32) << 24)) as i32
}

/// Decodes the raw capture buffer into exactly `count` signed 32-bit
/// samples: one per complete little-endian group of four bytes, oldest
/// first, zero-filled past the data's end.  (The shell converts each
/// sample to floating point before it enters the ring buffer.)
pub fn decode_samples(buf: &Vec<u8>, count: usize) -> (r: Vec<i32>)
    ensures
        r@.len() == count,
        forall|i: int| 0 <= i < count && 4 * i + 3 < buf@.len() ==> r@[i] == le_i32(
            buf@[4 * i],
            buf@[4 * i + 1],
            buf@[4 * i + 2],
            buf@[4 * i + 3],
        ),
        forall|i: int| 0 <= i < count && 4 * i + 3 >= buf@.len() ==> r@[i] == 0i32,
{
    let mut r: Vec<i32> = Vec::new();
    let mut i: usize = 0;
    while i < count
        invariant
            0 <= i <= count,
            r@.len() == i,
            forall|k: int| 0 <= k < i && 4 * k + 3 < buf@.len() ==> r@[k] == le_i32(
                buf@[4 * k],
                buf@[4 * k + 1],
                buf@[4 * k + 2],
                buf@[4 * k + 3],
            ),
            forall|k: int| 0 <= k < i && 4 * k + 3 >= buf@.len() ==> r@[k] == 0i32,
        decreases count - i,
    {
        if i < buf.len() / 4 {
            let b0 = buf[4 * i];
            let b1 = buf[4 * i + 1];
            let b2 = buf[4 * i + 2];
            let b3 = buf[4 * i + 3];
            let v = ((b0 as u32) | ((b1 as u32) << 8) | ((b2 as u32) << 16) | ((b3 as u32) << 24))
                as i32;
            r.push(v);
        } else {
            proof {
                assert(4 * (i as int) + 3 >= buf@.len());
            }
            r.push(0);
        }
        i = i + 1;
    }
    r
}

} // verus!
