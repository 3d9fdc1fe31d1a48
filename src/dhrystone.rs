//! A Dhrystone-style integer workload, timed by the platform's cycle counter.
use vstd::prelude::*;

verus! {

/// Number of iterations of the workload.
pub const ITERATIONS: usize = 10_000;

/// A record of the workload.
pub struct Record {
    pub discr: i32,
    pub enum_comp: i32,
    pub int_comp: i32,
    pub string_comp: &'static str,
}

/// What the workload leaves behind.
pub struct DhrystoneRun {
    pub iterations: usize,
    /// The first record, which refers to the second.
    pub record1: Record,
    /// The record the first one refers to, after the last iteration wrote it.
    pub record2: Record,
    pub int3: i32,
}

/// Runs `ITERATIONS` rounds of integer arithmetic, a comparison, a write through a
/// record reference and a string slice.
pub fn run_dhrystone() -> (r: DhrystoneRun)
    ensures
        r.iterations == ITERATIONS,
        r.int3 == 6,
        r.record2.int_comp == 6,
        r.record2.string_comp@ == "DHRYSTONE STRING"@,
        r.record1.int_comp == 0,
        r.record1.string_comp@ == "DHRYSTONE PROGRAM, 1'ST STRING"@,
{
    let record1 = Record {
        discr: 0,
        enum_comp: 0,
        int_comp: 0,
        string_comp: "DHRYSTONE PROGRAM, 1'ST STRING",
    };
    let mut record2 = Record {
        discr: 0,
        enum_comp: 0,
        int_comp: 0,
        string_comp: "DHRYSTONE PROGRAM, 1'ST STRING",
    };
    let mut int3: i32 = 0;
    let char1: char = 'A';
    let char2: char = 'B';
    let mut n: usize = 0;
    while n < ITERATIONS
        invariant
            n <= ITERATIONS,
            char1 == 'A' && char2 == 'B',
            n > 0 ==> int3 == 6 && record2.int_comp == 6 && record2.string_comp@
                == "DHRYSTONE STRING"@,
            record1.int_comp == 0,
            record1.string_comp@ == "DHRYSTONE PROGRAM, 1'ST STRING"@,
        decreases ITERATIONS - n,
    {
        let int1: i32 = 2;
        let int2: i32 = 3;
        int3 = int1 + int2;
        if char1 != char2 {
            int3 = int3 + 1;
        }
        let target = &mut record2;
        target.int_comp = int3;
        target.string_comp = "DHRYSTONE STRING";
        n = n + 1;
    }
    DhrystoneRun { iterations: n, record1, record2, int3 }
}

/// Cycles elapsed between two readings of a free-running 64-bit counter, across at most
/// one wrap-around.
pub fn cycles_elapsed(start: u64, end: u64) -> (r: u64)
    ensures
        r as int == if end >= start { end - start } else { end + 0x1_0000_0000_0000_0000 - start },
{
    end.wrapping_sub(start)
}

} // verus!
