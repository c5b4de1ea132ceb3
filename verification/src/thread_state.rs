//! State of a background panel worker.
use vstd::prelude::*;
use crate::decimal::{nat_decimal, spec_decimal};

verus! {

/// State per thread.
pub struct ThreadState {
    pub thread_nr: usize,
    pub title: String,
    pub name: String,
    pub age: u32,
}

impl ThreadState {
    /// Creates the state of worker `thread_nr`: titled "Background thread N",
    /// named "Arthur", aged `12 + 10 * thread_nr`.
    pub fn new(thread_nr: usize) -> (res: ThreadState)
        requires
            12 + 10 * (thread_nr as u32) <= u32::MAX,
        ensures
            res.thread_nr == thread_nr,
            res.title@ == "Background thread "@ + spec_decimal(thread_nr as nat),
            res.name@ == "Arthur"@,
            res.age == 12 + 10 * (thread_nr as u32),
    {
        let digits = nat_decimal(thread_nr as u64);
        let title = String::from_str("Background thread ").concat(digits.as_str());
        ThreadState {
            thread_nr,
            title,
            name: String::from_str("Arthur"),
            age: 12 + thread_nr as u32 * 10,
        }
    }
}

} // verus!
