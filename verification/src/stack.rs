use vstd::prelude::*;

verus! {

/// Accounting view of a generator's dedicated stack region: the total
/// capacity and the high-water mark of words the body has touched, both in
/// machine words. The region itself lives and dies with the generator; what
/// the engine needs from it — and what overflow detection is decided on — is
/// exactly these two numbers.
#[derive(Clone, Copy)]
pub struct Stack {
    size: usize,
    used: usize,
}

impl Stack {
    /// Total capacity, in words.
    pub closed spec fn size_spec(self) -> usize {
        self.size
    }

    /// High-water mark of used words.
    pub closed spec fn used_spec(self) -> usize {
        self.used
    }

    /// Allocate a fresh stack region of `size` words; nothing used yet.
    pub fn new(size: usize) -> (s: Stack)
        ensures
            s.size_spec() == size,
            s.used_spec() == 0,
    {
        Stack { size, used: 0 }
    }

    /// Total capacity, in words.
    pub fn size(&self) -> (r: usize)
        ensures
            r == self.size_spec(),
    {
        self.size
    }

    /// High-water mark of used words.
    pub fn get_used_size(&self) -> (r: usize)
        ensures
            r == self.used_spec(),
    {
        self.used
    }

    /// Record that the running body has touched `words` words of this stack.
    /// The high-water mark only ever grows; the capacity never changes.
    pub fn record_usage(&mut self, words: usize)
        ensures
            final(self).size_spec() == old(self).size_spec(),
            final(self).used_spec() == if words > old(self).used_spec() {
                words
            } else {
                old(self).used_spec()
            },
    {
        if words > self.used {
            self.used = words;
        }
    }
}

} // verus!
