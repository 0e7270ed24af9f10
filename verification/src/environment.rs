//! The machine's storage regions: a fixed-capacity word store used for both
//! main memory (32768 words) and the register file (8 words), and an
//! unbounded last-in-first-out stack of words.

use vstd::prelude::*;

verus! {

/// A fixed-capacity array of `N` 16-bit cells with bounds-checked access,
/// zero-initialized. Main memory is a `Memory<32768>`; the register file is
/// a `Memory<8>`.
pub struct Memory<const N: usize> {
    words: Vec<u16>,
}

impl<const N: usize> View for Memory<N> {
    type V = Seq<u16>;

    closed spec fn view(&self) -> Seq<u16> {
        self.words@
    }
}

impl<const N: usize> Memory<N> {
    /// The capacity is fixed: the store always holds exactly `N` words.
    pub open spec fn wf(&self) -> bool {
        self@.len() == N
    }

    /// A zero-initialized store of `N` words.
    pub fn new() -> (r: Memory<N>)
        ensures
            r.wf(),
            forall|i: int| 0 <= i < N ==> r@[i] == 0,
    {
        let mut words: Vec<u16> = Vec::new();
        let mut i: usize = 0;
        while i < N
            invariant
                i <= N,
                words@.len() == i,
                forall|j: int| 0 <= j < i ==> words@[j] == 0,
            decreases N - i,
        {
            words.push(0);
            i = i + 1;
        }
        Memory { words }
    }

    /// Store `value` in the cell at `address`.
    pub fn write(&mut self, address: u16, value: u16)
        requires
            old(self).wf(),
            address < N,
        ensures
            final(self).wf(),
            final(self)@ == old(self)@.update(address as int, value),
    {
        let i: usize = address as usize;
        self.words.set(i, value);
    }

    /// The word stored in the cell at `address`.
    pub fn read(&self, address: u16) -> (r: u16)
        requires
            self.wf(),
            address < N,
        ensures
            r == self@[address as int],
    {
        self.words[address as usize]
    }
}

/// Copy a program image, one 16-bit word per cell, into memory starting at
/// address 0. Cells past the end of the image keep their previous contents
/// (zero, for a freshly created memory).
pub fn load_into_memory(memory: &mut Memory<32768>, image: &Vec<u16>)
    requires
        old(memory).wf(),
        image@.len() <= 32768,
    ensures
        final(memory).wf(),
        forall|i: int| 0 <= i < image@.len() ==> final(memory)@[i] == image@[i],
        forall|i: int|
            image@.len() <= i < 32768 ==> final(memory)@[i] == old(memory)@[i],
{
    let mut i: usize = 0;
    while i < image.len()
        invariant
            memory.wf(),
            image@.len() <= 32768,
            i <= image@.len(),
            forall|j: int| 0 <= j < i ==> memory@[j] == image@[j],
            forall|j: int| i <= j < 32768 ==> memory@[j] == old(memory)@[j],
        decreases image@.len() - i,
    {
        memory.write(i as u16, image[i]);
        i = i + 1;
    }
}

/// A growable last-in-first-out stack of 16-bit words, initially empty.
pub struct Stack {
    items: Vec<u16>,
}

impl View for Stack {
    type V = Seq<u16>;

    closed spec fn view(&self) -> Seq<u16> {
        self.items@
    }
}

impl Stack {
    /// A freshly created, empty stack.
    pub fn new() -> (r: Stack)
        ensures
            r@ == Seq::<u16>::empty(),
    {
        Stack { items: Vec::new() }
    }

    /// The stack grows by one word at the top.
    pub fn push(&mut self, value: u16)
        ensures
            final(self)@ == old(self)@.push(value),
    {
        self.items.push(value);
    }

    /// Remove and return the top word, or `None` when the stack is empty.
    pub fn pop(&mut self) -> (r: Option<u16>)
        ensures
            old(self)@.len() == 0 ==> r is None && final(self)@ == old(self)@,
            old(self)@.len() > 0 ==> r == Some(old(self)@.last())
                && final(self)@ == old(self)@.drop_last(),
    {
        self.items.pop()
    }

    /// The number of words on the stack.
    pub fn len(&self) -> (r: usize)
        ensures
            r == self@.len(),
    {
        self.items.len()
    }
}

} // verus!
