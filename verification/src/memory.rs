//! The machine's memory: 65536 16-bit words, addressed by a word.
//!
//! Two addresses are reserved as memory-mapped keyboard registers. Reading
//! the keyboard-status address is the machine's way of polling the keyboard:
//! the host hands the polled byte to [`Memory::poll_keyboard`], which applies
//! the documented side effect to the two reserved slots; every other address
//! is passive storage, and writes are passive everywhere.

use vstd::prelude::*;

verus! {

/// How many words the address space holds.
pub const MEMORY_SIZE: usize = 0x10000;

/// The keyboard-status register: a read here polls the keyboard.
pub const KEY_BOARD_STATUS: u16 = 0xFE00;

/// The keyboard-data register: holds the last byte the keyboard delivered.
pub const KEY_BOARD_DATA: u16 = 0xFE02;

/// The ready sentinel the status register holds after a successful poll.
pub const KEY_READY: u16 = 0x8000;

/// Why a program image is rejected.
#[derive(Debug, Clone, Copy, PartialEq, Eq)]
pub enum LoadError {
    /// The image holds no origin word.
    EmptyImage,
    /// The image's byte length is odd, so it is not a word sequence.
    OddLength,
    /// The image's words would run past the end of the address space.
    TooLarge,
}

/// An addressable array of 65536 words, with the loaded program's bounds.
#[derive(Debug)]
pub struct Memory {
    data: Vec<u16>,
    /// The load origin: the address of the first loaded word.
    pub pc_start: usize,
    /// One past the address of the last loaded word.
    pub pc_end: usize,
}

impl View for Memory {
    type V = Seq<u16>;

    closed spec fn view(&self) -> Seq<u16> {
        self.data@
    }
}

/// The big-endian word two bytes spell.
pub open spec fn be_word(hi: u8, lo: u8) -> u16 {
    (hi * 0x100 + lo) as u16
}

/// What polling the keyboard with one host byte does to memory: a non-zero
/// byte sets the ready sentinel and stores the byte in the data register; a
/// zero byte clears the sentinel.
pub open spec fn poll_spec(mem: Seq<u16>, byte: u8) -> Seq<u16> {
    if byte != 0 {
        mem.update(KEY_BOARD_STATUS as int, KEY_READY).update(KEY_BOARD_DATA as int, byte as u16)
    } else {
        mem.update(KEY_BOARD_STATUS as int, 0)
    }
}

impl Memory {
    /// The whole address space is represented.
    pub open spec fn wf(&self) -> bool {
        self@.len() == MEMORY_SIZE
    }

    /// The load origin, as specifications see it.
    pub closed spec fn spec_pc_start(&self) -> usize {
        self.pc_start
    }

    /// One past the last loaded address, as specifications see it.
    pub closed spec fn spec_pc_end(&self) -> usize {
        self.pc_end
    }

    /// The load origin: where the loaded program's first word lies.
    pub fn pc_start(&self) -> (r: usize)
        ensures
            r == self.spec_pc_start(),
    {
        self.pc_start
    }

    /// One past the address of the loaded program's last word.
    pub fn pc_end(&self) -> (r: usize)
        ensures
            r == self.spec_pc_end(),
    {
        self.pc_end
    }

    /// A memory of all zero words with no program loaded.
    pub fn new() -> (r: Memory)
        ensures
            r.wf(),
            forall|a: int| 0 <= a < MEMORY_SIZE ==> r@[a] == 0,
            r.spec_pc_start() == 0,
            r.spec_pc_end() == 0,
    {
        let mut data: Vec<u16> = Vec::new();
        let mut i: usize = 0;
        while i < MEMORY_SIZE
            invariant
                i <= MEMORY_SIZE,
                data@.len() == i,
                forall|a: int| 0 <= a < i ==> data@[a] == 0,
            decreases MEMORY_SIZE - i,
        {
            data.push(0);
            i = i + 1;
        }
        Memory { data, pc_start: 0, pc_end: 0 }
    }

    /// Loads a program image: a sequence of big-endian words whose first
    /// word is the load origin; the remaining words are copied to
    /// consecutive addresses from the origin on, and the rest of memory is
    /// zero. Rejects an image with no origin word, an odd byte length, or
    /// more words than fit between the origin and the end of the address
    /// space.
    pub fn from_image(bytes: &[u8]) -> (r: Result<Memory, LoadError>)
        ensures
            bytes@.len() % 2 != 0 ==> r == Err::<Memory, LoadError>(LoadError::OddLength),
            bytes@.len() == 0 ==> r == Err::<Memory, LoadError>(LoadError::EmptyImage),
            (bytes@.len() % 2 == 0 && bytes@.len() > 0) ==> {
                let origin = be_word(bytes@[0], bytes@[1]) as int;
                let n_words = (bytes@.len() - 2) / 2;
                if origin + n_words > MEMORY_SIZE {
                    r == Err::<Memory, LoadError>(LoadError::TooLarge)
                } else {
                    &&& r matches Ok(m)
                    &&& m.wf()
                    &&& m.spec_pc_start() == origin
                    &&& m.spec_pc_end() == origin + n_words
                    &&& forall|k: int|
                        0 <= k < n_words ==> #[trigger] m@[origin + k] == be_word(
                            bytes@[2 + 2 * k],
                            bytes@[3 + 2 * k],
                        )
                    &&& forall|a: int|
                        0 <= a < MEMORY_SIZE && !(origin <= a < origin + n_words) ==> m@[a] == 0
                }
            },
    {
        let len = bytes.len();
        if len % 2 != 0 {
            return Err(LoadError::OddLength);
        }
        if len == 0 {
            return Err(LoadError::EmptyImage);
        }
        let hi = *vstd::slice::slice_index_get(bytes, 0);
        let lo = *vstd::slice::slice_index_get(bytes, 1);
        let origin: usize = (hi as usize) * 0x100 + (lo as usize);
        let n_words: usize = (len - 2) / 2;
        if origin + n_words > MEMORY_SIZE {
            return Err(LoadError::TooLarge);
        }
        let mut memory = Memory::new();
        let mut k: usize = 0;
        while k < n_words
            invariant
                k <= n_words,
                memory.wf(),
                origin + n_words <= MEMORY_SIZE,
                n_words == (bytes@.len() - 2) / 2,
                bytes@.len() % 2 == 0,
                origin == be_word(bytes@[0], bytes@[1]),
                forall|j: int|
                    0 <= j < k ==> #[trigger] memory@[origin + j] == be_word(
                        bytes@[2 + 2 * j],
                        bytes@[3 + 2 * j],
                    ),
                forall|a: int|
                    0 <= a < MEMORY_SIZE && !(origin <= a < origin + k) ==> memory@[a] == 0,
            decreases n_words - k,
        {
            let hi_k = *vstd::slice::slice_index_get(bytes, 2 + 2 * k);
            let lo_k = *vstd::slice::slice_index_get(bytes, 3 + 2 * k);
            let word: u16 = (hi_k as u16) * 0x100 + (lo_k as u16);
            memory.write_memory((origin + k) as u16, word);
            k = k + 1;
        }
        memory.pc_start = origin;
        memory.pc_end = origin + n_words;
        Ok(memory)
    }

    /// Writes one word; every address, the reserved ones included, is an
    /// ordinary storage slot for writes.
    pub fn write_memory(&mut self, location: u16, value: u16)
        requires
            old(self).wf(),
        ensures
            final(self).wf(),
            final(self)@ == old(self)@.update(location as int, value),
            final(self).spec_pc_start() == old(self).spec_pc_start(),
            final(self).spec_pc_end() == old(self).spec_pc_end(),
    {
        self.data.set(location as usize, value);
    }

    /// Reads one word of storage. Reading has no side effect here: when the
    /// engine reads the keyboard-status address it first applies
    /// [`Memory::poll_keyboard`] with the byte the host delivered, and the
    /// polled state is then read back like any other word.
    pub fn read_memory(&self, location: u16) -> (r: u16)
        requires
            self.wf(),
        ensures
            r == self@[location as int],
    {
        *self.data.get(location as usize).unwrap()
    }

    /// Applies the keyboard poll a read of the status address triggers,
    /// given the byte the host's blocking read delivered.
    pub fn poll_keyboard(&mut self, byte: u8)
        requires
            old(self).wf(),
        ensures
            final(self).wf(),
            final(self)@ == poll_spec(old(self)@, byte),
            final(self).spec_pc_start() == old(self).spec_pc_start(),
            final(self).spec_pc_end() == old(self).spec_pc_end(),
    {
        if byte != 0 {
            self.data.set(KEY_BOARD_STATUS as usize, KEY_READY);
            self.data.set(KEY_BOARD_DATA as usize, byte as u16);
        } else {
            self.data.set(KEY_BOARD_STATUS as usize, 0);
        }
    }
}

/// Reads are idempotent away from the keyboard registers: polling the
/// keyboard, the only side effect a read can have, leaves every non-reserved
/// address unchanged, so a read there with no intervening write always
/// returns the same value.
pub proof fn lemma_poll_preserves_storage(mem: Seq<u16>, byte: u8, addr: u16)
    requires
        mem.len() == MEMORY_SIZE,
        addr != KEY_BOARD_STATUS,
        addr != KEY_BOARD_DATA,
    ensures
        poll_spec(mem, byte)[addr as int] == mem[addr as int],
{
}

} // verus!
