//! A flat, word-addressed store: 65536 sixteen-bit words, zero-initialized.
//! Every 16-bit address is valid by construction, so reads and writes are
//! total.  Byte instructions reinterpret half-words within a word; they do
//! not change the addressing granularity of the storage itself.

use vstd::prelude::*;
use crate::strutil::{append_bits16, bits16_spec, push_char};

verus! {

/// The backing store.  Its mathematical view is the sequence of all 65536
/// words.
#[derive(Debug)]
pub struct Memory {
    words: [u16; 65536],
}

impl View for Memory {
    type V = Seq<u16>;

    closed spec fn view(&self) -> Seq<u16> {
        self.words@
    }
}

/// The memory after a bulk write of `ws` starting at `start`, wrapping
/// modulo 65536.
pub open spec fn load_words_spec(mem: Seq<u16>, start: u16, ws: Seq<u16>) -> Seq<u16>
    decreases ws.len(),
{
    if ws.len() == 0 {
        mem
    } else {
        load_words_spec(mem, start, ws.drop_last()).update(
            ((start + ws.len() - 1) % 65536) as int,
            ws.last(),
        )
    }
}

/// A bulk write leaves the length of the store unchanged.
pub proof fn lemma_load_words_spec_len(mem: Seq<u16>, start: u16, ws: Seq<u16>)
    requires
        mem.len() == 65536,
    ensures
        load_words_spec(mem, start, ws).len() == 65536,
    decreases ws.len(),
{
    if ws.len() > 0 {
        lemma_load_words_spec_len(mem, start, ws.drop_last());
        vstd::arithmetic::div_mod::lemma_mod_bound(start + ws.len() - 1, 65536);
    }
}

/// The store always spans the full address space.
pub proof fn lemma_memory_len(m: &Memory)
    ensures
        m@.len() == 65536,
{
}

impl Default for Memory {
    /// A zero-initialized store.
    fn default() -> (r: Memory)
        ensures
            r@.len() == 65536,
            forall|i: int| 0 <= i < 65536 ==> r@[i] == 0u16,
    {
        Memory { words: [0u16; 65536] }
    }
}

impl Memory {
    /// Reads the 16-bit word at the given address.  Total: the store spans
    /// the whole address space.
    pub fn read_word(&self, addr: u16) -> (r: u16)
        ensures
            r == self@[addr as int],
    {
        self.words[addr as usize]
    }

    /// Writes a 16-bit word at the given address.  Total; no failure modes.
    pub fn write_word(&mut self, addr: u16, value: u16)
        ensures
            final(self)@ == old(self)@.update(addr as int, value),
    {
        self.words[addr as usize] = value;
    }

    /// Bulk-writes a sequence of words starting at `start_addr`, wrapping
    /// modulo 65536.
    pub fn load_words(&mut self, start_addr: u16, words: &[u16])
        ensures
            final(self)@ == load_words_spec(old(self)@, start_addr, words@),
    {
        let n = words.len();
        let mut i: usize = 0;
        let mut addr: u16 = start_addr;
        proof {
            vstd::arithmetic::div_mod::lemma_small_mod(start_addr as nat, 65536);
        }
        while i < n
            invariant
                i <= n,
                n == words@.len(),
                addr as int == (start_addr + i) % 65536,
                self@ == load_words_spec(old(self)@, start_addr, words@.take(i as int)),
                self@.len() == old(self)@.len(),
                old(self)@.len() == 65536,
            decreases n - i,
        {
            proof {
                assert(words@.take(i + 1).drop_last() =~= words@.take(i as int));
                lemma_load_words_spec_len(old(self)@, start_addr, words@.take(i as int));
            }
            self.words[addr as usize] = words[i];
            proof {
                vstd::arithmetic::div_mod::lemma_add_mod_noop(
                    start_addr as int + i as int,
                    1,
                    65536,
                );
                vstd::arithmetic::div_mod::lemma_small_mod(1, 65536);
            }
            addr = addr.wrapping_add(1);
            i = i + 1;
        }
        proof {
            assert(words@.take(n as int) =~= words@);
        }
    }
}

/// The binary dump of a word sequence: sixteen binary digits and a newline
/// for each word, in order.
pub open spec fn dump_spec(ws: Seq<u16>) -> Seq<char>
    decreases ws.len(),
{
    if ws.len() == 0 {
        Seq::empty()
    } else {
        dump_spec(ws.drop_last()) + bits16_spec(ws.last()) + seq!['\n']
    }
}

/// Renders each word as sixteen binary digits followed by a newline.
pub fn dump_words_to_binary(words: &[u16]) -> (s: String)
    ensures
        s@ == dump_spec(words@),
{
    let mut s = String::new();
    let n = words.len();
    let mut i: usize = 0;
    while i < n
        invariant
            i <= n,
            n == words@.len(),
            s@ == dump_spec(words@.take(i as int)),
        decreases n - i,
    {
        append_bits16(&mut s, words[i]);
        push_char(&mut s, '\n');
        proof {
            assert(words@.take(i + 1).drop_last() =~= words@.take(i as int));
            assert(s@ =~= dump_spec(words@.take(i + 1)));
        }
        i = i + 1;
    }
    proof {
        assert(words@.take(n as int) =~= words@);
    }
    s
}

} // verus!
