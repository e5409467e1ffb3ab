//! Memory reads, writes, bulk loads, and the binary dump.

use lc3b::{dump_words_to_binary, Memory};

#[test]
pub fn test_read_write() {
    let mut memory = Memory::default();

    memory.write_word(0x3000, 0x1234);
    assert_eq!(memory.read_word(0x3000), 0x1234);

    memory.write_word(0x3001, 0xABCD);
    assert_eq!(memory.read_word(0x3001), 0xABCD);
}

#[test]
pub fn test_load_words() {
    let mut memory = Memory::default();
    let program = vec![0x1260, 0x12A5, 0x1642];

    memory.load_words(0x3000, &program);

    assert_eq!(memory.read_word(0x3000), 0x1260);
    assert_eq!(memory.read_word(0x3001), 0x12A5);
    assert_eq!(memory.read_word(0x3002), 0x1642);
}

#[test]
fn test_dump_words() {
    let data = [0xDEAD, 0xBEEF];

    let expected = "1101111010101101\n1011111011101111\n";
    let dumped = dump_words_to_binary(&data[..]);

    assert_eq!(expected, dumped);
}
