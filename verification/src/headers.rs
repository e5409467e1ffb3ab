//! The standard header files the compiler can `#include`: today only the
//! console I/O header, whose functions are thin wrappers over the TRAP
//! services.

use vstd::prelude::*;
use crate::strutil::str_eq;

verus! {

/// An available header file: its name and its contents.
#[derive(Debug, Clone)]
pub struct Header {
    pub name: &'static str,
    pub contents: &'static str,
}

/// The console I/O header: getchar, putchar, puts and halt, each mapping
/// straight to a TRAP routine.
fn lc3b_io_h() -> (r: &'static str) {
    "
// lc3b-io.h - LC-3b I/O functions
// These map directly to LC-3b TRAP routines

// TRAP vectors
// x20 = GETC  - Read character into R0
// x21 = OUT   - Write character from R0
// x22 = PUTS  - Write string at address in R0
// x23 = IN    - Print prompt, read character into R0
// x24 = PUTSP - Write packed string
// x25 = HALT  - Halt the machine

// Read a character from keyboard (no echo)
// Returns: the character read
char getchar() {
    trap(0x20);
}

// Write a character to the console
// Parameter c: the character to write (in R0)
void putchar(char c) {
    trap(0x21);
}

// Write a null-terminated string to the console
// Parameter s: pointer to the string (in R0)
void puts(char* s) {
    trap(0x22);
}

// Halt the machine
void halt() {
    trap(0x25);
}
"
}

/// The list of header files that can be `#include`d.
pub fn available_headers() -> (r: Vec<Header>) {
    let mut v: Vec<Header> = Vec::new();
    v.push(Header { name: "lc3b-io.h", contents: lc3b_io_h() });
    v
}

/// Looks a header up by name.
pub fn get_header(name: &str) -> (r: Option<&'static str>) {
    if str_eq(name, "lc3b-io.h") {
        Some(lc3b_io_h())
    } else {
        None
    }
}

} // verus!
