//! A two-pass assembler for the textual assembly language: labels,
//! comments introduced by `;`, the directives `.ORIG`, `.END`, `.FILL`,
//! `.BLKW` and `.STRINGZ`, and the mnemonics of the instruction set with
//! the TRAP aliases GETC, OUT, PUTS, IN, PUTSP and HALT.
//!
//! The first pass collects label addresses and the origin; the second pass
//! emits words, resolving PC-relative label references against the address
//! of the following instruction.

use vstd::prelude::*;
use vstd::string::*;
use crate::error::Error;
use crate::isa::{
    AddInstruction, AndInstruction, Condition, Immediate5, Instruction, PCOffset11, PCOffset9,
    Register, TrapVect8, XorInstruction,
};
use crate::strutil::{
    ascii_string, byte_to_upper, bytes_eq, eq_ignore_case, hex_digit_value, is_blank, is_digit,
    is_hex_digit, is_ident_char, is_ident_start, slice_bytes,
};

verus! {

/// The result of assembling a program: the starting address given by
/// `.ORIG` (0x3000 by default) and the raw words, instructions and data
/// alike.
#[derive(Debug, Clone, PartialEq)]
pub struct AssembledProgram {
    pub origin: u16,
    pub words: Vec<u16>,
}

/// An error the assembly stage may raise: never one of the engine's
/// execution-stage faults.
pub open spec fn assembly_stage_error(e: Error) -> bool {
    &&& !(e is InstructionDecode)
    &&& !(e is UnimplementedInstruction)
    &&& !(e is InvalidMemoryAccess)
}

/// Whether the line carries a `.ORIG` directive, naming `addr`.
spec fn line_sets_origin(l: Line, addr: u16) -> bool {
    l.body matches LineBody::Dir(Directive::Orig(a)) && a == addr
}

/// Whether any line carries a `.ORIG` directive.
spec fn any_origin_line(lines: Seq<Line>) -> bool {
    exists|k: int, a: u16| 0 <= k < lines.len() && #[trigger] line_sets_origin(lines[k], a)
}

/// Whether the symbol table holds a label of the given name.
pub open spec fn has_symbol(symbols: Seq<(Vec<u8>, u16)>, name: Seq<u8>) -> bool {
    exists|k: int| 0 <= k < symbols.len() && (#[trigger] symbols[k]).0@ == name
}

/// One parsed source line: an optional label and what follows it.
struct Line {
    label: Option<Vec<u8>>,
    body: LineBody,
}

enum LineBody {
    Nothing,
    Dir(Directive),
    Ins(Vec<u8>, Vec<Vec<u8>>),
}

enum Directive {
    Orig(u16),
    End,
    Fill(Vec<u8>),
    Blkw(u16),
    Stringz(Vec<u8>),
}

/// Drops everything from the first `;` that stands outside a string
/// literal.
fn strip_comment(line: &Vec<u8>) -> (r: Vec<u8>) {
    let mut r: Vec<u8> = Vec::new();
    let n = line.len();
    let mut i: usize = 0;
    let mut in_string = false;
    while i < n
        invariant
            i <= n,
            n == line@.len(),
        decreases n - i,
    {
        let b = line[i];
        if b == 59 && !in_string {
            return r;
        }
        if b == 34 {
            in_string = !in_string;
        }
        r.push(b);
        i = i + 1;
    }
    r
}

/// A copy with leading and trailing blanks removed.
fn trim_bytes(v: &Vec<u8>) -> (r: Vec<u8>) {
    let n = v.len();
    let mut start: usize = 0;
    while start < n && is_blank(v[start])
        invariant
            start <= n,
            n == v@.len(),
        decreases n - start,
    {
        start = start + 1;
    }
    let mut end: usize = n;
    while end > start && is_blank(v[end - 1])
        invariant
            start <= end <= n,
            n == v@.len(),
        decreases end,
    {
        end = end - 1;
    }
    slice_bytes(v, start, end)
}

/// A parse failure with the offending text in the message.
fn parse_failure(what: &str, t: &Vec<u8>) -> (r: Error)
    ensures
        r is ParseAssembly,
{
    let mut m = String::from_str(what);
    m.append(" `");
    let shown = ascii_string(t);
    m.append(shown.as_str());
    m.append("`");
    Error::ParseAssembly(m)
}

/// Parses an optionally signed decimal number.  `None` on empty, stray
/// characters or more than nine digits.
fn parse_decimal_i32(t: &Vec<u8>, from: usize) -> (r: Option<i32>) {
    let n = t.len();
    if from >= n {
        return None;
    }
    let negative = t[from] == 45;
    let mut i: usize = if negative {
        from + 1
    } else {
        from
    };
    if i >= n || n - i > 9 {
        return None;
    }
    let mut acc: i32 = 0;
    while i < n
        invariant
            i <= n,
            n == t@.len(),
            0 <= acc < 0x40000000,
        decreases n - i,
    {
        let b = t[i];
        if !is_digit(b) {
            return None;
        }
        if acc >= 100000000 {
            return None;
        }
        acc = acc * 10 + ((b - 48) as i32);
        i = i + 1;
    }
    if negative {
        Some(-acc)
    } else {
        Some(acc)
    }
}

/// Parses hexadecimal digits into a 16-bit value.  `None` on empty, stray
/// characters or overflow.
fn parse_hex_u16(t: &Vec<u8>, from: usize) -> (r: Option<u16>) {
    let n = t.len();
    if from >= n {
        return None;
    }
    let mut acc: u32 = 0;
    let mut i: usize = from;
    while i < n
        invariant
            i <= n,
            n == t@.len(),
            acc <= 0xFFFF,
        decreases n - i,
    {
        let b = t[i];
        if !is_hex_digit(b) {
            return None;
        }
        acc = acc * 16 + (hex_digit_value(b) as u32);
        if acc > 0xFFFF {
            return None;
        }
        i = i + 1;
    }
    Some(acc as u16)
}

/// A register operand: `R0` .. `R7`, upper or lower case.
fn is_register_token(t: &Vec<u8>) -> (r: bool)
    ensures
        r == (t@.len() == 2 && (t@[0] == 82 || t@[0] == 114) && 48 <= t@[1] <= 55),
{
    t.len() == 2 && (t[0] == 82 || t[0] == 114) && t[1] >= 48 && t[1] <= 55
}

fn reg_from_token(t: &Vec<u8>) -> (r: Result<Register, Error>)
    ensures
        r is Err ==> assembly_stage_error(r->Err_0),
{
    if !is_register_token(t) {
        return Err(Error::InvalidRegister(ascii_string(t)));
    }
    Ok(Register::from_index(t[1] - 48))
}

/// A hexadecimal literal: `x` or `X` followed by hex digits.
fn is_hex_token(t: &Vec<u8>) -> (r: bool) {
    if t.len() < 2 || (t[0] != 120 && t[0] != 88) {
        return false;
    }
    let n = t.len();
    let mut i: usize = 1;
    while i < n
        invariant
            1 <= i <= n,
            n == t@.len(),
        decreases n - i,
    {
        if !is_hex_digit(t[i]) {
            return false;
        }
        i = i + 1;
    }
    true
}

/// A decimal literal: an optional `#`, an optional minus sign, digits.
fn is_literal_token(t: &Vec<u8>) -> (r: bool) {
    let n = t.len();
    let mut i: usize = 0;
    if i < n && t[i] == 35 {
        i = i + 1;
    }
    if i < n && t[i] == 45 {
        i = i + 1;
    }
    if i >= n {
        return false;
    }
    let mut seen = false;
    while i < n
        invariant
            i <= n,
            n == t@.len(),
        decreases n - i,
    {
        if !is_digit(t[i]) {
            return false;
        }
        seen = true;
        i = i + 1;
    }
    seen
}

/// An identifier: a letter or underscore, then letters, digits and
/// underscores.
fn is_ident_token(t: &Vec<u8>) -> (r: bool) {
    let n = t.len();
    if n == 0 || !is_ident_start(t[0]) {
        return false;
    }
    let mut i: usize = 1;
    while i < n
        invariant
            1 <= i <= n,
            n == t@.len(),
        decreases n - i,
    {
        if !is_ident_char(t[i]) {
            return false;
        }
        i = i + 1;
    }
    true
}

/// The decimal value of a literal token, `#` stripped.
fn literal_value_i32(t: &Vec<u8>) -> (r: Option<i32>) {
    let from: usize = if t.len() > 0 && t[0] == 35 {
        1
    } else {
        0
    };
    parse_decimal_i32(t, from)
}

/// The value of a hexadecimal literal, the `x` or `X` prefix stripped if
/// present.
fn hex_value_u16(t: &Vec<u8>) -> (r: Option<u16>) {
    let from: usize = if t.len() > 0 && (t[0] == 120 || t[0] == 88) {
        1
    } else {
        0
    };
    parse_hex_u16(t, from)
}

/// The condition for a BR mnemonic: `BR` alone branches always; a suffix
/// from `n`, `z`, `p` selects the flags tested.
fn parse_br_condition(opcode: &Vec<u8>) -> (r: Option<Condition>) {
    let n = opcode.len();
    if n < 2 {
        return None;
    }
    if byte_to_upper(opcode[0]) != 66 || byte_to_upper(opcode[1]) != 82 {
        return None;
    }
    if n == 2 {
        return Some(Condition { n: true, z: true, p: true });
    }
    let mut cn = false;
    let mut cz = false;
    let mut cp = false;
    let mut i: usize = 2;
    while i < n
        invariant
            2 <= i <= n,
            n == opcode@.len(),
        decreases n - i,
    {
        let u = byte_to_upper(opcode[i]);
        if u == 78 {
            cn = true;
        } else if u == 90 {
            cz = true;
        } else if u == 80 {
            cp = true;
        } else {
            return None;
        }
        i = i + 1;
    }
    if !cn && !cz && !cp {
        return None;
    }
    Some(Condition { n: cn, z: cz, p: cp })
}

/// Splits the operand text on commas and trims each piece.
fn split_operands(rest: &Vec<u8>) -> (r: Result<Vec<Vec<u8>>, Error>)
    ensures
        r is Err ==> assembly_stage_error(r->Err_0),
{
    let mut out: Vec<Vec<u8>> = Vec::new();
    let trimmed = trim_bytes(rest);
    if trimmed.len() == 0 {
        return Ok(out);
    }
    let n = trimmed.len();
    let mut start: usize = 0;
    let mut i: usize = 0;
    while i < n
        invariant
            start <= i <= n,
            n == trimmed@.len(),
        decreases n - i,
    {
        if trimmed[i] == 44 {
            let piece = trim_bytes(&slice_bytes(&trimmed, start, i));
            if piece.len() == 0 {
                return Err(parse_failure("empty operand in", &trimmed));
            }
            out.push(piece);
            start = i + 1;
        }
        i = i + 1;
    }
    let last = trim_bytes(&slice_bytes(&trimmed, start, n));
    if last.len() == 0 {
        return Err(parse_failure("empty operand in", &trimmed));
    }
    out.push(last);
    Ok(out)
}

/// Parses one source line into its label and body.
fn parse_line(raw: &Vec<u8>) -> (r: Result<Line, Error>)
    ensures
        r is Err ==> assembly_stage_error(r->Err_0),
{
    let no_comment = strip_comment(raw);
    let t = trim_bytes(&no_comment);
    if t.len() == 0 {
        return Ok(Line { label: None, body: LineBody::Nothing });
    }
    let mut label: Option<Vec<u8>> = None;
    let mut rest: Vec<u8> = t;
    if is_ident_start(rest[0]) {
        let n = rest.len();
        let mut j: usize = 1;
        while j < n && is_ident_char(rest[j])
            invariant
                1 <= j <= n,
                n == rest@.len(),
            decreases n - j,
        {
            j = j + 1;
        }
        if j < n && rest[j] == 58 {
            label = Some(slice_bytes(&rest, 0, j));
            let after = slice_bytes(&rest, j + 1, n);
            rest = trim_bytes(&after);
        }
    }
    if rest.len() == 0 {
        return Ok(Line { label, body: LineBody::Nothing });
    }
    if rest[0] == 46 {
        let d = parse_directive(&rest)?;
        return Ok(Line { label, body: LineBody::Dir(d) });
    }
    let n = rest.len();
    let mut k: usize = 0;
    while k < n && !is_blank(rest[k])
        invariant
            k <= n,
            n == rest@.len(),
        decreases n - k,
    {
        k = k + 1;
    }
    let opcode = slice_bytes(&rest, 0, k);
    let tail = slice_bytes(&rest, k, n);
    let operands = split_operands(&tail)?;
    Ok(Line { label, body: LineBody::Ins(opcode, operands) })
}

/// Parses a directive line body, which starts with `.`.
fn parse_directive(rest: &Vec<u8>) -> (r: Result<Directive, Error>)
    ensures
        r is Err ==> assembly_stage_error(r->Err_0),
{
    let n = rest.len();
    let mut k: usize = 0;
    while k < n && !is_blank(rest[k])
        invariant
            k <= n,
            n == rest@.len(),
        decreases n - k,
    {
        k = k + 1;
    }
    let word = slice_bytes(rest, 0, k);
    let tail0 = slice_bytes(rest, k, n);
    let tail = trim_bytes(&tail0);
    if eq_ignore_case(&word, ".ORIG") {
        match hex_value_u16(&tail) {
            Some(v) => Ok(Directive::Orig(v)),
            None => Err(parse_failure("invalid hex literal in .ORIG:", &tail)),
        }
    } else if eq_ignore_case(&word, ".END") {
        Ok(Directive::End)
    } else if eq_ignore_case(&word, ".FILL") {
        if tail.len() == 0 {
            return Err(parse_failure("no value found in .FILL", &word));
        }
        Ok(Directive::Fill(tail))
    } else if eq_ignore_case(&word, ".BLKW") {
        let count: u16 = if is_hex_token(&tail) {
            match hex_value_u16(&tail) {
                Some(v) => v,
                None => {
                    return Err(parse_failure("invalid number in .BLKW:", &tail));
                },
            }
        } else {
            match literal_value_i32(&tail) {
                Some(v) => {
                    if v < 0 || v > 65535 {
                        return Err(parse_failure("invalid number in .BLKW:", &tail));
                    }
                    v as u16
                },
                None => {
                    return Err(parse_failure("invalid number in .BLKW:", &tail));
                },
            }
        };
        Ok(Directive::Blkw(count))
    } else if eq_ignore_case(&word, ".STRINGZ") {
        let m = tail.len();
        if m < 2 || tail[0] != 34 {
            return Err(parse_failure("no string content found in .STRINGZ", &word));
        }
        let mut e: usize = 1;
        while e < m && tail[e] != 34
            invariant
                1 <= e <= m,
                m == tail@.len(),
            decreases m - e,
        {
            e = e + 1;
        }
        if e >= m {
            return Err(parse_failure("no string content found in .STRINGZ", &word));
        }
        Ok(Directive::Stringz(slice_bytes(&tail, 1, e)))
    } else {
        Err(parse_failure("unknown directive", &word))
    }
}

/// The two-pass assembler state: the symbol table, the origin, and the
/// address of the line being processed.
struct Assembler {
    symbols: Vec<(Vec<u8>, u16)>,
    origin: u16,
    current_address: u16,
}

impl Assembler {
    fn new() -> (r: Assembler)
        ensures
            r.origin == 0x3000,
            r.current_address == 0x3000,
            r.symbols@.len() == 0,
    {
        Assembler { symbols: Vec::new(), origin: 0x3000, current_address: 0x3000 }
    }

    /// Records a label at the current address; a second definition of the
    /// same name is an error, and nothing is recorded.
    fn add_label(&mut self, name: &Vec<u8>) -> (r: Result<(), Error>)
        ensures
            r is Err <==> has_symbol(old(self).symbols@, name@),
            r is Err ==> (r->Err_0 matches Error::DuplicateLabel(m) && m@ == name@.map_values(
                |b: u8| b as char,
            )) && *final(self) == *old(self),
            r is Ok ==> final(self).symbols@.len() == old(self).symbols@.len() + 1 && final(self).symbols@.last().0@ == name@ && final(self).symbols@.last().1 == old(self).current_address && final(self).symbols@.take(old(self).symbols@.len() as int) == old(self).symbols@ && final(self).origin == old(self).origin && final(self).current_address
                == old(self).current_address,
    {
        let n = self.symbols.len();
        let mut i: usize = 0;
        while i < n
            invariant
                i <= n,
                n == self.symbols@.len(),
                forall|k: int| 0 <= k < i ==> (#[trigger] self.symbols@[k]).0@ != name@,
            decreases n - i,
        {
            if bytes_eq(&self.symbols[i].0, name) {
                return Err(Error::DuplicateLabel(ascii_string(name)));
            }
            i = i + 1;
        }
        let mut copied: Vec<u8> = Vec::new();
        let m = name.len();
        let mut j: usize = 0;
        while j < m
            invariant
                j <= m,
                m == name@.len(),
                copied@ == name@.take(j as int),
            decreases m - j,
        {
            copied.push(name[j]);
            proof {
                assert(copied@ =~= name@.take(j + 1));
            }
            j = j + 1;
        }
        proof {
            assert(copied@ =~= name@);
        }
        self.symbols.push((copied, self.current_address));
        proof {
            assert(self.symbols@.take(old(self).symbols@.len() as int) =~= old(self).symbols@);
        }
        Ok(())
    }

    /// The address a label was recorded at, if any: `Some` exactly when the
    /// name is in the table, and then a recorded address of that name.
    fn lookup(&self, name: &Vec<u8>) -> (r: Option<u16>)
        ensures
            r is Some <==> has_symbol(self.symbols@, name@),
            r is Some ==> exists|k: int|
                0 <= k < self.symbols@.len() && (#[trigger] self.symbols@[k]).0@ == name@
                    && self.symbols@[k].1 == r->0,
    {
        let n = self.symbols.len();
        let mut i: usize = 0;
        while i < n
            invariant
                i <= n,
                n == self.symbols@.len(),
                forall|k: int| 0 <= k < i ==> (#[trigger] self.symbols@[k]).0@ != name@,
            decreases n - i,
        {
            if bytes_eq(&self.symbols[i].0, name) {
                return Some(self.symbols[i].1);
            }
            i = i + 1;
        }
        None
    }

    /// Pass 1: collect label addresses, the origin, and the sizes that
    /// directives reserve.  The origin comes from a `.ORIG` line; without
    /// one it stays as it was (the 0x3000 default of a fresh assembler).
    fn pass1(&mut self, lines: &Vec<Line>) -> (r: Result<(), Error>)
        ensures
            r is Err ==> assembly_stage_error(r->Err_0),
            !any_origin_line(lines@) ==> final(self).origin == old(self).origin,
            final(self).origin == old(self).origin || exists|k: int|
                0 <= k < lines@.len() && #[trigger] line_sets_origin(
                    lines@[k],
                    final(self).origin,
                ),
    {
        let n = lines.len();
        let mut i: usize = 0;
        while i < n
            invariant
                i <= n,
                n == lines@.len(),
                (forall|k: int, a: u16|
                    0 <= k < i ==> !(#[trigger] line_sets_origin(lines@[k], a))) ==> self.origin
                    == old(self).origin,
                self.origin == old(self).origin || exists|k: int|
                    0 <= k < i && #[trigger] line_sets_origin(lines@[k], self.origin),
            decreases n - i,
        {
            let line = &lines[i];
            match &line.label {
                Some(name) => {
                    let added = self.add_label(name);
                    match added {
                        Ok(()) => {},
                        Err(e) => {
                            return Err(e);
                        },
                    }
                },
                None => {},
            }
            match &line.body {
                LineBody::Nothing => {},
                LineBody::Ins(_, _) => {
                    self.current_address = self.current_address.wrapping_add(1);
                },
                LineBody::Dir(d) => {
                    match d {
                        Directive::Orig(addr) => {
                            self.origin = *addr;
                            self.current_address = *addr;
                            proof {
                                assert(line_sets_origin(lines@[i as int], self.origin));
                            }
                        },
                        Directive::End => {},
                        Directive::Fill(_) => {
                            self.current_address = self.current_address.wrapping_add(1);
                        },
                        Directive::Blkw(count) => {
                            self.current_address = self.current_address.wrapping_add(*count);
                        },
                        Directive::Stringz(content) => {
                            let len16 = #[verifier::truncate] (content.len() as u16);
                            self.current_address = self.current_address.wrapping_add(
                                len16,
                            ).wrapping_add(1);
                        },
                    }
                },
            }
            i = i + 1;
        }
        Ok(())
    }

    /// Pass 2: emit words, resolving label references; `.END` stops
    /// assembly.  The origin pass 1 settled is not touched again.
    fn pass2(&mut self, lines: &Vec<Line>) -> (r: Result<Vec<u16>, Error>)
        ensures
            r is Err ==> assembly_stage_error(r->Err_0),
            final(self).origin == old(self).origin,
    {
        self.current_address = self.origin;
        let mut words: Vec<u16> = Vec::new();
        let n = lines.len();
        let mut i: usize = 0;
        while i < n
            invariant
                i <= n,
                n == lines@.len(),
                self.origin == old(self).origin,
            decreases n - i,
        {
            let line = &lines[i];
            match &line.body {
                LineBody::Nothing => {},
                LineBody::Ins(opcode, operands) => {
                    let built = self.instruction_from_tokens(opcode, operands);
                    match built {
                        Ok(inst) => {
                            words.push(inst.encode());
                            self.current_address = self.current_address.wrapping_add(1);
                        },
                        Err(e) => {
                            return Err(e);
                        },
                    }
                },
                LineBody::Dir(d) => {
                    match d {
                        Directive::Orig(addr) => {
                            self.current_address = *addr;
                        },
                        Directive::End => {
                            return Ok(words);
                        },
                        Directive::Fill(tok) => {
                            let v = self.fill_value(tok);
                            match v {
                                Ok(w) => {
                                    words.push(w);
                                    self.current_address = self.current_address.wrapping_add(1);
                                },
                                Err(e) => {
                                    return Err(e);
                                },
                            }
                        },
                        Directive::Blkw(count) => {
                            let c = *count;
                            let mut k: u16 = 0;
                            while k < c
                                invariant
                                    k <= c,
                                decreases c - k,
                            {
                                words.push(0);
                                k = k + 1;
                            }
                            self.current_address = self.current_address.wrapping_add(c);
                        },
                        Directive::Stringz(content) => {
                            let m = content.len();
                            let mut k: usize = 0;
                            while k < m
                                invariant
                                    k <= m,
                                    m == content@.len(),
                                decreases m - k,
                            {
                                words.push(content[k] as u16);
                                k = k + 1;
                            }
                            words.push(0);
                            let len16 = #[verifier::truncate] (content.len() as u16);
                            self.current_address = self.current_address.wrapping_add(
                                len16,
                            ).wrapping_add(1);
                        },
                    }
                },
            }
            i = i + 1;
        }
        Ok(words)
    }

    /// The word a `.FILL` emits: a hex or decimal literal, or the address
    /// of a label.
    fn fill_value(&self, tok: &Vec<u8>) -> (r: Result<u16, Error>)
        ensures
            r is Err ==> assembly_stage_error(r->Err_0),
    {
        if is_hex_token(tok) {
            match hex_value_u16(tok) {
                Some(v) => Ok(v),
                None => Err(parse_failure("invalid hex literal in .FILL:", tok)),
            }
        } else if is_literal_token(tok) {
            match literal_value_i32(tok) {
                Some(v) => {
                    if v < -32768 || v > 32767 {
                        return Err(
                            Error::ValueOutOfRange {
                                kind: String::from_str(".FILL value"),
                                value: v,
                                min: -32768,
                                max: 32767,
                            },
                        );
                    }
                    Ok(#[verifier::truncate] ((v as i16) as u16))
                },
                None => Err(parse_failure("invalid number in .FILL:", tok)),
            }
        } else if is_ident_token(tok) {
            match self.lookup(tok) {
                Some(addr) => Ok(addr),
                None => Err(Error::UndefinedLabel(ascii_string(tok))),
            }
        } else {
            Err(parse_failure("no value found in .FILL:", tok))
        }
    }

    /// A literal offset or a PC-relative label offset: the label case is
    /// target address minus the address following this instruction.
    fn resolve_label_or_offset(&self, tok: &Vec<u8>) -> (r: Result<i32, Error>)
        ensures
            r is Err ==> assembly_stage_error(r->Err_0),
    {
        if is_hex_token(tok) {
            match hex_value_u16(tok) {
                Some(v) => Ok((#[verifier::truncate] (v as i16)) as i32),
                None => Err(parse_failure("invalid hex literal:", tok)),
            }
        } else if is_literal_token(tok) {
            match literal_value_i32(tok) {
                Some(v) => {
                    if v < -32768 || v > 32767 {
                        return Err(parse_failure("offset out of range:", tok));
                    }
                    Ok(v)
                },
                None => Err(parse_failure("invalid number:", tok)),
            }
        } else if is_ident_token(tok) {
            match self.lookup(tok) {
                Some(addr) => Ok((addr as i32) - (self.current_address as i32 + 1)),
                None => Err(Error::UndefinedLabel(ascii_string(tok))),
            }
        } else {
            Err(parse_failure("expected literal or label, got", tok))
        }
    }

    /// A 5-bit immediate operand: an optional `#`, then a decimal value.
    /// Negative values -16 .. -1 are stored two's-complement; non-negative
    /// values up to 31 are taken as the raw field value.
    fn imm5_from_token(tok: &Vec<u8>) -> (r: Result<Immediate5, Error>)
        ensures
            r is Ok ==> r->Ok_0.wf(),
            r is Err ==> assembly_stage_error(r->Err_0),
    {
        match literal_value_i32(tok) {
            Some(v) => {
                if v < 0 {
                    if v < -128 {
                        return Err(parse_failure("invalid immediate:", tok));
                    }
                    Immediate5::from_signed(v as i8)
                } else {
                    if v > 255 {
                        return Err(parse_failure("invalid immediate:", tok));
                    }
                    Immediate5::new(v as u8)
                }
            },
            None => Err(parse_failure("invalid immediate:", tok)),
        }
    }

    /// Builds one instruction from its mnemonic and operand tokens,
    /// resolving labels against the current address.  Whatever it builds is
    /// well-formed: every operand fits its field.
    fn instruction_from_tokens(&self, opcode: &Vec<u8>, operands: &Vec<Vec<u8>>) -> (r: Result<
        Instruction,
        Error,
    >)
        ensures
            r is Ok ==> r->Ok_0.wf(),
            r is Err ==> assembly_stage_error(r->Err_0),
    {
        match parse_br_condition(opcode) {
            Some(condition) => {
                if operands.len() != 1 {
                    return Err(parse_failure("BR takes one operand, got", opcode));
                }
                let offset_value = self.resolve_label_or_offset(&operands[0])?;
                if offset_value < -256 || offset_value > 255 {
                    return Err(
                        Error::ValueOutOfRange {
                            kind: String::from_str("Branch offset"),
                            value: offset_value,
                            min: -256,
                            max: 255,
                        },
                    );
                }
                return Ok(Instruction::Br(condition, PCOffset9::new(offset_value as i16)));
            },
            None => {},
        }
        if eq_ignore_case(opcode, "ADD") || eq_ignore_case(opcode, "AND") {
            if operands.len() != 3 {
                return Err(parse_failure("expected three operands for", opcode));
            }
            let dst_reg = reg_from_token(&operands[0])?;
            let src_reg = reg_from_token(&operands[1])?;
            let is_add = eq_ignore_case(opcode, "ADD");
            if is_register_token(&operands[2]) {
                let src2_reg = reg_from_token(&operands[2])?;
                if is_add {
                    Ok(Instruction::AddInstruction(AddInstruction::AddReg(dst_reg, src_reg, src2_reg)))
                } else {
                    Ok(Instruction::AndInstruction(AndInstruction::AndReg(dst_reg, src_reg, src2_reg)))
                }
            } else {
                let imm5 = Self::imm5_from_token(&operands[2])?;
                if is_add {
                    Ok(Instruction::AddInstruction(AddInstruction::AddImm(dst_reg, src_reg, imm5)))
                } else {
                    Ok(Instruction::AndInstruction(AndInstruction::AndImm(dst_reg, src_reg, imm5)))
                }
            }
        } else if eq_ignore_case(opcode, "NOT") {
            if operands.len() != 2 {
                return Err(parse_failure("expected two operands for", opcode));
            }
            let dst_reg = reg_from_token(&operands[0])?;
            let src_reg = reg_from_token(&operands[1])?;
            let all_ones = Immediate5::from_signed(-1)?;
            Ok(Instruction::XorInstruction(XorInstruction::XorImm(dst_reg, src_reg, all_ones)))
        } else if eq_ignore_case(opcode, "JSR") {
            if operands.len() != 1 {
                return Err(parse_failure("expected one operand for", opcode));
            }
            let offset_value = self.resolve_label_or_offset(&operands[0])?;
            if offset_value < -1024 || offset_value > 1023 {
                return Err(
                    Error::ValueOutOfRange {
                        kind: String::from_str("JSR offset"),
                        value: offset_value,
                        min: -1024,
                        max: 1023,
                    },
                );
            }
            Ok(Instruction::Jsr(PCOffset11::new(offset_value as i16)))
        } else if eq_ignore_case(opcode, "JSRR") {
            if operands.len() != 1 {
                return Err(parse_failure("expected one operand for", opcode));
            }
            let base_reg = reg_from_token(&operands[0])?;
            Ok(Instruction::Jsrr(base_reg))
        } else if eq_ignore_case(opcode, "JMP") {
            if operands.len() != 1 {
                return Err(parse_failure("expected one operand for", opcode));
            }
            let base_reg = reg_from_token(&operands[0])?;
            Ok(Instruction::Jmp(base_reg))
        } else if eq_ignore_case(opcode, "RET") {
            if operands.len() != 0 {
                return Err(parse_failure("RET takes no operands, got", opcode));
            }
            Ok(Instruction::Ret)
        } else if eq_ignore_case(opcode, "TRAP") {
            if operands.len() != 1 {
                return Err(parse_failure("expected one operand for", opcode));
            }
            let tok = &operands[0];
            let vector: u16 = if is_hex_token(tok) {
                match hex_value_u16(tok) {
                    Some(v) => v,
                    None => {
                        return Err(parse_failure("invalid hex literal:", tok));
                    },
                }
            } else if is_literal_token(tok) {
                match literal_value_i32(tok) {
                    Some(v) => {
                        if v < 0 || v > 65535 {
                            return Err(Error::TrapVectorOutOfRange(if v < 0 {
                                0
                            } else {
                                65535
                            }));
                        }
                        v as u16
                    },
                    None => {
                        return Err(parse_failure("invalid number:", tok));
                    },
                }
            } else {
                return Err(parse_failure("expected trap vector, got", tok));
            };
            if vector > 0xFF {
                return Err(Error::TrapVectorOutOfRange(vector));
            }
            Ok(Instruction::Trap(TrapVect8::new(vector as u8)))
        } else if eq_ignore_case(opcode, "LEA") {
            if operands.len() != 2 {
                return Err(parse_failure("expected two operands for", opcode));
            }
            let dst_reg = reg_from_token(&operands[0])?;
            let offset_value = self.resolve_label_or_offset(&operands[1])?;
            if offset_value % 2 != 0 {
                let mut m = String::from_str("LEA target must be word-aligned (offset ");
                crate::strutil::append_dec_i32(&mut m, offset_value);
                m.append(" is not even)");
                return Err(Error::AlignmentError(m));
            }
            let stored_offset = offset_value / 2;
            if stored_offset < -256 || stored_offset > 255 {
                return Err(
                    Error::ValueOutOfRange {
                        kind: String::from_str("LEA offset"),
                        value: stored_offset,
                        min: -256,
                        max: 255,
                    },
                );
            }
            Ok(Instruction::Lea(dst_reg, PCOffset9::new(stored_offset as i16)))
        } else if eq_ignore_case(opcode, "GETC") {
            Ok(Instruction::Trap(TrapVect8::new(0x20)))
        } else if eq_ignore_case(opcode, "OUT") {
            Ok(Instruction::Trap(TrapVect8::new(0x21)))
        } else if eq_ignore_case(opcode, "PUTS") {
            Ok(Instruction::Trap(TrapVect8::new(0x22)))
        } else if eq_ignore_case(opcode, "IN") {
            Ok(Instruction::Trap(TrapVect8::new(0x23)))
        } else if eq_ignore_case(opcode, "PUTSP") {
            Ok(Instruction::Trap(TrapVect8::new(0x24)))
        } else if eq_ignore_case(opcode, "HALT") {
            Ok(Instruction::Trap(TrapVect8::new(0x25)))
        } else {
            Err(parse_failure("unhandled opcode", opcode))
        }
    }
}

/// Splits the source into its lines at newline bytes.
fn split_lines(bytes: &Vec<u8>) -> (r: Vec<Vec<u8>>) {
    let mut out: Vec<Vec<u8>> = Vec::new();
    let n = bytes.len();
    let mut start: usize = 0;
    let mut i: usize = 0;
    while i < n
        invariant
            start <= i <= n,
            n == bytes@.len(),
        decreases n - i,
    {
        if bytes[i] == 10 {
            out.push(slice_bytes(bytes, start, i));
            start = i + 1;
        }
        i = i + 1;
    }
    if start < n {
        out.push(slice_bytes(bytes, start, n));
    }
    out
}

/// Assembles a program: two passes over the parsed lines, returning the
/// origin and the emitted words.  Fails on a duplicate or undefined label,
/// an out-of-range operand, or text that parses as nothing known — only
/// assembly-stage errors, never an execution-stage fault.
pub fn assemble(program: &str) -> (r: Result<AssembledProgram, Error>)
    ensures
        r is Err ==> assembly_stage_error(r->Err_0),
{
    let bytes = program.as_bytes_vec();
    let raw_lines = split_lines(&bytes);
    let mut lines: Vec<Line> = Vec::new();
    let n = raw_lines.len();
    let mut i: usize = 0;
    while i < n
        invariant
            i <= n,
            n == raw_lines@.len(),
        decreases n - i,
    {
        let parsed = parse_line(&raw_lines[i]);
        match parsed {
            Ok(line) => {
                lines.push(line);
            },
            Err(e) => {
                return Err(e);
            },
        }
        i = i + 1;
    }
    let mut assembler = Assembler::new();
    match assembler.pass1(&lines) {
        Ok(()) => {},
        Err(e) => {
            return Err(e);
        },
    }
    match assembler.pass2(&lines) {
        Ok(words) => Ok(AssembledProgram { origin: assembler.origin, words }),
        Err(e) => Err(e),
    }
}

/// Parses a program to instructions: assembles it and decodes every emitted
/// word.  Every returned instruction is well-formed.
pub fn parse_to_program(program: &str) -> (r: Result<Vec<Instruction>, Error>)
    ensures
        r is Ok ==> forall|i: int| 0 <= i < r->Ok_0@.len() ==> (#[trigger] r->Ok_0@[i]).wf(),
{
    let assembled = match assemble(program) {
        Ok(a) => a,
        Err(e) => {
            return Err(e);
        },
    };
    let mut out: Vec<Instruction> = Vec::new();
    let n = assembled.words.len();
    let mut i: usize = 0;
    while i < n
        invariant
            i <= n,
            n == assembled.words@.len(),
            forall|k: int| 0 <= k < out@.len() ==> (#[trigger] out@[k]).wf(),
        decreases n - i,
    {
        match Instruction::decode(assembled.words[i]) {
            Ok(inst) => {
                out.push(inst);
            },
            Err(e) => {
                return Err(Error::InstructionDecode { address: 0, reason: e.reason });
            },
        }
        i = i + 1;
    }
    Ok(out)
}

} // verus!
