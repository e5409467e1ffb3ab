//! The front end of the C-subset compiler: a lexer and a recursive-descent
//! parser producing the abstract syntax of `ast`.  The subset covers
//! `#include` directives, functions, global and local declarations with the
//! types void, int, char, short, unsigned short and uint16_t plus pointers,
//! the control statements if/else, while, for and return, and expressions
//! with C's operator precedence.
//!
//! Nesting depth is bounded by a fuel budget far beyond any reasonable
//! program, so that every parse terminates.

use vstd::prelude::*;
use vstd::string::*;
use crate::ast::{
    AssignOp, BinaryOp, Block, BlockItem, Declaration, Declarator, Expression, ForInit, Function,
    Initializer, Parameter, Program, Statement, TopLevelItem, Type, UnaryOp,
};
use crate::codegen::CompileError;
use crate::strutil::{
    ascii_string, bytes_eq, hex_digit_value, is_digit, is_hex_digit, is_ident_char,
    is_ident_start,
};

verus! {

/// The nesting budget handed to the recursive productions.
const PARSE_FUEL: u32 = 1024;

/// Keywords of the subset.
#[derive(Debug, Clone, Copy, PartialEq, Eq, Structural)]
enum Kw {
    Void,
    Int,
    Char,
    Short,
    Unsigned,
    Uint16,
    If,
    Else,
    While,
    For,
    Return,
}

/// Punctuation and operators.
#[derive(Debug, Clone, Copy, PartialEq, Eq, Structural)]
enum Punct {
    LParen,
    RParen,
    LBrace,
    RBrace,
    LBracket,
    RBracket,
    Semi,
    Comma,
    Assign,
    Plus,
    Minus,
    Star,
    Slash,
    Percent,
    Amp,
    Pipe,
    Caret,
    Tilde,
    Bang,
    Lt,
    Gt,
    EqEq,
    Ne,
    Le,
    Ge,
    AndAnd,
    OrOr,
    Shl,
    Shr,
    PlusPlus,
    MinusMinus,
    PlusEq,
    MinusEq,
    AmpEq,
    PipeEq,
    CaretEq,
}

/// One token.
#[derive(Debug, PartialEq)]
enum CTok {
    Ident(Vec<u8>),
    Keyword(Kw),
    IntLit(i32),
    CharLit(char),
    StrLit(Vec<u8>),
    IncludePath(Vec<u8>),
    P(Punct),
}

fn fail(message: &str) -> (r: CompileError) {
    CompileError { message: String::from_str(message) }
}

fn fail_with(message: &str, t: &Vec<u8>) -> (r: CompileError) {
    let mut m = String::from_str(message);
    m.append(" `");
    let shown = ascii_string(t);
    m.append(shown.as_str());
    m.append("`");
    CompileError { message: m }
}

/// Whether the identifier bytes spell a keyword.
fn keyword_of(t: &Vec<u8>) -> (r: Option<Kw>) {
    if bytes_eq(t, &"void".as_bytes_vec()) {
        Some(Kw::Void)
    } else if bytes_eq(t, &"int".as_bytes_vec()) {
        Some(Kw::Int)
    } else if bytes_eq(t, &"char".as_bytes_vec()) {
        Some(Kw::Char)
    } else if bytes_eq(t, &"short".as_bytes_vec()) {
        Some(Kw::Short)
    } else if bytes_eq(t, &"unsigned".as_bytes_vec()) {
        Some(Kw::Unsigned)
    } else if bytes_eq(t, &"uint16_t".as_bytes_vec()) {
        Some(Kw::Uint16)
    } else if bytes_eq(t, &"if".as_bytes_vec()) {
        Some(Kw::If)
    } else if bytes_eq(t, &"else".as_bytes_vec()) {
        Some(Kw::Else)
    } else if bytes_eq(t, &"while".as_bytes_vec()) {
        Some(Kw::While)
    } else if bytes_eq(t, &"for".as_bytes_vec()) {
        Some(Kw::For)
    } else if bytes_eq(t, &"return".as_bytes_vec()) {
        Some(Kw::Return)
    } else {
        None
    }
}

/// Reads one escape sequence after a backslash; `i` stands on the escape
/// character.  Returns the byte it denotes and the next position.
fn read_escape(src: &Vec<u8>, i: usize) -> (r: (u8, usize))
    requires
        i < src@.len(),
    ensures
        i < r.1 <= src@.len(),
{
    let n = src.len();
    let c = src[i];
    if c == 110 {
        (10, i + 1)  // \n
    } else if c == 114 {
        (13, i + 1)  // \r
    } else if c == 116 {
        (9, i + 1)  // \t
    } else if c == 92 {
        (92, i + 1)  // backslash
    } else if c == 39 {
        (39, i + 1)  // quote
    } else if c == 34 {
        (34, i + 1)  // double quote
    } else if c == 48 {
        (0, i + 1)  // \0
    } else if c == 120 {
        // \xNN with up to two hex digits
        let mut v: u8 = 0;
        let mut j = i + 1;
        if j < n && is_hex_digit(src[j]) {
            v = hex_digit_value(src[j]);
            j = j + 1;
            if j < n && is_hex_digit(src[j]) {
                v = v * 16 + hex_digit_value(src[j]);
                j = j + 1;
            }
        }
        (v, j)
    } else {
        (c, i + 1)
    }
}

/// Turns source text into tokens.
#[verifier::loop_isolation(false)]
fn lex(src: &Vec<u8>) -> (r: Result<Vec<CTok>, CompileError>) {
    let mut out: Vec<CTok> = Vec::new();
    let n = src.len();
    let mut i: usize = 0;
    while i < n
        invariant
            i <= n,
            n == src@.len(),
        decreases n - i,
    {
        let i0 = i;
        let b = src[i];
        if b == 32 || b == 9 || b == 10 || b == 13 {
            i = i + 1;
        } else if b == 47 && i + 1 < n && src[i + 1] == 47 {
            // line comment
            i = i + 2;
            while i < n && src[i] != 10
                invariant
                    i0 < i <= n,
                decreases n - i,
            {
                i = i + 1;
            }
        } else if b == 47 && i + 1 < n && src[i + 1] == 42 {
            // block comment
            i = i + 2;
            while i < n && i + 1 < n && !(src[i] == 42 && src[i + 1] == 47)
                invariant
                    i0 < i <= n,
                decreases n - i,
            {
                i = i + 1;
            }
            if i < n && i + 1 < n {
                i = i + 2;
            } else {
                i = n;
            }
        } else if b == 35 {
            // #include <path>
            i = i + 1;
            let mut j = i;
            while j < n && is_ident_char(src[j])
                invariant
                    i0 < i <= j <= n,
                decreases n - j,
            {
                j = j + 1;
            }
            let word = crate::strutil::slice_bytes(src, i, j);
            if !bytes_eq(&word, &"include".as_bytes_vec()) {
                return Err(fail_with("unknown preprocessor directive", &word));
            }
            i = j;
            while i < n && (src[i] == 32 || src[i] == 9)
                invariant
                    i0 < i <= n,
                decreases n - i,
            {
                i = i + 1;
            }
            if i >= n || src[i] != 60 {
                return Err(fail("expected `<` after #include"));
            }
            i = i + 1;
            let start = i;
            while i < n && src[i] != 62 && src[i] != 10
                invariant
                    i0 < start <= i <= n,
                decreases n - i,
            {
                i = i + 1;
            }
            if i >= n || src[i] != 62 {
                return Err(fail("unterminated #include path"));
            }
            out.push(CTok::IncludePath(crate::strutil::slice_bytes(src, start, i)));
            i = i + 1;
        } else if is_ident_start(b) {
            let start = i;
            i = i + 1;
            while i < n && is_ident_char(src[i])
                invariant
                    i0 == start < i <= n,
                decreases n - i,
            {
                i = i + 1;
            }
            let word = crate::strutil::slice_bytes(src, start, i);
            match keyword_of(&word) {
                Some(k) => {
                    out.push(CTok::Keyword(k));
                },
                None => {
                    out.push(CTok::Ident(word));
                },
            }
        } else if is_digit(b) {
            if b == 48 && i + 1 < n && (src[i + 1] == 120 || src[i + 1] == 88) {
                // hexadecimal
                i = i + 2;
                let start = i;
                let mut acc: u32 = 0;
                while i < n && is_hex_digit(src[i])
                    invariant
                        i0 < start <= i <= n,
                        acc <= 0x7FFFFFFF,
                    decreases n - i,
                {
                    if acc > 0x07FFFFFF {
                        return Err(fail("hexadecimal literal out of range"));
                    }
                    acc = acc * 16 + (hex_digit_value(src[i]) as u32);
                    i = i + 1;
                }
                if i == start {
                    return Err(fail("empty hexadecimal literal"));
                }
                out.push(CTok::IntLit(acc as i32));
            } else {
                let mut acc: u32 = (b - 48) as u32;
                i = i + 1;
                while i < n && is_digit(src[i])
                    invariant
                        i0 < i <= n,
                        acc <= 999999999,
                    decreases n - i,
                {
                    if acc >= 100000000 {
                        return Err(fail("decimal literal out of range"));
                    }
                    acc = acc * 10 + ((src[i] - 48) as u32);
                    i = i + 1;
                }
                out.push(CTok::IntLit(acc as i32));
            }
        } else if b == 39 {
            // character literal
            i = i + 1;
            if i >= n {
                return Err(fail("unterminated character literal"));
            }
            let value: u8 = if src[i] == 92 {
                if i + 1 >= n {
                    return Err(fail("unterminated character literal"));
                }
                let (v, j) = read_escape(src, i + 1);
                i = j;
                v
            } else {
                let v = src[i];
                i = i + 1;
                v
            };
            if i >= n || src[i] != 39 {
                return Err(fail("unterminated character literal"));
            }
            i = i + 1;
            out.push(CTok::CharLit(value as char));
        } else if b == 34 {
            // string literal
            i = i + 1;
            let mut content: Vec<u8> = Vec::new();
            let mut closed = false;
            while i < n && !closed
                invariant
                    i0 < i <= n,
                decreases n - i,
            {
                let c = src[i];
                if c == 34 {
                    closed = true;
                    i = i + 1;
                } else if c == 92 && i + 1 < n {
                    let (v, j) = read_escape(src, i + 1);
                    content.push(v);
                    i = j;
                } else {
                    content.push(c);
                    i = i + 1;
                }
            }
            if !closed {
                return Err(fail("unterminated string literal"));
            }
            out.push(CTok::StrLit(content));
        } else {
            // punctuation, longest match first
            let two: Option<Punct> = if i + 1 < n {
                let c = src[i + 1];
                if b == 61 && c == 61 {
                    Some(Punct::EqEq)
                } else if b == 33 && c == 61 {
                    Some(Punct::Ne)
                } else if b == 60 && c == 61 {
                    Some(Punct::Le)
                } else if b == 62 && c == 61 {
                    Some(Punct::Ge)
                } else if b == 38 && c == 38 {
                    Some(Punct::AndAnd)
                } else if b == 124 && c == 124 {
                    Some(Punct::OrOr)
                } else if b == 60 && c == 60 {
                    Some(Punct::Shl)
                } else if b == 62 && c == 62 {
                    Some(Punct::Shr)
                } else if b == 43 && c == 43 {
                    Some(Punct::PlusPlus)
                } else if b == 45 && c == 45 {
                    Some(Punct::MinusMinus)
                } else if b == 43 && c == 61 {
                    Some(Punct::PlusEq)
                } else if b == 45 && c == 61 {
                    Some(Punct::MinusEq)
                } else if b == 38 && c == 61 {
                    Some(Punct::AmpEq)
                } else if b == 124 && c == 61 {
                    Some(Punct::PipeEq)
                } else if b == 94 && c == 61 {
                    Some(Punct::CaretEq)
                } else {
                    None
                }
            } else {
                None
            };
            match two {
                Some(p) => {
                    out.push(CTok::P(p));
                    i = i + 2;
                },
                None => {
                    let one: Option<Punct> = if b == 40 {
                        Some(Punct::LParen)
                    } else if b == 41 {
                        Some(Punct::RParen)
                    } else if b == 123 {
                        Some(Punct::LBrace)
                    } else if b == 125 {
                        Some(Punct::RBrace)
                    } else if b == 91 {
                        Some(Punct::LBracket)
                    } else if b == 93 {
                        Some(Punct::RBracket)
                    } else if b == 59 {
                        Some(Punct::Semi)
                    } else if b == 44 {
                        Some(Punct::Comma)
                    } else if b == 61 {
                        Some(Punct::Assign)
                    } else if b == 43 {
                        Some(Punct::Plus)
                    } else if b == 45 {
                        Some(Punct::Minus)
                    } else if b == 42 {
                        Some(Punct::Star)
                    } else if b == 47 {
                        Some(Punct::Slash)
                    } else if b == 37 {
                        Some(Punct::Percent)
                    } else if b == 38 {
                        Some(Punct::Amp)
                    } else if b == 124 {
                        Some(Punct::Pipe)
                    } else if b == 94 {
                        Some(Punct::Caret)
                    } else if b == 126 {
                        Some(Punct::Tilde)
                    } else if b == 33 {
                        Some(Punct::Bang)
                    } else if b == 60 {
                        Some(Punct::Lt)
                    } else if b == 62 {
                        Some(Punct::Gt)
                    } else {
                        None
                    };
                    match one {
                        Some(p) => {
                            out.push(CTok::P(p));
                            i = i + 1;
                        },
                        None => {
                            return Err(fail("unexpected character in source"));
                        },
                    }
                },
            }
        }
    }
    Ok(out)
}

/// The parser: the token stream and a cursor into it.
struct P {
    toks: Vec<CTok>,
    pos: usize,
}

impl P {
    spec fn wf(&self) -> bool {
        self.pos <= self.toks@.len()
    }

    spec fn same_toks(&self, other: &P) -> bool {
        self.toks@ == other.toks@
    }

    fn at_end(&self) -> (r: bool)
        requires
            self.wf(),
        ensures
            r == (self.pos == self.toks@.len()),
    {
        self.pos == self.toks.len()
    }

    fn peek_punct(&self, p: Punct) -> (r: bool)
        requires
            self.wf(),
        ensures
            r ==> self.pos < self.toks@.len(),
    {
        if self.pos < self.toks.len() {
            match &self.toks[self.pos] {
                CTok::P(q) => *q == p,
                _ => false,
            }
        } else {
            false
        }
    }

    fn peek_kw(&self, k: Kw) -> (r: bool)
        requires
            self.wf(),
        ensures
            r ==> self.pos < self.toks@.len(),
    {
        if self.pos < self.toks.len() {
            match &self.toks[self.pos] {
                CTok::Keyword(q) => *q == k,
                _ => false,
            }
        } else {
            false
        }
    }

    fn peek_is_ident(&self) -> (r: bool)
        requires
            self.wf(),
        ensures
            r ==> self.pos < self.toks@.len(),
    {
        if self.pos < self.toks.len() {
            match &self.toks[self.pos] {
                CTok::Ident(_) => true,
                _ => false,
            }
        } else {
            false
        }
    }

    /// Whether a type specifier begins at the cursor.
    fn peek_is_type(&self) -> (r: bool)
        requires
            self.wf(),
        ensures
            r ==> self.pos < self.toks@.len(),
    {
        self.peek_kw(Kw::Void) || self.peek_kw(Kw::Int) || self.peek_kw(Kw::Char) || self.peek_kw(
            Kw::Short,
        ) || self.peek_kw(Kw::Unsigned) || self.peek_kw(Kw::Uint16)
    }

    fn bump(&mut self)
        requires
            old(self).wf(),
            old(self).pos < old(self).toks@.len(),
        ensures
            final(self).wf(),
            final(self).same_toks(old(self)),
            final(self).pos == old(self).pos + 1,
    {
        let n = self.toks.len();
        self.pos = self.pos + 1;
    }

    fn eat_punct(&mut self, p: Punct, what: &str) -> (r: Result<(), CompileError>)
        requires
            old(self).wf(),
        ensures
            final(self).wf(),
            final(self).same_toks(old(self)),
            old(self).pos <= final(self).pos,
            r is Ok ==> final(self).pos == old(self).pos + 1,
    {
        if self.peek_punct(p) {
            self.bump();
            Ok(())
        } else {
            Err(fail(what))
        }
    }

    fn take_ident(&mut self) -> (r: Result<String, CompileError>)
        requires
            old(self).wf(),
        ensures
            final(self).wf(),
            final(self).same_toks(old(self)),
            old(self).pos <= final(self).pos,
            r is Ok ==> final(self).pos == old(self).pos + 1,
    {
        if self.pos < self.toks.len() {
            let is_ident = match &self.toks[self.pos] {
                CTok::Ident(_) => true,
                _ => false,
            };
            if is_ident {
                let name = match &self.toks[self.pos] {
                    CTok::Ident(w) => ascii_string(w),
                    _ => String::new(),
                };
                self.bump();
                return Ok(name);
            }
        }
        Err(fail("expected an identifier"))
    }

    /// A type specifier: a base type keyword, then any number of `*`.
    fn parse_type(&mut self) -> (r: Result<Type, CompileError>)
        requires
            old(self).wf(),
        ensures
            final(self).wf(),
            final(self).same_toks(old(self)),
            old(self).pos <= final(self).pos,
            r is Ok ==> old(self).pos < final(self).pos,
    {
        let base: Type = if self.peek_kw(Kw::Void) {
            self.bump();
            Type::Void
        } else if self.peek_kw(Kw::Int) {
            self.bump();
            Type::Int
        } else if self.peek_kw(Kw::Char) {
            self.bump();
            Type::Char
        } else if self.peek_kw(Kw::Uint16) {
            self.bump();
            Type::Uint16
        } else if self.peek_kw(Kw::Short) {
            self.bump();
            Type::Short { unsigned: false }
        } else if self.peek_kw(Kw::Unsigned) {
            self.bump();
            if self.peek_kw(Kw::Short) {
                self.bump();
            }
            Type::Short { unsigned: true }
        } else {
            return Err(fail("expected a type specifier"));
        };
        let mut ty = base;
        while self.peek_punct(Punct::Star)
            invariant
                self.wf(),
                self.same_toks(old(self)),
                old(self).pos < self.pos,
            decreases self.toks@.len() - self.pos,
        {
            self.bump();
            ty = Type::Pointer(Box::new(ty));
        }
        Ok(ty)
    }

    /// A primary expression: a literal, an identifier, or a parenthesized
    /// expression.
    fn parse_primary(&mut self, fuel: u32) -> (r: Result<Expression, CompileError>)
        requires
            old(self).wf(),
        ensures
            final(self).wf(),
            final(self).same_toks(old(self)),
            old(self).pos <= final(self).pos,
            r is Ok ==> old(self).pos < final(self).pos,
        decreases fuel,
    {
        if fuel == 0 {
            return Err(fail("expression nests too deeply"));
        }
        if self.peek_punct(Punct::LParen) {
            self.bump();
            let e = self.parse_expression(fuel - 1)?;
            self.eat_punct(Punct::RParen, "expected `)`")?;
            return Ok(e);
        }
        if self.pos < self.toks.len() {
            let kind: u8 = match &self.toks[self.pos] {
                CTok::IntLit(_) => 1,
                CTok::CharLit(_) => 2,
                CTok::StrLit(_) => 3,
                CTok::Ident(_) => 4,
                _ => 0,
            };
            if kind == 1 {
                let v = match &self.toks[self.pos] {
                    CTok::IntLit(v) => *v,
                    _ => 0,
                };
                self.bump();
                return Ok(Expression::IntLiteral(v));
            }
            if kind == 2 {
                let v = match &self.toks[self.pos] {
                    CTok::CharLit(c) => *c,
                    _ => ' ',
                };
                self.bump();
                return Ok(Expression::CharLiteral(v));
            }
            if kind == 3 {
                let v = match &self.toks[self.pos] {
                    CTok::StrLit(s) => ascii_string(s),
                    _ => String::new(),
                };
                self.bump();
                return Ok(Expression::StringLiteral(v));
            }
            if kind == 4 {
                let name = self.take_ident()?;
                return Ok(Expression::Identifier(name));
            }
        }
        Err(fail("expected an expression"))
    }

    /// A postfix expression: a primary followed by calls, subscripts and
    /// post-increment or post-decrement.
    fn parse_postfix(&mut self, fuel: u32) -> (r: Result<Expression, CompileError>)
        requires
            old(self).wf(),
        ensures
            final(self).wf(),
            final(self).same_toks(old(self)),
            old(self).pos <= final(self).pos,
            r is Ok ==> old(self).pos < final(self).pos,
        decreases fuel,
    {
        if fuel == 0 {
            return Err(fail("expression nests too deeply"));
        }
        let mut e = self.parse_primary(fuel - 1)?;
        loop
            invariant
                fuel >= 1,
                self.wf(),
                self.same_toks(old(self)),
                old(self).pos < self.pos,
            ensures
                self.wf(),
                self.same_toks(old(self)),
                old(self).pos < self.pos,
            decreases self.toks@.len() - self.pos,
        {
            if self.peek_punct(Punct::LParen) {
                let name = match e {
                    Expression::Identifier(n) => n,
                    _ => {
                        return Err(fail("function call on a non-identifier"));
                    },
                };
                self.bump();
                let args = self.parse_call_args(fuel - 1)?;
                e = Expression::Call { function: name, arguments: args };
            } else if self.peek_punct(Punct::LBracket) {
                self.bump();
                let idx = self.parse_expression(fuel - 1)?;
                self.eat_punct(Punct::RBracket, "expected `]`")?;
                e = Expression::Subscript { array: Box::new(e), index: Box::new(idx) };
            } else if self.peek_punct(Punct::PlusPlus) {
                let name = match e {
                    Expression::Identifier(n) => n,
                    _ => {
                        return Err(fail("post-increment needs an identifier"));
                    },
                };
                self.bump();
                e = Expression::PostIncrement(name);
            } else if self.peek_punct(Punct::MinusMinus) {
                let name = match e {
                    Expression::Identifier(n) => n,
                    _ => {
                        return Err(fail("post-decrement needs an identifier"));
                    },
                };
                self.bump();
                e = Expression::PostDecrement(name);
            } else {
                break ;
            }
        }
        Ok(e)
    }

    /// The comma-separated arguments of a call, up to and including the
    /// closing parenthesis; the opening one is already consumed.
    fn parse_call_args(&mut self, fuel: u32) -> (r: Result<Vec<Expression>, CompileError>)
        requires
            old(self).wf(),
        ensures
            final(self).wf(),
            final(self).same_toks(old(self)),
            old(self).pos <= final(self).pos,
        decreases fuel,
    {
        if fuel == 0 {
            return Err(fail("expression nests too deeply"));
        }
        let mut args: Vec<Expression> = Vec::new();
        if self.peek_punct(Punct::RParen) {
            self.bump();
            return Ok(args);
        }
        loop
            invariant
                fuel >= 1,
                self.wf(),
                self.same_toks(old(self)),
                old(self).pos <= self.pos,
            ensures
                self.wf(),
                self.same_toks(old(self)),
                old(self).pos <= self.pos,
            decreases self.toks@.len() - self.pos,
        {
            let a = self.parse_assignment(fuel - 1)?;
            args.push(a);
            if self.peek_punct(Punct::Comma) {
                self.bump();
            } else {
                break ;
            }
        }
        self.eat_punct(Punct::RParen, "expected `)` after arguments")?;
        Ok(args)
    }

    /// A unary expression: prefix operators over a postfix expression.
    fn parse_unary(&mut self, fuel: u32) -> (r: Result<Expression, CompileError>)
        requires
            old(self).wf(),
        ensures
            final(self).wf(),
            final(self).same_toks(old(self)),
            old(self).pos <= final(self).pos,
            r is Ok ==> old(self).pos < final(self).pos,
        decreases fuel,
    {
        if fuel == 0 {
            return Err(fail("expression nests too deeply"));
        }
        if self.peek_punct(Punct::Minus) {
            self.bump();
            let operand = self.parse_unary(fuel - 1)?;
            return Ok(Expression::Unary { op: UnaryOp::Negate, operand: Box::new(operand) });
        }
        if self.peek_punct(Punct::Tilde) {
            self.bump();
            let operand = self.parse_unary(fuel - 1)?;
            return Ok(Expression::Unary { op: UnaryOp::BitNot, operand: Box::new(operand) });
        }
        if self.peek_punct(Punct::Bang) {
            self.bump();
            let operand = self.parse_unary(fuel - 1)?;
            return Ok(Expression::Unary { op: UnaryOp::LogicalNot, operand: Box::new(operand) });
        }
        if self.peek_punct(Punct::Star) {
            self.bump();
            let operand = self.parse_unary(fuel - 1)?;
            return Ok(Expression::Unary { op: UnaryOp::Deref, operand: Box::new(operand) });
        }
        if self.peek_punct(Punct::Amp) {
            self.bump();
            let operand = self.parse_unary(fuel - 1)?;
            return Ok(Expression::Unary { op: UnaryOp::AddressOf, operand: Box::new(operand) });
        }
        if self.peek_punct(Punct::Plus) {
            self.bump();
            return self.parse_unary(fuel - 1);
        }
        if self.peek_punct(Punct::PlusPlus) {
            self.bump();
            let name = self.take_ident()?;
            return Ok(Expression::PreIncrement(name));
        }
        if self.peek_punct(Punct::MinusMinus) {
            self.bump();
            let name = self.take_ident()?;
            return Ok(Expression::PreDecrement(name));
        }
        self.parse_postfix(fuel - 1)
    }

    /// The binary operator at the cursor for a given precedence tier, if
    /// any.  Tiers count downward: 10 is `||`, 1 is `* / %`.
    fn level_op(&self, level: u8) -> (r: Option<BinaryOp>)
        requires
            self.wf(),
        ensures
            r is Some ==> self.pos < self.toks@.len(),
    {
        if level == 10 && self.peek_punct(Punct::OrOr) {
            Some(BinaryOp::LogicalOr)
        } else if level == 9 && self.peek_punct(Punct::AndAnd) {
            Some(BinaryOp::LogicalAnd)
        } else if level == 8 && self.peek_punct(Punct::Pipe) {
            Some(BinaryOp::BitOr)
        } else if level == 7 && self.peek_punct(Punct::Caret) {
            Some(BinaryOp::BitXor)
        } else if level == 6 && self.peek_punct(Punct::Amp) {
            Some(BinaryOp::BitAnd)
        } else if level == 5 && self.peek_punct(Punct::EqEq) {
            Some(BinaryOp::Equal)
        } else if level == 5 && self.peek_punct(Punct::Ne) {
            Some(BinaryOp::NotEqual)
        } else if level == 4 && self.peek_punct(Punct::Lt) {
            Some(BinaryOp::Less)
        } else if level == 4 && self.peek_punct(Punct::Gt) {
            Some(BinaryOp::Greater)
        } else if level == 4 && self.peek_punct(Punct::Le) {
            Some(BinaryOp::LessEqual)
        } else if level == 4 && self.peek_punct(Punct::Ge) {
            Some(BinaryOp::GreaterEqual)
        } else if level == 3 && self.peek_punct(Punct::Shl) {
            Some(BinaryOp::ShiftLeft)
        } else if level == 3 && self.peek_punct(Punct::Shr) {
            Some(BinaryOp::ShiftRight)
        } else if level == 2 && self.peek_punct(Punct::Plus) {
            Some(BinaryOp::Add)
        } else if level == 2 && self.peek_punct(Punct::Minus) {
            Some(BinaryOp::Sub)
        } else if level == 1 && self.peek_punct(Punct::Star) {
            Some(BinaryOp::Mul)
        } else if level == 1 && self.peek_punct(Punct::Slash) {
            Some(BinaryOp::Div)
        } else if level == 1 && self.peek_punct(Punct::Percent) {
            Some(BinaryOp::Mod)
        } else {
            None
        }
    }

    /// A left-associative binary tier: the next tier down, then any number
    /// of this tier's operators.
    fn parse_binary(&mut self, level: u8, fuel: u32) -> (r: Result<Expression, CompileError>)
        requires
            old(self).wf(),
        ensures
            final(self).wf(),
            final(self).same_toks(old(self)),
            old(self).pos <= final(self).pos,
            r is Ok ==> old(self).pos < final(self).pos,
        decreases fuel,
    {
        if fuel == 0 {
            return Err(fail("expression nests too deeply"));
        }
        let mut left = if level <= 1 {
            self.parse_unary(fuel - 1)?
        } else {
            self.parse_binary(level - 1, fuel - 1)?
        };
        loop
            invariant
                fuel >= 1,
                self.wf(),
                self.same_toks(old(self)),
                old(self).pos < self.pos,
            ensures
                self.wf(),
                self.same_toks(old(self)),
                old(self).pos < self.pos,
            decreases self.toks@.len() - self.pos,
        {
            let op = match self.level_op(level) {
                Some(op) => op,
                None => {
                    break ;
                },
            };
            self.bump();
            let right = if level <= 1 {
                self.parse_unary(fuel - 1)?
            } else {
                self.parse_binary(level - 1, fuel - 1)?
            };
            left = Expression::Binary { op, left: Box::new(left), right: Box::new(right) };
        }
        Ok(left)
    }

    /// The assignment operator at the cursor, if any.
    fn peek_assign_op(&self) -> (r: Option<AssignOp>)
        requires
            self.wf(),
        ensures
            r is Some ==> self.pos + 1 < self.toks@.len(),
    {
        let n = self.toks.len();
        if self.pos < n && self.pos + 1 < n {
            let is_ident = match &self.toks[self.pos] {
                CTok::Ident(_) => true,
                _ => false,
            };
            if !is_ident {
                return None;
            }
            match &self.toks[self.pos + 1] {
                CTok::P(p) => {
                    if *p == Punct::Assign {
                        Some(AssignOp::Assign)
                    } else if *p == Punct::PlusEq {
                        Some(AssignOp::AddAssign)
                    } else if *p == Punct::MinusEq {
                        Some(AssignOp::SubAssign)
                    } else if *p == Punct::AmpEq {
                        Some(AssignOp::AndAssign)
                    } else if *p == Punct::PipeEq {
                        Some(AssignOp::OrAssign)
                    } else if *p == Punct::CaretEq {
                        Some(AssignOp::XorAssign)
                    } else {
                        None
                    }
                },
                _ => None,
            }
        } else {
            None
        }
    }

    /// An assignment, or the conditional tier below it.
    fn parse_assignment(&mut self, fuel: u32) -> (r: Result<Expression, CompileError>)
        requires
            old(self).wf(),
        ensures
            final(self).wf(),
            final(self).same_toks(old(self)),
            old(self).pos <= final(self).pos,
            r is Ok ==> old(self).pos < final(self).pos,
        decreases fuel,
    {
        if fuel == 0 {
            return Err(fail("expression nests too deeply"));
        }
        match self.peek_assign_op() {
            Some(op) => {
                let target = self.take_ident()?;
                self.bump();
                let value = self.parse_assignment(fuel - 1)?;
                Ok(Expression::Assignment { op, target, value: Box::new(value) })
            },
            None => self.parse_binary(10, fuel - 1),
        }
    }

    /// A full expression.
    fn parse_expression(&mut self, fuel: u32) -> (r: Result<Expression, CompileError>)
        requires
            old(self).wf(),
        ensures
            final(self).wf(),
            final(self).same_toks(old(self)),
            old(self).pos <= final(self).pos,
            r is Ok ==> old(self).pos < final(self).pos,
        decreases fuel,
    {
        if fuel == 0 {
            return Err(fail("expression nests too deeply"));
        }
        self.parse_assignment(fuel - 1)
    }

    /// The declarators of one declaration: names with optional
    /// initializers, separated by commas.
    fn parse_init_declarators(&mut self, fuel: u32) -> (r: Result<Vec<Declarator>, CompileError>)
        requires
            old(self).wf(),
        ensures
            final(self).wf(),
            final(self).same_toks(old(self)),
            old(self).pos <= final(self).pos,
            r is Ok ==> old(self).pos < final(self).pos,
        decreases fuel,
    {
        if fuel == 0 {
            return Err(fail("declaration nests too deeply"));
        }
        let mut out: Vec<Declarator> = Vec::new();
        let first = self.take_ident()?;
        let first_init = self.parse_opt_initializer(fuel - 1)?;
        out.push(Declarator { name: first, initializer: first_init });
        loop
            invariant
                fuel >= 1,
                self.wf(),
                self.same_toks(old(self)),
                old(self).pos < self.pos,
            ensures
                self.wf(),
                self.same_toks(old(self)),
                old(self).pos < self.pos,
            decreases self.toks@.len() - self.pos,
        {
            if self.peek_punct(Punct::Comma) {
                self.bump();
                let name = self.take_ident()?;
                let init = self.parse_opt_initializer(fuel - 1)?;
                out.push(Declarator { name, initializer: init });
            } else {
                break ;
            }
        }
        Ok(out)
    }

    /// `= initializer`, if present.  A string literal initializer is kept
    /// apart from expression initializers.
    fn parse_opt_initializer(&mut self, fuel: u32) -> (r: Result<
        Option<Initializer>,
        CompileError,
    >)
        requires
            old(self).wf(),
        ensures
            final(self).wf(),
            final(self).same_toks(old(self)),
            old(self).pos <= final(self).pos,
        decreases fuel,
    {
        if fuel == 0 {
            return Err(fail("declaration nests too deeply"));
        }
        if !self.peek_punct(Punct::Assign) {
            return Ok(None);
        }
        self.bump();
        let e = self.parse_assignment(fuel - 1)?;
        match e {
            Expression::StringLiteral(s) => Ok(Some(Initializer::String(s))),
            other => Ok(Some(Initializer::Expression(other))),
        }
    }

    /// A declaration without its trailing semicolon.
    fn parse_declaration_no_semi(&mut self, fuel: u32) -> (r: Result<Declaration, CompileError>)
        requires
            old(self).wf(),
        ensures
            final(self).wf(),
            final(self).same_toks(old(self)),
            old(self).pos <= final(self).pos,
            r is Ok ==> old(self).pos < final(self).pos,
        decreases fuel,
    {
        if fuel == 0 {
            return Err(fail("declaration nests too deeply"));
        }
        let ty = self.parse_type()?;
        let declarators = self.parse_init_declarators(fuel - 1)?;
        Ok(Declaration { ty, declarators })
    }

    /// One statement.
    fn parse_statement(&mut self, fuel: u32) -> (r: Result<Statement, CompileError>)
        requires
            old(self).wf(),
        ensures
            final(self).wf(),
            final(self).same_toks(old(self)),
            old(self).pos <= final(self).pos,
            r is Ok ==> old(self).pos < final(self).pos,
        decreases fuel,
    {
        if fuel == 0 {
            return Err(fail("statement nests too deeply"));
        }
        if self.peek_punct(Punct::LBrace) {
            let b = self.parse_block(fuel - 1)?;
            return Ok(Statement::Compound(b));
        }
        if self.peek_punct(Punct::Semi) {
            self.bump();
            return Ok(Statement::Empty);
        }
        if self.peek_kw(Kw::If) {
            self.bump();
            self.eat_punct(Punct::LParen, "expected `(` after if")?;
            let condition = self.parse_expression(fuel - 1)?;
            self.eat_punct(Punct::RParen, "expected `)` after condition")?;
            let then_branch = Box::new(self.parse_statement(fuel - 1)?);
            if self.peek_kw(Kw::Else) {
                self.bump();
                let else_branch = Box::new(self.parse_statement(fuel - 1)?);
                return Ok(
                    Statement::If { condition, then_branch, else_branch: Some(else_branch) },
                );
            }
            return Ok(Statement::If { condition, then_branch, else_branch: None });
        }
        if self.peek_kw(Kw::While) {
            self.bump();
            self.eat_punct(Punct::LParen, "expected `(` after while")?;
            let condition = self.parse_expression(fuel - 1)?;
            self.eat_punct(Punct::RParen, "expected `)` after condition")?;
            let body = Box::new(self.parse_statement(fuel - 1)?);
            return Ok(Statement::While { condition, body });
        }
        if self.peek_kw(Kw::For) {
            self.bump();
            self.eat_punct(Punct::LParen, "expected `(` after for")?;
            let init: Option<ForInit> = if self.peek_punct(Punct::Semi) {
                None
            } else if self.peek_is_type() {
                let d = self.parse_declaration_no_semi(fuel - 1)?;
                Some(ForInit::Declaration(d))
            } else {
                let e = self.parse_expression(fuel - 1)?;
                Some(ForInit::Expression(e))
            };
            self.eat_punct(Punct::Semi, "expected `;` in for header")?;
            let condition: Option<Expression> = if self.peek_punct(Punct::Semi) {
                None
            } else {
                Some(self.parse_expression(fuel - 1)?)
            };
            self.eat_punct(Punct::Semi, "expected `;` in for header")?;
            let update: Option<Expression> = if self.peek_punct(Punct::RParen) {
                None
            } else {
                Some(self.parse_expression(fuel - 1)?)
            };
            self.eat_punct(Punct::RParen, "expected `)` after for header")?;
            let body = Box::new(self.parse_statement(fuel - 1)?);
            return Ok(Statement::For { init, condition, update, body });
        }
        if self.peek_kw(Kw::Return) {
            self.bump();
            if self.peek_punct(Punct::Semi) {
                self.bump();
                return Ok(Statement::Return(None));
            }
            let e = self.parse_expression(fuel - 1)?;
            self.eat_punct(Punct::Semi, "expected `;` after return")?;
            return Ok(Statement::Return(Some(e)));
        }
        let e = self.parse_expression(fuel - 1)?;
        self.eat_punct(Punct::Semi, "expected `;` after expression")?;
        Ok(Statement::Expression(e))
    }

    /// A `{ ... }` block of declarations and statements.
    fn parse_block(&mut self, fuel: u32) -> (r: Result<Block, CompileError>)
        requires
            old(self).wf(),
        ensures
            final(self).wf(),
            final(self).same_toks(old(self)),
            old(self).pos <= final(self).pos,
            r is Ok ==> old(self).pos < final(self).pos,
        decreases fuel,
    {
        if fuel == 0 {
            return Err(fail("block nests too deeply"));
        }
        self.eat_punct(Punct::LBrace, "expected `{`")?;
        let mut items: Vec<BlockItem> = Vec::new();
        loop
            invariant
                fuel >= 1,
                self.wf(),
                self.same_toks(old(self)),
                old(self).pos < self.pos,
            ensures
                self.wf(),
                self.same_toks(old(self)),
                old(self).pos < self.pos,
            decreases self.toks@.len() - self.pos,
        {
            if self.peek_punct(Punct::RBrace) {
                self.bump();
                break ;
            }
            if self.at_end() {
                return Err(fail("unterminated block"));
            }
            if self.peek_is_type() {
                let d = self.parse_declaration_no_semi(fuel - 1)?;
                self.eat_punct(Punct::Semi, "expected `;` after declaration")?;
                items.push(BlockItem::Declaration(d));
            } else {
                let s = self.parse_statement(fuel - 1)?;
                items.push(BlockItem::Statement(s));
            }
        }
        Ok(Block { items })
    }

    /// The parameter list of a function, parentheses included.
    fn parse_parameters(&mut self, fuel: u32) -> (r: Result<Vec<Parameter>, CompileError>)
        requires
            old(self).wf(),
        ensures
            final(self).wf(),
            final(self).same_toks(old(self)),
            old(self).pos <= final(self).pos,
            r is Ok ==> old(self).pos < final(self).pos,
        decreases fuel,
    {
        if fuel == 0 {
            return Err(fail("parameter list nests too deeply"));
        }
        self.eat_punct(Punct::LParen, "expected `(`")?;
        let mut params: Vec<Parameter> = Vec::new();
        if self.peek_punct(Punct::RParen) {
            self.bump();
            return Ok(params);
        }
        if self.peek_kw(Kw::Void) {
            // `(void)` as an empty parameter list
            let saved = self.pos;
            self.bump();
            if self.peek_punct(Punct::RParen) {
                self.bump();
                return Ok(params);
            }
            self.pos = saved;
        }
        loop
            invariant
                fuel >= 1,
                self.wf(),
                self.same_toks(old(self)),
                old(self).pos < self.pos,
            ensures
                self.wf(),
                self.same_toks(old(self)),
                old(self).pos < self.pos,
            decreases self.toks@.len() - self.pos,
        {
            let ty = self.parse_type()?;
            let name = self.take_ident()?;
            params.push(Parameter { ty, name });
            if self.peek_punct(Punct::Comma) {
                self.bump();
            } else {
                break ;
            }
        }
        self.eat_punct(Punct::RParen, "expected `)` after parameters")?;
        Ok(params)
    }

    /// One top-level item: an include, a function definition, or a global
    /// declaration.
    fn parse_top_level(&mut self, fuel: u32) -> (r: Result<TopLevelItem, CompileError>)
        requires
            old(self).wf(),
        ensures
            final(self).wf(),
            final(self).same_toks(old(self)),
            old(self).pos <= final(self).pos,
            r is Ok ==> old(self).pos < final(self).pos,
        decreases fuel,
    {
        if fuel == 0 {
            return Err(fail("program nests too deeply"));
        }
        if self.pos < self.toks.len() {
            let is_include = match &self.toks[self.pos] {
                CTok::IncludePath(_) => true,
                _ => false,
            };
            if is_include {
                let path = match &self.toks[self.pos] {
                    CTok::IncludePath(p) => ascii_string(p),
                    _ => String::new(),
                };
                self.bump();
                return Ok(TopLevelItem::Include(path));
            }
        }
        let ty = self.parse_type()?;
        let name = self.take_ident()?;
        if self.peek_punct(Punct::LParen) {
            let parameters = self.parse_parameters(fuel - 1)?;
            let body = self.parse_block(fuel - 1)?;
            return Ok(
                TopLevelItem::Function(Function { return_type: ty, name, parameters, body }),
            );
        }
        // a global declaration: the first declarator's name was just read
        let init = self.parse_opt_initializer(fuel - 1)?;
        let mut declarators: Vec<Declarator> = Vec::new();
        declarators.push(Declarator { name, initializer: init });
        loop
            invariant
                fuel >= 1,
                self.wf(),
                self.same_toks(old(self)),
                old(self).pos < self.pos,
            ensures
                self.wf(),
                self.same_toks(old(self)),
                old(self).pos < self.pos,
            decreases self.toks@.len() - self.pos,
        {
            if self.peek_punct(Punct::Comma) {
                self.bump();
                let dname = self.take_ident()?;
                let dinit = self.parse_opt_initializer(fuel - 1)?;
                declarators.push(Declarator { name: dname, initializer: dinit });
            } else {
                break ;
            }
        }
        self.eat_punct(Punct::Semi, "expected `;` after declaration")?;
        Ok(TopLevelItem::GlobalDeclaration(Declaration { ty, declarators }))
    }
}

/// Parses a whole C translation unit to its abstract syntax.
pub fn parse_c(source: &str) -> (r: Result<Program, CompileError>) {
    let bytes = source.as_bytes_vec();
    let toks = match lex(&bytes) {
        Ok(t) => t,
        Err(e) => {
            return Err(e);
        },
    };
    let mut p = P { toks, pos: 0 };
    let mut items: Vec<TopLevelItem> = Vec::new();
    loop
        invariant
            p.wf(),
        ensures
            true,
        decreases p.toks@.len() - p.pos,
    {
        if p.at_end() {
            break ;
        }
        match p.parse_top_level(PARSE_FUEL) {
            Ok(item) => {
                items.push(item);
            },
            Err(e) => {
                return Err(e);
            },
        }
    }
    Ok(Program { items })
}

} // verus!
