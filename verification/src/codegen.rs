//! Code generation: the C-subset AST compiled to assembly text for the
//! 16-bit machine.  R0 carries expression results and return values, R1-R4
//! hold register-allocated locals of simple functions, R5 is the frame
//! pointer, R6 the stack pointer and R7 the link register.  `trap(n)` is an
//! intrinsic that emits a TRAP instruction; functions whose whole body is
//! one `trap` call are inlined at their call sites.

use vstd::prelude::*;
use vstd::string::*;
use crate::ast::{
    AssignOp, BinaryOp, Block, BlockItem, Declaration, Expression, ForInit, Function, Initializer,
    Program, Statement, TopLevelItem, Type,
};
use crate::cparser::parse_c;
use crate::headers::get_header;
use crate::strutil::{append_dec_i32, append_dec_u32, append_hex2, append_hex4, push_char, str_eq};

verus! {

/// The nesting budget handed to the recursive compilation routines; it is
/// at least the parser's own, so it never runs out on a parsed program.
const COMPILE_FUEL: u32 = 2048;

broadcast use crate::strutil::lemma_text_prefix_append, crate::strutil::lemma_text_prefix_refl, crate::strutil::lemma_text_prefix_trans;

/// Compilation options.
#[derive(Debug, Clone, Copy)]
pub struct CompileOptions {
    /// Origin address for the program.
    pub origin: u16,
    /// Include comments showing the original C constructs.
    pub emit_comments: bool,
}

impl Default for CompileOptions {
    /// Origin 0x3000, comments on.
    fn default() -> (r: CompileOptions)
        ensures
            r.origin == 0x3000,
            r.emit_comments,
    {
        CompileOptions { origin: 0x3000, emit_comments: true }
    }
}

/// A compilation failure, with a human-readable message.
#[derive(Debug, Clone)]
pub struct CompileError {
    pub message: String,
}

fn cerr(message: &str) -> (r: CompileError) {
    CompileError { message: String::from_str(message) }
}

fn cerr_name(before: &str, name: &str, after: &str) -> (r: CompileError) {
    let mut m = String::from_str(before);
    m.append(name);
    m.append(after);
    CompileError { message: m }
}

/// Where a variable lives: a register (R1-R4) or a stack slot relative to
/// the frame pointer R5.
#[derive(Debug, Clone, Copy)]
enum VarLocation {
    Register(u8),
    Stack(i16),
}

/// Deferred data-section entries: string literals and large constants.
enum DataItem {
    Str { label: String, value: String },
    Word { label: String, value: i32 },
}

/// True when the function has at most four locals and calls nothing but the
/// `trap` intrinsic, so its locals fit in registers.
fn is_simple_function(func: &Function) -> (r: bool) {
    let mut local_count: usize = 0;
    let mut has_calls = false;
    count_locals_and_calls(&func.body, &mut local_count, &mut has_calls, COMPILE_FUEL);
    local_count <= 4 && !has_calls
}

/// The trap vector of a function whose whole body is one `trap(n)` call
/// with a literal argument, if it has that shape.
fn get_trap_only_function(func: &Function) -> (r: Option<u8>) {
    if func.body.items.len() != 1 {
        return None;
    }
    match &func.body.items[0] {
        BlockItem::Statement(Statement::Expression(expr)) => {
            match expr {
                Expression::Call { function, arguments } => {
                    if str_eq(function.as_str(), "trap") && arguments.len() == 1 {
                        match &arguments[0] {
                            Expression::IntLiteral(vector) => Some(
                                #[verifier::truncate] (*vector as u8),
                            ),
                            _ => None,
                        }
                    } else {
                        None
                    }
                },
                _ => None,
            }
        },
        _ => None,
    }
}

/// Counts declared locals and looks for calls other than the `trap`
/// intrinsic.  When the budget runs out the block is conservatively treated
/// as calling out.
fn count_locals_and_calls(block: &Block, local_count: &mut usize, has_calls: &mut bool, fuel: u32)
    decreases fuel,
{
    if fuel == 0 {
        *has_calls = true;
        return ;
    }
    let n = block.items.len();
    let mut i: usize = 0;
    while i < n
        invariant
            i <= n,
            n == block.items@.len(),
            fuel >= 1,
        decreases n - i,
    {
        match &block.items[i] {
            BlockItem::Declaration(decl) => {
                *local_count = (*local_count).wrapping_add(decl.declarators.len());
            },
            BlockItem::Statement(stmt) => {
                check_statement_for_calls(stmt, local_count, has_calls, fuel - 1);
            },
        }
        i = i + 1;
    }
}

fn check_statement_for_calls(stmt: &Statement, local_count: &mut usize, has_calls: &mut bool, fuel: u32)
    decreases fuel,
{
    if fuel == 0 {
        *has_calls = true;
        return ;
    }
    match stmt {
        Statement::Expression(expr) => {
            check_expression_for_calls(expr, has_calls, fuel - 1);
        },
        Statement::Compound(block) => {
            count_locals_and_calls(block, local_count, has_calls, fuel - 1);
        },
        Statement::If { condition, then_branch, else_branch } => {
            check_expression_for_calls(condition, has_calls, fuel - 1);
            check_statement_for_calls(then_branch, local_count, has_calls, fuel - 1);
            match else_branch {
                Some(else_stmt) => {
                    check_statement_for_calls(else_stmt, local_count, has_calls, fuel - 1);
                },
                None => {},
            }
        },
        Statement::While { condition, body } => {
            check_expression_for_calls(condition, has_calls, fuel - 1);
            check_statement_for_calls(body, local_count, has_calls, fuel - 1);
        },
        Statement::For { init, condition, update, body } => {
            match init {
                Some(ForInit::Declaration(decl)) => {
                    *local_count = (*local_count).wrapping_add(decl.declarators.len());
                },
                Some(ForInit::Expression(expr)) => {
                    check_expression_for_calls(expr, has_calls, fuel - 1);
                },
                None => {},
            }
            match condition {
                Some(cond) => {
                    check_expression_for_calls(cond, has_calls, fuel - 1);
                },
                None => {},
            }
            match update {
                Some(upd) => {
                    check_expression_for_calls(upd, has_calls, fuel - 1);
                },
                None => {},
            }
            check_statement_for_calls(body, local_count, has_calls, fuel - 1);
        },
        Statement::Return(Some(expr)) => {
            check_expression_for_calls(expr, has_calls, fuel - 1);
        },
        _ => {},
    }
}

fn check_expression_for_calls(expr: &Expression, has_calls: &mut bool, fuel: u32)
    decreases fuel,
{
    if fuel == 0 {
        *has_calls = true;
        return ;
    }
    match expr {
        Expression::Call { function, arguments } => {
            if !str_eq(function.as_str(), "trap") {
                *has_calls = true;
            }
            let n = arguments.len();
            let mut i: usize = 0;
            while i < n
                invariant
                    i <= n,
                    n == arguments@.len(),
                    fuel >= 1,
                decreases n - i,
            {
                check_expression_for_calls(&arguments[i], has_calls, fuel - 1);
                i = i + 1;
            }
        },
        Expression::Binary { left, right, .. } => {
            check_expression_for_calls(left, has_calls, fuel - 1);
            check_expression_for_calls(right, has_calls, fuel - 1);
        },
        Expression::Unary { operand, .. } => {
            check_expression_for_calls(operand, has_calls, fuel - 1);
        },
        Expression::Assignment { value, .. } => {
            check_expression_for_calls(value, has_calls, fuel - 1);
        },
        Expression::Subscript { array, index } => {
            check_expression_for_calls(array, has_calls, fuel - 1);
            check_expression_for_calls(index, has_calls, fuel - 1);
        },
        _ => {},
    }
}

/// The display name of a type, for comments.
fn type_to_string(ty: &Type) -> (r: &'static str) {
    match ty {
        Type::Void => "void",
        Type::Int => "int",
        Type::Uint16 => "uint16_t",
        Type::Short { unsigned } => {
            if *unsigned {
                "unsigned short"
            } else {
                "short"
            }
        },
        Type::Char => "char",
        Type::Pointer(_) => "ptr",
    }
}

/// Escapes a string for a `.STRINGZ` directive: the usual backslash forms
/// for control characters, quotes and backslashes, `\xNN` for the rest.
fn escape_string(s: &String) -> (r: String) {
    let mut result = String::new();
    let n = s.as_str().unicode_len();
    let mut i: usize = 0;
    while i < n
        invariant
            i <= n,
            n == s@.len(),
        decreases n - i,
    {
        let c = s.as_str().get_char(i);
        let u = c as u32;
        if u == 10 {
            result.append("\\n");
        } else if u == 13 {
            result.append("\\r");
        } else if u == 9 {
            result.append("\\t");
        } else if u == 34 {
            result.append("\\\"");
        } else if u == 92 {
            result.append("\\\\");
        } else if u == 32 || (33 <= u && u <= 126) {
            push_char(&mut result, c);
        } else {
            result.append("\\x");
            append_hex2(&mut result, #[verifier::truncate] (u as u8));
        }
        i = i + 1;
    }
    result
}

/// Expands `#include` directives by parsing the named headers and merging
/// their items in place of the directive.
fn expand_includes(program: Program) -> (r: Result<Program, CompileError>) {
    let mut expanded_items: Vec<TopLevelItem> = Vec::new();
    let mut items = program.items;
    while items.len() > 0
        decreases items@.len(),
    {
        let item = items.remove(0);
        match item {
            TopLevelItem::Include(path) => {
                let header_source = match get_header(path.as_str()) {
                    Some(h) => h,
                    None => {
                        return Err(cerr_name("Unknown header file: <", path.as_str(), ">"));
                    },
                };
                let header_ast = match parse_c(header_source) {
                    Ok(a) => a,
                    Err(e) => {
                        return Err(
                            cerr_name("Error parsing <", path.as_str(), ">"),
                        );
                    },
                };
                let mut header_items = header_ast.items;
                while header_items.len() > 0
                    decreases header_items@.len(),
                {
                    let header_item = header_items.remove(0);
                    match header_item {
                        TopLevelItem::Include(_) => {},
                        other => {
                            expanded_items.push(other);
                        },
                    }
                }
            },
            other => {
                expanded_items.push(other);
            },
        }
    }
    Ok(Program { items: expanded_items })
}

/// The compiler state while one program is generated.
struct Compiler {
    options: CompileOptions,
    output: String,
    /// Counter for generating unique labels.
    label_counter: u32,
    /// Variable storage: name to location; later entries shadow earlier.
    locals: Vec<(String, VarLocation)>,
    /// Stack offset for the next local, when stack allocation is in use.
    local_offset: i16,
    /// Next register available for allocation (R1-R4).
    next_reg: u8,
    /// Whether the current function keeps its locals in registers.
    use_registers: bool,
    /// Deferred global data: string literals and large constants.
    data_section: Vec<DataItem>,
    /// The function being compiled, for labels.
    current_function: String,
    /// Names of defined functions.
    defined_functions: Vec<String>,
    /// Names of defined globals.
    defined_globals: Vec<String>,
    /// Globals initialized with string literals: these label the string
    /// itself, not a pointer word.
    string_globals: Vec<String>,
    /// Words emitted so far, for data alignment.
    word_count: usize,
    /// Functions that are plain trap wrappers, inlined at call sites.
    inlineable_functions: Vec<(String, u8)>,
}

fn name_list_contains(list: &Vec<String>, name: &str) -> (r: bool) {
    let n = list.len();
    let mut i: usize = 0;
    while i < n
        invariant
            i <= n,
            n == list@.len(),
        decreases n - i,
    {
        if str_eq(list[i].as_str(), name) {
            return true;
        }
        i = i + 1;
    }
    false
}

impl Compiler {
    fn new(options: CompileOptions) -> (r: Compiler) {
        Compiler {
            options,
            output: String::new(),
            label_counter: 0,
            locals: Vec::new(),
            local_offset: 0,
            next_reg: 1,
            use_registers: false,
            data_section: Vec::new(),
            current_function: String::new(),
            defined_functions: Vec::new(),
            defined_globals: Vec::new(),
            string_globals: Vec::new(),
            word_count: 0,
            inlineable_functions: Vec::new(),
        }
    }

    /// Appends one finished line to the output.
    fn emit(&mut self, line: &str)
        ensures
            final(self).output@ == old(self).output@ + line@ + "\n"@,
    {
        self.output.append(line);
        self.output.append("\n");
    }

    /// Appends one finished line to the output.
    fn emit_string(&mut self, line: String)
        ensures
            final(self).output@ == old(self).output@ + line@ + "\n"@,
    {
        self.output.append(line.as_str());
        self.output.append("\n");
    }

    fn emit_comment(&mut self, comment: &str)
        ensures
            old(self).output@.is_prefix_of(final(self).output@),
    {
        if self.options.emit_comments {
            self.output.append("; ");
            self.output.append(comment);
            self.output.append("\n");
        }
    }

    fn emit_comment_string(&mut self, comment: String)
        ensures
            old(self).output@.is_prefix_of(final(self).output@),
    {
        if self.options.emit_comments {
            self.output.append("; ");
            self.output.append(comment.as_str());
            self.output.append("\n");
        }
    }

    /// Appends `label:` on a line of its own.
    fn emit_label(&mut self, label: &str)
        ensures
            final(self).output@ == old(self).output@ + label@ + ":\n"@,
    {
        self.output.append(label);
        self.output.append(":\n");
    }

    /// Appends one indented instruction line and counts the word it
    /// assembles to.
    fn emit_instruction(&mut self, instr: &str)
        ensures
            final(self).output@ == old(self).output@ + "    "@ + instr@ + "\n"@,
    {
        self.output.append("    ");
        self.output.append(instr);
        self.output.append("\n");
        self.word_count = self.word_count.wrapping_add(1);
    }

    /// Appends one indented instruction line and counts the word it
    /// assembles to.
    fn emit_instruction_string(&mut self, instr: String)
        ensures
            final(self).output@ == old(self).output@ + "    "@ + instr@ + "\n"@,
    {
        self.output.append("    ");
        self.output.append(instr.as_str());
        self.output.append("\n");
        self.word_count = self.word_count.wrapping_add(1);
    }

    /// `prefix_N` with a fresh N.
    fn new_label(&mut self, prefix: &str) -> (r: String)
        ensures
            final(self).output@ == old(self).output@,
    {
        let mut label = String::from_str(prefix);
        label.append("_");
        append_dec_u32(&mut label, self.label_counter);
        self.label_counter = self.label_counter.wrapping_add(1);
        label
    }

    /// The location of a local, later declarations shadowing earlier ones.
    fn lookup_local(&self, name: &str) -> (r: Option<VarLocation>) {
        let n = self.locals.len();
        let mut i: usize = n;
        while i > 0
            invariant
                i <= n,
                n == self.locals@.len(),
            decreases i,
        {
            i = i - 1;
            if str_eq(self.locals[i].0.as_str(), name) {
                return Some(self.locals[i].1);
            }
        }
        None
    }

    /// Emits `ADD Rd, Rs, #v` for small constant arithmetic on registers.
    fn emit_add_reg_imm(&mut self, dst: u8, src: u8, v: i32)
        ensures
            old(self).output@.is_prefix_of(final(self).output@),
    {
        let mut t = String::from_str("ADD R");
        append_dec_u32(&mut t, dst as u32);
        t.append(", R");
        append_dec_u32(&mut t, src as u32);
        t.append(", #");
        append_dec_i32(&mut t, v);
        self.emit_instruction_string(t);
    }

    /// Emits `OP target` for a branch or jump to a label.
    fn emit_branch(&mut self, op: &str, label: &str)
        ensures
            old(self).output@.is_prefix_of(final(self).output@),
    {
        let mut t = String::from_str(op);
        t.append(" ");
        t.append(label);
        self.emit_instruction_string(t);
    }

    /// Emits `STW Rv, R5, #offset`.
    fn emit_stw_fp(&mut self, reg: u8, offset: i16)
        ensures
            old(self).output@.is_prefix_of(final(self).output@),
    {
        let mut t = String::from_str("STW R");
        append_dec_u32(&mut t, reg as u32);
        t.append(", R5, #");
        append_dec_i32(&mut t, offset as i32);
        self.emit_instruction_string(t);
    }

    /// Emits `LDW Rv, R5, #offset`.
    fn emit_ldw_fp(&mut self, reg: u8, offset: i16)
        ensures
            old(self).output@.is_prefix_of(final(self).output@),
    {
        let mut t = String::from_str("LDW R");
        append_dec_u32(&mut t, reg as u32);
        t.append(", R5, #");
        append_dec_i32(&mut t, offset as i32);
        self.emit_instruction_string(t);
    }

    /// Emits `LEA Rv, label`.
    fn emit_lea(&mut self, reg: u8, label: &str)
        ensures
            old(self).output@.is_prefix_of(final(self).output@),
    {
        let mut t = String::from_str("LEA R");
        append_dec_u32(&mut t, reg as u32);
        t.append(", ");
        t.append(label);
        self.emit_instruction_string(t);
    }

    fn compile_program(&mut self, program: &Program) -> (r: Result<(), CompileError>)
        ensures
            old(self).output@.is_prefix_of(final(self).output@),
    {
        // First pass: collect defined functions, globals and inlineable
        // trap wrappers.
        let n = program.items.len();
        let mut i: usize = 0;
        while i < n
            invariant
                i <= n,
                n == program.items@.len(),
                self.output@ == old(self).output@,
            decreases n - i,
        {
            match &program.items[i] {
                TopLevelItem::Function(f) => {
                    self.defined_functions.push(f.name.clone());
                    match get_trap_only_function(f) {
                        Some(trap_vector) => {
                            self.inlineable_functions.push((f.name.clone(), trap_vector));
                        },
                        None => {},
                    }
                },
                TopLevelItem::GlobalDeclaration(d) => {
                    let dn = d.declarators.len();
                    let mut j: usize = 0;
                    while j < dn
                        invariant
                            j <= dn,
                            dn == d.declarators@.len(),
                            self.output@ == old(self).output@,
                        decreases dn - j,
                    {
                        self.defined_globals.push(d.declarators[j].name.clone());
                        match &d.declarators[j].initializer {
                            Some(Initializer::String(_)) => {
                                self.string_globals.push(d.declarators[j].name.clone());
                            },
                            _ => {},
                        }
                        j = j + 1;
                    }
                },
                TopLevelItem::Include(_) => {},
            }
            i = i + 1;
        }
        // Emit origin.
        let mut orig_line = String::from_str(".ORIG x");
        append_hex4(&mut orig_line, self.options.origin);
        self.emit_string(orig_line);
        self.emit("");
        // Compile main first, then the other functions, skipping inlined
        // ones.
        let mut k: usize = 0;
        while k < n
            invariant
                k <= n,
                n == program.items@.len(),
                old(self).output@.is_prefix_of(self.output@),
            decreases n - k,
        {
            match &program.items[k] {
                TopLevelItem::Function(f) => {
                    if str_eq(f.name.as_str(), "main") {
                        match self.compile_main(f) {
                            Ok(()) => {},
                            Err(e) => {
                                return Err(e);
                            },
                        }
                    }
                },
                _ => {},
            }
            k = k + 1;
        }
        let mut k2: usize = 0;
        while k2 < n
            invariant
                k2 <= n,
                n == program.items@.len(),
                old(self).output@.is_prefix_of(self.output@),
            decreases n - k2,
        {
            match &program.items[k2] {
                TopLevelItem::Function(f) => {
                    let inl = self.is_inlineable(f.name.as_str());
                    if !str_eq(f.name.as_str(), "main") && inl.is_none() {
                        self.emit("");
                        match self.compile_function(f) {
                            Ok(()) => {},
                            Err(e) => {
                                return Err(e);
                            },
                        }
                    }
                },
                _ => {},
            }
            k2 = k2 + 1;
        }
        // Data section: globals first, then deferred strings and constants.
        let mut any_globals = false;
        let mut g: usize = 0;
        while g < n
            invariant
                g <= n,
                n == program.items@.len(),
            decreases n - g,
        {
            match &program.items[g] {
                TopLevelItem::GlobalDeclaration(_) => {
                    any_globals = true;
                },
                _ => {},
            }
            g = g + 1;
        }
        if self.data_section.len() > 0 || any_globals {
            self.emit("");
            self.emit_comment("Data section");
            if self.word_count % 2 != 0 {
                self.emit("    .FILL x0000  ; padding for alignment");
                self.word_count = self.word_count.wrapping_add(1);
            }
            let mut g2: usize = 0;
            while g2 < n
                invariant
                    g2 <= n,
                    n == program.items@.len(),
                    old(self).output@.is_prefix_of(self.output@),
                decreases n - g2,
            {
                match &program.items[g2] {
                    TopLevelItem::GlobalDeclaration(d) => {
                        match self.compile_global_declaration(d) {
                            Ok(()) => {},
                            Err(e) => {
                                return Err(e);
                            },
                        }
                    },
                    _ => {},
                }
                g2 = g2 + 1;
            }
            let mut data_items: Vec<DataItem> = Vec::new();
            std::mem::swap(&mut data_items, &mut self.data_section);
            let dn = data_items.len();
            let mut di: usize = 0;
            while di < dn
                invariant
                    di <= dn,
                    dn == data_items@.len(),
                    old(self).output@.is_prefix_of(self.output@),
                decreases dn - di,
            {
                match &data_items[di] {
                    DataItem::Str { label, value } => {
                        let owned_label = label.clone();
                        self.emit_label(owned_label.as_str());
                        let mut line = String::from_str("    .STRINGZ \"");
                        let escaped = escape_string(value);
                        line.append(escaped.as_str());
                        line.append("\"");
                        self.emit_string(line);
                    },
                    DataItem::Word { label, value } => {
                        let owned_label = label.clone();
                        let v = *value;
                        self.emit_label(owned_label.as_str());
                        if v < 0 {
                            let mut line = String::from_str("    .FILL #");
                            append_dec_i32(&mut line, v);
                            self.emit_string(line);
                        } else {
                            let mut line = String::from_str("    .FILL x");
                            append_hex4(&mut line, #[verifier::truncate] (v as u16));
                            self.emit_string(line);
                        }
                    },
                }
                di = di + 1;
            }
        }
        self.emit("");
        self.emit(".END");
        Ok(())
    }

    fn is_inlineable(&self, name: &str) -> (r: Option<u8>) {
        let n = self.inlineable_functions.len();
        let mut i: usize = 0;
        while i < n
            invariant
                i <= n,
                n == self.inlineable_functions@.len(),
            decreases n - i,
        {
            if str_eq(self.inlineable_functions[i].0.as_str(), name) {
                return Some(self.inlineable_functions[i].1);
            }
            i = i + 1;
        }
        None
    }

    fn compile_main(&mut self, func: &Function) -> (r: Result<(), CompileError>)
        ensures
            old(self).output@.is_prefix_of(final(self).output@),
    {
        self.current_function = String::from_str("main");
        self.emit_comment("int main()");
        self.emit_label("main");
        self.locals = Vec::new();
        self.local_offset = -1;
        self.next_reg = 1;
        self.use_registers = is_simple_function(func);
        if self.use_registers {
            self.emit_comment("Using register allocation for locals");
        } else {
            // main is the entry point: no frame setup, only R5 := SP.
            self.emit_instruction("ADD R5, R6, #0");
        }
        match self.compile_block(&func.body, COMPILE_FUEL) {
            Ok(()) => {},
            Err(e) => {
                return Err(e);
            },
        }
        self.emit_label("main_exit");
        self.emit_instruction("HALT");
        Ok(())
    }

    fn compile_function(&mut self, func: &Function) -> (r: Result<(), CompileError>)
        ensures
            old(self).output@.is_prefix_of(final(self).output@),
    {
        self.current_function = func.name.clone();
        let mut sig = String::from_str(type_to_string(&func.return_type));
        sig.append(" ");
        sig.append(func.name.as_str());
        sig.append("(");
        let pn = func.parameters.len();
        let mut pi: usize = 0;
        while pi < pn
            invariant
                pi <= pn,
                pn == func.parameters@.len(),
            decreases pn - pi,
        {
            if pi > 0 {
                sig.append(", ");
            }
            sig.append(type_to_string(&func.parameters[pi].ty));
            sig.append(" ");
            sig.append(func.parameters[pi].name.as_str());
            pi = pi + 1;
        }
        sig.append(")");
        self.emit_comment_string(sig);
        let fname = func.name.clone();
        self.emit_label(fname.as_str());
        self.locals = Vec::new();
        self.local_offset = -1;
        self.next_reg = 1;
        self.use_registers = is_simple_function(func) && func.parameters.len() == 0;
        self.emit_comment("Set up stack frame");
        self.emit_instruction("ADD R6, R6, #-2");
        self.emit_instruction("STW R7, R6, #0");
        self.emit_instruction("STW R5, R6, #1");
        self.emit_instruction("ADD R5, R6, #0");
        if self.use_registers {
            self.emit_comment("Using register allocation for locals");
        }
        // Parameters live at positive offsets from the frame pointer; the
        // first is at FP+2.
        let mut qi: usize = 0;
        while qi < pn
            invariant
                qi <= pn,
                pn == func.parameters@.len(),
                old(self).output@.is_prefix_of(self.output@),
            decreases pn - qi,
        {
            let offset: i16 = (#[verifier::truncate] (qi as i16)).wrapping_add(2);
            self.locals.push((func.parameters[qi].name.clone(), VarLocation::Stack(offset)));
            qi = qi + 1;
        }
        match self.compile_block(&func.body, COMPILE_FUEL) {
            Ok(()) => {},
            Err(e) => {
                return Err(e);
            },
        }
        let mut exit_label = func.name.clone();
        exit_label.append("_exit");
        self.emit_label(exit_label.as_str());
        self.emit_comment("Function epilogue");
        self.emit_instruction("ADD R6, R5, #0");
        self.emit_instruction("LDW R5, R6, #1");
        self.emit_instruction("LDW R7, R6, #0");
        self.emit_instruction("ADD R6, R6, #2");
        self.emit_instruction("RET");
        Ok(())
    }

    fn compile_block(&mut self, block: &Block, fuel: u32) -> (r: Result<(), CompileError>)
        ensures
            old(self).output@.is_prefix_of(final(self).output@),
        decreases fuel,
    {
        if fuel == 0 {
            return Err(cerr("program nests too deeply"));
        }
        let n = block.items.len();
        let mut i: usize = 0;
        while i < n
            invariant
                i <= n,
                n == block.items@.len(),
                fuel >= 1,
                old(self).output@.is_prefix_of(self.output@),
            decreases n - i,
        {
            match &block.items[i] {
                BlockItem::Declaration(decl) => {
                    match self.compile_declaration(decl, fuel - 1) {
                        Ok(()) => {},
                        Err(e) => {
                            return Err(e);
                        },
                    }
                },
                BlockItem::Statement(stmt) => {
                    match self.compile_statement(stmt, fuel - 1) {
                        Ok(()) => {},
                        Err(e) => {
                            return Err(e);
                        },
                    }
                },
            }
            i = i + 1;
        }
        Ok(())
    }

    fn compile_declaration(&mut self, decl: &Declaration, fuel: u32) -> (r: Result<
        (),
        CompileError,
    >)
        ensures
            old(self).output@.is_prefix_of(final(self).output@),
        decreases fuel,
    {
        if fuel == 0 {
            return Err(cerr("program nests too deeply"));
        }
        let n = decl.declarators.len();
        let mut i: usize = 0;
        while i < n
            invariant
                i <= n,
                n == decl.declarators@.len(),
                fuel >= 1,
                old(self).output@.is_prefix_of(self.output@),
            decreases n - i,
        {
            let location: VarLocation = if self.use_registers && self.next_reg <= 4 {
                let reg = self.next_reg;
                self.next_reg = self.next_reg.wrapping_add(1);
                VarLocation::Register(reg)
            } else {
                self.emit_instruction("ADD R6, R6, #-1");
                let loc = VarLocation::Stack(self.local_offset);
                self.local_offset = self.local_offset.wrapping_sub(1);
                loc
            };
            self.locals.push((decl.declarators[i].name.clone(), location));
            match &decl.declarators[i].initializer {
                Some(init) => {
                    let mut c = String::from_str(type_to_string(&decl.ty));
                    c.append(" ");
                    c.append(decl.declarators[i].name.as_str());
                    c.append(" = ...");
                    self.emit_comment_string(c);
                    match init {
                        Initializer::Expression(expr) => {
                            match self.compile_expression(expr, fuel - 1) {
                                Ok(()) => {},
                                Err(e) => {
                                    return Err(e);
                                },
                            }
                            match location {
                                VarLocation::Register(reg) => {
                                    let mut t = String::from_str("ADD R");
                                    append_dec_u32(&mut t, reg as u32);
                                    t.append(", R0, #0");
                                    self.emit_instruction_string(t);
                                },
                                VarLocation::Stack(offset) => {
                                    self.emit_stw_fp(0, offset);
                                },
                            }
                        },
                        Initializer::String(s) => {
                            let label = self.new_label("str");
                            self.data_section.push(
                                DataItem::Str { label: label.clone(), value: s.clone() },
                            );
                            self.emit_lea(0, label.as_str());
                            match location {
                                VarLocation::Register(reg) => {
                                    let mut t = String::from_str("ADD R");
                                    append_dec_u32(&mut t, reg as u32);
                                    t.append(", R0, #0");
                                    self.emit_instruction_string(t);
                                },
                                VarLocation::Stack(offset) => {
                                    self.emit_stw_fp(0, offset);
                                },
                            }
                        },
                    }
                },
                None => {
                    let mut c = String::from_str(type_to_string(&decl.ty));
                    c.append(" ");
                    c.append(decl.declarators[i].name.as_str());
                    c.append(" (uninitialized)");
                    self.emit_comment_string(c);
                    match location {
                        VarLocation::Register(reg) => {
                            let mut t = String::from_str("AND R");
                            append_dec_u32(&mut t, reg as u32);
                            t.append(", R");
                            append_dec_u32(&mut t, reg as u32);
                            t.append(", #0");
                            self.emit_instruction_string(t);
                        },
                        _ => {},
                    }
                },
            }
            i = i + 1;
        }
        Ok(())
    }

    fn compile_global_declaration(&mut self, decl: &Declaration) -> (r: Result<(), CompileError>)
        ensures
            old(self).output@.is_prefix_of(final(self).output@),
    {
        let n = decl.declarators.len();
        let mut i: usize = 0;
        while i < n
            invariant
                i <= n,
                n == decl.declarators@.len(),
                old(self).output@.is_prefix_of(self.output@),
            decreases n - i,
        {
            let dname = decl.declarators[i].name.clone();
            self.emit_label(dname.as_str());
            match &decl.declarators[i].initializer {
                Some(Initializer::Expression(Expression::IntLiteral(v))) => {
                    let mut line = String::from_str("    .FILL #");
                    append_dec_i32(&mut line, *v);
                    self.emit_string(line);
                },
                Some(Initializer::String(s)) => {
                    let mut line = String::from_str("    .STRINGZ \"");
                    let escaped = escape_string(s);
                    line.append(escaped.as_str());
                    line.append("\"");
                    self.emit_string(line);
                },
                Some(_) => {
                    self.emit("    .FILL #0");
                },
                None => {
                    self.emit("    .FILL #0");
                },
            }
            i = i + 1;
        }
        Ok(())
    }

    fn compile_statement(&mut self, stmt: &Statement, fuel: u32) -> (r: Result<(), CompileError>)
        ensures
            old(self).output@.is_prefix_of(final(self).output@),
        decreases fuel,
    {
        if fuel == 0 {
            return Err(cerr("program nests too deeply"));
        }
        match stmt {
            Statement::Compound(block) => self.compile_block(block, fuel - 1),
            Statement::Expression(expr) => self.compile_expression(expr, fuel - 1),
            Statement::If { condition, then_branch, else_branch } => {
                self.compile_if(condition, then_branch, else_branch, fuel - 1)
            },
            Statement::While { condition, body } => self.compile_while(condition, body, fuel - 1),
            Statement::For { init, condition, update, body } => {
                self.compile_for(init, condition, update, body, fuel - 1)
            },
            Statement::Return(expr) => self.compile_return(expr, fuel - 1),
            Statement::Empty => Ok(()),
        }
    }

    fn compile_if(
        &mut self,
        condition: &Expression,
        then_branch: &Statement,
        else_branch: &Option<Box<Statement>>,
        fuel: u32,
    ) -> (r: Result<(), CompileError>)
        ensures
            old(self).output@.is_prefix_of(final(self).output@),
        decreases fuel,
    {
        if fuel == 0 {
            return Err(cerr("program nests too deeply"));
        }
        let else_label = self.new_label("else");
        let end_label = self.new_label("endif");
        self.emit_comment("if (...)");
        match self.compile_expression(condition, fuel - 1) {
            Ok(()) => {},
            Err(e) => {
                return Err(e);
            },
        }
        self.emit_instruction("ADD R0, R0, #0");
        let has_else = match else_branch {
            Some(_) => true,
            None => false,
        };
        if has_else {
            self.emit_branch("BRz", else_label.as_str());
        } else {
            self.emit_branch("BRz", end_label.as_str());
        }
        match self.compile_statement(then_branch, fuel - 1) {
            Ok(()) => {},
            Err(e) => {
                return Err(e);
            },
        }
        match else_branch {
            Some(else_stmt) => {
                self.emit_branch("BR", end_label.as_str());
                self.emit_label(else_label.as_str());
                self.emit_comment("else");
                match self.compile_statement(else_stmt, fuel - 1) {
                    Ok(()) => {},
                    Err(e) => {
                        return Err(e);
                    },
                }
            },
            None => {},
        }
        self.emit_label(end_label.as_str());
        Ok(())
    }

    fn compile_while(&mut self, condition: &Expression, body: &Statement, fuel: u32) -> (r: Result<
        (),
        CompileError,
    >)
        ensures
            old(self).output@.is_prefix_of(final(self).output@),
        decreases fuel,
    {
        if fuel == 0 {
            return Err(cerr("program nests too deeply"));
        }
        let loop_label = self.new_label("while");
        let end_label = self.new_label("endwhile");
        self.emit_label(loop_label.as_str());
        self.emit_comment("while (...)");
        match self.compile_expression(condition, fuel - 1) {
            Ok(()) => {},
            Err(e) => {
                return Err(e);
            },
        }
        self.emit_instruction("ADD R0, R0, #0");
        self.emit_branch("BRz", end_label.as_str());
        match self.compile_statement(body, fuel - 1) {
            Ok(()) => {},
            Err(e) => {
                return Err(e);
            },
        }
        self.emit_branch("BR", loop_label.as_str());
        self.emit_label(end_label.as_str());
        Ok(())
    }

    fn compile_for(
        &mut self,
        init: &Option<ForInit>,
        condition: &Option<Expression>,
        update: &Option<Expression>,
        body: &Statement,
        fuel: u32,
    ) -> (r: Result<(), CompileError>)
        ensures
            old(self).output@.is_prefix_of(final(self).output@),
        decreases fuel,
    {
        if fuel == 0 {
            return Err(cerr("program nests too deeply"));
        }
        let loop_label = self.new_label("for");
        let end_label = self.new_label("endfor");
        match init {
            Some(ForInit::Declaration(decl)) => {
                match self.compile_declaration(decl, fuel - 1) {
                    Ok(()) => {},
                    Err(e) => {
                        return Err(e);
                    },
                }
            },
            Some(ForInit::Expression(expr)) => {
                match self.compile_expression(expr, fuel - 1) {
                    Ok(()) => {},
                    Err(e) => {
                        return Err(e);
                    },
                }
            },
            None => {},
        }
        self.emit_label(loop_label.as_str());
        match condition {
            Some(cond) => {
                self.emit_comment("for condition");
                match self.compile_expression(cond, fuel - 1) {
                    Ok(()) => {},
                    Err(e) => {
                        return Err(e);
                    },
                }
                self.emit_instruction("ADD R0, R0, #0");
                self.emit_branch("BRz", end_label.as_str());
            },
            None => {},
        }
        match self.compile_statement(body, fuel - 1) {
            Ok(()) => {},
            Err(e) => {
                return Err(e);
            },
        }
        match update {
            Some(upd) => {
                self.emit_comment("for update");
                match self.compile_expression(upd, fuel - 1) {
                    Ok(()) => {},
                    Err(e) => {
                        return Err(e);
                    },
                }
            },
            None => {},
        }
        self.emit_branch("BR", loop_label.as_str());
        self.emit_label(end_label.as_str());
        Ok(())
    }

    fn compile_return(&mut self, expr: &Option<Expression>, fuel: u32) -> (r: Result<
        (),
        CompileError,
    >)
        ensures
            old(self).output@.is_prefix_of(final(self).output@),
        decreases fuel,
    {
        if fuel == 0 {
            return Err(cerr("program nests too deeply"));
        }
        self.emit_comment("return");
        match expr {
            Some(e) => {
                match self.compile_expression(e, fuel - 1) {
                    Ok(()) => {},
                    Err(err) => {
                        return Err(err);
                    },
                }
            },
            None => {},
        }
        let mut target = self.current_function.clone();
        target.append("_exit");
        self.emit_branch("BR", target.as_str());
        Ok(())
    }

    /// Compiles an expression, leaving its value in R0.
    fn compile_expression(&mut self, expr: &Expression, fuel: u32) -> (r: Result<
        (),
        CompileError,
    >)
        ensures
            old(self).output@.is_prefix_of(final(self).output@),
        decreases fuel,
    {
        if fuel == 0 {
            return Err(cerr("expression nests too deeply"));
        }
        match expr {
            Expression::IntLiteral(v) => self.load_immediate(*v),
            Expression::CharLiteral(c) => self.load_immediate((*c as u32) as i32),
            Expression::StringLiteral(s) => {
                let label = self.new_label("str");
                self.data_section.push(DataItem::Str { label: label.clone(), value: s.clone() });
                self.emit_lea(0, label.as_str());
                Ok(())
            },
            Expression::Identifier(name) => {
                match self.lookup_local(name.as_str()) {
                    Some(VarLocation::Register(reg)) => {
                        let mut t = String::from_str("ADD R0, R");
                        append_dec_u32(&mut t, reg as u32);
                        t.append(", #0");
                        self.emit_instruction_string(t);
                        Ok(())
                    },
                    Some(VarLocation::Stack(offset)) => {
                        self.emit_ldw_fp(0, offset);
                        Ok(())
                    },
                    None => {
                        if name_list_contains(&self.defined_globals, name.as_str()) {
                            let gname = name.clone();
                            self.emit_lea(0, gname.as_str());
                            if !name_list_contains(&self.string_globals, name.as_str()) {
                                self.emit_instruction("LDW R0, R0, #0");
                            }
                            Ok(())
                        } else {
                            Err(cerr_name("undefined variable '", name.as_str(), "'"))
                        }
                    },
                }
            },
            Expression::Binary { op, left, right } => {
                self.compile_binary_op(*op, left, right, fuel - 1)
            },
            Expression::Unary { op, operand } => self.compile_unary_op(*op, operand, fuel - 1),
            Expression::Assignment { op, target, value } => {
                self.compile_assignment(*op, target, value, fuel - 1)
            },
            Expression::Call { function, arguments } => {
                self.compile_call(function, arguments, fuel - 1)
            },
            Expression::PostIncrement(name) => self.compile_post_inc_dec(name, true),
            Expression::PostDecrement(name) => self.compile_post_inc_dec(name, false),
            Expression::PreIncrement(name) => self.compile_pre_inc_dec(name, true),
            Expression::PreDecrement(name) => self.compile_pre_inc_dec(name, false),
            Expression::Subscript { array, index } => {
                // array[index] = *(array + 2*index): word addressing.
                match self.compile_expression(array, fuel - 1) {
                    Ok(()) => {},
                    Err(e) => {
                        return Err(e);
                    },
                }
                self.emit_instruction("ADD R1, R0, #0");
                match self.compile_expression(index, fuel - 1) {
                    Ok(()) => {},
                    Err(e) => {
                        return Err(e);
                    },
                }
                self.emit_instruction("ADD R0, R0, R0");
                self.emit_instruction("ADD R0, R1, R0");
                self.emit_instruction("LDW R0, R0, #0");
                Ok(())
            },
        }
    }

    /// Loads a constant into R0: small values by AND/ADD, larger ones from
    /// a data word.
    fn load_immediate(&mut self, value: i32) -> (r: Result<(), CompileError>)
        ensures
            old(self).output@.is_prefix_of(final(self).output@),
    {
        if value >= -16 && value <= 15 {
            self.emit_instruction("AND R0, R0, #0");
            if value != 0 {
                self.emit_add_reg_imm(0, 0, value);
            }
        } else {
            let label = self.new_label("const");
            self.data_section.push(DataItem::Word { label: label.clone(), value });
            self.emit_lea(0, label.as_str());
            self.emit_instruction("LDW R0, R0, #0");
        }
        Ok(())
    }

    #[verifier::rlimit(100)]
    fn compile_binary_op(
        &mut self,
        op: BinaryOp,
        left: &Expression,
        right: &Expression,
        fuel: u32,
    ) -> (r: Result<(), CompileError>)
        ensures
            old(self).output@.is_prefix_of(final(self).output@),
        decreases fuel,
    {
        if fuel == 0 {
            return Err(cerr("expression nests too deeply"));
        }
        // Evaluate left into R0, push it, evaluate right, pop left back.
        match self.compile_expression(left, fuel - 1) {
            Ok(()) => {},
            Err(e) => {
                return Err(e);
            },
        }
        self.emit_instruction("ADD R6, R6, #-1");
        self.emit_instruction("STW R0, R6, #0");
        match self.compile_expression(right, fuel - 1) {
            Ok(()) => {},
            Err(e) => {
                return Err(e);
            },
        }
        self.emit_instruction("ADD R1, R0, #0");
        self.emit_instruction("LDW R0, R6, #0");
        self.emit_instruction("ADD R6, R6, #1");
        if op == BinaryOp::Add {
            self.emit_instruction("ADD R0, R0, R1");
        } else if op == BinaryOp::Sub {
            self.emit_instruction("NOT R1, R1");
            self.emit_instruction("ADD R1, R1, #1");
            self.emit_instruction("ADD R0, R0, R1");
        } else if op == BinaryOp::BitAnd {
            self.emit_instruction("AND R0, R0, R1");
        } else if op == BinaryOp::BitOr {
            self.emit_instruction("NOT R0, R0");
            self.emit_instruction("NOT R1, R1");
            self.emit_instruction("AND R0, R0, R1");
            self.emit_instruction("NOT R0, R0");
        } else if op == BinaryOp::BitXor {
            self.emit_instruction("ADD R2, R0, #0");
            self.emit_instruction("NOT R3, R1");
            self.emit_instruction("AND R2, R2, R3");
            self.emit_instruction("NOT R0, R0");
            self.emit_instruction("AND R0, R0, R1");
            self.emit_instruction("NOT R0, R0");
            self.emit_instruction("NOT R2, R2");
            self.emit_instruction("AND R0, R0, R2");
            self.emit_instruction("NOT R0, R0");
        } else if op == BinaryOp::Equal || op == BinaryOp::NotEqual {
            self.emit_instruction("NOT R1, R1");
            self.emit_instruction("ADD R1, R1, #1");
            self.emit_instruction("ADD R0, R0, R1");
            let true_label = self.new_label("true");
            let end_label = self.new_label("cmp_end");
            if op == BinaryOp::Equal {
                self.emit_branch("BRz", true_label.as_str());
            } else {
                self.emit_branch("BRnp", true_label.as_str());
            }
            self.emit_instruction("AND R0, R0, #0");
            self.emit_branch("BR", end_label.as_str());
            self.emit_label(true_label.as_str());
            self.emit_instruction("AND R0, R0, #0");
            self.emit_instruction("ADD R0, R0, #1");
            self.emit_label(end_label.as_str());
        } else if op == BinaryOp::Less || op == BinaryOp::GreaterEqual {
            self.emit_instruction("NOT R1, R1");
            self.emit_instruction("ADD R1, R1, #1");
            self.emit_instruction("ADD R0, R0, R1");
            let true_label = self.new_label("true");
            let end_label = self.new_label("cmp_end");
            if op == BinaryOp::Less {
                self.emit_branch("BRn", true_label.as_str());
            } else {
                self.emit_branch("BRzp", true_label.as_str());
            }
            self.emit_instruction("AND R0, R0, #0");
            self.emit_branch("BR", end_label.as_str());
            self.emit_label(true_label.as_str());
            self.emit_instruction("AND R0, R0, #0");
            self.emit_instruction("ADD R0, R0, #1");
            self.emit_label(end_label.as_str());
        } else if op == BinaryOp::Greater || op == BinaryOp::LessEqual {
            self.emit_instruction("NOT R1, R1");
            self.emit_instruction("ADD R1, R1, #1");
            self.emit_instruction("ADD R0, R0, R1");
            let true_label = self.new_label("true");
            let end_label = self.new_label("cmp_end");
            if op == BinaryOp::Greater {
                self.emit_branch("BRp", true_label.as_str());
            } else {
                self.emit_branch("BRnz", true_label.as_str());
            }
            self.emit_instruction("AND R0, R0, #0");
            self.emit_branch("BR", end_label.as_str());
            self.emit_label(true_label.as_str());
            self.emit_instruction("AND R0, R0, #0");
            self.emit_instruction("ADD R0, R0, #1");
            self.emit_label(end_label.as_str());
        } else if op == BinaryOp::LogicalAnd {
            let false_label = self.new_label("and_false");
            let end_label = self.new_label("and_end");
            self.emit_instruction("ADD R0, R0, #0");
            self.emit_branch("BRz", false_label.as_str());
            match self.compile_expression(right, fuel - 1) {
                Ok(()) => {},
                Err(e) => {
                    return Err(e);
                },
            }
            self.emit_instruction("ADD R0, R0, #0");
            self.emit_branch("BRz", false_label.as_str());
            self.emit_instruction("AND R0, R0, #0");
            self.emit_instruction("ADD R0, R0, #1");
            self.emit_branch("BR", end_label.as_str());
            self.emit_label(false_label.as_str());
            self.emit_instruction("AND R0, R0, #0");
            self.emit_label(end_label.as_str());
        } else if op == BinaryOp::LogicalOr {
            let true_label = self.new_label("or_true");
            let end_label = self.new_label("or_end");
            self.emit_instruction("ADD R0, R0, #0");
            self.emit_branch("BRnp", true_label.as_str());
            match self.compile_expression(right, fuel - 1) {
                Ok(()) => {},
                Err(e) => {
                    return Err(e);
                },
            }
            self.emit_instruction("ADD R0, R0, #0");
            self.emit_branch("BRnp", true_label.as_str());
            self.emit_instruction("AND R0, R0, #0");
            self.emit_branch("BR", end_label.as_str());
            self.emit_label(true_label.as_str());
            self.emit_instruction("AND R0, R0, #0");
            self.emit_instruction("ADD R0, R0, #1");
            self.emit_label(end_label.as_str());
        } else if op == BinaryOp::ShiftLeft {
            // Left shift by repeated doubling: R0 value, R1 count.
            let loop_label = self.new_label("shl_loop");
            let end_label = self.new_label("shl_end");
            self.emit_label(loop_label.as_str());
            self.emit_instruction("ADD R1, R1, #0");
            self.emit_branch("BRz", end_label.as_str());
            self.emit_instruction("ADD R0, R0, R0");
            self.emit_instruction("ADD R1, R1, #-1");
            self.emit_branch("BR", loop_label.as_str());
            self.emit_label(end_label.as_str());
        } else if op == BinaryOp::ShiftRight {
            self.emit_comment("Shift right (simplified)");
            let loop_label = self.new_label("shr_loop");
            let end_label = self.new_label("shr_end");
            self.emit_label(loop_label.as_str());
            self.emit_instruction("ADD R1, R1, #0");
            self.emit_branch("BRz", end_label.as_str());
            self.emit_instruction("RSHFL R0, R0, #1");
            self.emit_instruction("ADD R1, R1, #-1");
            self.emit_branch("BR", loop_label.as_str());
            self.emit_label(end_label.as_str());
        } else {
            // Mul, Div, Mod would need subroutines.
            self.emit_comment("TODO: this operator requires a subroutine");
        }
        Ok(())
    }

    fn compile_unary_op(
        &mut self,
        op: crate::ast::UnaryOp,
        operand: &Expression,
        fuel: u32,
    ) -> (r: Result<(), CompileError>)
        ensures
            old(self).output@.is_prefix_of(final(self).output@),
        decreases fuel,
    {
        if fuel == 0 {
            return Err(cerr("expression nests too deeply"));
        }
        match self.compile_expression(operand, fuel - 1) {
            Ok(()) => {},
            Err(e) => {
                return Err(e);
            },
        }
        match op {
            crate::ast::UnaryOp::Negate => {
                self.emit_instruction("NOT R0, R0");
                self.emit_instruction("ADD R0, R0, #1");
            },
            crate::ast::UnaryOp::BitNot => {
                self.emit_instruction("NOT R0, R0");
            },
            crate::ast::UnaryOp::LogicalNot => {
                let true_label = self.new_label("not_true");
                let end_label = self.new_label("not_end");
                self.emit_instruction("ADD R0, R0, #0");
                self.emit_branch("BRz", true_label.as_str());
                self.emit_instruction("AND R0, R0, #0");
                self.emit_branch("BR", end_label.as_str());
                self.emit_label(true_label.as_str());
                self.emit_instruction("AND R0, R0, #0");
                self.emit_instruction("ADD R0, R0, #1");
                self.emit_label(end_label.as_str());
            },
            crate::ast::UnaryOp::Deref => {
                self.emit_instruction("LDW R0, R0, #0");
            },
            crate::ast::UnaryOp::AddressOf => {
                self.emit_comment("Address-of (requires identifier operand)");
            },
        }
        Ok(())
    }

    #[verifier::rlimit(100)]
    fn compile_assignment(
        &mut self,
        op: AssignOp,
        target: &String,
        value: &Expression,
        fuel: u32,
    ) -> (r: Result<(), CompileError>)
        ensures
            old(self).output@.is_prefix_of(final(self).output@),
        decreases fuel,
    {
        if fuel == 0 {
            return Err(cerr("expression nests too deeply"));
        }
        let target_location = self.lookup_local(target.as_str());
        let is_global = name_list_contains(&self.defined_globals, target.as_str());
        let is_local = match target_location {
            Some(_) => true,
            None => false,
        };
        if !is_local && !is_global {
            return Err(cerr_name("undefined variable '", target.as_str(), "'"));
        }
        if op == AssignOp::Assign {
            match self.compile_expression(value, fuel - 1) {
                Ok(()) => {},
                Err(e) => {
                    return Err(e);
                },
            }
        } else {
            // Load the current value.
            match target_location {
                Some(VarLocation::Register(reg)) => {
                    let mut t = String::from_str("ADD R0, R");
                    append_dec_u32(&mut t, reg as u32);
                    t.append(", #0");
                    self.emit_instruction_string(t);
                },
                Some(VarLocation::Stack(offset)) => {
                    self.emit_ldw_fp(0, offset);
                },
                None => {
                    let gname = target.clone();
                    self.emit_lea(0, gname.as_str());
                    self.emit_instruction("LDW R0, R0, #0");
                },
            }
            self.emit_instruction("ADD R6, R6, #-1");
            self.emit_instruction("STW R0, R6, #0");
            match self.compile_expression(value, fuel - 1) {
                Ok(()) => {},
                Err(e) => {
                    return Err(e);
                },
            }
            self.emit_instruction("ADD R1, R0, #0");
            self.emit_instruction("LDW R0, R6, #0");
            self.emit_instruction("ADD R6, R6, #1");
            if op == AssignOp::AddAssign {
                self.emit_instruction("ADD R0, R0, R1");
            } else if op == AssignOp::SubAssign {
                self.emit_instruction("NOT R1, R1");
                self.emit_instruction("ADD R1, R1, #1");
                self.emit_instruction("ADD R0, R0, R1");
            } else if op == AssignOp::AndAssign {
                self.emit_instruction("AND R0, R0, R1");
            } else if op == AssignOp::OrAssign {
                self.emit_instruction("NOT R0, R0");
                self.emit_instruction("NOT R1, R1");
                self.emit_instruction("AND R0, R0, R1");
                self.emit_instruction("NOT R0, R0");
            } else if op == AssignOp::XorAssign {
                self.emit_instruction("ADD R2, R0, #0");
                self.emit_instruction("NOT R3, R1");
                self.emit_instruction("AND R2, R2, R3");
                self.emit_instruction("NOT R0, R0");
                self.emit_instruction("AND R0, R0, R1");
                self.emit_instruction("NOT R0, R0");
                self.emit_instruction("NOT R2, R2");
                self.emit_instruction("AND R0, R0, R2");
                self.emit_instruction("NOT R0, R0");
            }
        }
        // Store the result.
        match target_location {
            Some(VarLocation::Register(reg)) => {
                let mut t = String::from_str("ADD R");
                append_dec_u32(&mut t, reg as u32);
                t.append(", R0, #0");
                self.emit_instruction_string(t);
            },
            Some(VarLocation::Stack(offset)) => {
                self.emit_stw_fp(0, offset);
            },
            None => {
                let gname = target.clone();
                self.emit_instruction("ADD R1, R0, #0");
                self.emit_lea(0, gname.as_str());
                self.emit_instruction("STW R1, R0, #0");
                self.emit_instruction("ADD R0, R1, #0");
            },
        }
        Ok(())
    }

    fn compile_call(
        &mut self,
        function: &String,
        arguments: &Vec<Expression>,
        fuel: u32,
    ) -> (r: Result<(), CompileError>)
        ensures
            old(self).output@.is_prefix_of(final(self).output@),
        decreases fuel,
    {
        if fuel == 0 {
            return Err(cerr("expression nests too deeply"));
        }
        // trap() is an intrinsic: it emits the TRAP directly.
        if str_eq(function.as_str(), "trap") {
            if arguments.len() != 1 {
                return Err(cerr("trap() takes exactly 1 argument"));
            }
            match &arguments[0] {
                Expression::IntLiteral(vector) => {
                    let mut t = String::from_str("TRAP x");
                    append_hex2(&mut t, #[verifier::truncate] (*vector as u8));
                    self.emit_instruction_string(t);
                    Ok(())
                },
                _ => Err(cerr("trap() argument must be a constant")),
            }
        } else if !name_list_contains(&self.defined_functions, function.as_str()) {
            Err(
                cerr_name(
                    "undefined function '",
                    function.as_str(),
                    "' (did you forget to #include a header?)",
                ),
            )
        } else {
            match self.is_inlineable(function.as_str()) {
                Some(trap_vector) => {
                    let mut c = function.clone();
                    c.append("() [inlined]");
                    self.emit_comment_string(c);
                    // Arguments evaluate into R0; the trap uses R0.
                    let n = arguments.len();
                    let mut i: usize = 0;
                    while i < n
                        invariant
                            i <= n,
                            n == arguments@.len(),
                            fuel >= 1,
                            old(self).output@.is_prefix_of(self.output@),
                        decreases n - i,
                    {
                        match self.compile_expression(&arguments[i], fuel - 1) {
                            Ok(()) => {},
                            Err(e) => {
                                return Err(e);
                            },
                        }
                        i = i + 1;
                    }
                    let mut t = String::from_str("TRAP x");
                    append_hex2(&mut t, trap_vector);
                    self.emit_instruction_string(t);
                    Ok(())
                },
                None => {
                    let mut c = String::from_str("Call ");
                    c.append(function.as_str());
                    c.append("()");
                    self.emit_comment_string(c);
                    // Push arguments right to left.
                    let n = arguments.len();
                    let mut i: usize = n;
                    while i > 0
                        invariant
                            i <= n,
                            n == arguments@.len(),
                            fuel >= 1,
                            old(self).output@.is_prefix_of(self.output@),
                        decreases i,
                    {
                        i = i - 1;
                        match self.compile_expression(&arguments[i], fuel - 1) {
                            Ok(()) => {},
                            Err(e) => {
                                return Err(e);
                            },
                        }
                        self.emit_instruction("ADD R6, R6, #-1");
                        self.emit_instruction("STW R0, R6, #0");
                    }
                    let mut j = String::from_str("JSR ");
                    j.append(function.as_str());
                    self.emit_instruction_string(j);
                    if arguments.len() > 0 {
                        let mut pop = String::from_str("ADD R6, R6, #");
                        append_dec_u32(
                            &mut pop,
                            #[verifier::truncate] (arguments.len() as u32),
                        );
                        self.emit_instruction_string(pop);
                    }
                    Ok(())
                },
            }
        }
    }

    fn compile_post_inc_dec(&mut self, name: &String, increment: bool) -> (r: Result<
        (),
        CompileError,
    >)
        ensures
            old(self).output@.is_prefix_of(final(self).output@),
    {
        let location = self.lookup_local(name.as_str());
        let is_global = name_list_contains(&self.defined_globals, name.as_str());
        let is_local = match location {
            Some(_) => true,
            None => false,
        };
        if !is_local && !is_global {
            return Err(cerr_name("undefined variable '", name.as_str(), "'"));
        }
        // Load the current value into R0: the expression's value.
        match location {
            Some(VarLocation::Register(reg)) => {
                let mut t = String::from_str("ADD R0, R");
                append_dec_u32(&mut t, reg as u32);
                t.append(", #0");
                self.emit_instruction_string(t);
            },
            Some(VarLocation::Stack(offset)) => {
                self.emit_ldw_fp(0, offset);
            },
            None => {
                let gname = name.clone();
                self.emit_lea(1, gname.as_str());
                self.emit_instruction("LDW R0, R1, #0");
            },
        }
        match location {
            Some(VarLocation::Register(reg)) => {
                if increment {
                    self.emit_add_reg_imm(reg, reg, 1);
                } else {
                    self.emit_add_reg_imm(reg, reg, -1);
                }
            },
            Some(VarLocation::Stack(offset)) => {
                self.emit_instruction("ADD R1, R0, #0");
                if increment {
                    self.emit_instruction("ADD R1, R1, #1");
                } else {
                    self.emit_instruction("ADD R1, R1, #-1");
                }
                self.emit_stw_fp(1, offset);
            },
            None => {
                let gname = name.clone();
                self.emit_instruction("ADD R1, R0, #0");
                if increment {
                    self.emit_instruction("ADD R1, R1, #1");
                } else {
                    self.emit_instruction("ADD R1, R1, #-1");
                }
                self.emit_instruction("ADD R2, R0, #0");
                self.emit_lea(0, gname.as_str());
                self.emit_instruction("STW R1, R0, #0");
                self.emit_instruction("ADD R0, R2, #0");
            },
        }
        Ok(())
    }

    fn compile_pre_inc_dec(&mut self, name: &String, increment: bool) -> (r: Result<
        (),
        CompileError,
    >)
        ensures
            old(self).output@.is_prefix_of(final(self).output@),
    {
        let location = self.lookup_local(name.as_str());
        let is_global = name_list_contains(&self.defined_globals, name.as_str());
        let is_local = match location {
            Some(_) => true,
            None => false,
        };
        if !is_local && !is_global {
            return Err(cerr_name("undefined variable '", name.as_str(), "'"));
        }
        match location {
            Some(VarLocation::Register(reg)) => {
                if increment {
                    self.emit_add_reg_imm(reg, reg, 1);
                } else {
                    self.emit_add_reg_imm(reg, reg, -1);
                }
                let mut t = String::from_str("ADD R0, R");
                append_dec_u32(&mut t, reg as u32);
                t.append(", #0");
                self.emit_instruction_string(t);
            },
            Some(VarLocation::Stack(offset)) => {
                self.emit_ldw_fp(0, offset);
                if increment {
                    self.emit_instruction("ADD R0, R0, #1");
                } else {
                    self.emit_instruction("ADD R0, R0, #-1");
                }
                self.emit_stw_fp(0, offset);
            },
            None => {
                let gname = name.clone();
                self.emit_lea(1, gname.as_str());
                self.emit_instruction("LDW R0, R1, #0");
                if increment {
                    self.emit_instruction("ADD R0, R0, #1");
                } else {
                    self.emit_instruction("ADD R0, R0, #-1");
                }
                self.emit_lea(1, gname.as_str());
                self.emit_instruction("STW R0, R1, #0");
            },
        }
        Ok(())
    }
}

/// Compiles C source to assembly text: parse, expand includes, generate.
pub fn compile(source: &str, options: &CompileOptions) -> (r: Result<String, CompileError>) {
    let ast = match parse_c(source) {
        Ok(a) => a,
        Err(e) => {
            return Err(e);
        },
    };
    let expanded = match expand_includes(ast) {
        Ok(p) => p,
        Err(e) => {
            return Err(e);
        },
    };
    let mut compiler = Compiler::new(*options);
    match compiler.compile_program(&expanded) {
        Ok(()) => Ok(compiler.output),
        Err(e) => Err(e),
    }
}

} // verus!
