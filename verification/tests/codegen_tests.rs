//! The C compiler driven through whole sources.

use lc3b::{assemble, compile, CompileOptions};

#[test]
fn test_empty_main() {
    let source = "int main() {}";
    let result = compile(source, &CompileOptions::default()).unwrap();
    assert!(result.contains(".ORIG x3000"));
    assert!(result.contains("main:"));
    assert!(result.contains("HALT"));
    assert!(result.contains(".END"));
}

#[test]
fn test_return_value() {
    let source = "int main() { return 42; }";
    let result = compile(source, &CompileOptions::default()).unwrap();
    assert!(result.contains("main:"));
    println!("{}", result);
}

#[test]
fn test_variable_declaration() {
    let source = "int main() { int x = 5; return x; }";
    let result = compile(source, &CompileOptions::default()).unwrap();
    println!("{}", result);
    assert!(result.contains("ADD R0, R0, #5"));
}

#[test]
fn test_addition() {
    let source = "int main() { int a = 1; int b = 2; int c = a + b; return c; }";
    let result = compile(source, &CompileOptions::default()).unwrap();
    println!("{}", result);
    assert!(result.contains("ADD R0, R0, R1"));
}

#[test]
fn test_for_loop() {
    let source = r#"
        int main() {
            int sum = 0;
            for (int i = 0; i < 10; i++) {
                sum = sum + i;
            }
            return sum;
        }
    "#;
    let result = compile(source, &CompileOptions::default()).unwrap();
    println!("{}", result);
    assert!(result.contains("for_"));
    assert!(result.contains("endfor_"));
}

#[test]
fn test_void_function() {
    let source = r#"
        void helper() {
            int x = 1;
        }
        int main() {
            helper();
            return 0;
        }
    "#;
    let result = compile(source, &CompileOptions::default()).unwrap();
    println!("{}", result);
    assert!(result.contains("helper:"));
    assert!(result.contains("JSR helper"));
    assert!(result.contains("RET"));
}

#[test]
fn test_string_literal() {
    let source = r#"
        int main() {
            char* msg = "Hello";
            return 0;
        }
    "#;
    let result = compile(source, &CompileOptions::default()).unwrap();
    println!("{}", result);
    assert!(result.contains(".STRINGZ \"Hello\""));
}

#[test]
fn test_global_string_pointer() {
    // Global string pointers use LEA only, not LEA+LDW, because the label
    // points directly at the string data.
    let source = r#"
        #include <lc3b-io.h>
        char *hello = "Hello, LC-3b!";
        int main() {
            puts(hello);
            return 0;
        }
    "#;
    let result = compile(source, &CompileOptions::default()).unwrap();
    println!("{}", result);

    assert!(result.contains("hello:"));
    assert!(result.contains(".STRINGZ \"Hello, LC-3b!\""));
    assert!(result.contains("LEA R0, hello"));

    let lines: Vec<&str> = result.lines().collect();
    for (i, line) in lines.iter().enumerate() {
        if line.contains("LEA R0, hello") {
            if i + 1 < lines.len() {
                assert!(
                    !lines[i + 1].contains("LDW R0, R0, #0"),
                    "Should not dereference string global pointer"
                );
            }
        }
    }
}

#[test]
fn test_if_else() {
    let source = r#"
        int main() {
            int x = 5;
            if (x > 0) {
                return 1;
            } else {
                return 0;
            }
        }
    "#;
    let result = compile(source, &CompileOptions::default()).unwrap();
    println!("{}", result);
    assert!(result.contains("else_"));
    assert!(result.contains("endif_"));
}

#[test]
fn test_include_io() {
    let source = r#"
        #include <lc3b-io.h>

        int main() {
            puts("Hello, LC-3b!");
            return 0;
        }
    "#;
    let result = compile(source, &CompileOptions::default()).unwrap();
    println!("{}", result);
    assert!(result.contains("puts() [inlined]"));
    assert!(result.contains("TRAP x22"));
    assert!(!result.contains("puts:"));
}

#[test]
fn test_trap_intrinsic() {
    let source = r#"
        int main() {
            trap(0x25);
            return 0;
        }
    "#;
    let result = compile(source, &CompileOptions::default()).unwrap();
    println!("{}", result);
    assert!(result.contains("TRAP x25"));
}

#[test]
fn test_register_allocation_simple() {
    let source = r#"
        int main() {
            int a = 5;
            int b = 10;
            return a + b;
        }
    "#;
    let result = compile(source, &CompileOptions::default()).unwrap();
    println!("{}", result);
    assert!(result.contains("Using register allocation"));
    assert!(result.contains("ADD R1, R0, #0")); // a = 5 -> R1
    assert!(result.contains("ADD R2, R0, #0")); // b = 10 -> R2
    assert!(!result.contains("ADD R5, R6, #0"));
}

#[test]
fn test_register_allocation_for_loop() {
    let source = r#"
        int main() {
            int sum = 0;
            for (int i = 0; i < 5; i++) {
                sum = sum + i;
            }
            return sum;
        }
    "#;
    let result = compile(source, &CompileOptions::default()).unwrap();
    println!("{}", result);
    assert!(result.contains("Using register allocation"));
    assert!(result.contains("ADD R2, R2, #1")); // i++
}

#[test]
fn test_stack_allocation_with_calls() {
    let source = r#"
        void helper() {}
        int main() {
            int x = 5;
            helper();
            return x;
        }
    "#;
    let result = compile(source, &CompileOptions::default()).unwrap();
    println!("{}", result);
    assert!(!result.contains("; Using register allocation for locals\nmain"));
    assert!(result.contains("STW R0, R5"));
}

#[test]
fn test_undefined_function_error() {
    let source = r#"
        int main() {
            puts("Hello");
            return 0;
        }
    "#;
    let result = compile(source, &CompileOptions::default());
    assert!(result.is_err());
    let err = result.unwrap_err();
    assert!(err.message.contains("undefined function 'puts'"));
    assert!(err.message.contains("#include"));
}

#[test]
fn test_undefined_variable_error() {
    let source = r#"
        int main() {
            return x;
        }
    "#;
    let result = compile(source, &CompileOptions::default());
    assert!(result.is_err());
    let err = result.unwrap_err();
    assert!(err.message.contains("undefined variable 'x'"));
}

#[test]
fn test_defined_function_works() {
    let source = r#"
        #include <lc3b-io.h>
        int main() {
            puts("Hello");
            return 0;
        }
    "#;
    let result = compile(source, &CompileOptions::default());
    assert!(result.is_ok());
}

#[test]
fn test_hello_world_assembles() {
    let source = r#"#include <lc3b-io.h>

// Hello World in C for LC-3b

int main() {
    puts("Hello, LC-3b!");
    return 0;
}
"#;
    let source = compile(source, &CompileOptions::default()).unwrap();
    println!("Generated assembly:\n{}", source);

    let assembled = assemble(&source);
    if let Err(e) = &assembled {
        panic!("Assembly failed: {}\n\nGenerated assembly:\n{}", e.message(), source);
    }
    assert!(assembled.is_ok());
}
