use kernel::shell::{Shell, ShellResult, LINE_CAPACITY};

fn type_bytes(shell: &mut Shell, bytes: &[u8]) {
    for byte in bytes {
        shell.add_char(*byte as char);
    }
}

fn run(line: &str) -> ShellResult {
    let mut shell = Shell::new();
    type_bytes(&mut shell, line.as_bytes());
    shell.execute(0)
}

fn output_of(result: ShellResult) -> &'static str {
    match result {
        ShellResult::Output(text) => text,
        _ => panic!("not a line of output"),
    }
}

fn printed(result: ShellResult) -> Vec<u8> {
    match result {
        ShellResult::Print(bytes, len) => {
            assert!(bytes[len..].iter().all(|byte| *byte == 0));
            bytes[..len].to_vec()
        }
        _ => panic!("not a print"),
    }
}

const UNKNOWN: &str = "Unknown command. Type 'help' for commands.";
const USAGE: &str = "Usage: print <text>";
const INVALID_COLOR: &str = "Invalid color! Use 0-F";

#[test]
fn new_shell_is_empty() {
    let shell = Shell::new();
    assert_eq!(shell.get_buffer(), "");
    assert_eq!(LINE_CAPACITY, 255);
}

#[test]
fn typing_and_backspace_edit_the_line() {
    let mut shell = Shell::new();
    shell.backspace();
    assert_eq!(shell.get_buffer(), "");
    shell.add_char('h');
    shell.add_char('i');
    assert_eq!(shell.get_buffer(), "hi");
    shell.backspace();
    assert_eq!(shell.get_buffer(), "h");
    shell.add_char('o');
    assert_eq!(shell.get_buffer(), "ho");
    shell.clear();
    assert_eq!(shell.get_buffer(), "");
    shell.backspace();
    assert_eq!(shell.get_buffer(), "");
}

#[test]
fn line_holds_255_bytes() {
    let mut shell = Shell::new();
    for _ in 0..255 {
        shell.add_char('a');
    }
    assert_eq!(shell.get_buffer().len(), 255);
    shell.add_char('b');
    shell.add_char('c');
    assert_eq!(shell.get_buffer().len(), 255);
    assert!(shell.get_buffer().bytes().all(|byte| byte == b'a'));
    shell.backspace();
    assert_eq!(shell.get_buffer().len(), 254);
    shell.add_char('z');
    assert!(shell.get_buffer().ends_with("az"));
}

#[test]
fn only_the_low_byte_of_a_character_is_kept() {
    let mut shell = Shell::new();
    shell.add_char('\u{141}');
    assert_eq!(shell.get_buffer(), "A");
    shell.add_char('\u{2068}');
    assert_eq!(shell.get_buffer(), "Ah");
}

#[test]
fn a_line_that_is_not_utf8_reads_as_empty() {
    let mut shell = Shell::new();
    type_bytes(&mut shell, b"help");
    shell.add_char('\u{E9}');
    assert_eq!(shell.get_buffer(), "");
    assert!(matches!(shell.execute(0), ShellResult::Empty));
    assert_eq!(shell.get_buffer(), "");
    type_bytes(&mut shell, &[0xC3, 0xA9]);
    assert_eq!(shell.get_buffer(), "\u{E9}");
    assert_eq!(output_of(shell.execute(0)), UNKNOWN);
}

#[test]
fn simple_commands() {
    assert!(matches!(run("clear"), ShellResult::Clear));
    assert!(matches!(run("memtest"), ShellResult::MemInfo));
    assert!(matches!(run("meminfo"), ShellResult::MemInfo));
    assert!(matches!(run("shutdown"), ShellResult::Shutdown));
    assert!(matches!(run("reboot"), ShellResult::Reboot));
    assert!(matches!(run("date"), ShellResult::DateTime));
    assert!(matches!(run("time"), ShellResult::DateTime));
    assert!(matches!(run("cpuinfo"), ShellResult::CpuInfo));
    assert!(matches!(run("sysinfo"), ShellResult::SysInfo));
    assert_eq!(output_of(run("version")), "AerogelOS v0.1.0 - Polling Mode");
    assert!(matches!(run(""), ShellResult::Empty));
    assert!(matches!(run("   \t "), ShellResult::Empty));
}

#[test]
fn unknown_commands() {
    assert_eq!(output_of(run("hello")), UNKNOWN);
    assert_eq!(output_of(run("Help")), UNKNOWN);
    assert_eq!(output_of(run("helpme")), UNKNOWN);
    assert_eq!(output_of(run("hel")), UNKNOWN);
    assert_eq!(output_of(run("bgcolor")), UNKNOWN);
    assert_eq!(output_of(run("bgcolor   ")), UNKNOWN);
    assert_eq!(output_of(run("x clear")), UNKNOWN);
}

#[test]
fn commands_ignore_surrounding_whitespace_and_arguments() {
    assert!(matches!(run("  clear  "), ShellResult::Clear));
    assert!(matches!(run("\tclear\n"), ShellResult::Clear));
    assert!(matches!(run("clear now please"), ShellResult::Clear));
    assert!(matches!(run("reboot 1 2 3 4 5 6 7 8 9 10"), ShellResult::Reboot));
}

#[test]
fn help_lists_fifteen_lines() {
    match run("help") {
        ShellResult::MultiOutput(lines, count) => {
            assert_eq!(count, 15);
            assert_eq!(
                lines,
                [
                    "Available commands:",
                    "  help      - Show this message",
                    "  clear     - Clear screen",
                    "  memtest   - Test memory allocator",
                    "  print     - Print text",
                    "  version   - Show OS version",
                    "  shutdown  - Shutdown (QEMU only)",
                    "  reboot    - Reboot system",
                    "  date      - Show current date",
                    "  time      - Show current time",
                    "  uptime    - Show uptime",
                    "  bgcolor   - Change background color (0-F)",
                    "  cpuinfo   - Show CPU information",
                    "  meminfo   - Show memory usage",
                    "  sysinfo   - Show system information",
                    "",
                ]
            );
        }
        _ => panic!("help gives lines"),
    }
}

#[test]
fn uptime_counts_from_the_boot_time() {
    let mut shell = Shell::new();
    shell.set_boot_time(1000);
    type_bytes(&mut shell, b"uptime");
    assert!(matches!(shell.execute(1000), ShellResult::Uptime(0)));
    type_bytes(&mut shell, b"uptime");
    assert!(matches!(shell.execute(4600), ShellResult::Uptime(3600)));
    type_bytes(&mut shell, b"uptime");
    assert!(matches!(shell.execute(999), ShellResult::Uptime(u64::MAX)));
    shell.set_boot_time(u64::MAX - 4);
    type_bytes(&mut shell, b"uptime");
    assert!(matches!(shell.execute(5), ShellResult::Uptime(10)));
    assert_eq!(shell.get_buffer(), "");
}

#[test]
fn background_colors() {
    let digits = "0123456789abcdef";
    for (value, digit) in digits.chars().enumerate() {
        let lower = format!("bgcolor {}", digit);
        let upper = format!("bgcolor {}", digit.to_ascii_uppercase());
        assert!(matches!(run(&lower), ShellResult::BgColor(color) if color as usize == value));
        assert!(matches!(run(&upper), ShellResult::BgColor(color) if color as usize == value));
    }
    assert!(matches!(run("bgcolor 1f"), ShellResult::BgColor(1)));
    assert!(matches!(run("bgcolor c 4"), ShellResult::BgColor(12)));
    assert!(matches!(run("  bgcolor\t\tA"), ShellResult::BgColor(10)));
}

#[test]
fn invalid_color_keeps_the_line() {
    let mut shell = Shell::new();
    type_bytes(&mut shell, b"bgcolor g");
    assert_eq!(output_of(shell.execute(0)), INVALID_COLOR);
    assert_eq!(shell.get_buffer(), "bgcolor g");
    shell.backspace();
    shell.add_char('3');
    assert!(matches!(shell.execute(0), ShellResult::BgColor(3)));
    assert_eq!(shell.get_buffer(), "");
    assert_eq!(output_of(run("bgcolor x1")), INVALID_COLOR);
    assert_eq!(output_of(run("bgcolor -1")), INVALID_COLOR);
    assert_eq!(output_of(run("bgcolor \u{E9}")), INVALID_COLOR);
}

#[test]
fn every_other_line_is_used_up() {
    for line in ["help", "clear", "nothing", "print x", "print", "bgcolor 1", "uptime", ""] {
        let mut shell = Shell::new();
        type_bytes(&mut shell, line.as_bytes());
        shell.execute(0);
        assert_eq!(shell.get_buffer(), "");
    }
}

#[test]
fn print_repeats_the_rest_of_the_line() {
    assert_eq!(printed(run("print hello")), b"hello");
    assert_eq!(printed(run("print hello world")), b"hello world");
    assert_eq!(printed(run("print   spaced  out  ")), b"  spaced  out  ");
    assert_eq!(printed(run("  print x")), b"x");
    assert_eq!(printed(run("print print ")), b"print ");
    assert_eq!(printed(run("print \u{E9}t\u{E9}")), "\u{E9}t\u{E9}".as_bytes());
    assert_eq!(printed(run("print\tprint x")), b"x");
}

#[test]
fn print_without_text_shows_the_usage() {
    assert_eq!(output_of(run("print")), USAGE);
    assert_eq!(output_of(run("print ")), USAGE);
    assert_eq!(output_of(run("print    ")), USAGE);
    assert_eq!(output_of(run("print\tx")), USAGE);
    assert_eq!(output_of(run("print\tprint ")), USAGE);
}

#[test]
fn print_of_a_full_line() {
    let mut line = String::from("print ");
    while line.len() < 255 {
        line.push('y');
    }
    let text = printed(run(&line));
    assert_eq!(text.len(), 249);
    assert!(text.iter().all(|byte| *byte == b'y'));
}

#[test]
fn words_are_split_as_the_standard_library_splits_them() {
    let mut code = 0u32;
    while code <= 0x10FFFF {
        if let Some(ch) = char::from_u32(code) {
            let line = format!("bgcolor{}7", ch);
            let words: Vec<&str> = line.split_whitespace().collect();
            let result = run(&line);
            if words.len() == 2 {
                assert!(ch.is_whitespace());
                assert!(matches!(result, ShellResult::BgColor(7)), "U+{:04X}", code);
            } else {
                assert!(!ch.is_whitespace());
                assert_eq!(output_of(result), UNKNOWN, "U+{:04X}", code);
            }
        }
        code += if code < 0x3100 { 1 } else { 61 };
    }
}

#[test]
fn whitespace_of_every_width_separates_words() {
    for separator in ["\u{20}", "\u{9}", "\u{A}", "\u{B}", "\u{C}", "\u{D}", "\u{85}", "\u{A0}",
        "\u{1680}", "\u{2000}", "\u{2005}", "\u{200A}", "\u{2028}", "\u{2029}", "\u{202F}",
        "\u{205F}", "\u{3000}"]
    {
        let line = format!("{0}{0}bgcolor{0}{0}b{0}", separator);
        assert!(matches!(run(&line), ShellResult::BgColor(11)));
        let line = format!("{0}clear", separator);
        assert!(matches!(run(&line), ShellResult::Clear));
    }
    for other in ["\u{200B}", "\u{180E}", "\u{2060}", "\u{FEFF}", "\u{E2}", "\u{1681}"] {
        let line = format!("bgcolor{}b", other);
        assert_eq!(output_of(run(&line)), UNKNOWN);
    }
}

#[test]
fn random_lines_agree_with_the_standard_library() {
    let alphabet = ["p", "r", "i", "n", "t", " ", " ", "\t", "\u{A0}", "\u{2003}", "x", "print ",
        "print", "bgcolor", "5", "g", "help", "\u{3000}", "\u{E9}"];
    let mut seed: u64 = 0x2545_F491_4F6C_DD1D;
    for _ in 0..20000 {
        let mut line = String::new();
        let pieces = 1 + (seed >> 60) as usize % 6;
        for _ in 0..pieces {
            seed ^= seed << 13;
            seed ^= seed >> 7;
            seed ^= seed << 17;
            line.push_str(alphabet[(seed >> 33) as usize % alphabet.len()]);
        }
        let words: Vec<&str> = line.split_whitespace().collect();
        let first = words.first().copied().unwrap_or("");
        let second = words.get(1).copied().unwrap_or("");
        let result = run(&line);
        match first {
            "" => assert!(matches!(result, ShellResult::Empty)),
            "help" => assert!(matches!(result, ShellResult::MultiOutput(_, 15))),
            "bgcolor" if !second.is_empty() => match second.chars().next().unwrap().to_digit(16) {
                Some(value) => {
                    assert!(matches!(result, ShellResult::BgColor(color) if color as u32 == value))
                }
                None => assert_eq!(output_of(result), INVALID_COLOR),
            },
            "print" if !second.is_empty() => match line.find("print ") {
                Some(at) if at + 6 < line.len() => {
                    assert_eq!(printed(result), line[at + 6..].as_bytes())
                }
                _ => assert_eq!(output_of(result), USAGE),
            },
            "print" => assert_eq!(output_of(result), USAGE),
            _ => assert_eq!(output_of(result), UNKNOWN),
        }
    }
}
