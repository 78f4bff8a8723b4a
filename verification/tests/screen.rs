use kernel::console::{reboot, shutdown, split_uptime, Console, Next};
use kernel::idt::Handler;
use kernel::port::PortOp;
use kernel::screen::{Screen, SCREEN_BYTES};

fn row_text(screen: &Screen, row: usize) -> String {
    let cells = screen.cells();
    let mut text = String::new();
    for column in 0..80 {
        text.push(cells[(row * 80 + column) * 2] as char);
    }
    text.trim_end().to_string()
}

fn attr(screen: &Screen, column: usize, row: usize) -> u8 {
    screen.cells()[(row * 80 + column) * 2 + 1]
}

fn type_text(console: &mut Console, text: &str) -> Next {
    let mut next = Next::Continue;
    for ch in text.chars() {
        next = console.key(ch, 0);
    }
    next
}

#[test]
fn new_screen_is_blank() {
    let screen = Screen::new();
    assert_eq!(SCREEN_BYTES, 4000);
    assert_eq!(screen.background(), 0);
    for cell in 0..2000 {
        assert_eq!(screen.cells()[cell * 2], b' ');
        assert_eq!(screen.cells()[cell * 2 + 1], 0x0F);
    }
}

#[test]
fn writing_puts_characters_and_attributes() {
    let mut screen = Screen::new();
    screen.vga_write(3, 2, "hey", 0x0A);
    assert_eq!(row_text(&screen, 2), "   hey");
    let at = (2 * 80 + 3) * 2;
    assert_eq!(&screen.cells()[at..at + 6], &[b'h', 0x0A, b'e', 0x0A, b'y', 0x0A]);
    assert_eq!(screen.cells()[at - 2], b' ');
    assert_eq!(screen.cells()[at + 6], b' ');
    assert_eq!(row_text(&screen, 1), "");
    assert_eq!(row_text(&screen, 3), "");
}

#[test]
fn writing_stops_at_the_end_of_the_row() {
    let mut screen = Screen::new();
    screen.vga_write(77, 4, "abcdef", 0x07);
    assert_eq!(row_text(&screen, 4), format!("{}abc", " ".repeat(77)));
    assert_eq!(row_text(&screen, 5), "");
    screen.vga_write(80, 6, "x", 0x07);
    screen.vga_write(usize::MAX, 6, "x", 0x07);
    assert_eq!(row_text(&screen, 6), "");
    assert_eq!(row_text(&screen, 7), "");
    screen.vga_write(0, 24, &"z".repeat(100), 0x07);
    assert_eq!(row_text(&screen, 24), "z".repeat(80));
    screen.vga_write(0, 0, "", 0x07);
    assert_eq!(row_text(&screen, 0), "");
}

#[test]
fn background_goes_into_the_high_nibble() {
    let mut screen = Screen::new();
    screen.set_background(0x1);
    screen.vga_write(0, 0, "a", 0x0E);
    assert_eq!(attr(&screen, 0, 0), 0x1E);
    assert_eq!(attr(&screen, 1, 0), 0x0F);
    screen.clear_line(0);
    assert_eq!(row_text(&screen, 0), "");
    assert_eq!(attr(&screen, 0, 0), 0x1F);
    assert_eq!(attr(&screen, 79, 0), 0x1F);
    assert_eq!(attr(&screen, 0, 1), 0x0F);
    screen.clear_screen();
    assert_eq!(attr(&screen, 40, 12), 0x1F);
}

#[test]
fn change_background_keeps_characters_and_foreground() {
    let mut screen = Screen::new();
    screen.vga_write(0, 0, "ab", 0x0C);
    screen.change_background(0x5);
    assert_eq!(row_text(&screen, 0), "ab");
    assert_eq!(attr(&screen, 0, 0), 0x5C);
    assert_eq!(attr(&screen, 5, 5), 0x5F);
    assert_eq!(screen.background(), 0);
    screen.change_background(0x0);
    assert_eq!(attr(&screen, 1, 0), 0x0C);
}

#[test]
fn scrolling_moves_every_row_up() {
    let mut screen = Screen::new();
    for row in 0..25 {
        screen.vga_write(0, row, &format!("row {}", row), 0x02);
    }
    screen.scroll_up();
    for row in 0..24 {
        assert_eq!(row_text(&screen, row), format!("row {}", row + 1));
        assert_eq!(attr(&screen, 0, row), 0x02);
    }
    assert_eq!(row_text(&screen, 24), "");
    assert_eq!(attr(&screen, 0, 24), 0x0F);
}

#[test]
fn hexadecimal_numbers() {
    let mut screen = Screen::new();
    screen.write_hex(0, 0, 0);
    screen.write_hex(0, 1, 0x1234ABCD);
    screen.write_hex(0, 2, 0xFFFF_FFFF);
    screen.write_hex(4, 3, 0x9_0000_00F0);
    assert_eq!(row_text(&screen, 0), "00000000");
    assert_eq!(row_text(&screen, 1), "1234ABCD");
    assert_eq!(row_text(&screen, 2), "FFFFFFFF");
    assert_eq!(row_text(&screen, 3), "    000000F0");
    assert_eq!(attr(&screen, 0, 0), 0x4F);
}

#[test]
fn fault_report() {
    let mut screen = Screen::new();
    screen.vga_write(0, 0, "=== AerogelOS v0.1.0 ===", 0x0E);
    screen.show_fault(Handler::PageFault);
    assert_eq!(row_text(&screen, 0), "EXCEPTION: PAGE FAULT===");
    assert_eq!(attr(&screen, 0, 0), 0x4F);
    assert_eq!(attr(&screen, 20, 0), 0x4F);
    assert_eq!(attr(&screen, 21, 0), 0x0E);
}

#[test]
fn panic_screen() {
    let mut screen = Screen::new();
    screen.vga_write(0, 0, "before", 0x07);
    screen.show_panic();
    assert_eq!(row_text(&screen, 0), "");
    assert_eq!(row_text(&screen, 10), format!("{}!!! KERNEL PANIC !!!", " ".repeat(30)));
    for cell in 0..2000 {
        assert_eq!(screen.cells()[cell * 2 + 1], 0x4F);
    }
}

#[test]
fn allocation_error_screen() {
    let mut screen = Screen::new();
    screen.show_alloc_error(0x1000, 8);
    assert_eq!(row_text(&screen, 10), "ALLOC ERROR!");
    assert_eq!(row_text(&screen, 11), "Size: 00001000");
    assert_eq!(row_text(&screen, 12), "Align: 00000008");
    assert_eq!(attr(&screen, 0, 10), 0x4F);
    assert_eq!(attr(&screen, 5, 11), 0x0F);
    assert_eq!(attr(&screen, 6, 11), 0x4F);
}

#[test]
fn uptime_is_split_into_hours_minutes_seconds() {
    assert_eq!(split_uptime(0), (0, 0, 0));
    assert_eq!(split_uptime(99), (0, 0, 0));
    assert_eq!(split_uptime(100), (0, 0, 1));
    assert_eq!(split_uptime(6000), (0, 1, 0));
    assert_eq!(split_uptime(360000), (1, 0, 0));
    assert_eq!(split_uptime(372399), (1, 2, 3));
    assert_eq!(split_uptime(u64::MAX), (51240955760304, 18, 36));
}

#[test]
fn console_boots_to_the_first_prompt() {
    let mut console = Console::new();
    assert_eq!(row_text(console.screen(), 0), "=== AerogelOS v0.1.0 ===");
    assert_eq!(attr(console.screen(), 0, 0), 0x0E);
    console.show_status("[1/4] Initializing GDT...");
    assert_eq!(row_text(console.screen(), 1), "[1/4] Initializing GDT...");
    assert_eq!(attr(console.screen(), 0, 1), 0x07);
    console.ready(42);
    assert_eq!(row_text(console.screen(), 1), "[DONE] System ready!");
    assert_eq!(attr(console.screen(), 0, 1), 0x0A);
    assert_eq!(row_text(console.screen(), 2), "Welcome to AerogelOS!");
    assert_eq!(row_text(console.screen(), 3), "Type 'help' for available commands");
    assert_eq!(row_text(console.screen(), 4), "");
    assert_eq!(row_text(console.screen(), 5), ">");
    assert_eq!(console.current_row(), 5);
    assert_eq!(console.shell().get_buffer(), "");
}

#[test]
fn typing_redraws_the_line() {
    let mut console = Console::new();
    console.ready(0);
    assert_eq!(type_text(&mut console, "ver"), Next::Continue);
    assert_eq!(row_text(console.screen(), 5), "> ver");
    console.key('\x08', 0);
    assert_eq!(row_text(console.screen(), 5), "> ve");
    assert_eq!(console.shell().get_buffer(), "ve");
    assert_eq!(type_text(&mut console, "rsion\n"), Next::Continue);
    assert_eq!(row_text(console.screen(), 5), "> version");
    assert_eq!(row_text(console.screen(), 6), "AerogelOS v0.1.0 - Polling Mode");
    assert_eq!(attr(console.screen(), 0, 6), 0x0A);
    assert_eq!(row_text(console.screen(), 7), ">");
    assert_eq!(console.current_row(), 7);
    assert_eq!(console.shell().get_buffer(), "");
}

#[test]
fn scancodes_type_characters() {
    let mut console = Console::new();
    console.ready(0);
    for scancode in [0x23u8, 0xA3, 0x12, 0x92, 0x26, 0x19, 0x3A, 0x01] {
        assert_eq!(console.scancode(scancode, 0), Next::Continue);
    }
    assert_eq!(console.shell().get_buffer(), "help");
    console.scancode(0x0E, 0);
    assert_eq!(console.shell().get_buffer(), "hel");
    console.scancode(0x19, 0);
    assert_eq!(console.scancode(0x9C, 0), Next::Continue);
    assert_eq!(console.shell().get_buffer(), "help");
    assert_eq!(console.scancode(0x1C, 0), Next::Continue);
    assert_eq!(console.shell().get_buffer(), "");
    assert_eq!(row_text(console.screen(), 6), "Available commands:");
    assert_eq!(row_text(console.screen(), 20), "  sysinfo   - Show system information");
    assert_eq!(row_text(console.screen(), 21), ">");
    assert_eq!(attr(console.screen(), 0, 6), 0x0B);
    assert_eq!(console.current_row(), 21);
}

#[test]
fn output_scrolls_at_the_bottom() {
    let mut console = Console::new();
    console.ready(0);
    type_text(&mut console, "help\n");
    type_text(&mut console, "date\n");
    assert_eq!(console.current_row(), 23);
    assert_eq!(row_text(console.screen(), 23), ">");
    assert_eq!(row_text(console.screen(), 22), "Time: HH:MM:SS (RTC not impl)");
    assert_eq!(row_text(console.screen(), 21), "Date: 2025-01-XX (RTC not impl)");
    assert_eq!(row_text(console.screen(), 20), "> date");
    assert_eq!(row_text(console.screen(), 24), "");
    for _ in 0..30 {
        type_text(&mut console, "version\n");
        assert_eq!(console.current_row(), 23);
        assert_eq!(row_text(console.screen(), 22), "AerogelOS v0.1.0 - Polling Mode");
        assert_eq!(row_text(console.screen(), 21), "> version");
        assert_eq!(row_text(console.screen(), 23), ">");
    }
}

#[test]
fn cpuinfo_in_the_middle_of_the_screen() {
    let mut console = Console::new();
    console.ready(0);
    type_text(&mut console, "cpuinfo\n");
    assert_eq!(row_text(console.screen(), 6), "CPU: x86_64 compatible");
    assert_eq!(attr(console.screen(), 0, 6), 0x0B);
    assert_eq!(row_text(console.screen(), 7), "Vendor: (Use CPUID for details)");
    assert_eq!(attr(console.screen(), 0, 7), 0x07);
    assert_eq!(row_text(console.screen(), 8), ">");
    assert_eq!(console.current_row(), 8);
}

#[test]
fn cpuinfo_at_the_bottom_scrolls_once_after_both_lines() {
    let mut console = Console::new();
    console.ready(0);
    type_text(&mut console, "help\n");
    type_text(&mut console, "date\n");
    type_text(&mut console, "cpuinfo\n");
    assert_eq!(console.current_row(), 23);
    assert_eq!(row_text(console.screen(), 21), "> cpuinfo");
    assert_eq!(row_text(console.screen(), 22), "CPU: x86_64 compatible");
    assert_eq!(row_text(console.screen(), 23), "> ndor: (Use CPUID for details)");
    assert_eq!(row_text(console.screen(), 24), "");
}

#[test]
fn clear_gives_a_fresh_screen() {
    let mut console = Console::new();
    console.ready(0);
    type_text(&mut console, "help\n");
    assert_eq!(type_text(&mut console, "clear\n"), Next::Continue);
    assert_eq!(row_text(console.screen(), 0), "=== AerogelOS v0.1.0 ===");
    assert_eq!(row_text(console.screen(), 1), "Type 'help' for commands");
    assert_eq!(row_text(console.screen(), 2), "");
    assert_eq!(row_text(console.screen(), 3), ">");
    assert_eq!(row_text(console.screen(), 6), "");
    assert_eq!(console.current_row(), 3);
}

#[test]
fn information_commands() {
    let mut console = Console::new();
    console.ready(0);
    type_text(&mut console, "sysinfo\n");
    assert_eq!(row_text(console.screen(), 6), "=== System Information ===");
    assert_eq!(row_text(console.screen(), 7), "OS: AerogelOS v0.1.0");
    assert_eq!(row_text(console.screen(), 8), "Architecture: x86_64");
    assert_eq!(row_text(console.screen(), 9), "Memory: 200KB heap");
    assert_eq!(row_text(console.screen(), 10), "Timer: 100Hz PIT");
    assert_eq!(attr(console.screen(), 0, 6), 0x0E);
    assert_eq!(attr(console.screen(), 0, 7), 0x0B);
    type_text(&mut console, "meminfo\n");
    assert_eq!(row_text(console.screen(), 12), "Testing memory allocator...");
    assert_eq!(row_text(console.screen(), 13), "Heap: 200KB allocated, Status: OK");
    assert_eq!(attr(console.screen(), 0, 13), 0x0A);
    type_text(&mut console, "nonsense\n");
    assert_eq!(row_text(console.screen(), 15), "Unknown command. Type 'help' for commands.");
    assert_eq!(console.current_row(), 16);
    type_text(&mut console, "\n");
    assert_eq!(console.current_row(), 17);
    assert_eq!(row_text(console.screen(), 17), ">");
}

#[test]
fn uptime_and_print_show_text() {
    let mut console = Console::new();
    console.ready(500);
    for ch in "uptime".chars() {
        console.key(ch, 0);
    }
    console.key('\n', 500 + 372399);
    assert_eq!(row_text(console.screen(), 6), "Uptime: 1h 2m 3s");
    assert_eq!(attr(console.screen(), 0, 6), 0x0B);
    type_text(&mut console, "print hello  there\n");
    assert_eq!(row_text(console.screen(), 8), "hello  there");
    assert_eq!(attr(console.screen(), 0, 8), 0x0F);
    type_text(&mut console, "print\n");
    assert_eq!(row_text(console.screen(), 10), "Usage: print <text>");
}

#[test]
fn background_command_recolors_the_screen() {
    let mut console = Console::new();
    console.ready(0);
    type_text(&mut console, "bgcolor 4\n");
    assert_eq!(console.screen().background(), 4);
    assert_eq!(row_text(console.screen(), 6), "Background color changed!");
    assert_eq!(attr(console.screen(), 0, 6), 0x4A);
    assert_eq!(attr(console.screen(), 0, 0), 0x4E);
    assert_eq!(attr(console.screen(), 70, 20), 0x4F);
    type_text(&mut console, "bgcolor z\n");
    assert_eq!(row_text(console.screen(), 8), "Invalid color! Use 0-F");
    assert_eq!(row_text(console.screen(), 9), ">");
    assert_eq!(console.shell().get_buffer(), "bgcolor z");
    console.key('\x08', 0);
    assert_eq!(row_text(console.screen(), 9), "> bgcolor");
}

#[test]
fn shutdown_and_reboot_end_the_loop() {
    let mut console = Console::new();
    console.ready(0);
    assert_eq!(type_text(&mut console, "shutdown\n"), Next::Shutdown);
    assert_eq!(row_text(console.screen(), 12), format!("{}Shutting down...", " ".repeat(30)));
    assert_eq!(attr(console.screen(), 30, 12), 0x0C);
    assert_eq!(row_text(console.screen(), 6), "");
    assert_eq!(row_text(console.screen(), 0), "");
    let mut console = Console::new();
    console.ready(0);
    assert_eq!(type_text(&mut console, "reboot\n"), Next::Reboot);
    assert_eq!(row_text(console.screen(), 12), format!("{}Rebooting...", " ".repeat(32)));
    assert_eq!(attr(console.screen(), 32, 12), 0x0E);
    assert_eq!(shutdown(), PortOp::WriteWord { port: 0x604, word: 0x2000 });
    assert_eq!(reboot(), PortOp::Write { port: 0x64, value: 0xFE });
}

#[test]
fn only_the_low_nibble_of_the_background_shows() {
    let mut screen = Screen::new();
    screen.set_background(0x12);
    assert_eq!(screen.background(), 0x12);
    screen.vga_write(0, 0, "a", 0x0E);
    assert_eq!(attr(&screen, 0, 0), 0x2E);
    screen.change_background(0xF3);
    assert_eq!(attr(&screen, 0, 0), 0x3E);
    assert_eq!(attr(&screen, 1, 0), 0x3F);
}

#[test]
fn screen_from_displayed_cells() {
    let mut cells = [0u8; SCREEN_BYTES];
    cells[0] = b'x';
    cells[1] = 0x07;
    cells[3999] = 0x70;
    let mut screen = Screen::from_cells(cells, 3);
    assert_eq!(screen.background(), 3);
    assert_eq!(screen.cells(), &cells);
    screen.vga_write(1, 0, "y", 0x01);
    assert_eq!(&screen.cells()[..4], &[b'x', 0x07, b'y', 0x31]);
    assert_eq!(screen.cells()[3999], 0x70);
}
