use lark_ui::command::{parse_command, Command, ImageKind, Operand};
use lark_ui::dump::{byte_line, dump_rows, listing_rows, word_line};

#[test]
fn one_word_commands_and_their_aliases() {
    for line in ["listing", "program", "prog"] {
        assert_eq!(parse_command(line), Command::Listing);
    }
    assert_eq!(parse_command("clearhist"), Command::ClearHistory);
    assert_eq!(parse_command("reset"), Command::Reset);
    for line in ["registers", "regs", "reg"] {
        assert_eq!(parse_command(line), Command::Registers);
    }
    assert_eq!(parse_command("run"), Command::Run);
    for line in ["step", "s", "", "   ", "\t"] {
        assert_eq!(parse_command(line), Command::Step);
    }
    for line in ["hexdump", "x", "  x  "] {
        assert_eq!(parse_command(line), Command::DumpImage);
    }
    for line in ["help", "h", "?"] {
        assert_eq!(parse_command(line), Command::Help);
    }
    for line in ["quit", "q"] {
        assert_eq!(parse_command(line), Command::Quit);
    }
}

#[test]
fn commands_are_matched_as_written() {
    for line in ["RUN", "Quit", "stepp", "run now", "hexdump 1", "x 1 2", "hexdump 1 .. 2 3", "load"] {
        assert_eq!(parse_command(line), Command::Unknown);
    }
    assert_eq!(parse_command("hexdump 1 to 2"), Command::Unknown);
    assert_eq!(parse_command("dump 1 .. 2"), Command::Unknown);
}

#[test]
fn load_goes_by_the_extension() {
    assert_eq!(
        parse_command("load prog.rom"),
        Command::Load { path: "prog.rom".to_string(), kind: ImageKind::Binary }
    );
    assert_eq!(
        parse_command("l out/prog.bin"),
        Command::Load { path: "out/prog.bin".to_string(), kind: ImageKind::Binary }
    );
    assert_eq!(
        parse_command("load main.meadowlark"),
        Command::Load { path: "main.meadowlark".to_string(), kind: ImageKind::Source }
    );
    assert_eq!(
        parse_command("load main.meadow"),
        Command::Load { path: "main.meadow".to_string(), kind: ImageKind::Source }
    );
    for path in ["prog.txt", "prog", "prog.ROM", "prog.lark", "prog.asm", ".rom"] {
        assert_eq!(
            parse_command(&format!("load {}", path)),
            Command::LoadUnsupported { path: path.to_string() }
        );
    }
}

#[test]
fn examine_commands_read_their_address() {
    assert_eq!(
        parse_command("x 0x10"),
        Command::ExamineWord { token: "0x10".to_string(), addr: 16 }
    );
    assert_eq!(
        parse_command("x/w 7"),
        Command::ExamineWord { token: "7".to_string(), addr: 7 }
    );
    assert_eq!(
        parse_command("x/b 0b11"),
        Command::ExamineByte { token: "0b11".to_string(), addr: 3 }
    );
    assert_eq!(
        parse_command("x nowhere"),
        Command::BadOperand { which: Operand::Address, token: "nowhere".to_string() }
    );
    assert_eq!(
        parse_command("x/b 65536"),
        Command::BadOperand { which: Operand::Address, token: "65536".to_string() }
    );
}

#[test]
fn dump_commands_read_both_operands() {
    assert_eq!(parse_command("hexdump 0 :+ 16"), Command::DumpSpan { base: 0, len: 16 });
    assert_eq!(parse_command("x 0x100 :+ 0o20"), Command::DumpSpan { base: 256, len: 16 });
    assert_eq!(parse_command("hexdump 10 .. 20"), Command::DumpRange { lo: 10, hi: 20 });
    assert_eq!(parse_command("x 20 .. 10"), Command::DumpRange { lo: 20, hi: 10 });
    assert_eq!(
        parse_command("hexdump 10 .. zz"),
        Command::BadOperand { which: Operand::High, token: "zz".to_string() }
    );
    assert_eq!(
        parse_command("hexdump yy .. zz"),
        Command::BadOperand { which: Operand::Low, token: "yy".to_string() }
    );
    assert_eq!(
        parse_command("hexdump yy :+ 4"),
        Command::BadOperand { which: Operand::Base, token: "yy".to_string() }
    );
    assert_eq!(
        parse_command("hexdump 4 :+ "),
        Command::Unknown
    );
    assert_eq!(
        parse_command("hexdump 4 :+ 0x"),
        Command::BadOperand { which: Operand::Length, token: "0x".to_string() }
    );
}

#[test]
fn extent_of_a_range_includes_both_ends() {
    assert_eq!(parse_command("hexdump 10 .. 20").extent(), Some((10, 11)));
    assert_eq!(parse_command("hexdump 10 .. 10").extent(), Some((10, 1)));
    assert_eq!(parse_command("hexdump 20 .. 10").extent(), Some((20, 0)));
    assert_eq!(parse_command("hexdump 0 .. 0xFFFF").extent(), Some((0, 65536)));
    assert_eq!(parse_command("hexdump 0xFFF0 :+ 32").extent(), Some((0xFFF0, 32)));
    assert_eq!(parse_command("hexdump 5 :+ 0").extent(), Some((5, 0)));
    assert_eq!(parse_command("hexdump").extent(), None);
    assert_eq!(parse_command("run").extent(), None);
}

#[test]
fn sixteen_zero_bytes_are_one_row_at_address_zero() {
    let rows = dump_rows(0, &[0u8; 16]);
    assert_eq!(rows, vec!["0000 | 00 00 00 00 00 00 00 00    00 00 00 00 00 00 00 00 "]);
}

#[test]
fn dump_rows_hold_sixteen_bytes_and_start_with_their_address() {
    let bytes: Vec<u8> = (0u8..40).collect();
    let rows = dump_rows(0x1FF8, &bytes);
    assert_eq!(
        rows,
        vec![
            "1FF8 | 00 01 02 03 04 05 06 07    08 09 0A 0B 0C 0D 0E 0F ",
            "2008 | 10 11 12 13 14 15 16 17    18 19 1A 1B 1C 1D 1E 1F ",
            "2018 | 20 21 22 23 24 25 26 27    ",
        ]
    );
    assert_eq!(dump_rows(7, &[]), Vec::<String>::new());
    assert_eq!(dump_rows(7, &[0xAB]), vec!["0007 | AB "]);
}

#[test]
fn dump_addresses_wrap_round() {
    let rows = dump_rows(0xFFF8, &[0xFFu8; 24]);
    assert_eq!(rows.len(), 2);
    assert!(rows[0].starts_with("FFF8 | FF "));
    assert!(rows[1].starts_with("0008 | FF "));
}

#[test]
fn listing_ends_with_the_first_row_of_zeros() {
    let mut image = vec![0u8; 64];
    image[0] = 0x12;
    image[17] = 0xAB;
    image[63] = 0x01;
    let rows = listing_rows(&image);
    assert_eq!(
        rows,
        vec![
            "12 00 00 00 00 00 00 00 00 00 00 00 00 00 00 00 ",
            "00 AB 00 00 00 00 00 00 00 00 00 00 00 00 00 00 ",
            "00 00 00 00 00 00 00 00 00 00 00 00 00 00 00 00 ",
        ]
    );
    assert_eq!(listing_rows(&[1u8; 40]).len(), 2);
    assert_eq!(listing_rows(&[1u8; 15]), Vec::<String>::new());
    assert_eq!(listing_rows(&[0u8; 4096]).len(), 1);
}

#[test]
fn a_word_is_shown_in_four_ways() {
    assert_eq!(
        word_line("0x10", 1234),
        "(16-bit) 0x10:  1234, +1234, 0x04D2, 0b0000010011010010"
    );
    assert_eq!(word_line("0", 0), "(16-bit) 0:     0,    +0, 0x0000, 0b0000000000000000");
    assert_eq!(
        word_line("9", 0xFFFF),
        "(16-bit) 9: 65535,    -1, 0xFFFF, 0b1111111111111111"
    );
    assert_eq!(
        word_line("9", 0x8000),
        "(16-bit) 9: 32768, -32768, 0x8000, 0b1000000000000000"
    );
    for word in [0u16, 5, 99, 1000, 0x7FFF, 0x8000, 0xFFFE] {
        let signed = word as i16;
        let expected = format!(
            "(16-bit) a: {word:5}, {signed:+5}, 0x{word:04X}, 0b{word:016b}"
        );
        assert_eq!(word_line("a", word), expected);
    }
}

#[test]
fn a_byte_is_shown_with_its_character() {
    assert_eq!(byte_line("0x10", 65), " (8-bit) 0x10:  65, 0x41, 0b01000001, 'A'");
    assert_eq!(byte_line("1", 0), " (8-bit) 1:   0, 0x00, 0b00000000");
    assert_eq!(byte_line("1", 200), " (8-bit) 1: 200, 0xC8, 0b11001000");
    assert_eq!(byte_line("1", 10), " (8-bit) 1:  10, 0x0A, 0b00001010, '\\n'");
    assert_eq!(byte_line("1", 39), " (8-bit) 1:  39, 0x27, 0b00100111, '\\''");
    for byte in 0u8..=255 {
        let ch = byte as char;
        let mut expected = format!(" (8-bit) t: {byte:3}, 0x{byte:02X}, 0b{byte:08b}");
        if ch.is_ascii_graphic() || ch.is_ascii_whitespace() {
            expected.push_str(&format!(", {:?}", ch));
        }
        assert_eq!(byte_line("t", byte), expected);
    }
}
