use lark_ui::app::{App, Instr, RunMode};
use lark_ui::cli::Opts;
use lark_ui::command::{Command, ImageKind};
use lark_ui::input::{InputEvent, Key, KeyPress, CONTROL, SHIFT};
use lark_ui::log::{CmdMsg, LogMsg, Signal};
use lark_ui::session::{Session, MAX_HIST_LEN};
use lark_ui::update::{Effect, IDLE_WAIT_MS, KEY_CODE_ADDR};
use lark_ui::view::{visible, DisassemblyView};

fn no_opts() -> Opts {
    Opts { meadowlark_src: None, lark_src: None, romfile: None, debug: false }
}

fn no_session() -> Session {
    Session { meadowlark_src: None, lark_src: None, romfile: None, tab_idx: 0 }
}

fn fresh() -> App {
    App::new(no_opts(), no_session(), Vec::new())
}

fn with_history(lines: &[&str]) -> App {
    App::new(no_opts(), no_session(), lines.iter().map(|l| l.to_string()).collect())
}

fn press(app: &mut App, key: Key) -> Effect {
    app.update(InputEvent::Press(KeyPress { key, modifiers: 0 }))
}

fn type_text(app: &mut App, text: &str) {
    for c in text.chars() {
        assert_eq!(press(app, Key::Char(c)), Effect::Nothing);
    }
}

fn info(text: &str) -> CmdMsg {
    CmdMsg::Info(text.to_string())
}

fn echo(text: &str) -> CmdMsg {
    CmdMsg::Command(text.to_string())
}

#[test]
fn a_new_session_is_idle_and_empty() {
    let app = fresh();
    assert_eq!(app.run_mode(), RunMode::Idle);
    assert!(app.input_focus());
    assert!(!app.should_quit());
    assert_eq!(app.input().value(), "");
    assert!(app.output().is_empty());
    assert!(app.history().is_empty());
    assert_eq!(app.scroll(), 0);
    assert_eq!(app.history_cursor(), 0);
    assert_eq!(app.startup(), None);
    assert_eq!(app.poll_budget_ms(), IDLE_WAIT_MS);
    assert_eq!(IDLE_WAIT_MS, 50);
}

#[test]
fn options_go_before_the_last_session() {
    let opts = Opts {
        meadowlark_src: None,
        lark_src: Some("a.lark".to_string()),
        romfile: Some("a.rom".to_string()),
        debug: false,
    };
    let session = Session {
        meadowlark_src: Some("m.meadow".to_string()),
        lark_src: Some("b.lark".to_string()),
        romfile: None,
        tab_idx: 3,
    };
    let app = App::new(opts, session, vec!["run".to_string()]);
    assert_eq!(app.meadowlark_src(), &Some("m.meadow".to_string()));
    assert_eq!(app.lark_src(), &Some("a.lark".to_string()));
    assert_eq!(app.romfile(), &Some("a.rom".to_string()));
    assert_eq!(app.tab_idx(), 3);
    assert_eq!(app.history(), &vec!["run".to_string()]);
    assert_eq!(
        app.startup(),
        Some(Command::Load { path: "a.rom".to_string(), kind: ImageKind::Binary })
    );
}

#[test]
fn the_same_command_twice_is_recorded_once() {
    let mut app = fresh();
    app.do_cmd("regs");
    app.do_cmd("regs");
    assert_eq!(app.history(), &vec!["regs".to_string()]);
    app.do_cmd("step");
    app.do_cmd("regs");
    assert_eq!(app.history(), &vec!["regs".to_string(), "step".to_string(), "regs".to_string()]);
    for pair in app.history().windows(2) {
        assert_ne!(pair[0], pair[1]);
    }
    assert_eq!(app.output().len(), 5);
}

#[test]
fn the_empty_line_steps_and_is_not_recorded() {
    let mut app = with_history(&["run"]);
    assert_eq!(app.do_cmd(""), Command::Step);
    assert_eq!(app.history(), &vec!["run".to_string()]);
    assert_eq!(app.output(), &vec![echo(""), CmdMsg::Log("Stepping...".to_string())]);
    assert_eq!(app.do_cmd("s"), Command::Step);
    assert_eq!(app.history(), &vec!["run".to_string(), "s".to_string()]);
}

#[test]
fn quit_is_not_left_in_the_history() {
    let mut app = fresh();
    app.do_cmd("load prog.rom");
    app.do_cmd("run");
    assert_eq!(app.do_cmd("quit"), Command::Quit);
    assert!(app.should_quit());
    assert_eq!(app.history(), &vec!["load prog.rom".to_string(), "run".to_string()]);
    assert!(!app.history_to_save().contains(&"quit".to_string()));

    let mut app = fresh();
    app.do_cmd("q");
    assert!(app.should_quit());
    assert!(app.history_to_save().is_empty());
}

#[test]
fn clearhist_empties_the_history_and_keeps_the_log() {
    let mut app = with_history(&["a", "b"]);
    app.do_cmd("help");
    let logged = app.output().len();
    assert_eq!(app.do_cmd("clearhist"), Command::ClearHistory);
    assert!(app.history().is_empty());
    assert_eq!(app.history_cursor(), 0);
    assert_eq!(app.output().len(), logged + 1);
}

#[test]
fn history_navigation_stops_at_the_oldest_entry() {
    let mut app = with_history(&["first", "second", "third"]);
    press(&mut app, Key::Up);
    assert_eq!((app.history_cursor(), app.input().value()), (1, "third"));
    press(&mut app, Key::Up);
    assert_eq!((app.history_cursor(), app.input().value()), (2, "second"));
    press(&mut app, Key::Up);
    assert_eq!((app.history_cursor(), app.input().value()), (3, "first"));
    for _ in 0..5 {
        press(&mut app, Key::Up);
        assert_eq!((app.history_cursor(), app.input().value()), (3, "first"));
        assert!(app.history_cursor() <= app.history().len());
    }
    press(&mut app, Key::Down);
    assert_eq!((app.history_cursor(), app.input().value()), (2, "second"));
    press(&mut app, Key::Down);
    press(&mut app, Key::Down);
    assert_eq!((app.history_cursor(), app.input().value()), (0, ""));
    press(&mut app, Key::Down);
    assert_eq!((app.history_cursor(), app.input().value()), (0, ""));
    assert_eq!(app.input().cursor(), 0);
}

#[test]
fn history_navigation_on_an_empty_history_stays_put() {
    let mut app = fresh();
    press(&mut app, Key::Up);
    press(&mut app, Key::Up);
    assert_eq!((app.history_cursor(), app.input().value()), (0, ""));
}

#[test]
fn submitting_resets_the_history_cursor() {
    let mut app = with_history(&["regs", "help"]);
    press(&mut app, Key::Up);
    press(&mut app, Key::Up);
    assert_eq!(app.history_cursor(), 2);
    let effect = press(&mut app, Key::Enter);
    assert_eq!(effect, Effect::Execute(Command::Registers));
    assert_eq!(app.history_cursor(), 0);
    assert_eq!(app.input().value(), "");
    assert_eq!(app.history(), &vec!["regs".to_string(), "help".to_string(), "regs".to_string()]);
}

#[test]
fn scrolling_stays_within_the_log() {
    let mut app = fresh();
    app.update(InputEvent::ScrollUp);
    assert_eq!(app.scroll(), 0);
    app.do_cmd("help");
    let len = app.output().len();
    assert_eq!(len, 14);
    for expected in 1..=len {
        app.update(InputEvent::ScrollUp);
        assert_eq!(app.scroll(), expected);
    }
    app.update(InputEvent::ScrollUp);
    app.update(InputEvent::ScrollUp);
    assert_eq!(app.scroll(), len);
    for expected in (0..len).rev() {
        app.update(InputEvent::ScrollDown);
        assert_eq!(app.scroll(), expected);
    }
    app.update(InputEvent::ScrollDown);
    assert_eq!(app.scroll(), 0);
}

#[test]
fn the_mouse_wheel_moves_the_disassembly_pane() {
    let mut app = fresh();
    assert_eq!(app.disassembly_scroll().offset().y, 0);
    app.update(InputEvent::ScrollDown);
    app.update(InputEvent::ScrollDown);
    assert_eq!(app.disassembly_scroll().offset().y, 2);
    app.update(InputEvent::ScrollUp);
    assert_eq!(app.disassembly_scroll().offset().y, 1);
    app.update(InputEvent::ScrollUp);
    app.update(InputEvent::ScrollUp);
    assert_eq!(app.disassembly_scroll().offset().y, 0);
    assert_eq!(app.disassembly_scroll().offset().x, 0);
    let mut state = app.disassembly_scroll();
    state.scroll_to_bottom();
    app.set_disassembly_scroll(state);
    assert_eq!(app.disassembly_scroll().offset().y, u16::MAX);
    app.update(InputEvent::ScrollDown);
    assert_eq!(app.disassembly_scroll().offset().y, u16::MAX);
}

#[test]
fn every_submission_scrolls_to_the_latest_entry() {
    for line in ["help", "", "nonsense", "hexdump 1 .. zz", "quit", "clearhist", "run", "load a.b"] {
        let mut app = fresh();
        app.do_cmd("help");
        for _ in 0..5 {
            app.update(InputEvent::ScrollUp);
        }
        assert_eq!(app.scroll(), 5);
        app.do_cmd(line);
        assert_eq!(app.scroll(), 0);
        assert_eq!(app.history_cursor(), 0);
    }
}

#[test]
fn a_malformed_operand_gives_one_error_and_no_rows() {
    let mut app = fresh();
    let cmd = app.do_cmd("hexdump 10 .. zz");
    assert_eq!(cmd.extent(), None);
    assert_eq!(
        app.output(),
        &vec![echo("hexdump 10 .. zz"), CmdMsg::Error("Invalid high address: `zz`".to_string())]
    );
    assert_eq!(app.run_mode(), RunMode::Idle);
    assert!(!app.should_quit());

    let texts = [
        ("x 0xZ", "Invalid address: `0xZ`"),
        ("x/b 70000", "Invalid address: `70000`"),
        ("hexdump zz .. 10", "Invalid low address: `zz`"),
        ("hexdump zz :+ 10", "Invalid base address: `zz`"),
        ("hexdump 10 :+ -1", "Invalid length: `-1`"),
    ];
    for (line, error) in texts {
        let mut app = fresh();
        app.do_cmd(line);
        assert_eq!(app.output(), &vec![echo(line), CmdMsg::Error(error.to_string())]);
    }
}

#[test]
fn unknown_commands_and_extensions_are_reported() {
    let mut app = fresh();
    assert_eq!(app.do_cmd("frobnicate now"), Command::Unknown);
    assert_eq!(
        app.output(),
        &vec![
            echo("frobnicate now"),
            CmdMsg::Error("Unknown command: `frobnicate now`".to_string())
        ]
    );
    let mut app = fresh();
    app.do_cmd("load notes.txt");
    assert_eq!(
        app.output(),
        &vec![
            echo("load notes.txt"),
            CmdMsg::Error("Unknown file extension: notes.txt".to_string()),
            info("  - Supported extensions: .bin, .rom"),
        ]
    );
    assert_eq!(app.romfile(), &None);
}

#[test]
fn help_lists_the_commands() {
    let mut app = fresh();
    assert_eq!(app.do_cmd("?"), Command::Help);
    let expected = [
        "Commands:",
        "  - load <PATH> (l)",
        "  - step (s, ENTER)",
        "  - run",
        "  - reset",
        "  - registers (regs)",
        "  - program (prog, listing)",
        "  - hexdump (x)",
        "  - hexdump (x) <LOW> .. <HIGH>",
        "  - hexdump (x) <BASE> :+ <LEN>",
        "  - clearhist",
        "  - help (h, ?)",
        "  - quit (q)",
    ];
    assert_eq!(app.output()[0], echo("?"));
    let lines: Vec<CmdMsg> = expected.iter().map(|l| info(l)).collect();
    assert_eq!(&app.output()[1..], &lines[..]);
}

#[test]
fn run_names_what_it_runs() {
    let mut app = fresh();
    assert_eq!(app.do_cmd("run"), Command::Run);
    assert_eq!(app.run_mode(), RunMode::RunningToBreakpoint);
    assert!(app.is_running());
    assert_eq!(app.poll_budget_ms(), 0);
    assert_eq!(
        app.output()[1],
        CmdMsg::Log("Running `<unknown source file>`...".to_string())
    );

    let session = Session {
        meadowlark_src: Some("m.meadow".to_string()),
        lark_src: Some("l.lark".to_string()),
        romfile: None,
        tab_idx: 0,
    };
    let mut app = App::new(no_opts(), session, Vec::new());
    app.do_cmd("run");
    assert_eq!(app.output()[1], CmdMsg::Log("Running `l.lark`...".to_string()));
    app.rom_loaded("r.rom", 16, Vec::new(), None);
    app.do_cmd("run");
    assert_eq!(app.output().last(), Some(&CmdMsg::Log("Running `r.rom`...".to_string())));
}

#[test]
fn a_breakpoint_ends_the_run_and_names_the_program_counter() {
    let mut app = fresh();
    app.do_cmd("run");
    let before = app.output().len();
    app.drain(vec![Signal::Breakpoint], 0x01AF);
    assert_eq!(app.run_mode(), RunMode::Idle);
    assert_eq!(app.output().len(), before + 1);
    assert_eq!(app.output().last(), Some(&CmdMsg::Log("BREAKPOINT at pc=0x01af".to_string())));
}

#[test]
fn signals_are_taken_in_order() {
    let mut app = fresh();
    app.do_cmd("run");
    let first = LogMsg::Error("bad".to_string());
    let second = LogMsg::DebugPuts { addr: 4, value: "\"hi\"".to_string() };
    app.drain(
        vec![Signal::Log(first.clone()), Signal::Log(second.clone())],
        0,
    );
    assert_eq!(app.run_mode(), RunMode::RunningToBreakpoint);
    app.drain(vec![Signal::IllegalInstr, Signal::Halt], 0xFFFF);
    assert_eq!(app.run_mode(), RunMode::Idle);
    assert_eq!(
        &app.output()[2..],
        &[
            CmdMsg::CpuMsg(first),
            CmdMsg::CpuMsg(second),
            CmdMsg::Error("Illegal instruction at pc=0xffff".to_string()),
            CmdMsg::Log("CPU halted.".to_string()),
        ]
    );
    app.drain(Vec::new(), 0);
    assert_eq!(app.output().len(), 6);
}

#[test]
fn a_failed_step_does_not_end_the_run() {
    let mut app = fresh();
    app.do_cmd("run");
    app.step_failed("DivideByZero");
    assert_eq!(app.run_mode(), RunMode::RunningToBreakpoint);
    assert_eq!(app.output().last(), Some(&CmdMsg::Error("CPU Error: DivideByZero".to_string())));
}

#[test]
fn escape_stops_a_run_or_clears_the_input() {
    let mut app = fresh();
    type_text(&mut app, "reg");
    assert_eq!(press(&mut app, Key::Esc), Effect::Nothing);
    assert_eq!(app.input().value(), "");
    assert!(app.output().is_empty());
    app.do_cmd("run");
    type_text(&mut app, "x");
    assert_eq!(press(&mut app, Key::Esc), Effect::Cancelled);
    assert_eq!(app.run_mode(), RunMode::Idle);
    assert_eq!(app.input().value(), "x");
    assert_eq!(app.output().last(), Some(&CmdMsg::Log("CPU halted.".to_string())));
}

#[test]
fn typing_edits_the_input_line() {
    let mut app = fresh();
    type_text(&mut app, "hexdunp");
    assert_eq!(app.input().value(), "hexdunp");
    assert_eq!(app.input().cursor(), 7);
    press(&mut app, Key::Left);
    press(&mut app, Key::Backspace);
    type_text(&mut app, "m");
    assert_eq!(app.input().value(), "hexdump");
    assert_eq!(app.input().cursor(), 6);
    press(&mut app, Key::End);
    assert_eq!(app.input().cursor(), 7);
    app.update(InputEvent::Press(KeyPress { key: Key::Char('X'), modifiers: SHIFT }));
    assert_eq!(app.input().value(), "hexdumpX");
    press(&mut app, Key::Other);
    assert_eq!(app.input().value(), "hexdumpX");
    app.update(InputEvent::Press(KeyPress { key: Key::Char('u'), modifiers: CONTROL }));
    assert_eq!(app.input().value(), "");
}

#[test]
fn enter_submits_what_was_typed() {
    let mut app = fresh();
    type_text(&mut app, "hexdump 0 :+ 16");
    let effect = press(&mut app, Key::Enter);
    assert_eq!(effect, Effect::Execute(Command::DumpSpan { base: 0, len: 16 }));
    assert_eq!(app.input().value(), "");
    assert_eq!(app.history(), &vec!["hexdump 0 :+ 16".to_string()]);
    assert_eq!(app.output(), &vec![echo("hexdump 0 :+ 16"), info("Hexdump of ROM:")]);
    app.show_dump(0, &[0u8; 16]);
    assert_eq!(app.output().len(), 3);
    assert_eq!(
        app.output()[2],
        info("0000 | 00 00 00 00 00 00 00 00    00 00 00 00 00 00 00 00 ")
    );
}

#[test]
fn a_key_goes_to_the_machine_while_it_has_the_focus() {
    let mut app = fresh();
    assert_eq!(press(&mut app, Key::Home), Effect::Nothing);
    assert!(!app.input_focus());
    let effect = press(&mut app, Key::Char('a'));
    assert_eq!(effect, Effect::SendKey { cell: 0xF000, code: 0x61 });
    assert_eq!(KEY_CODE_ADDR, 0xF000);
    assert_eq!(app.input().value(), "");
    assert!(app.output().is_empty());
    assert_eq!(
        press(&mut app, Key::Char('\u{20AC}')),
        Effect::SendKey { cell: 0xF000, code: 0xAC }
    );
    press(&mut app, Key::Home);
    assert!(app.input_focus());
    assert_eq!(press(&mut app, Key::Char('a')), Effect::Nothing);
    assert_eq!(app.input().value(), "a");
}

#[test]
fn control_c_and_control_d_quit() {
    for c in ['c', 'd'] {
        let mut app = fresh();
        let effect = app.update(InputEvent::Press(KeyPress { key: Key::Char(c), modifiers: CONTROL }));
        assert_eq!(effect, Effect::Nothing);
        assert!(app.should_quit());
        assert_eq!(app.input().value(), "");
    }
    let mut app = fresh();
    press(&mut app, Key::Char('c'));
    assert!(!app.should_quit());
}

#[test]
fn clicks_and_other_events() {
    let mut app = fresh();
    assert_eq!(app.mouse_click(), None);
    app.update(InputEvent::Click { column: 7, row: 9 });
    assert_eq!(app.mouse_click(), Some((7, 9)));
    assert_eq!(app.update(InputEvent::Other), Effect::Nothing);
    assert!(app.output().is_empty());
}

#[test]
fn loading_an_image_replaces_path_and_disassembly() {
    let mut app = fresh();
    let cmd = app.do_cmd("load prog.rom");
    assert_eq!(cmd, Command::Load { path: "prog.rom".to_string(), kind: ImageKind::Binary });
    assert_eq!(app.romfile(), &None);
    let instrs: Vec<Instr> =
        (0..1024).map(|i| Instr { text: format!("nop\t{}", i), size: 4 }).collect();
    app.rom_loaded("prog.rom", 4096, instrs, None);
    assert_eq!(app.romfile(), &Some("prog.rom".to_string()));
    assert!(!app.disassembly().is_empty());
    let total: usize = app.disassembly().iter().map(|i| i.size as usize).sum();
    assert_eq!(total, 4096);
    assert_eq!(
        app.output(),
        &vec![echo("load prog.rom"), info("Loaded ROM file `prog.rom` (4096 bytes)")]
    );
}

#[test]
fn a_failed_load_leaves_the_image_as_it_was() {
    let mut app = fresh();
    app.rom_loaded("old.rom", 2, vec![Instr { text: "halt".to_string(), size: 2 }], None);
    app.do_cmd("load big.rom");
    app.rom_too_large("big.rom", 4096, 5000);
    app.rom_unreadable("No such file or directory (os error 2)");
    app.compile_failed("syntax error");
    assert_eq!(app.romfile(), &Some("old.rom".to_string()));
    assert_eq!(app.disassembly().len(), 1);
    assert_eq!(
        &app.output()[2..],
        &[
            CmdMsg::Error("ROM file too large: big.rom".to_string()),
            info("  - Max ROM size: 4096"),
            info("  - Given ROM size: 5000"),
            CmdMsg::Error("Error reading ROM file: No such file or directory (os error 2)".to_string()),
            CmdMsg::Error("Error compiling Meadowlark file: syntax error".to_string()),
        ]
    );
}

#[test]
fn a_failed_disassembly_is_reported_before_the_load() {
    let mut app = fresh();
    app.rom_loaded("p.rom", 3, Vec::new(), Some("BadOpcode(255)"));
    assert_eq!(
        app.output(),
        &vec![
            CmdMsg::Error("Disassembly error: BadOpcode(255)".to_string()),
            info("Loaded ROM file `p.rom` (3 bytes)"),
        ]
    );
    app.compiled("p.meadow");
    assert_eq!(app.meadowlark_src(), &Some("p.meadow".to_string()));
}

#[test]
fn machine_answers_are_logged() {
    let mut app = fresh();
    app.do_cmd("regs");
    app.show_registers("$0: 0\r\n$1: 7\n");
    app.do_cmd("listing");
    app.show_listing(&[0u8; 32]);
    app.do_cmd("x 2");
    app.show_word("2", 258);
    app.do_cmd("x/b 2");
    app.show_byte("2", 2);
    assert_eq!(
        app.output(),
        &vec![
            echo("regs"),
            CmdMsg::Log("$0: 0".to_string()),
            CmdMsg::Log("$1: 7".to_string()),
            echo("listing"),
            info("Program:"),
            info("00 00 00 00 00 00 00 00 00 00 00 00 00 00 00 00 "),
            echo("x 2"),
            info("(16-bit) 2:   258,  +258, 0x0102, 0b0000000100000010"),
            echo("x/b 2"),
            info(" (8-bit) 2:   2, 0x02, 0b00000010"),
        ]
    );
}

#[test]
fn the_latest_history_entries_are_kept() {
    let lines: Vec<String> = (0..600).map(|i| format!("x {}", i)).collect();
    let app = App::new(no_opts(), no_session(), lines.clone());
    let kept = app.history_to_save();
    assert_eq!(MAX_HIST_LEN, 512);
    assert_eq!(kept.len(), 512);
    assert_eq!(kept[..], lines[88..]);
    let app = with_history(&["a", "b"]);
    assert_eq!(app.history_to_save(), vec!["a".to_string(), "b".to_string()]);
}

#[test]
fn a_session_record_is_written_and_read_back() {
    let session = Session {
        meadowlark_src: Some("src/main.meadow".to_string()),
        lark_src: None,
        romfile: Some("out/a = b.rom".to_string()),
        tab_idx: 12,
    };
    let text = session.serialize();
    assert_eq!(text, "meadowlark_src = src/main.meadow\nromfile = out/a = b.rom\ntab_idx = 12\n");
    assert_eq!(Session::deserialize(&text), Some(session));
    assert_eq!(no_session().serialize(), "tab_idx = 0\n");
    assert_eq!(Session::deserialize(""), Some(no_session()));
}

#[test]
fn reading_a_session_record() {
    let read = Session::deserialize("lark_src = a\nlark_src = b\nother = 1\ntab_idx = 4\r\n");
    assert_eq!(
        read,
        Some(Session {
            meadowlark_src: None,
            lark_src: Some("b".to_string()),
            romfile: None,
            tab_idx: 4,
        })
    );
    assert_eq!(Session::deserialize("tab_idx = four\n").unwrap().tab_idx, 0);
    assert_eq!(Session::deserialize("tab_idx = 99999999999999999999999\n").unwrap().tab_idx, 0);
    assert_eq!(Session::deserialize("tab_idx = \n").unwrap().tab_idx, 0);
    assert_eq!(Session::deserialize("romfile = \n").unwrap().romfile, Some(String::new()));
    assert_eq!(Session::deserialize("romfile=a.rom\n"), None);
    assert_eq!(Session::deserialize("tab_idx = 1\n\n"), None);
}

#[test]
fn the_session_to_save_holds_the_paths_in_use() {
    let mut app = fresh();
    app.rom_loaded("r.rom", 1, Vec::new(), None);
    app.compiled("m.meadow");
    assert_eq!(
        app.session(),
        Session {
            meadowlark_src: Some("m.meadow".to_string()),
            lark_src: None,
            romfile: Some("r.rom".to_string()),
            tab_idx: 0,
        }
    );
}

#[test]
fn the_log_window_shows_the_latest_entries_first() {
    let mut app = fresh();
    app.do_cmd("help");
    let log = app.output();
    let shown = visible(log, 0, 3);
    assert_eq!(shown, vec![&log[13], &log[12], &log[11]]);
    let shown = visible(log, 12, 5);
    assert_eq!(shown, vec![&log[1], &log[0]]);
    assert!(visible(log, 14, 5).is_empty());
    assert!(visible(log, 99, 5).is_empty());
    assert!(visible(log, 0, 0).is_empty());
    assert_eq!(visible(log, 0, 100).len(), 14);
}

#[test]
fn the_disassembly_is_listed_with_addresses() {
    let instrs = vec![
        Instr { text: "li\t$t0, 5".to_string(), size: 4 },
        Instr { text: "nop".to_string(), size: 2 },
        Instr { text: "halt".to_string(), size: 2 },
    ];
    let view = DisassemblyView { disassembly: &instrs, start: 0x1000, pc: 0x1004 };
    let rows = view.rows();
    assert_eq!(rows.len(), 3);
    assert_eq!(rows[0].text, "0x1000    li      $t0, 5");
    assert_eq!(rows[1].text, "0x1004    nop");
    assert_eq!(rows[2].text, "0x1006    halt");
    assert_eq!(
        rows.iter().map(|r| (r.address, r.current)).collect::<Vec<_>>(),
        vec![(0x1000, false), (0x1004, true), (0x1006, false)]
    );
    let wide = vec![
        Instr { text: "longopname\targ".to_string(), size: 0xFFFF },
        Instr { text: "\tx".to_string(), size: 1 },
        Instr { text: "a\tb\tc".to_string(), size: 1 },
    ];
    let rows = DisassemblyView { disassembly: &wide, start: 2, pc: 1 }.rows();
    assert_eq!(rows[0].text, "0x0002    longopnamearg");
    assert_eq!(rows[1].text, "0x0001            x");
    assert_eq!(rows[2].text, "0x0002    a       b\tc");
    assert_eq!(
        rows.iter().map(|r| r.current).collect::<Vec<_>>(),
        vec![false, true, false]
    );
    let none: Vec<Instr> = Vec::new();
    assert!(DisassemblyView { disassembly: &none, start: 0, pc: 0 }.rows().is_empty());
}
