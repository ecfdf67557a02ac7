use winter_wonderlights::editor::{
    get_help_text, parse_command, save_filename, Command, CommandParseError, EditorDriver,
    LightIndexError, HELP_TEXT_COMMANDS, HELP_TEXT_LIGHT, HELP_TEXT_SAVING,
};
use winter_wonderlights::frame::{FrameType, TestDriver};

/// The point of a `set` command, with its coordinates read as floats.
fn set_point(cmd: &Command) -> Option<(usize, (f32, f32, f32))> {
    match cmd {
        Command::SetPoint(idx, (x, y, z)) => Some((
            *idx,
            (
                x.parse::<f32>().unwrap(),
                y.parse::<f32>().unwrap(),
                z.parse::<f32>().unwrap(),
            ),
        )),
        _ => None,
    }
}

#[test]
fn parse_command_test() {
    assert_eq!(parse_command("help"), Ok(("", Command::Help)));
    assert_eq!(parse_command("?"), Ok(("", Command::Help)));

    assert_eq!(parse_command("show"), Ok(("", Command::Show(None))));
    assert_eq!(
        parse_command("show 10"),
        Ok(("", Command::Show(Some(10..=10))))
    );
    assert_eq!(
        parse_command("show 8 : 25"),
        Ok(("", Command::Show(Some(8..=25))))
    );
    assert_eq!(
        parse_command("show 8:25"),
        Ok(("", Command::Show(Some(8..=25))))
    );
    assert_eq!(
        parse_command("show 8:   25"),
        Ok(("", Command::Show(Some(8..=25))))
    );

    let (rest, cmd) = parse_command("set 10 (0.567, -0.345, 1.234)").unwrap();
    assert_eq!(rest, "");
    assert_eq!(set_point(&cmd), Some((10, (0.567, -0.345, 1.234))));
    let (rest, cmd) = parse_command("set 0 (-0.567,-0.345,1.234)").unwrap();
    assert_eq!(rest, "");
    assert_eq!(set_point(&cmd), Some((0, (-0.567, -0.345, 1.234))));

    assert_eq!(parse_command("save"), Ok(("", Command::Save(None, false))));
    assert_eq!(
        parse_command("save \"file name\""),
        Ok(("", Command::Save(Some("file name"), false)))
    );
    assert_eq!(
        parse_command("save 'file name'"),
        Ok(("", Command::Save(Some("file name"), false)))
    );
    assert_eq!(
        parse_command("save filename"),
        Ok(("", Command::Save(Some("filename"), false)))
    );
    assert_eq!(
        parse_command("save /path/to/filename"),
        Ok(("", Command::Save(Some("/path/to/filename"), false)))
    );
}

#[test]
fn parse_set_text_test() {
    // The coordinates are handed on as the exact text of each float.
    assert_eq!(
        parse_command("set 3 ( 1e3 ,.5,  +2. )"),
        Ok(("", Command::SetPoint(3, ("1e3", ".5", "+2."))))
    );
    assert_eq!(
        parse_command("set 4 (NaN, inf, -1.5E-2)"),
        Ok(("", Command::SetPoint(4, ("NaN", "inf", "-1.5E-2"))))
    );
    assert_eq!(
        parse_command("set 65535 (0, 0, 0) extra"),
        Ok((" extra", Command::SetPoint(65535, ("0", "0", "0"))))
    );
}

#[test]
fn parse_set_errors_test() {
    let err = Err(CommandParseError::UnknownCommand);
    // An exponent mark without digits, a missing separator, an index too large for a u16,
    // no whitespace after `set`, and an unclosed point.
    assert_eq!(parse_command("set 1 (1e, 2, 3)"), err);
    assert_eq!(parse_command("set 1 (1 2, 3)"), err);
    assert_eq!(parse_command("set 65536 (1, 2, 3)"), err);
    assert_eq!(parse_command("set1 (1, 2, 3)"), err);
    assert_eq!(parse_command("set 1 (1, 2, 3"), err);
    assert_eq!(parse_command("set 1(1, 2, 3)"), err);
    assert_eq!(parse_command("set 1 (-inf, 2, 3)"), err);
}

#[test]
fn parse_unknown_command_test() {
    assert_eq!(parse_command(""), Err(CommandParseError::UnknownCommand));
    assert_eq!(parse_command("hello"), Err(CommandParseError::UnknownCommand));
    assert_eq!(parse_command(" help"), Err(CommandParseError::UnknownCommand));
    assert_eq!(parse_command("sav"), Err(CommandParseError::UnknownCommand));
}

#[test]
fn parse_trailing_input_test() {
    assert_eq!(parse_command("helpme"), Ok(("me", Command::Help)));
    assert_eq!(parse_command("show  "), Ok(("", Command::Show(None))));
    assert_eq!(parse_command("show x"), Ok(("x", Command::Show(None))));
    // An index that does not fit in a u16 is not an index.
    assert_eq!(parse_command("show 70000"), Ok(("70000", Command::Show(None))));
    // A range whose end is missing shows a single light.
    assert_eq!(parse_command("show 3 :"), Ok((" :", Command::Show(Some(3..=3)))));
    assert_eq!(parse_command("show 007:9"), Ok(("", Command::Show(Some(7..=9)))));
}

#[test]
fn parse_light_test() {
    assert_eq!(parse_command("light 12"), Ok(("", Command::Light(12))));
    assert_eq!(parse_command("light\t0"), Ok(("", Command::Light(0))));
    assert_eq!(parse_command("light"), Err(CommandParseError::UnknownCommand));
    assert_eq!(parse_command("light x"), Err(CommandParseError::UnknownCommand));
}

#[test]
fn parse_save_test() {
    assert_eq!(parse_command("saveraw"), Ok(("", Command::Save(None, true))));
    assert_eq!(
        parse_command("saveraw 'coords'"),
        Ok(("", Command::Save(Some("coords"), true)))
    );
    assert_eq!(
        parse_command("save a b"),
        Ok((" b", Command::Save(Some("a"), false)))
    );
    // An empty quoted name, or an unclosed quote, is read as a plain name.
    assert_eq!(
        parse_command("save \"\""),
        Ok(("", Command::Save(Some("\"\""), false)))
    );
    assert_eq!(
        parse_command("save \"abc"),
        Ok(("", Command::Save(Some("\"abc"), false)))
    );
    // Whitespace and nothing after it leaves the whitespace unread.
    assert_eq!(parse_command("save   "), Ok(("   ", Command::Save(None, false))));
    assert_eq!(parse_command("savex"), Ok(("x", Command::Save(None, false))));
    // A name stops at any Unicode whitespace.
    assert_eq!(
        parse_command("save a\u{a0}b"),
        Ok(("\u{a0}b", Command::Save(Some("a"), false)))
    );
    assert_eq!(
        parse_command("save \u{a0}b"),
        Ok((" \u{a0}b", Command::Save(None, false)))
    );
}

#[test]
fn help_text_test() {
    let with = get_help_text(true);
    let without = get_help_text(false);
    assert_eq!(without, format!("{HELP_TEXT_COMMANDS}{HELP_TEXT_SAVING}"));
    assert_eq!(with, format!("{HELP_TEXT_COMMANDS}{HELP_TEXT_LIGHT}{HELP_TEXT_SAVING}"));
    assert!(with.contains("light 10  -  Light up the light at index 10"));
    assert!(!without.contains("light 10"));
    assert!(without.starts_with("Use the following commands to edit the GIFT coordinates"));
    assert!(without.ends_with("Use Ctrl+D with an empty prompt to quit."));
    assert!(without.contains("    saveraw \"filename\"  -  Save the new coordinates to a given file without renormalizing them\n"));
}

#[test]
fn help_text_examples_parse_test() {
    // The examples that the help text gives are commands.
    assert_eq!(parse_command("show 10:20"), Ok(("", Command::Show(Some(10..=20)))));
    assert_eq!(
        parse_command("set 10 (0.234, -0.567, 2.345)"),
        Ok(("", Command::SetPoint(10, ("0.234", "-0.567", "2.345"))))
    );
    assert_eq!(parse_command("light 10"), Ok(("", Command::Light(10))));
    assert_eq!(
        parse_command("saveraw \"filename\""),
        Ok(("", Command::Save(Some("filename"), true)))
    );
}

#[test]
fn save_filename_test() {
    assert_eq!(save_filename(None, "coords.gift", false), "coords.gift");
    assert_eq!(save_filename(None, "coords.gift", true), "coords.gift.raw");
    assert_eq!(save_filename(Some("out.raw"), "coords.gift", true), "out.raw");
    assert_eq!(save_filename(Some("out.raw"), "coords.gift", false), "out");
    assert_eq!(save_filename(Some("new"), "coords.gift", false), "new");
    assert_eq!(save_filename(Some(".raw"), "x", false), "");
    assert_eq!(save_filename(Some("raw"), "x", true), "raw.raw");
}

#[test]
fn enable_one_light_test() {
    let mut driver = EditorDriver::new(TestDriver::new(3));
    assert_eq!(driver.enable_one_light(1, 3), Ok(()));
    assert_eq!(
        driver.enable_one_light(3, 3),
        Err(LightIndexError { idx: 3, total_lights: 3 })
    );
    assert_eq!(
        driver.inner.data,
        vec![FrameType::RawData(vec![(0, 0, 0), (255, 255, 255), (0, 0, 0)])]
    );
    // The light is asked for at full brightness.
    assert_eq!(driver.inner.brightness, vec![100]);
}

#[test]
fn save_name_white_space_test() {
    // Each character with the White_Space property ends an unquoted name; others do not.
    for ws in [
        '\u{9}', '\u{b}', '\u{c}', '\u{85}', '\u{a0}', '\u{1680}', '\u{2000}', '\u{200a}',
        '\u{2028}', '\u{2029}', '\u{202f}', '\u{205f}', '\u{3000}',
    ] {
        let line = format!("save ab{ws}c");
        let rest = format!("{ws}c");
        assert_eq!(parse_command(&line), Ok((rest.as_str(), Command::Save(Some("ab"), false))));
    }
    for other in ['\u{180e}', '\u{200b}', '\u{feff}', 'x'] {
        let line = format!("save ab{other}c");
        let name = format!("ab{other}c");
        assert_eq!(parse_command(&line), Ok(("", Command::Save(Some(name.as_str()), false))));
    }
}
