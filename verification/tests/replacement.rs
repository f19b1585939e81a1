use m64_editor::replacement::frame_entry;
use m64_editor::ReplacementAction;
use m64_editor::ReplacementMessage;
use m64_editor::ReplacementTab;

fn filled() -> ReplacementTab {
    ReplacementTab {
        base_m64: "base.m64".to_string(),
        replacement_m64: "new.m64".to_string(),
        output_m64: "out.m64".to_string(),
        base_start: "10".to_string(),
        base_end: "20".to_string(),
        replacement_start: "30".to_string(),
        replacement_end: "40".to_string(),
    }
}

#[test]
fn new_form_is_blank() {
    let tab = ReplacementTab::new();
    assert_eq!(tab.base_m64, "");
    assert_eq!(tab.replacement_m64, "");
    assert_eq!(tab.output_m64, "");
    assert_eq!(tab.base_start, "");
    assert_eq!(tab.base_end, "");
    assert_eq!(tab.replacement_start, "");
    assert_eq!(tab.replacement_end, "");
    assert_eq!(tab, ReplacementTab::default());
}

#[test]
fn a_change_goes_to_its_own_field() {
    let cases: Vec<(ReplacementMessage, fn(&mut ReplacementTab) -> &mut String)> = vec![
        (ReplacementMessage::BaseM64Changed("x".to_string()), |t| &mut t.base_m64),
        (ReplacementMessage::ReplacementM64Changed("x".to_string()), |t| &mut t.replacement_m64),
        (ReplacementMessage::OutputM64Changed("x".to_string()), |t| &mut t.output_m64),
        (ReplacementMessage::BaseStartChanged("x".to_string()), |t| &mut t.base_start),
        (ReplacementMessage::BaseEndChanged("x".to_string()), |t| &mut t.base_end),
        (ReplacementMessage::ReplacementStartChanged("x".to_string()), |t| {
            &mut t.replacement_start
        }),
        (ReplacementMessage::ReplacementEndChanged("x".to_string()), |t| &mut t.replacement_end),
    ];
    for (message, field) in cases {
        let mut tab = filled();
        assert_eq!(tab.update(message), ReplacementAction::Nothing);
        let mut expected = filled();
        *field(&mut expected) = "x".to_string();
        assert_eq!(tab, expected);
    }
}

#[test]
fn a_search_asks_for_a_file_and_leaves_the_form() {
    let cases = [
        (ReplacementMessage::BaseFileSearch, ReplacementAction::PickBaseFile),
        (ReplacementMessage::ReplacementFileSearch, ReplacementAction::PickReplacementFile),
        (ReplacementMessage::OutputFileSearch, ReplacementAction::PickOutputFile),
        (ReplacementMessage::ReplaceFrames, ReplacementAction::ReplaceFrames),
    ];
    for (message, action) in cases {
        let mut tab = filled();
        assert_eq!(tab.update(message), action);
        assert_eq!(tab, filled());
    }
}

#[test]
fn a_picked_file_comes_back_as_a_change() {
    let mut tab = ReplacementTab::new();
    assert_eq!(tab.update(ReplacementMessage::OutputFileSearch), ReplacementAction::PickOutputFile);
    let picked = "/tmp/run.m64".to_string();
    assert_eq!(tab.update(ReplacementMessage::OutputM64Changed(picked)), ReplacementAction::Nothing);
    assert_eq!(tab.output_m64, "/tmp/run.m64");
    assert_eq!(tab.base_m64, "");
}

#[test]
fn a_frame_field_takes_numbers_only() {
    assert_eq!(frame_entry("12", "123"), "123");
    assert_eq!(frame_entry("12", "12a"), "12");
    assert_eq!(frame_entry("12", ""), "");
    assert_eq!(frame_entry("", "x"), "");
    assert_eq!(frame_entry("", "0"), "0");
    assert_eq!(frame_entry("7", "-1"), "7");
    assert_eq!(frame_entry("7", "4294967296"), "7");
    assert_eq!(frame_entry("7", "4294967295"), "4294967295");
}

#[test]
fn a_frame_field_shows_a_number_plainly() {
    assert_eq!(frame_entry("1", "+5"), "5");
    assert_eq!(frame_entry("1", "007"), "7");
    assert_eq!(frame_entry("1", "0000"), "0");
}
