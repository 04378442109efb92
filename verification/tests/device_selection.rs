use clippo::devices::device_indices;
use clippo::devices::device_line;
use clippo::devices::enumerate_devices;
use clippo::selector::invalid_index_message;
use clippo::selector::index_list_string;
use clippo::selector::not_an_integer_message;
use clippo::selector::select_input_source;
use clippo::selector::SelectError;

fn two_mics() -> Vec<String> {
    vec!["Mic A".to_string(), "Mic B".to_string()]
}

#[test]
fn enumerator_pairs_names_with_positions() {
    let names = two_mics();
    let devices = enumerate_devices(&names);
    assert_eq!(devices.len(), 2);
    assert_eq!(devices[0].index, 0);
    assert_eq!(devices[0].name, "Mic A");
    assert_eq!(devices[1].index, 1);
    assert_eq!(devices[1].name, "Mic B");
}

#[test]
fn enumerator_indices_are_zero_to_n() {
    let names: Vec<String> = (0..7).map(|i| format!("dev{}", i)).collect();
    let devices = enumerate_devices(&names);
    let indices = device_indices(&devices);
    assert_eq!(indices, vec![0, 1, 2, 3, 4, 5, 6]);
}

#[test]
fn enumerator_handles_empty_list() {
    let names: Vec<String> = Vec::new();
    let devices = enumerate_devices(&names);
    assert_eq!(devices.len(), 0);
    assert_eq!(device_indices(&devices).len(), 0);
}

#[test]
fn device_line_matches_listing_format() {
    let names = two_mics();
    let devices = enumerate_devices(&names);
    assert_eq!(device_line(&devices[0]), "index: 0, device name: \"Mic A\"");
    assert_eq!(device_line(&devices[1]), "index: 1, device name: \"Mic B\"");
}

#[test]
fn device_line_escapes_names_as_debug_does() {
    let names = vec![
        "Mic \"B\"".to_string(),
        "back\\slash".to_string(),
        "tab\tname".to_string(),
        "line\nbreak".to_string(),
        "cr\rhere".to_string(),
        "nul\0char".to_string(),
        "ctl\u{1}\u{e}\u{1f}\u{7f}end".to_string(),
        "next\u{85}line".to_string(),
        "zero\u{200b}width".to_string(),
        "café".to_string(),
    ];
    let devices = enumerate_devices(&names);
    for (i, name) in names.iter().enumerate() {
        assert_eq!(
            device_line(&devices[i]),
            format!("index: {}, device name: {:?}", i, name)
        );
    }
}

#[test]
fn selector_accepts_member_index() {
    let sources = vec![0, 1];
    assert_eq!(select_input_source(&sources, "1"), Ok(1));
    assert_eq!(select_input_source(&sources, "0"), Ok(0));
}

#[test]
fn selector_trims_whitespace_before_parsing() {
    let sources = vec![0, 1, 2];
    assert_eq!(select_input_source(&sources, "  2\n"), Ok(2));
    assert_eq!(select_input_source(&sources, "\t1\r\n"), Ok(1));
}

#[test]
fn selector_rejects_non_numeric_text() {
    let sources = vec![0, 1];
    assert_eq!(select_input_source(&sources, "abc"), Err(SelectError::NotAnInteger));
    assert_eq!(select_input_source(&sources, ""), Err(SelectError::NotAnInteger));
    assert_eq!(select_input_source(&sources, "-"), Err(SelectError::NotAnInteger));
    assert_eq!(select_input_source(&sources, "1x"), Err(SelectError::NotAnInteger));
}

#[test]
fn selector_rejects_out_of_range_numbers() {
    let sources = vec![0, 1];
    assert_eq!(select_input_source(&sources, "-1"), Err(SelectError::InvalidIndex));
    assert_eq!(select_input_source(&sources, "2"), Err(SelectError::InvalidIndex));
}

#[test]
fn end_to_end_selection_scenario() {
    // enumerator reports (0, "Mic A") and (1, "Mic B")
    let names = two_mics();
    let devices = enumerate_devices(&names);
    let sources = device_indices(&devices);
    // the user types "1": accepted
    assert_eq!(select_input_source(&sources, "1"), Ok(1));
    // the user types "5": refused, and the diagnostic names [0, 1]
    assert_eq!(select_input_source(&sources, "5"), Err(SelectError::InvalidIndex));
    assert_eq!(
        invalid_index_message(&sources),
        "Invalid input source, allowed sources indexes are: [0, 1]"
    );
}

#[test]
fn index_list_rendering() {
    assert_eq!(index_list_string(&vec![]), "[]");
    assert_eq!(index_list_string(&vec![0]), "[0]");
    assert_eq!(index_list_string(&vec![0, 1, 2]), "[0, 1, 2]");
}

#[test]
fn not_an_integer_diagnostic_names_the_text() {
    assert_eq!(not_an_integer_message("abc"), "This was not an integer: abc");
}
