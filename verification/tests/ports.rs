//! Output-port selection tests: fallback, case-insensitive matching, and the
//! typed not-found error.

use x1_control::ports::{select_port, MidiClockError};

fn names(list: &[Option<&str>]) -> Vec<Option<String>> {
    list.iter().map(|n| n.map(|s| s.to_string())).collect()
}

#[test]
fn no_ports_at_all_is_a_not_found_error() {
    let r = select_port(&Vec::new(), "anything");
    match r {
        Err(MidiClockError::PortNotFound(hint)) => assert_eq!(hint, "anything"),
        other => panic!("expected a not-found error, got {other:?}"),
    }
}

#[test]
fn blank_hint_falls_back_to_the_first_port() {
    let ports = names(&[Some("Alpha Out"), Some("Beta Out")]);
    assert_eq!(select_port(&ports, "").unwrap(), 0);
    assert_eq!(select_port(&ports, "   \t ").unwrap(), 0);
}

#[test]
fn matching_is_case_insensitive_substring_and_takes_the_first_hit() {
    let ports = names(&[Some("IAC Driver Bus 1"), Some("USB MIDI Out"), Some("MIDI Thru")]);
    assert_eq!(select_port(&ports, "midi").unwrap(), 1);
    assert_eq!(select_port(&ports, "THRU").unwrap(), 2);
    assert_eq!(select_port(&ports, "iac driver").unwrap(), 0);
}

#[test]
fn unreadable_port_names_never_match() {
    let ports = names(&[None, Some("Real Port")]);
    assert_eq!(select_port(&ports, "real").unwrap(), 1);
    let only_unreadable = names(&[None, None]);
    match select_port(&only_unreadable, "real") {
        Err(MidiClockError::PortNotFound(hint)) => assert_eq!(hint, "real"),
        other => panic!("expected a not-found error, got {other:?}"),
    }
}

#[test]
fn hint_matching_nothing_is_a_not_found_error_carrying_the_hint() {
    let ports = names(&[Some("Alpha"), Some("Beta")]);
    match select_port(&ports, "gamma") {
        Err(MidiClockError::PortNotFound(hint)) => assert_eq!(hint, "gamma"),
        other => panic!("expected a not-found error, got {other:?}"),
    }
}
