use flcq::connection::{Factory, LinkAction};
use flcq::measurement::{EClick, Stage, TwoFreq};
use flcq::toggle::{BToggle, ToggleIds};

#[test]
fn toggle_starts_on_typed_in_values() {
    let t = BToggle::default();
    assert_eq!(t.get(), (true, false));
    assert!(!t.inited());
}

#[test]
fn toggle_switches_are_exclusive() {
    let mut t = BToggle::default();
    t.set_ids(1, 2, 3, 4, 5);
    assert!(t.inited());
    assert!(t.ids() == ToggleIds { parent: 1, input: 2, eeprom: 3, input_label: 4, eeprom_label: 5 });
    t.input_toggled(false);
    assert_eq!(t.get(), (false, true));
    t.eeprom_toggled(false);
    assert_eq!(t.get(), (true, false));
    t.eeprom_toggled(true);
    assert_eq!(t.get(), (false, true));
    t.eeprom_undefined();
    assert_eq!(t.get(), (true, false));
}

#[test]
fn reference_selection() {
    let mut t = BToggle::default();
    let typed = (Some(1000.0f64), Some(200.0f64));
    let saved = (Some(990.0f64), Some(210.0f64));
    assert_eq!(t.select(typed, saved), typed);
    t.eeprom_toggled(true);
    assert_eq!(t.select(typed, saved), saved);
    assert_eq!(t.select(typed, (Some(990.0), None)), typed);
    assert_eq!(t.select(typed, (None, Some(210.0))), typed);
}

#[test]
fn connect_button_alternates() {
    let mut f = Factory::new();
    assert!(!f.is_connected());
    assert_eq!(f.selected_port(), Some(0));
    assert!(f.clicked().is_none());
    let names = vec!["/dev/ttyUSB0".to_string(), "/dev/ttyUSB1".to_string()];
    f.port_selected(&names, 1);
    assert_eq!(f.selected_port(), Some(1));
    assert_eq!(f.selected_port_name(), "/dev/ttyUSB1");
    f.record_click(true);
    match f.clicked() {
        Some(LinkAction::Open(name)) => assert_eq!(name, "/dev/ttyUSB1"),
        _ => panic!("expected an open action"),
    }
    assert!(f.is_connected());
    assert!(f.clicked().is_none());
    f.record_click(false);
    assert!(f.clicked().is_none());
    f.record_click(true);
    assert!(matches!(f.clicked(), Some(LinkAction::Close)));
    assert!(!f.is_connected());
}

#[test]
fn two_frequency_measurement_sequence() {
    let mut m: TwoFreq<(f64, f64)> = TwoFreq::new();
    assert!(m.stage() == Stage::NeedFirst);
    assert!(matches!(m.click(false), EClick::FNONE));
    assert!(matches!(m.click(true), EClick::F1));
    m.f1_set(None, "timeout".to_string());
    assert!(m.stage() == Stage::NeedFirst);
    assert_eq!(m.f1_error(), "timeout");
    m.f1_set(Some((5000.0, 1.0)), String::new());
    assert!(m.stage() == Stage::NeedSecond);
    assert!(matches!(m.click(true), EClick::F2));
    m.f2_set(Some((3000.0, 1.0)), String::new());
    assert!(m.stage() == Stage::Complete);
    // F1 is higher: the caller asks for the pair to be ordered
    m.order(true);
    assert_eq!(m.f1(), Some((3000.0, 1.0)));
    assert_eq!(m.f2(), Some((5000.0, 1.0)));
    match m.click(false) {
        EClick::END(a, b) => assert_eq!((a, b), ((3000.0, 1.0), (5000.0, 1.0))),
        _ => panic!("expected the result"),
    }
    match m.click(true) {
        EClick::END(a, b) => assert_eq!((a, b), ((3000.0, 1.0), (5000.0, 1.0))),
        _ => panic!("expected the result"),
    }
    assert!(m.stage() == Stage::NeedFirst);
    assert_eq!(m.f1(), None);
    assert_eq!(m.f2(), None);
}

#[test]
fn ordering_needs_both_values() {
    let mut m: TwoFreq<u32> = TwoFreq::new();
    m.f1_set(Some(7), String::new());
    m.f2_set(None, "no reply".to_string());
    m.order(true);
    assert_eq!(m.f1(), Some(7));
    assert_eq!(m.f2_error(), "no reply");
}
