use genlib::state::{AppState, StatusType};

#[test]
fn error_at_an_instant_is_error_status_at_it() {
    let t = std::time::Instant::now();
    let mut a = AppState::new();
    let mut b = AppState::new();
    a.show_error_at("Fel", t);
    b.show_status_at("Fel", StatusType::Error, t);
    let ma = a.status_message.as_ref().unwrap();
    let mb = b.status_message.as_ref().unwrap();
    assert_eq!(ma.text, "Fel");
    assert_eq!(ma.text, mb.text);
    assert_eq!(ma.status_type, StatusType::Error);
    assert_eq!(ma.status_type, mb.status_type);
    assert_eq!(ma.created_at, t);
    assert_eq!(mb.created_at, t);
    assert_eq!(a.current_view, b.current_view);
}
