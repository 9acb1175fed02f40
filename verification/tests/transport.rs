use soundcloud_stats::transport::{pair, Status};

#[test]
fn status_accepts_three_digit_codes_only() {
    assert!(Status::new(99).is_none());
    assert!(Status::new(0).is_none());
    assert!(Status::new(1000).is_none());
    assert!(Status::new(u16::MAX).is_none());
    assert_eq!(Status::new(100).unwrap().as_u16(), 100);
    assert_eq!(Status::new(999).unwrap().as_u16(), 999);
    assert_eq!(Status::new(401).unwrap().as_u16(), 401);
}

#[test]
fn status_success_is_the_two_hundreds() {
    assert!(!Status::new(199).unwrap().is_success());
    assert!(Status::new(200).unwrap().is_success());
    assert!(Status::new(204).unwrap().is_success());
    assert!(Status::new(299).unwrap().is_success());
    assert!(!Status::new(300).unwrap().is_success());
    assert!(!Status::new(401).unwrap().is_success());
    assert!(!Status::new(500).unwrap().is_success());
}

#[test]
fn status_is_described_with_its_reason_phrase() {
    assert_eq!(Status::new(200).unwrap().describe(), "200 OK");
    assert_eq!(Status::new(401).unwrap().describe(), "401 Unauthorized");
    assert_eq!(Status::new(404).unwrap().describe(), "404 Not Found");
    assert_eq!(Status::new(500).unwrap().describe(), "500 Internal Server Error");
}

#[test]
fn status_without_reason_phrase_gets_the_placeholder() {
    assert_eq!(Status::new(299).unwrap().describe(), "299 <unknown status code>");
    assert_eq!(Status::new(999).unwrap().describe(), "999 <unknown status code>");
}

#[test]
fn pair_copies_name_and_value() {
    let p = pair("Accept", "*/*");
    assert_eq!(p.name, "Accept");
    assert_eq!(p.value, "*/*");
}
