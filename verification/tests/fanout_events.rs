use scanner::fanout::Broadcaster;
use scanner::{CodeType, ScanEvent, ScanResult};

fn event(code: &str) -> ScanEvent {
    ScanEvent::of_result(&ScanResult { code: String::from(code), code_type: CodeType::QrCode })
}

#[test]
fn fanout_delivers_to_every_subscriber_once_in_order() {
    let mut bc = Broadcaster::new(16);
    let mut subs = vec![bc.subscribe(), bc.subscribe(), bc.subscribe()];
    bc.publish(event("E"));
    bc.publish(event("F"));
    for sub in subs.iter_mut() {
        let first = bc.recv(sub).expect("E pending");
        assert_eq!(first.code, "E");
        let second = bc.recv(sub).expect("F pending");
        assert_eq!(second.code, "F");
        assert!(bc.recv(sub).is_none());
    }
}

#[test]
fn late_subscriber_never_sees_earlier_events() {
    let mut bc = Broadcaster::new(16);
    bc.publish(event("E"));
    let mut sub = bc.subscribe();
    assert!(bc.recv(&mut sub).is_none());
    bc.publish(event("F"));
    let got = bc.recv(&mut sub).expect("F pending");
    assert_eq!(got.code, "F");
    assert!(bc.recv(&mut sub).is_none());
}

#[test]
fn saturated_subscriber_skips_to_newest_window() {
    let mut bc = Broadcaster::new(2);
    let mut sub = bc.subscribe();
    bc.publish(event("e1"));
    bc.publish(event("e2"));
    // backlog saturated; two more events overflow it, publishing freely
    bc.publish(event("e3"));
    bc.publish(event("e4"));
    let got = bc.recv(&mut sub).expect("newest window pending");
    assert_eq!(got.code, "e3");
    let got = bc.recv(&mut sub).expect("newest event pending");
    assert_eq!(got.code, "e4");
    assert!(bc.recv(&mut sub).is_none());
}

#[test]
fn publishing_without_subscribers_discards_quietly() {
    let mut bc = Broadcaster::new(4);
    bc.publish(event("lost"));
    let mut sub = bc.subscribe();
    assert!(bc.recv(&mut sub).is_none());
}

#[test]
fn subscribers_do_not_disturb_each_other() {
    let mut bc = Broadcaster::new(4);
    let mut fast = bc.subscribe();
    let mut slow = bc.subscribe();
    bc.publish(event("x"));
    assert_eq!(bc.recv(&mut fast).expect("pending").code, "x");
    assert!(bc.recv(&mut fast).is_none());
    assert_eq!(bc.recv(&mut slow).expect("still pending").code, "x");
}

#[test]
fn event_carries_label_and_code() {
    let qr = ScanEvent::of_result(&ScanResult {
        code: String::from("hello"),
        code_type: CodeType::QrCode,
    });
    assert_eq!(qr.type_label, "QR");
    assert_eq!(qr.code, "hello");
    let bar = ScanEvent::of_result(&ScanResult {
        code: String::from("4006381333931"),
        code_type: CodeType::Barcode,
    });
    assert_eq!(bar.type_label, "BARCODE");
    assert_eq!(bar.code, "4006381333931");
}

#[test]
fn code_type_labels_are_fixed() {
    assert_eq!(CodeType::QrCode.label(), "QR");
    assert_eq!(CodeType::Barcode.label(), "BARCODE");
}
