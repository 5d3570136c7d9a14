use clawops::triage::{classify_severity, Severity};

#[test]
fn test_severity_p1_data_loss() {
    assert_eq!(classify_severity(1, true), Severity::P1);
}

#[test]
fn test_severity_p1_many_users() {
    assert_eq!(classify_severity(51, false), Severity::P1);
    assert_eq!(classify_severity(100, false), Severity::P1);
}

#[test]
fn test_severity_p2() {
    assert_eq!(classify_severity(11, false), Severity::P2);
    assert_eq!(classify_severity(50, false), Severity::P2);
}

#[test]
fn test_severity_p3() {
    assert_eq!(classify_severity(1, false), Severity::P3);
    assert_eq!(classify_severity(10, false), Severity::P3);
}

#[test]
fn test_severity_p4() {
    assert_eq!(classify_severity(0, false), Severity::P4);
}

#[test]
fn test_severity_ordering() {
    assert!(Severity::P1 > Severity::P4);
    assert!(Severity::P2 > Severity::P3);
}

#[test]
fn test_severity_display() {
    assert_eq!(Severity::P1.to_string(), "P1");
    assert_eq!(Severity::P4.to_string(), "P4");
}

#[test]
fn severity_never_decreases_with_more_users() {
    let mut prev = classify_severity(0, false);
    for n in 1..200u32 {
        let s = classify_severity(n, false);
        assert!(s >= prev);
        prev = s;
    }
    assert_eq!(classify_severity(0, true), Severity::P1);
    assert_eq!(Severity::P2.to_string(), "P2");
    assert_eq!(Severity::P3.to_string(), "P3");
}
