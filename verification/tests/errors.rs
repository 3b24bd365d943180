use epics_ca::caerr::{
    CA_EXTRACT_MSG_NO, CA_EXTRACT_SEVERITY, CA_EXTRACT_SUCCESS, CA_INSERT_MSG_NO,
    CA_INSERT_SEVERITY, CA_INSERT_SUCCESS, CA_K_ERROR, CA_K_FATAL, CA_K_INFO, CA_K_SEVERE,
    CA_K_SUCCESS, CA_K_WARNING, DEFMSG, ECA_16KARRAYCLIENT, ECA_ALLOCMEM, ECA_BADCOUNT,
    ECA_BADTYPE, ECA_DISCONN, ECA_ISATTACHED, ECA_NORMAL, ECA_TIMEOUT, ECA_UNRESPTMO,
};
use epics_ca::error::{
    allocmem, badcount, badtype, disconn, isattached, n16karrayclient, result_from_raw, timeout,
    unresptmo, Error, ErrorKind, ErrorSeverity,
};

#[test]
fn status_codes_are_message_number_and_severity() {
    assert_eq!(DEFMSG(CA_K_SUCCESS, 0), ECA_NORMAL);
    assert_eq!(DEFMSG(CA_K_WARNING, 6), ECA_ALLOCMEM);
    assert_eq!(DEFMSG(CA_K_ERROR, 14), ECA_BADTYPE);
    assert_eq!(DEFMSG(CA_K_WARNING, 24), ECA_DISCONN);
    assert_eq!(DEFMSG(CA_K_WARNING, 60), ECA_UNRESPTMO);
}

#[test]
fn extract_and_insert() {
    assert_eq!(CA_EXTRACT_MSG_NO(ECA_BADTYPE), 14);
    assert_eq!(CA_EXTRACT_SEVERITY(ECA_BADTYPE), CA_K_ERROR);
    assert_eq!(CA_EXTRACT_SUCCESS(ECA_BADTYPE), 0);
    assert_eq!(CA_EXTRACT_SUCCESS(ECA_NORMAL), 1);
    assert_eq!(CA_EXTRACT_SEVERITY(ECA_NORMAL), CA_K_SUCCESS);
    assert_eq!(CA_INSERT_MSG_NO(14), 112);
    assert_eq!(CA_INSERT_MSG_NO(0x2001), 8);
    assert_eq!(CA_INSERT_SEVERITY(CA_K_FATAL), 6);
    assert_eq!(CA_INSERT_SEVERITY(9), 1);
    assert_eq!(CA_INSERT_SUCCESS(3), 1);
    assert_eq!(CA_EXTRACT_MSG_NO(0x10008), 1);
}

#[test]
fn success_codes_are_no_errors() {
    assert_eq!(Error::try_from_raw(ECA_NORMAL), None);
    assert_eq!(result_from_raw(ECA_NORMAL), Ok(()));
    assert_eq!(Error::try_from_raw(DEFMSG(CA_K_INFO, 42)), None);
}

#[test]
fn failure_codes_decode() {
    let e = Error::try_from_raw(ECA_BADTYPE).unwrap();
    assert_eq!(e.kind, ErrorKind::Badtype);
    assert_eq!(e.severity, ErrorSeverity::Error);
    assert_eq!(result_from_raw(ECA_DISCONN), Err(disconn()));
    let other = Error::try_from_raw(DEFMSG(CA_K_FATAL, 1000)).unwrap();
    assert_eq!(other.kind, ErrorKind::Other(1000));
    assert_eq!(other.severity, ErrorSeverity::Fatal);
}

#[test]
fn named_errors() {
    assert_eq!(badtype(), Error { kind: ErrorKind::Badtype, severity: ErrorSeverity::Error });
    assert_eq!(badcount(), Error { kind: ErrorKind::Badcount, severity: ErrorSeverity::Warning });
    assert_eq!(disconn(), Error { kind: ErrorKind::Disconn, severity: ErrorSeverity::Warning });
    assert_eq!(
        isattached(),
        Error { kind: ErrorKind::Isattached, severity: ErrorSeverity::Warning }
    );
    assert_eq!(allocmem().kind, ErrorKind::Allocmem);
    assert_eq!(timeout().kind, ErrorKind::Timeout);
    assert_eq!(timeout().severity, ErrorSeverity::Warning);
    assert_eq!(n16karrayclient().kind, ErrorKind::N16karrayclient);
    assert_eq!(unresptmo().kind, ErrorKind::Unresptmo);
    assert_eq!(badcount().into_raw(), ECA_BADCOUNT);
    assert_eq!(isattached().into_raw(), ECA_ISATTACHED);
    assert_eq!(n16karrayclient().into_raw(), ECA_16KARRAYCLIENT);
    assert_eq!(timeout().into_raw(), ECA_TIMEOUT);
}

#[test]
fn kinds_and_message_numbers() {
    for n in -5..100 {
        let kind = ErrorKind::from_raw_msg_no(n);
        assert_eq!(kind.to_raw_msg_no(), n);
    }
    assert_eq!(ErrorKind::from_raw_msg_no(53), ErrorKind::Isattached);
    assert_eq!(ErrorKind::from_raw_msg_no(7), ErrorKind::Other(7));
    assert_eq!(ErrorKind::Other(14).to_raw_msg_no(), 14);
}

#[test]
fn severities() {
    assert_eq!(ErrorSeverity::from_raw_severity(CA_K_WARNING), ErrorSeverity::Warning);
    assert_eq!(ErrorSeverity::from_raw_severity(CA_K_ERROR), ErrorSeverity::Error);
    assert_eq!(ErrorSeverity::from_raw_severity(CA_K_SEVERE), ErrorSeverity::Severe);
    assert_eq!(ErrorSeverity::from_raw_severity(CA_K_FATAL), ErrorSeverity::Fatal);
    assert_eq!(ErrorSeverity::from_raw_severity(CA_K_INFO), ErrorSeverity::Unknown(CA_K_INFO));
    for s in -3..10 {
        assert_eq!(ErrorSeverity::from_raw_severity(s).to_raw_severity(), s);
    }
}

#[test]
fn encode_after_decode_keeps_low_bits() {
    for code in [ECA_BADTYPE, ECA_DISCONN, 0x7fff_fffe, -2, 0x1_2346] {
        let e = Error::try_from_raw(code).unwrap();
        assert_eq!(e.into_raw(), code & 0xffff);
    }
}

#[test]
fn decode_after_encode_gives_error_back() {
    let e = Error { kind: ErrorKind::Noconvert, severity: ErrorSeverity::Severe };
    assert_eq!(Error::try_from_raw(e.into_raw()), Some(e));
    let e = Error { kind: ErrorKind::Other(4000), severity: ErrorSeverity::Warning };
    assert_eq!(Error::try_from_raw(e.into_raw()), Some(e));
}
