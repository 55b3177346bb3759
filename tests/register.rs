use dns_sd::error::{DNSError, DNSErrorKind, DNSServiceErrorType};
use dns_sd::service::DNSService;
use dns_sd::wire::{encode_txt, port_to_network_order, to_boundary_string};

fn decode(record: &[u8]) -> Vec<Vec<u8>> {
    let mut out = Vec::new();
    let mut i = 0;
    while i < record.len() {
        let n = record[i] as usize;
        out.push(record[i + 1..i + 1 + n].to_vec());
        i += 1 + n;
    }
    out
}

#[test]
fn encode_txt_empty_is_empty() {
    assert_eq!(encode_txt(&[]), Ok(vec![]));
}

#[test]
fn encode_txt_single_entry() {
    let r = encode_txt(&["path=/"]).unwrap();
    let mut expected = vec![6u8];
    expected.extend_from_slice(b"path=/");
    assert_eq!(r, expected);
}

#[test]
fn encode_txt_keeps_order() {
    let r = encode_txt(&["a=1", "", "bb=22"]).unwrap();
    assert_eq!(r, vec![3, b'a', b'=', b'1', 0, 5, b'b', b'b', b'=', b'2', b'2']);
}

#[test]
fn encode_txt_round_trip() {
    let entries = ["txtvers=1", "path=/index.html", "", "k", "ünïcode=✓"];
    let r = encode_txt(&entries).unwrap();
    let decoded = decode(&r);
    assert_eq!(decoded.len(), entries.len());
    for (d, e) in decoded.iter().zip(entries.iter()) {
        assert_eq!(d.as_slice(), e.as_bytes());
    }
}

#[test]
fn encode_txt_longest_entry() {
    let long = "x".repeat(255);
    let r = encode_txt(&[long.as_str()]).unwrap();
    assert_eq!(r.len(), 256);
    assert_eq!(r[0], 255);
}

#[test]
fn encode_txt_entry_too_long() {
    let long = "x".repeat(256);
    assert_eq!(
        encode_txt(&[long.as_str()]),
        Err(DNSError(DNSErrorKind::InvalidTxtEntry))
    );
}

#[test]
fn encode_txt_record_too_long() {
    let long = "y".repeat(255);
    let fits: Vec<&str> = (0..255).map(|_| long.as_str()).collect();
    assert_eq!(encode_txt(&fits).unwrap().len(), 255 * 256);
    let too_many: Vec<&str> = (0..257).map(|_| long.as_str()).collect();
    assert_eq!(
        encode_txt(&too_many),
        Err(DNSError(DNSErrorKind::InvalidTxtEntry))
    );
}

#[test]
fn boundary_string_is_null_terminated() {
    assert_eq!(to_boundary_string("_http._tcp").unwrap(), b"_http._tcp\0".to_vec());
    assert_eq!(to_boundary_string("").unwrap(), vec![0u8]);
}

#[test]
fn boundary_string_rejects_null() {
    assert_eq!(
        to_boundary_string("ab\0c"),
        Err(DNSError(DNSErrorKind::InvalidArgument))
    );
}

#[test]
fn port_in_network_order() {
    assert_eq!(port_to_network_order(8080), [0x1F, 0x90]);
    assert_eq!(port_to_network_order(80), [0x00, 0x50]);
    assert_eq!(port_to_network_order(0xFFFF), [0xFF, 0xFF]);
    assert_eq!(u16::from_be_bytes(port_to_network_order(8080)), 8080);
}

#[test]
fn absent_fields_cross_as_null() {
    let c = DNSService::prepare_register(None, "_http._tcp", None, None, 80, &[]).unwrap();
    assert!(c.name.is_none());
    assert!(c.domain.is_none());
    assert!(c.host.is_none());
    assert!(c.txt_record.is_none());
    assert_eq!(c.txt_len, 0);
    assert_eq!(c.regtype, b"_http._tcp\0".to_vec());
    assert_eq!(c.flags, 0);
    assert_eq!(c.interface_index, 0);
    assert_eq!(c.port, [0x00, 0x50]);
}

#[test]
fn present_fields_cross_as_strings() {
    let c = DNSService::prepare_register(
        Some("Box"),
        "_ipp._tcp",
        Some("local."),
        Some("printer.local."),
        631,
        &["rp=printers/a"],
    )
    .unwrap();
    assert_eq!(c.name, Some(b"Box\0".to_vec()));
    assert_eq!(c.domain, Some(b"local.\0".to_vec()));
    assert_eq!(c.host, Some(b"printer.local.\0".to_vec()));
    assert_eq!(c.port, [0x02, 0x77]);
    assert_eq!(c.txt_len, 14);
    assert_eq!(c.txt_record.unwrap()[0], 13);
}

#[test]
fn embedded_null_is_rejected() {
    let bad = Err(DNSError(DNSErrorKind::InvalidArgument));
    let r = DNSService::prepare_register(Some("a\0b"), "_http._tcp", None, None, 80, &[]);
    assert_eq!(r.map(|_| ()), bad);
    let r = DNSService::prepare_register(None, "_http\0._tcp", None, None, 80, &[]);
    assert_eq!(r.map(|_| ()), bad);
    let r = DNSService::prepare_register(None, "_http._tcp", Some("\0"), None, 80, &[]);
    assert_eq!(r.map(|_| ()), bad);
    let r = DNSService::prepare_register(None, "_http._tcp", None, Some("h\0"), 80, &[]);
    assert_eq!(r.map(|_| ()), bad);
}

#[test]
fn embedded_null_comes_before_txt_error() {
    let long = "z".repeat(300);
    let r = DNSService::prepare_register(Some("a\0"), "_http._tcp", None, None, 80, &[long.as_str()]);
    assert_eq!(r.map(|_| ()), Err(DNSError(DNSErrorKind::InvalidArgument)));
    let r = DNSService::prepare_register(Some("a"), "_http._tcp", None, None, 80, &[long.as_str()]);
    assert_eq!(r.map(|_| ()), Err(DNSError(DNSErrorKind::InvalidTxtEntry)));
}

#[test]
fn web_server_scenario() {
    let c = DNSService::prepare_register(Some("WebServer"), "_http._tcp", None, None, 80, &["path=/"])
        .unwrap();
    assert_eq!(c.name, Some(b"WebServer\0".to_vec()));
    let mut expected = vec![6u8];
    expected.extend_from_slice(b"path=/");
    assert_eq!(c.txt_len as usize, expected.len());
    assert_eq!(c.txt_record, Some(expected));
    let handle = DNSService::complete_register(0, 0x1234).unwrap();
    assert_eq!(handle.release(), 0x1234);
}

#[test]
fn failing_status_gives_no_handle() {
    let e = DNSService::complete_register(-65548, 7).unwrap_err();
    assert_eq!(e, DNSError(DNSErrorKind::Service(DNSServiceErrorType::NameConflict)));
    assert_eq!(e.kind(), DNSErrorKind::Service(DNSServiceErrorType::NameConflict));
    let e = DNSService::complete_register(-65563, 7).unwrap_err();
    assert_eq!(e.0, DNSErrorKind::Service(DNSServiceErrorType::ServiceNotRunning));
}

#[test]
fn unassigned_status_is_unknown() {
    for code in [-1, 5, -65546, -65569, i32::MIN] {
        let e = DNSService::complete_register(code, 7).unwrap_err();
        assert_eq!(e.0, DNSErrorKind::Service(DNSServiceErrorType::Unknown));
    }
}

#[test]
fn every_status_code_round_trips() {
    let mut seen = 0;
    for code in -65570..=1 {
        match DNSServiceErrorType::from_code(code) {
            Some(t) => {
                seen += 1;
                assert_eq!(t.code(), code);
                let r = DNSService::complete_register(code, 1);
                if code == 0 {
                    assert!(r.is_ok());
                } else {
                    assert_eq!(r.unwrap_err().0, DNSErrorKind::Service(t));
                }
            }
            None => assert!(code != 0 && !(-65568..=-65537).contains(&code) || code == -65546),
        }
    }
    assert_eq!(seen, 32);
    assert_eq!(DNSServiceErrorType::Timeout.code(), -65568);
    assert_eq!(DNSServiceErrorType::from_code(-65537), Some(DNSServiceErrorType::Unknown));
}

#[test]
fn error_description() {
    let e = DNSError(DNSErrorKind::InvalidArgument);
    assert_eq!(e.description(), "DNS-SD Error");
}

#[test]
fn error_message_names_the_status() {
    let e = DNSError(DNSErrorKind::Service(DNSServiceErrorType::NameConflict));
    assert_eq!(e.message(), "DNS-SD Error: NameConflict");
    let e = DNSError(DNSErrorKind::Service(DNSServiceErrorType::NATPortMappingDisabled));
    assert_eq!(e.message(), "DNS-SD Error: NATPortMappingDisabled");
    assert_eq!(
        DNSError(DNSErrorKind::InvalidArgument).message(),
        "DNS-SD Error: InvalidArgument"
    );
    assert_eq!(DNSServiceErrorType::Timeout.name(), "Timeout");
    assert_eq!(DNSErrorKind::InvalidTxtEntry.name(), "InvalidTxtEntry");
}
