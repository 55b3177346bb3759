use vstd::prelude::*;
use crate::error::{is_status_code, DNSError, DNSErrorKind, DNSServiceErrorType};
use crate::wire::{
    boundary_bytes, boundary_safe, encode_txt, entry_bytes, port_to_network_order,
    to_boundary_string, txt_encodable, txt_record,
};

verus! {

/// The arguments of one register call to the daemon, in the form the
/// boundary takes them. Absent strings and an empty TXT record are `None`,
/// which crosses the boundary as a null pointer.
#[derive(Debug)]
pub struct RegisterCall {
    /// Registration flags; no flag is ever set.
    pub flags: u32,
    /// Interface index; zero means every interface.
    pub interface_index: u32,
    /// The service instance name, null-terminated.
    pub name: Option<Vec<u8>>,
    /// The service type, such as `_http._tcp`, null-terminated.
    pub regtype: Vec<u8>,
    /// The domain, null-terminated.
    pub domain: Option<Vec<u8>>,
    /// The host, null-terminated.
    pub host: Option<Vec<u8>>,
    /// The port, in network byte order.
    pub port: [u8; 2],
    /// The length of the TXT record.
    pub txt_len: u16,
    /// The TXT record, `None` where it is empty.
    pub txt_record: Option<Vec<u8>>,
}

/// An optional string can cross the boundary.
pub open spec fn optional_safe(s: Option<&str>) -> bool {
    match s {
        Some(s) => boundary_safe(s),
        None => true,
    }
}

/// An optional argument of the call carries the optional string: absent
/// stays absent, present becomes its null-terminated bytes.
pub open spec fn carries(s: Option<&str>, v: Option<Vec<u8>>) -> bool {
    match (s, v) {
        (None, None) => true,
        (Some(s), Some(v)) => v@ == boundary_bytes(s),
        _ => false,
    }
}

/// Every string argument of a registration can cross the boundary.
pub open spec fn arguments_safe(
    name: Option<&str>,
    regtype: &str,
    domain: Option<&str>,
    host: Option<&str>,
) -> bool {
    optional_safe(name) && boundary_safe(regtype) && optional_safe(domain) && optional_safe(host)
}

/// The call is the one that registers these arguments.
pub open spec fn is_register_call(
    c: RegisterCall,
    name: Option<&str>,
    regtype: &str,
    domain: Option<&str>,
    host: Option<&str>,
    port: u16,
    txt: Seq<&str>,
) -> bool {
    let record = txt_record(entry_bytes(txt));
    &&& c.flags == 0
    &&& c.interface_index == 0
    &&& carries(name, c.name)
    &&& c.regtype@ == boundary_bytes(regtype)
    &&& carries(domain, c.domain)
    &&& carries(host, c.host)
    &&& c.port[0] as int == port as int / 256
    &&& c.port[1] as int == port as int % 256
    &&& c.txt_len as int == record.len()
    &&& (record.len() == 0 ==> c.txt_record is None)
    &&& (record.len() != 0 ==> (c.txt_record matches Some(v) && v@ == record))
}

fn optional_boundary_string(s: Option<&str>) -> (r: Result<Option<Vec<u8>>, DNSError>)
    ensures
        r is Ok <==> optional_safe(s),
        r matches Ok(v) ==> carries(s, v),
        r matches Err(e) ==> e.0 == DNSErrorKind::InvalidArgument,
{
    match s {
        None => Ok(None),
        Some(s) => match to_boundary_string(s) {
            Ok(v) => Ok(Some(v)),
            Err(e) => Err(e),
        },
    }
}

/// With no TXT entries the record is empty, and the register call carries
/// no TXT buffer at all (a null pointer, not an empty allocation) and a
/// TXT length of zero.
pub proof fn lemma_no_entries_no_record(
    c: RegisterCall,
    name: Option<&str>,
    regtype: &str,
    domain: Option<&str>,
    host: Option<&str>,
    port: u16,
)
    requires
        is_register_call(c, name, regtype, domain, host, port, Seq::empty()),
    ensures
        txt_record(entry_bytes(Seq::empty())).len() == 0,
        txt_encodable(entry_bytes(Seq::empty())),
        c.txt_record is None,
        c.txt_len == 0,
{
    assert(entry_bytes(Seq::empty()) =~= Seq::<Seq<u8>>::empty());
}

/// A live registration with the daemon. It holds the daemon's reference to
/// the registration, which must be released exactly once: the handle is
/// neither `Copy` nor `Clone`, and `release` consumes it.
#[derive(Debug)]
pub struct DNSService {
    sd_ref: usize,
}

impl DNSService {
    /// The daemon's reference to the registration.
    pub closed spec fn spec_ref(&self) -> usize {
        self.sd_ref
    }

    /// Builds the register call for a registration. Fails with
    /// `InvalidArgument` where a string argument holds a null byte, else
    /// with `InvalidTxtEntry` where the TXT entries cannot be encoded.
    pub fn prepare_register(
        name: Option<&str>,
        regtype: &str,
        domain: Option<&str>,
        host: Option<&str>,
        port: u16,
        txt: &[&str],
    ) -> (r: Result<RegisterCall, DNSError>)
        ensures
            r is Ok <==> arguments_safe(name, regtype, domain, host) && txt_encodable(
                entry_bytes(txt@),
            ),
            r matches Ok(c) ==> is_register_call(c, name, regtype, domain, host, port, txt@),
            !arguments_safe(name, regtype, domain, host) ==> (r matches Err(e) && e.0
                == DNSErrorKind::InvalidArgument),
            arguments_safe(name, regtype, domain, host) && !txt_encodable(entry_bytes(txt@)) ==> (
            r matches Err(e) && e.0 == DNSErrorKind::InvalidTxtEntry),
    {
        let name = match optional_boundary_string(name) {
            Ok(v) => v,
            Err(e) => return Err(e),
        };
        let regtype = match to_boundary_string(regtype) {
            Ok(v) => v,
            Err(e) => return Err(e),
        };
        let domain = match optional_boundary_string(domain) {
            Ok(v) => v,
            Err(e) => return Err(e),
        };
        let host = match optional_boundary_string(host) {
            Ok(v) => v,
            Err(e) => return Err(e),
        };
        let record = match encode_txt(txt) {
            Ok(v) => v,
            Err(e) => return Err(e),
        };
        let txt_len = record.len() as u16;
        let txt_record = if record.len() == 0 {
            None
        } else {
            Some(record)
        };
        Ok(
            RegisterCall {
                flags: 0,
                interface_index: 0,
                name,
                regtype,
                domain,
                host,
                port: port_to_network_order(port),
                txt_len,
                txt_record,
            },
        )
    }

    /// Takes the daemon's answer to a register call: its status code, and
    /// the reference it filled in. Status zero gives the handle that owns
    /// the reference. Any other status gives the error for that status
    /// (`Unknown` for a code that names none), and the reference is not
    /// taken.
    pub fn complete_register(status: i32, sd_ref: usize) -> (r: Result<DNSService, DNSError>)
        ensures
            r is Ok <==> status == 0,
            r matches Ok(h) ==> h.spec_ref() == sd_ref,
            r matches Err(e) ==> (e.0 matches DNSErrorKind::Service(t) && t
                != DNSServiceErrorType::NoError && (is_status_code(status as int) ==> t.spec_code()
                == status as int) && (!is_status_code(status as int) ==> t
                == DNSServiceErrorType::Unknown)),
    {
        if status == 0 {
            Ok(DNSService { sd_ref })
        } else {
            match DNSServiceErrorType::from_code(status) {
                Some(t) => Err(DNSError(DNSErrorKind::Service(t))),
                None => Err(DNSError(DNSErrorKind::Service(DNSServiceErrorType::Unknown))),
            }
        }
    }

    /// Ends the registration's ownership and hands back the daemon's
    /// reference, which the caller deallocates at the daemon. Taking the
    /// handle by value makes a second release of it impossible.
    pub fn release(self) -> (r: usize)
        ensures
            r == self.spec_ref(),
    {
        self.sd_ref
    }
}

} // verus!
