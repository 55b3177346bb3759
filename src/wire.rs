use vstd::prelude::*;
use vstd::string::StringSliceAdditionalSpecFns;
use crate::error::{DNSError, DNSErrorKind};

verus! {

/// The TXT record of a sequence of entries: for each entry in order, its
/// length as one byte followed by its bytes.
pub open spec fn txt_record(entries: Seq<Seq<u8>>) -> Seq<u8>
    decreases entries.len(),
{
    if entries.len() == 0 {
        Seq::empty()
    } else {
        seq![entries[0].len() as u8] + entries[0] + txt_record(entries.drop_first())
    }
}

/// The entries of a TXT record, read from the front: a length byte, then
/// that many bytes, until the record ends (a length byte that runs past the
/// end stops the reading).
pub open spec fn decode_txt(record: Seq<u8>) -> Seq<Seq<u8>>
    decreases record.len(),
{
    if record.len() == 0 {
        Seq::empty()
    } else {
        let n = record[0] as int;
        if 1 + n > record.len() {
            Seq::empty()
        } else {
            seq![record.subrange(1, 1 + n)] + decode_txt(record.subrange(1 + n, record.len() as int))
        }
    }
}

/// The bytes of each TXT entry.
pub open spec fn entry_bytes(txt: Seq<&str>) -> Seq<Seq<u8>> {
    txt.map_values(|s: &str| s.spec_bytes())
}

/// Every entry fits its one-byte length prefix.
pub open spec fn entries_fit(entries: Seq<Seq<u8>>) -> bool {
    forall|i: int| 0 <= i < entries.len() ==> #[trigger] entries[i].len() <= 255
}

/// The entries can be sent: each fits its length byte, and the record fits
/// the 16-bit length field of the boundary.
pub open spec fn txt_encodable(entries: Seq<Seq<u8>>) -> bool {
    entries_fit(entries) && txt_record(entries).len() <= 65535
}

/// The record of two runs of entries is the record of the first followed by
/// the record of the second.
pub proof fn lemma_txt_record_concat(a: Seq<Seq<u8>>, b: Seq<Seq<u8>>)
    ensures
        txt_record(a + b) == txt_record(a) + txt_record(b),
    decreases a.len(),
{
    if a.len() == 0 {
        assert(a + b =~= b);
        assert(txt_record(a) + txt_record(b) =~= txt_record(b));
    } else {
        assert((a + b).drop_first() =~= a.drop_first() + b);
        lemma_txt_record_concat(a.drop_first(), b);
        assert(txt_record(a + b) =~= txt_record(a) + txt_record(b));
    }
}

/// Decoding the record of entries that each fit their length byte gives
/// back the entries, in order.
pub proof fn lemma_txt_round_trip(entries: Seq<Seq<u8>>)
    requires
        entries_fit(entries),
    ensures
        decode_txt(txt_record(entries)) == entries,
    decreases entries.len(),
{
    if entries.len() == 0 {
        assert(decode_txt(txt_record(entries)) =~= entries);
    } else {
        let e = entries[0];
        let rest = entries.drop_first();
        let record = txt_record(entries);
        assert(e.len() <= 255);
        assert(record[0] as int == e.len());
        assert(record.subrange(1, 1 + e.len() as int) =~= e);
        assert(record.subrange(1 + e.len() as int, record.len() as int) =~= txt_record(rest));
        assert(entries_fit(rest)) by {
            assert forall|i: int| 0 <= i < rest.len() implies #[trigger] rest[i].len() <= 255 by {
                assert(rest[i] == entries[i + 1]);
            }
        }
        lemma_txt_round_trip(rest);
        assert(decode_txt(record) =~= entries);
    }
}

/// Encodes TXT entries as one record: for each entry in order, its length as
/// one byte followed by its bytes. No entries give an empty record. Fails
/// with `InvalidTxtEntry` where an entry is longer than 255 bytes or the
/// record would be longer than 65535 bytes.
pub fn encode_txt(txt: &[&str]) -> (r: Result<Vec<u8>, DNSError>)
    ensures
        r matches Ok(v) ==> v@ == txt_record(entry_bytes(txt@)),
        r is Ok <==> txt_encodable(entry_bytes(txt@)),
        r matches Err(e) ==> e.0 == DNSErrorKind::InvalidTxtEntry,
{
    let ghost entries = entry_bytes(txt@);
    let mut out: Vec<u8> = Vec::new();
    let mut i: usize = 0;
    while i < txt.len()
        invariant
            0 <= i <= txt@.len(),
            entries == entry_bytes(txt@),
            entries.len() == txt@.len(),
            entries_fit(entries.take(i as int)),
            out@ == txt_record(entries.take(i as int)),
            out@.len() <= 65535,
        decreases txt@.len() - i,
    {
        let bytes: &[u8] = txt[i].as_bytes();
        proof {
            assert(entries[i as int] == bytes@);
            lemma_txt_record_concat(entries.take(i as int), seq![bytes@]);
            assert(entries.take(i as int) + seq![bytes@] =~= entries.take(i as int + 1));
            assert(entries.take(i as int) + entries.skip(i as int) =~= entries);
            lemma_txt_record_concat(entries.take(i as int), entries.skip(i as int));
        }
        if bytes.len() > 255 {
            assert(!entries_fit(entries));
            return Err(DNSError(DNSErrorKind::InvalidTxtEntry));
        }
        if out.len() + 1 + bytes.len() > 65535 {
            proof {
                let one = seq![bytes@];
                assert(txt_record(one.drop_first()) =~= Seq::<u8>::empty());
                assert(txt_record(one).len() == 1 + bytes@.len());
                assert(entries.skip(i as int) =~= one + entries.skip(i as int + 1));
                lemma_txt_record_concat(one, entries.skip(i as int + 1));
            }
            return Err(DNSError(DNSErrorKind::InvalidTxtEntry));
        }
        let ghost before = out@;
        out.push(bytes.len() as u8);
        let mut j: usize = 0;
        while j < bytes.len()
            invariant
                0 <= j <= bytes@.len(),
                bytes@.len() <= 255,
                out@ == before + seq![bytes@.len() as u8] + bytes@.take(j as int),
            decreases bytes@.len() - j,
        {
            out.push(bytes[j]);
            assert(bytes@.take(j as int + 1) =~= bytes@.take(j as int).push(bytes@[j as int]));
            j = j + 1;
        }
        proof {
            let one = seq![bytes@];
            assert(txt_record(one.drop_first()) =~= Seq::<u8>::empty());
            assert(txt_record(one) =~= seq![bytes@.len() as u8] + bytes@);
            assert(bytes@.take(j as int) =~= bytes@);
            assert(out@ =~= txt_record(entries.take(i as int)) + txt_record(one));
            assert forall|k: int| 0 <= k < i + 1 implies #[trigger] entries.take(i as int + 1)[k].len() <= 255 by {
                if k < i {
                    assert(entries.take(i as int + 1)[k] == entries.take(i as int)[k]);
                }
            }
        }
        i = i + 1;
    }
    proof {
        assert(entries.take(i as int) =~= entries);
    }
    Ok(out)
}

/// The string can cross the null-terminated boundary: it holds no null byte.
pub open spec fn boundary_safe(s: &str) -> bool {
    !s.spec_bytes().contains(0u8)
}

/// The null-terminated bytes that carry a string across the boundary.
pub open spec fn boundary_bytes(s: &str) -> Seq<u8> {
    s.spec_bytes().push(0u8)
}

/// The string's bytes followed by a terminating null byte. Fails with
/// `InvalidArgument` where the string itself holds a null byte.
pub fn to_boundary_string(s: &str) -> (r: Result<Vec<u8>, DNSError>)
    ensures
        r is Ok <==> boundary_safe(s),
        r matches Ok(v) ==> v@ == boundary_bytes(s),
        r matches Err(e) ==> e.0 == DNSErrorKind::InvalidArgument,
{
    let bytes: &[u8] = s.as_bytes();
    let mut out: Vec<u8> = Vec::new();
    let mut i: usize = 0;
    while i < bytes.len()
        invariant
            0 <= i <= bytes@.len(),
            bytes@ == s.spec_bytes(),
            out@ == bytes@.take(i as int),
            forall|k: int| 0 <= k < i ==> bytes@[k] != 0u8,
        decreases bytes@.len() - i,
    {
        if bytes[i] == 0u8 {
            assert(s.spec_bytes().contains(0u8)) by {
                assert(bytes@[i as int] == 0u8);
            }
            return Err(DNSError(DNSErrorKind::InvalidArgument));
        }
        out.push(bytes[i]);
        assert(bytes@.take(i as int + 1) =~= bytes@.take(i as int).push(bytes@[i as int]));
        i = i + 1;
    }
    out.push(0u8);
    assert(bytes@.take(i as int) =~= bytes@);
    Ok(out)
}

/// The two bytes of a port in network byte order: the high byte first.
pub fn port_to_network_order(port: u16) -> (r: [u8; 2])
    ensures
        r[0] as int == port as int / 256,
        r[1] as int == port as int % 256,
{
    [(port / 256) as u8, (port % 256) as u8]
}

} // verus!
