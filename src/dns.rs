//! Aggregation of the answers to a domain's DNS queries into one result.
//! A query that failed counts as one that found nothing.
use vstd::prelude::*;
use vstd::string::*;
use crate::text::{decimal, decimal_text};

verus! {

/// Seconds allowed for each attempt of each query.
pub const QUERY_TIMEOUT_SECS: u64 = 5;

/// Attempts made for each query.
pub const QUERY_ATTEMPTS: usize = 2;

/// The address family of a resolved address.
#[derive(Debug, Clone, Copy, PartialEq, Eq, Structural)]
pub enum AddressFamily {
    V4,
    V6,
}

/// One address of an address lookup, with its textual form.
#[derive(Debug, Clone)]
pub struct AddressRecord {
    pub family: AddressFamily,
    pub text: String,
}

/// One mail exchanger record.
#[derive(Debug, Clone)]
pub struct MxRecord {
    pub preference: u16,
    pub exchange: String,
}

/// One TXT record: its character-strings, in order.
#[derive(Debug, Clone)]
pub struct TxtRecord {
    pub chunks: Vec<Vec<u8>>,
}

/// The records found for a domain, one list per record type.
#[derive(Debug, Clone)]
pub struct DnsResult {
    pub a_records: Vec<String>,
    pub aaaa_records: Vec<String>,
    pub ns_records: Vec<String>,
    pub mx_records: Vec<String>,
    pub txt_records: Vec<String>,
}

/// What `String::from_utf8_lossy` makes of a byte sequence.
pub uninterp spec fn utf8_lossy(b: Seq<u8>) -> Seq<char>;

/// Relies on `String::from_utf8_lossy`: the text of the bytes, with each
/// invalid sequence replaced; it depends on the bytes alone.
#[verifier::external_body]
fn decode_lossy(b: &[u8]) -> (r: String)
    ensures
        r@ == utf8_lossy(b@),
        b@.len() == 0 ==> r@.len() == 0,
{
    String::from_utf8_lossy(b).into_owned()
}

/// The views of a list of strings.
pub open spec fn texts(v: Seq<String>) -> Seq<Seq<char>> {
    v.map_values(|s: String| s@)
}

/// The texts of the addresses of one family, in the order given.
pub open spec fn texts_of_family(rs: Seq<AddressRecord>, f: AddressFamily) -> Seq<Seq<char>>
    decreases rs.len(),
{
    if rs.len() == 0 {
        Seq::empty()
    } else {
        let rest = texts_of_family(rs.drop_last(), f);
        if rs.last().family == f {
            rest.push(rs.last().text@)
        } else {
            rest
        }
    }
}

/// An MX record as text: the preference, a space, the exchange host.
pub open spec fn mx_text(preference: u16, exchange: Seq<char>) -> Seq<char> {
    decimal(preference as nat) + seq![' '] + exchange
}

/// `out` holds the text of each MX record of `rs`, in order.
pub open spec fn mx_formatted(out: Seq<String>, rs: Seq<MxRecord>) -> bool {
    &&& out.len() == rs.len()
    &&& forall|i: int|
        0 <= i < out.len() ==> #[trigger] out[i]@ == mx_text(rs[i].preference, rs[i].exchange@)
}

/// The TXT entries: the first chunk of each record, decoded; records with no
/// chunk give nothing.
pub open spec fn txt_texts(rs: Seq<TxtRecord>) -> Seq<Seq<char>>
    decreases rs.len(),
{
    if rs.len() == 0 {
        Seq::empty()
    } else {
        let rest = txt_texts(rs.drop_last());
        let chunks = rs.last().chunks@;
        if chunks.len() > 0 {
            rest.push(utf8_lossy(chunks[0]@))
        } else {
            rest
        }
    }
}

/// Formats one MX record.
pub fn format_mx(preference: u16, exchange: &str) -> (r: String)
    ensures
        r@ == mx_text(preference, exchange@),
{
    let s = decimal_text(preference as u64);
    let s = s.concat(" ");
    proof {
        reveal_strlit(" ");
    }
    let r = s.concat(exchange);
    assert(r@ =~= mx_text(preference, exchange@));
    r
}

/// The texts of the addresses of `family`, keeping their order.
pub fn addresses_of_family(records: &Vec<AddressRecord>, family: AddressFamily) -> (r: Vec<String>)
    ensures
        texts(r@) == texts_of_family(records@, family),
{
    let mut out: Vec<String> = Vec::new();
    let mut i: usize = 0;
    while i < records.len()
        invariant
            i <= records@.len(),
            texts(out@) == texts_of_family(records@.subrange(0, i as int), family),
        decreases records.len() - i,
    {
        let rec = &records[i];
        proof {
            assert(records@.subrange(0, i + 1).drop_last() =~= records@.subrange(0, i as int));
        }
        if rec.family == family {
            out.push(rec.text.clone());
            assert(texts(out@) =~= texts_of_family(records@.subrange(0, i + 1), family));
        }
        i = i + 1;
    }
    assert(records@.subrange(0, records@.len() as int) =~= records@);
    out
}

/// One text per MX record, in order.
pub fn mx_texts(records: &Vec<MxRecord>) -> (r: Vec<String>)
    ensures
        mx_formatted(r@, records@),
{
    let mut out: Vec<String> = Vec::new();
    let mut i: usize = 0;
    while i < records.len()
        invariant
            i <= records@.len(),
            out@.len() == i,
            forall|j: int|
                0 <= j < i ==> #[trigger] out@[j]@ == mx_text(
                    records@[j].preference,
                    records@[j].exchange@,
                ),
        decreases records.len() - i,
    {
        let rec = &records[i];
        out.push(format_mx(rec.preference, rec.exchange.as_str()));
        i = i + 1;
    }
    out
}

/// One text per TXT record that has a chunk: its first chunk, decoded.
pub fn txt_entries(records: &Vec<TxtRecord>) -> (r: Vec<String>)
    ensures
        texts(r@) == txt_texts(records@),
{
    let mut out: Vec<String> = Vec::new();
    let mut i: usize = 0;
    while i < records.len()
        invariant
            i <= records@.len(),
            texts(out@) == txt_texts(records@.subrange(0, i as int)),
        decreases records.len() - i,
    {
        let rec = &records[i];
        proof {
            assert(records@.subrange(0, i + 1).drop_last() =~= records@.subrange(0, i as int));
        }
        if rec.chunks.len() > 0 {
            let t = decode_lossy(rec.chunks[0].as_slice());
            out.push(t);
            assert(texts(out@) =~= txt_texts(records@.subrange(0, i + 1)));
        }
        i = i + 1;
    }
    assert(records@.subrange(0, records@.len() as int) =~= records@);
    out
}

impl DnsResult {
    /// A result with all five lists empty.
    pub fn empty() -> (r: DnsResult)
        ensures
            r.a_records@.len() == 0,
            r.aaaa_records@.len() == 0,
            r.ns_records@.len() == 0,
            r.mx_records@.len() == 0,
            r.txt_records@.len() == 0,
    {
        DnsResult {
            a_records: Vec::new(),
            aaaa_records: Vec::new(),
            ns_records: Vec::new(),
            mx_records: Vec::new(),
            txt_records: Vec::new(),
        }
    }

    /// Merges the answers of the address, NS, MX and TXT queries; `None` is a
    /// query that failed or found nothing, and leaves its lists empty. The
    /// merge itself never fails.
    pub fn from_lookups(
        addresses: Option<Vec<AddressRecord>>,
        name_servers: Option<Vec<String>>,
        mail_exchangers: Option<Vec<MxRecord>>,
        txt: Option<Vec<TxtRecord>>,
    ) -> (r: DnsResult)
        ensures
            texts(r.a_records@) == match addresses {
                Some(a) => texts_of_family(a@, AddressFamily::V4),
                None => Seq::empty(),
            },
            texts(r.aaaa_records@) == match addresses {
                Some(a) => texts_of_family(a@, AddressFamily::V6),
                None => Seq::empty(),
            },
            texts(r.ns_records@) == match name_servers {
                Some(n) => texts(n@),
                None => Seq::empty(),
            },
            mx_formatted(
                r.mx_records@,
                match mail_exchangers {
                    Some(m) => m@,
                    None => Seq::empty(),
                },
            ),
            texts(r.txt_records@) == match txt {
                Some(t) => txt_texts(t@),
                None => Seq::empty(),
            },
    {
        let mut result = DnsResult::empty();
        assert(texts(result.a_records@) =~= Seq::empty());
        assert(texts(result.aaaa_records@) =~= Seq::empty());
        assert(texts(result.ns_records@) =~= Seq::empty());
        assert(texts(result.txt_records@) =~= Seq::empty());
        if let Some(a) = &addresses {
            result.a_records = addresses_of_family(a, AddressFamily::V4);
            result.aaaa_records = addresses_of_family(a, AddressFamily::V6);
        }
        if let Some(n) = name_servers {
            result.ns_records = n;
        }
        if let Some(m) = &mail_exchangers {
            result.mx_records = mx_texts(m);
        }
        if let Some(t) = &txt {
            result.txt_records = txt_entries(t);
        }
        result
    }
}

} // verus!
