//! IPP 1.1 binary codec (RFC 8010) for Print-Job (0x0002) and
//! Get-Job-Attributes (0x0009) requests and for responses.
use vstd::prelude::*;
use vstd::utf8::*;
use vstd::string::*;

use crate::text::{dec, push_dec, push_str};

verus! {

pub const IPP_VERSION_MAJOR: u8 = 1;
pub const IPP_VERSION_MINOR: u8 = 1;

/// Operation id of Print-Job.
pub const PRINT_JOB: u16 = 0x0002;
/// Operation id of Get-Job-Attributes.
pub const GET_JOB_ATTRIBUTES: u16 = 0x0009;

pub const OPERATION_ATTRIBUTES_TAG: u8 = 0x01;
pub const JOB_ATTRIBUTES_TAG: u8 = 0x02;
pub const END_OF_ATTRIBUTES_TAG: u8 = 0x03;

pub const CHARSET_TAG: u8 = 0x47;
pub const NATURAL_LANGUAGE_TAG: u8 = 0x48;
pub const URI_TAG: u8 = 0x45;
pub const MIME_MEDIA_TYPE_TAG: u8 = 0x49;
pub const NAME_WITHOUT_LANGUAGE_TAG: u8 = 0x42;
pub const INTEGER_TAG: u8 = 0x21;
pub const ENUM_TAG: u8 = 0x23;

// ---------------------------------------------------------------------------
// Wire format
// ---------------------------------------------------------------------------

/// Big-endian two-byte encoding of `n`.
pub open spec fn be16(n: u16) -> Seq<u8> {
    seq![(n / 256) as u8, (n % 256) as u8]
}

/// Big-endian four-byte encoding of `n`.
pub open spec fn be32(n: u32) -> Seq<u8> {
    seq![(n / 0x100_0000) as u8, ((n / 0x1_0000) % 256) as u8, ((n / 256) % 256) as u8, (n % 256) as u8]
}

/// Two's-complement four-byte encoding of `v`, big-endian.
pub open spec fn be32_signed(v: i32) -> Seq<u8> {
    be32((if v < 0 { v + 0x1_0000_0000 } else { v as int }) as u32)
}

/// Value of the big-endian two-byte field at `p`.
pub open spec fn u16_at(d: Seq<u8>, p: int) -> nat {
    (d[p] * 256 + d[p + 1]) as nat
}

/// Value of the big-endian four-byte field at `p`.
pub open spec fn u32_at(d: Seq<u8>, p: int) -> nat {
    (d[p] * 0x100_0000 + d[p + 1] * 0x1_0000 + d[p + 2] * 256 + d[p + 3]) as nat
}

/// The length field written for a name or value: its length modulo 2^16
/// (the field is two bytes wide).
pub open spec fn len16(n: nat) -> u16 {
    (n % 0x1_0000) as u16
}

/// One attribute on the wire: value tag, name length, name, value length, value.
pub open spec fn attr_bytes(tag: u8, name: Seq<char>, value: Seq<u8>) -> Seq<u8> {
    seq![tag] + be16(len16(encode_utf8(name).len())) + encode_utf8(name) + be16(len16(value.len()))
        + value
}

/// The eight-byte header: version 1.1, operation (or status) code, request id.
pub open spec fn header_bytes(code: u16, request_id: u32) -> Seq<u8> {
    seq![IPP_VERSION_MAJOR, IPP_VERSION_MINOR] + be16(code) + be32(request_id)
}

/// Operation attributes shared by both requests: charset, natural language, printer URI.
pub open spec fn operation_prefix(code: u16, request_id: u32, printer_uri: Seq<char>) -> Seq<u8> {
    header_bytes(code, request_id) + seq![OPERATION_ATTRIBUTES_TAG] + attr_bytes(
        CHARSET_TAG,
        "attributes-charset"@,
        encode_utf8("utf-8"@),
    ) + attr_bytes(NATURAL_LANGUAGE_TAG, "attributes-natural-language"@, encode_utf8("en-us"@))
        + attr_bytes(URI_TAG, "printer-uri"@, encode_utf8(printer_uri))
}

/// The copy count a Print-Job request asks for: at least one.
pub open spec fn effective_copies(copies: u32) -> u32 {
    if copies == 0 {
        1
    } else {
        copies
    }
}

/// The Print-Job request header (the document data follows it).
pub open spec fn print_job_request(
    printer_uri: Seq<char>,
    document_format: Seq<char>,
    job_name: Seq<char>,
    request_id: u32,
    copies: u32,
) -> Seq<u8> {
    operation_prefix(PRINT_JOB, request_id, printer_uri) + attr_bytes(
        MIME_MEDIA_TYPE_TAG,
        "document-format"@,
        encode_utf8(document_format),
    ) + attr_bytes(NAME_WITHOUT_LANGUAGE_TAG, "job-name"@, encode_utf8(job_name)) + (if effective_copies(
        copies,
    ) > 1 {
        seq![JOB_ATTRIBUTES_TAG] + attr_bytes(
            INTEGER_TAG,
            "copies"@,
            be32_signed(effective_copies(copies) as i32),
        )
    } else {
        Seq::<u8>::empty()
    }) + seq![END_OF_ATTRIBUTES_TAG]
}

/// The Get-Job-Attributes request.
pub open spec fn get_job_attributes_request(printer_uri: Seq<char>, job_id: i32, request_id: u32) -> Seq<
    u8,
> {
    operation_prefix(GET_JOB_ATTRIBUTES, request_id, printer_uri) + attr_bytes(
        INTEGER_TAG,
        "job-id"@,
        be32_signed(job_id),
    ) + seq![END_OF_ATTRIBUTES_TAG]
}

// ---------------------------------------------------------------------------
// Encoding
// ---------------------------------------------------------------------------

fn push_u16(buf: &mut Vec<u8>, n: u16)
    ensures
        final(buf)@ == old(buf)@ + be16(n),
{
    buf.push((n / 256) as u8);
    buf.push((n % 256) as u8);
    assert(buf@ =~= old(buf)@ + be16(n));
}

fn push_u32(buf: &mut Vec<u8>, n: u32)
    ensures
        final(buf)@ == old(buf)@ + be32(n),
{
    buf.push((n / 0x100_0000) as u8);
    buf.push(((n / 0x1_0000) % 256) as u8);
    buf.push(((n / 256) % 256) as u8);
    buf.push((n % 256) as u8);
    assert(buf@ =~= old(buf)@ + be32(n));
}

pub(crate) fn push_bytes(buf: &mut Vec<u8>, b: &[u8])
    ensures
        final(buf)@ == old(buf)@ + b@,
{
    let mut i: usize = 0;
    while i < b.len()
        invariant
            i <= b@.len(),
            buf@ == old(buf)@ + b@.take(i as int),
        decreases b@.len() - i,
    {
        buf.push(b[i]);
        i = i + 1;
        assert(buf@ =~= old(buf)@ + b@.take(i as int));
    }
    assert(b@.take(b@.len() as int) =~= b@);
}

fn truncate16(n: usize) -> (r: u16)
    ensures
        r == len16(n as nat),
{
    (n % 0x1_0000) as u16
}

/// Writes one attribute into `buf`: value tag (1 byte), name length
/// (2 bytes, big-endian), name, value length (2 bytes, big-endian), value.
/// A length field holds the length modulo 2^16.
pub fn write_attribute(buf: &mut Vec<u8>, tag: u8, name: &str, value_bytes: &[u8])
    ensures
        final(buf)@ == old(buf)@ + attr_bytes(tag, name@, value_bytes@),
{
    buf.push(tag);
    let name_bytes = name.as_bytes();
    push_u16(buf, truncate16(name_bytes.len()));
    push_bytes(buf, name_bytes);
    push_u16(buf, truncate16(value_bytes.len()));
    push_bytes(buf, value_bytes);
    assert(buf@ =~= old(buf)@ + attr_bytes(tag, name@, value_bytes@));
}

/// `i32::to_be_bytes`.
pub fn i32_be_bytes(v: i32) -> (r: [u8; 4])
    ensures
        r@ == be32_signed(v),
{
    let u: u32 = if v < 0 {
        (v as i64 + 0x1_0000_0000i64) as u32
    } else {
        v as u32
    };
    [(u / 0x100_0000) as u8, ((u / 0x1_0000) % 256) as u8, ((u / 256) % 256) as u8, (u % 256) as u8]
}

/// Writes an integer attribute; the value is always four bytes, big-endian.
pub fn write_integer_attribute(buf: &mut Vec<u8>, tag: u8, name: &str, value: i32)
    ensures
        final(buf)@ == old(buf)@ + attr_bytes(tag, name@, be32_signed(value)),
{
    let bytes = i32_be_bytes(value);
    write_attribute(buf, tag, name, &bytes);
}

fn push_header(buf: &mut Vec<u8>, code: u16, request_id: u32)
    ensures
        final(buf)@ == old(buf)@ + header_bytes(code, request_id),
{
    buf.push(IPP_VERSION_MAJOR);
    buf.push(IPP_VERSION_MINOR);
    push_u16(buf, code);
    push_u32(buf, request_id);
    assert(buf@ =~= old(buf)@ + header_bytes(code, request_id));
}

pub(crate) fn push_operation_prefix(buf: &mut Vec<u8>, code: u16, request_id: u32, printer_uri: &str)
    ensures
        final(buf)@ == old(buf)@ + operation_prefix(code, request_id, printer_uri@),
{
    push_header(buf, code, request_id);
    buf.push(OPERATION_ATTRIBUTES_TAG);
    write_attribute(buf, CHARSET_TAG, "attributes-charset", "utf-8".as_bytes());
    write_attribute(buf, NATURAL_LANGUAGE_TAG, "attributes-natural-language", "en-us".as_bytes());
    write_attribute(buf, URI_TAG, "printer-uri", printer_uri.as_bytes());
    assert(buf@ =~= old(buf)@ + operation_prefix(code, request_id, printer_uri@));
}

/// Builds an IPP Print-Job request (operation 0x0002). `copies` is clamped
/// to at least one; above one it is sent as the `copies` Job-Template
/// attribute in a Job-Attributes group, otherwise that group is left out.
/// The caller appends the document data.
pub fn build_print_job_request(
    printer_uri: &str,
    document_format: &str,
    job_name: &str,
    request_id: u32,
    copies: u32,
) -> (r: Vec<u8>)
    ensures
        r@ == print_job_request(printer_uri@, document_format@, job_name@, request_id, copies),
{
    let mut buf: Vec<u8> = Vec::new();
    push_operation_prefix(&mut buf, PRINT_JOB, request_id, printer_uri);
    write_attribute(&mut buf, MIME_MEDIA_TYPE_TAG, "document-format", document_format.as_bytes());
    write_attribute(&mut buf, NAME_WITHOUT_LANGUAGE_TAG, "job-name", job_name.as_bytes());
    let ghost before = buf@;
    let effective: u32 = if copies == 0 { 1 } else { copies };
    if effective > 1 {
        buf.push(JOB_ATTRIBUTES_TAG);
        write_integer_attribute(&mut buf, INTEGER_TAG, "copies", effective as i32);
    }
    buf.push(END_OF_ATTRIBUTES_TAG);
    assert(buf@ =~= print_job_request(printer_uri@, document_format@, job_name@, request_id, copies));
    buf
}

/// Builds an IPP Get-Job-Attributes request (operation 0x0009).
pub fn build_get_job_attributes_request(printer_uri: &str, job_id: i32, request_id: u32) -> (r: Vec<u8>)
    ensures
        r@ == get_job_attributes_request(printer_uri@, job_id, request_id),
{
    let mut buf: Vec<u8> = Vec::new();
    push_operation_prefix(&mut buf, GET_JOB_ATTRIBUTES, request_id, printer_uri);
    write_integer_attribute(&mut buf, INTEGER_TAG, "job-id", job_id);
    buf.push(END_OF_ATTRIBUTES_TAG);
    assert(buf@ =~= get_job_attributes_request(printer_uri@, job_id, request_id));
    buf
}

} // verus!

verus! {

// ---------------------------------------------------------------------------
// Responses
// ---------------------------------------------------------------------------

/// An individual IPP attribute parsed from a response.
#[derive(Debug)]
pub struct IppAttribute {
    pub name: String,
    pub tag: u8,
    pub value: Vec<u8>,
}

/// An attribute as plain values: name, value tag, value bytes.
pub type AttrView = (Seq<char>, u8, Seq<u8>);

impl View for IppAttribute {
    type V = AttrView;

    open spec fn view(&self) -> AttrView {
        (self.name@, self.tag, self.value@)
    }
}

pub open spec fn attr_views(v: Seq<IppAttribute>) -> Seq<AttrView> {
    v.map_values(|a: IppAttribute| a@)
}

/// `std::str::from_utf8`: `Ok` exactly for valid UTF-8, holding the decoded
/// characters; the error carries std's description of the fault, of which
/// nothing is stated.
#[verifier::external_body]
fn utf8_str<'a>(bytes: &'a [u8]) -> (r: Result<&'a str, String>)
    ensures
        r is Ok <==> valid_utf8(bytes@),
        r matches Ok(s) ==> s@ == decode_utf8(bytes@),
{
    match std::str::from_utf8(bytes) {
        Ok(s) => Ok(s),
        Err(e) => Err(e.to_string()),
    }
}

/// The value read as UTF-8, when it is valid UTF-8.
pub open spec fn value_text(value: Seq<u8>) -> Option<Seq<char>> {
    if valid_utf8(value) {
        Some(decode_utf8(value))
    } else {
        None
    }
}

/// The value read as a big-endian two's-complement `i32`, when it has four bytes.
pub open spec fn value_i32(value: Seq<u8>) -> Option<int> {
    if value.len() == 4 {
        let u = u32_at(value, 0);
        Some(if u >= 0x8000_0000 { u - 0x1_0000_0000 } else { u as int })
    } else {
        None
    }
}

impl IppAttribute {
    /// The value as UTF-8 text, if it is valid UTF-8.
    pub fn as_str(&self) -> (r: Option<&str>)
        ensures
            match r {
                Some(s) => value_text(self.value@) == Some(s@),
                None => value_text(self.value@) is None,
            },
    {
        match utf8_str(self.value.as_slice()) {
            Ok(s) => Some(s),
            Err(_) => None,
        }
    }

    /// The value as a big-endian `i32`; it must be exactly four bytes.
    pub fn as_i32(&self) -> (r: Option<i32>)
        ensures
            match r {
                Some(v) => value_i32(self.value@) == Some(v as int),
                None => value_i32(self.value@) is None,
            },
    {
        if self.value.len() == 4 {
            let u: u64 = self.value[0] as u64 * 0x100_0000 + self.value[1] as u64 * 0x1_0000
                + self.value[2] as u64 * 256 + self.value[3] as u64;
            if u >= 0x8000_0000 {
                Some((u as i64 - 0x1_0000_0000i64) as i32)
            } else {
                Some(u as i32)
            }
        } else {
            None
        }
    }
}

/// A parsed IPP response.
#[derive(Debug)]
pub struct IppResponse {
    pub status_code: u16,
    pub request_id: u32,
    pub attributes: Vec<IppAttribute>,
}

/// Index of the first attribute named `name`, or the number of attributes.
pub open spec fn first_named(attrs: Seq<AttrView>, name: Seq<char>) -> nat
    decreases attrs.len(),
{
    if attrs.len() == 0 {
        0
    } else if attrs[0].0 == name {
        0
    } else {
        1 + first_named(attrs.drop_first(), name)
    }
}

proof fn lemma_first_named(attrs: Seq<AttrView>, name: Seq<char>, k: int)
    requires
        0 <= k <= attrs.len(),
        forall|j: int| 0 <= j < k ==> attrs[j].0 != name,
        k < attrs.len() ==> attrs[k].0 == name,
    ensures
        first_named(attrs, name) == k,
    decreases attrs.len(),
{
    if attrs.len() > 0 && attrs[0].0 != name {
        assert forall|j: int| 0 <= j < k - 1 implies attrs.drop_first()[j].0 != name by {
            assert(attrs.drop_first()[j] == attrs[j + 1]);
        }
        if k - 1 < attrs.drop_first().len() {
            assert(attrs.drop_first()[k - 1] == attrs[k]);
        }
        lemma_first_named(attrs.drop_first(), name, k - 1);
    }
}

impl IppResponse {
    pub open spec fn attrs(&self) -> Seq<AttrView> {
        attr_views(self.attributes@)
    }

    /// The first attribute with the given name, if any.
    pub fn get(&self, name: &str) -> (r: Option<&IppAttribute>)
        ensures
            match r {
                Some(a) => first_named(self.attrs(), name@) < self.attributes@.len() && *a
                    == self.attributes@[first_named(self.attrs(), name@) as int],
                None => first_named(self.attrs(), name@) == self.attributes@.len(),
            },
    {
        let target: String = name.to_owned();
        let mut i: usize = 0;
        while i < self.attributes.len()
            invariant
                i <= self.attributes@.len(),
                target@ == name@,
                forall|j: int| 0 <= j < i ==> self.attrs()[j].0 != name@,
            decreases self.attributes@.len() - i,
        {
            if self.attributes[i].name == target {
                proof {
                    lemma_first_named(self.attrs(), name@, i as int);
                }
                return Some(&self.attributes[i]);
            }
            i = i + 1;
        }
        proof {
            lemma_first_named(self.attrs(), name@, i as int);
        }
        None
    }

    /// True when the status code is in the success range 0x0000–0x00FF.
    pub fn is_success(&self) -> (r: bool)
        ensures
            r == (self.status_code <= 0x00FF),
    {
        self.status_code <= 0x00FF
    }
}

// ---------------------------------------------------------------------------
// Response grammar
// ---------------------------------------------------------------------------

/// Where a response fails to parse.
#[derive(Debug)]
pub enum Fault {
    TooShort,
    TruncatedAtNameLength,
    TruncatedAtName,
    InvalidName,
    TruncatedAtValueLength,
    TruncatedAtValue,
}

/// The value part of an attribute whose name is known, starting at the
/// value-length field at `p`: the attribute and the position after it.
pub open spec fn parse_value(d: Seq<u8>, p: int, tag: u8, name: Seq<char>) -> Result<
    (AttrView, int),
    Fault,
> {
    if p + 2 > d.len() {
        Err(Fault::TruncatedAtValueLength)
    } else {
        let vl = u16_at(d, p);
        if p + 2 + vl > d.len() {
            Err(Fault::TruncatedAtValue)
        } else {
            Ok(((name, tag, d.subrange(p + 2, p + 2 + vl)), p + 2 + vl))
        }
    }
}

/// One value attribute with tag `tag` whose name-length field is at `p`.
/// A zero name length marks an additional value of the previous attribute,
/// which takes over its name.
pub open spec fn parse_attr(d: Seq<u8>, p: int, tag: u8, last: Seq<char>) -> Result<(AttrView, int), Fault> {
    if p + 2 > d.len() {
        Err(Fault::TruncatedAtNameLength)
    } else {
        let nl = u16_at(d, p);
        if nl == 0 {
            parse_value(d, p + 2, tag, last)
        } else if p + 2 + nl > d.len() {
            Err(Fault::TruncatedAtName)
        } else if !valid_utf8(d.subrange(p + 2, p + 2 + nl)) {
            Err(Fault::InvalidName)
        } else {
            parse_value(d, p + 2 + nl, tag, decode_utf8(d.subrange(p + 2, p + 2 + nl)))
        }
    }
}

pub proof fn lemma_parse_attr_advances(d: Seq<u8>, p: int, tag: u8, last: Seq<char>)
    ensures
        parse_attr(d, p, tag, last) matches Ok((_, next)) ==> next >= p + 4,
{
}

/// The attributes from position `pos` on. A tag up to 0x0F delimits a
/// group; the end-of-attributes tag (or the end of the data) ends the list.
pub open spec fn parse_attrs(d: Seq<u8>, pos: int, last: Seq<char>) -> Result<Seq<AttrView>, Fault>
    decreases d.len() - pos,
{
    if pos < 0 || pos >= d.len() {
        Ok(Seq::empty())
    } else if d[pos] <= 0x0F {
        if d[pos] == END_OF_ATTRIBUTES_TAG {
            Ok(Seq::empty())
        } else {
            parse_attrs(d, pos + 1, last)
        }
    } else {
        proof {
            lemma_parse_attr_advances(d, pos + 1, d[pos], last);
        }
        match parse_attr(d, pos + 1, d[pos], last) {
            Err(e) => Err(e),
            Ok((a, next)) => match parse_attrs(d, next, a.0) {
                Ok(rest) => Ok(seq![a] + rest),
                Err(e) => Err(e),
            },
        }
    }
}

/// A whole response: status code and request id from the header, then the attributes.
pub open spec fn parse_response_spec(d: Seq<u8>) -> Result<(u16, u32, Seq<AttrView>), Fault> {
    if d.len() < 8 {
        Err(Fault::TooShort)
    } else {
        match parse_attrs(d, 8, Seq::empty()) {
            Ok(attrs) => Ok((u16_at(d, 2) as u16, u32_at(d, 4) as u32, attrs)),
            Err(e) => Err(e),
        }
    }
}

} // verus!

verus! {

/// Why a response could not be parsed.
#[derive(Debug)]
pub enum IppParseError {
    /// Fewer than the eight header bytes; carries the length.
    TooShort(usize),
    TruncatedAtNameLength,
    TruncatedAtName,
    /// An attribute name that is not UTF-8; carries std's description.
    InvalidUtf8Name(String),
    TruncatedAtValueLength,
    TruncatedAtValue,
}

impl IppParseError {
    pub open spec fn fault(&self) -> Fault {
        match self {
            IppParseError::TooShort(_) => Fault::TooShort,
            IppParseError::TruncatedAtNameLength => Fault::TruncatedAtNameLength,
            IppParseError::TruncatedAtName => Fault::TruncatedAtName,
            IppParseError::InvalidUtf8Name(_) => Fault::InvalidName,
            IppParseError::TruncatedAtValueLength => Fault::TruncatedAtValueLength,
            IppParseError::TruncatedAtValue => Fault::TruncatedAtValue,
        }
    }

    pub open spec fn message(&self) -> Seq<char> {
        match self {
            IppParseError::TooShort(n) => "IPP response too short: "@ + dec(*n as nat) + " bytes"@,
            IppParseError::TruncatedAtNameLength => "IPP response truncated at name-length"@,
            IppParseError::TruncatedAtName => "IPP response truncated at name"@,
            IppParseError::InvalidUtf8Name(e) => "Invalid UTF-8 in attribute name: "@ + e@,
            IppParseError::TruncatedAtValueLength => "IPP response truncated at value-length"@,
            IppParseError::TruncatedAtValue => "IPP response truncated at value"@,
        }
    }

    /// The error message.
    pub fn to_string(&self) -> (r: String)
        ensures
            r@ == self.message(),
    {
        let mut s = String::new();
        match self {
            IppParseError::TooShort(n) => {
                push_str(&mut s, "IPP response too short: ");
                push_dec(&mut s, *n as u64);
                push_str(&mut s, " bytes");
            },
            IppParseError::TruncatedAtNameLength => push_str(&mut s, "IPP response truncated at name-length"),
            IppParseError::TruncatedAtName => push_str(&mut s, "IPP response truncated at name"),
            IppParseError::InvalidUtf8Name(e) => {
                push_str(&mut s, "Invalid UTF-8 in attribute name: ");
                push_str(&mut s, e.as_str());
            },
            IppParseError::TruncatedAtValueLength => push_str(&mut s, "IPP response truncated at value-length"),
            IppParseError::TruncatedAtValue => push_str(&mut s, "IPP response truncated at value"),
        }
        s
    }
}

/// The attributes parsed so far in front of what the rest parses to.
pub open spec fn prepend(prefix: Seq<AttrView>, r: Result<Seq<AttrView>, Fault>) -> Result<Seq<AttrView>, Fault> {
    match r {
        Ok(rest) => Ok(prefix + rest),
        Err(e) => Err(e),
    }
}

fn u16_field(d: &[u8], p: usize) -> (r: usize)
    requires
        p + 2 <= d@.len(),
    ensures
        r as nat == u16_at(d@, p as int),
{
    d[p] as usize * 256 + d[p + 1] as usize
}

/// Parses a raw IPP response. Fails when the data is shorter than the
/// eight-byte header or an attribute is cut off or has a non-UTF-8 name.
pub fn parse_response(data: &[u8]) -> (r: Result<IppResponse, IppParseError>)
    ensures
        match r {
            Ok(resp) => parse_response_spec(data@) == Ok::<_, Fault>((resp.status_code, resp.request_id, resp.attrs())),
            Err(e) => parse_response_spec(data@) == Err::<(u16, u32, Seq<AttrView>), _>(e.fault())
                && (e matches IppParseError::TooShort(n) ==> n == data@.len()),
        },
{
    if data.len() < 8 {
        return Err(IppParseError::TooShort(data.len()));
    }
    let status_code: u16 = (data[2] as u16) * 256 + data[3] as u16;
    let request_id: u32 = (data[4] as u32) * 0x100_0000 + (data[5] as u32) * 0x1_0000 + (data[6] as u32) * 256
        + data[7] as u32;
    let ghost d = data@;
    let mut attributes: Vec<IppAttribute> = Vec::new();
    let mut pos: usize = 8;
    let mut last_name = String::new();
    assert(attr_views(attributes@) =~= Seq::<AttrView>::empty());
    assert(prepend(Seq::empty(), parse_attrs(d, 8, Seq::empty())) == parse_attrs(d, 8, Seq::empty())) by {
        match parse_attrs(d, 8, Seq::empty()) {
            Ok(rest) => assert(Seq::<AttrView>::empty() + rest =~= rest),
            Err(_) => {},
        }
    }
    while pos < data.len()
        invariant
            8 <= pos <= d.len(),
            d == data@,
            parse_attrs(d, 8, Seq::empty()) == prepend(attr_views(attributes@), parse_attrs(d, pos as int, last_name@)),
        ensures
            8 <= pos <= d.len(),
            parse_attrs(d, 8, Seq::empty()) == prepend(attr_views(attributes@), parse_attrs(d, pos as int, last_name@)),
            parse_attrs(d, pos as int, last_name@) == Ok::<Seq<AttrView>, Fault>(Seq::empty()),
        decreases d.len() - pos,
    {
        let tag = data[pos];
        let p = pos + 1;
        if tag <= 0x0F {
            if tag == END_OF_ATTRIBUTES_TAG {
                assert(parse_attrs(d, pos as int, last_name@) == Ok::<Seq<AttrView>, Fault>(Seq::empty()));
                break;
            }
            pos = p;
            continue;
        }
        if data.len() - p < 2 {
            return Err(IppParseError::TruncatedAtNameLength);
        }
        let name_len = u16_field(data, p);
        let mut q = p + 2;
        let name: String;
        if name_len == 0 {
            name = last_name.clone();
        } else {
            if name_len > data.len() - q {
                return Err(IppParseError::TruncatedAtName);
            }
            let name_slice = vstd::slice::slice_subrange(data, q, q + name_len);
            match utf8_str(name_slice) {
                Ok(n) => {
                    name = n.to_owned();
                },
                Err(e) => {
                    return Err(IppParseError::InvalidUtf8Name(e));
                },
            }
            q = q + name_len;
            last_name = name.clone();
        }
        if data.len() - q < 2 {
            return Err(IppParseError::TruncatedAtValueLength);
        }
        let value_len = u16_field(data, q);
        q = q + 2;
        if value_len > data.len() - q {
            return Err(IppParseError::TruncatedAtValue);
        }
        let value = slice_to_vec(vstd::slice::slice_subrange(data, q, q + value_len));
        let attr = IppAttribute { name, tag, value };
        let ghost before = attr_views(attributes@);
        attributes.push(attr);
        assert(attr_views(attributes@) =~= before.push(attr@));
        pos = q + value_len;
        proof {
            let rest = parse_attrs(d, pos as int, last_name@);
            match rest {
                Ok(r) => assert(before + (seq![attr@] + r) =~= before.push(attr@) + r),
                Err(_) => {},
            }
        }
    }
    assert(attr_views(attributes@) + Seq::<AttrView>::empty() =~= attr_views(attributes@));
    assert(status_code as nat == u16_at(d, 2));
    assert(request_id as nat == u32_at(d, 4));
    Ok(IppResponse { status_code, request_id, attributes })
}

/// `<[u8]>::to_vec`.
fn slice_to_vec(d: &[u8]) -> (r: Vec<u8>)
    ensures
        r@ == d@,
{
    let mut v: Vec<u8> = Vec::new();
    push_bytes(&mut v, d);
    assert(v@ =~= d@);
    v
}

} // verus!

verus! {

// ---------------------------------------------------------------------------
// What is written reads back
// ---------------------------------------------------------------------------

/// Attributes one after another on the wire.
pub open spec fn attrs_bytes(attrs: Seq<AttrView>) -> Seq<u8>
    decreases attrs.len(),
{
    if attrs.len() == 0 {
        Seq::empty()
    } else {
        attr_bytes(attrs[0].1, attrs[0].0, attrs[0].2) + attrs_bytes(attrs.drop_first())
    }
}

/// A response: header, one operation-attributes group, the end tag.
pub open spec fn response_bytes(status_code: u16, request_id: u32, attrs: Seq<AttrView>) -> Seq<u8> {
    header_bytes(status_code, request_id) + seq![OPERATION_ATTRIBUTES_TAG] + attrs_bytes(attrs) + seq![
        END_OF_ATTRIBUTES_TAG,
    ]
}

/// An attribute that the wire format carries unchanged: a value tag (not a
/// group delimiter), a non-empty name, and name and value that fit the
/// two-byte length fields.
pub open spec fn encodable(a: AttrView) -> bool {
    &&& a.1 > 0x0F
    &&& a.0.len() > 0
    &&& encode_utf8(a.0).len() < 0x1_0000
    &&& a.2.len() < 0x1_0000
}

proof fn lemma_be16_reads_back(d: Seq<u8>, p: int, n: u16)
    requires
        0 <= p,
        p + 2 <= d.len(),
        d.subrange(p, p + 2) == be16(n),
    ensures
        u16_at(d, p) == n,
{
    assert(d[p] == be16(n)[0]);
    assert(d[p + 1] == be16(n)[1]);
}

proof fn lemma_encode_nonempty(s: Seq<char>)
    requires
        s.len() > 0,
    ensures
        encode_utf8(s).len() > 0,
{
    let b = encode_scalar(s[0] as u32);
    assert(b.len() >= 1);
    assert(encode_utf8(s) == b + encode_utf8(s.drop_first()));
}

proof fn lemma_attr_reads_back(d: Seq<u8>, pos: int, a: AttrView, last: Seq<char>)
    requires
        0 <= pos,
        encodable(a),
        pos + attr_bytes(a.1, a.0, a.2).len() <= d.len(),
        d.subrange(pos, pos + attr_bytes(a.1, a.0, a.2).len()) == attr_bytes(a.1, a.0, a.2),
    ensures
        d[pos] == a.1,
        parse_attr(d, pos + 1, a.1, last) == Ok::<(AttrView, int), Fault>(
            (a, pos + attr_bytes(a.1, a.0, a.2).len()),
        ),
{
    broadcast use {encode_utf8_valid_utf8, encode_utf8_decode_utf8};

    let nb = encode_utf8(a.0);
    let ab = attr_bytes(a.1, a.0, a.2);
    lemma_encode_nonempty(a.0);
    let nl: int = nb.len() as int;
    let vl: int = a.2.len() as int;
    assert(ab.len() == 5 + nl + vl);
    assert(len16(nl as nat) == nl);
    assert(len16(vl as nat) == vl);
    let w = d.subrange(pos, pos + ab.len());
    assert(d[pos] == a.1) by {
        assert(w[0] == ab[0]);
    }
    assert(u16_at(d, pos + 1) == len16(nl as nat)) by {
        assert(d.subrange(pos + 1, pos + 3) =~= ab.subrange(1, 3));
        assert(ab.subrange(1, 3) =~= be16(len16(nl as nat)));
        lemma_be16_reads_back(d, pos + 1, len16(nl as nat));
    }
    assert(d.subrange(pos + 3, pos + 3 + nl) == nb) by {
        assert(d.subrange(pos + 3, pos + 3 + nl) =~= ab.subrange(3, 3 + nl));
        assert(ab.subrange(3, 3 + nl) =~= nb);
    }
    assert(u16_at(d, pos + 3 + nl) == len16(vl as nat)) by {
        assert(d.subrange(pos + 3 + nl, pos + 5 + nl) =~= ab.subrange(3 + nl, 5 + nl));
        assert(ab.subrange(3 + nl, 5 + nl) =~= be16(len16(vl as nat)));
        lemma_be16_reads_back(d, pos + 3 + nl, len16(vl as nat));
    }
    assert(d.subrange(pos + 5 + nl, pos + 5 + nl + vl) == a.2) by {
        assert(d.subrange(pos + 5 + nl, pos + 5 + nl + vl) =~= ab.subrange(5 + nl, 5 + nl + vl));
        assert(ab.subrange(5 + nl, 5 + nl + vl) =~= a.2);
    }
    assert(decode_utf8(nb) == a.0);
    assert(parse_value(d, pos + 3 + nl, a.1, a.0) == Ok::<(AttrView, int), Fault>((a, pos + 5 + nl + vl)));
}

/// Attributes written one after another at `pos` are read back one after
/// another, and the parse goes on after them.
proof fn lemma_attrs_then(d: Seq<u8>, pos: int, last: Seq<char>, attrs: Seq<AttrView>)
    requires
        0 <= pos,
        pos + attrs_bytes(attrs).len() <= d.len(),
        d.subrange(pos, pos + attrs_bytes(attrs).len()) == attrs_bytes(attrs),
        forall|i: int| 0 <= i < attrs.len() ==> encodable(#[trigger] attrs[i]),
    ensures
        parse_attrs(d, pos, last) == prepend(
            attrs,
            parse_attrs(
                d,
                pos + attrs_bytes(attrs).len(),
                if attrs.len() == 0 {
                    last
                } else {
                    attrs.last().0
                },
            ),
        ),
    decreases attrs.len(),
{
    if attrs.len() == 0 {
        assert(attrs =~= Seq::<AttrView>::empty());
        match parse_attrs(d, pos, last) {
            Ok(r) => {
                assert(Seq::<AttrView>::empty() + r =~= r);
            },
            Err(_) => {},
        }
    } else {
        let a = attrs[0];
        assert(encodable(a));
        let ab = attr_bytes(a.1, a.0, a.2);
        let rest = attrs.drop_first();
        let whole = attrs_bytes(attrs);
        assert(whole == ab + attrs_bytes(rest));
        let abl: int = ab.len() as int;
        assert(d.subrange(pos, pos + abl) == ab) by {
            assert(d.subrange(pos, pos + abl) =~= whole.subrange(0, abl));
            assert(whole.subrange(0, abl) =~= ab);
        }
        lemma_attr_reads_back(d, pos, a, last);
        let next = pos + abl;
        assert forall|i: int| 0 <= i < rest.len() implies encodable(#[trigger] rest[i]) by {
            assert(rest[i] == attrs[i + 1]);
        }
        assert(d.subrange(next, next + attrs_bytes(rest).len()) == attrs_bytes(rest)) by {
            assert(d.subrange(next, next + attrs_bytes(rest).len()) =~= whole.subrange(abl, whole.len() as int));
            assert(whole.subrange(abl, whole.len() as int) =~= attrs_bytes(rest));
        }
        lemma_attrs_then(d, next, a.0, rest);
        let lastn = if rest.len() == 0 { a.0 } else { rest.last().0 };
        assert(lastn == attrs.last().0);
        match parse_attrs(d, next + attrs_bytes(rest).len(), lastn) {
            Ok(r) => {
                assert(seq![a] + (rest + r) =~= attrs + r);
            },
            Err(_) => {},
        }
    }
}

/// A parse that is at the end of the data, or at the end tag, is done.
proof fn lemma_attrs_end(d: Seq<u8>, pos: int, last: Seq<char>)
    requires
        0 <= pos,
        pos == d.len() || (pos < d.len() && d[pos] == END_OF_ATTRIBUTES_TAG),
    ensures
        parse_attrs(d, pos, last) == Ok::<Seq<AttrView>, Fault>(Seq::empty()),
{
}

/// What the encoder writes, the parser reads back: a response made of a
/// header, an operation-attributes group holding attributes written with
/// [`write_attribute`], and the end tag parses to the same status code,
/// request id and attributes. (An attribute with an empty name is read as an
/// additional value of the attribute before it, so names are non-empty.)
pub proof fn law_response_reads_back(status_code: u16, request_id: u32, attrs: Seq<AttrView>)
    requires
        forall|i: int| 0 <= i < attrs.len() ==> encodable(#[trigger] attrs[i]),
    ensures
        parse_response_spec(response_bytes(status_code, request_id, attrs)) == Ok::<_, Fault>(
            (status_code, request_id, attrs),
        ),
{
    let h = header_bytes(status_code, request_id);
    let b = attrs_bytes(attrs);
    let bl: int = b.len() as int;
    let d = response_bytes(status_code, request_id, attrs);
    lemma_header_reads_back(status_code, request_id);
    assert(d =~= h + (seq![OPERATION_ATTRIBUTES_TAG] + b + seq![END_OF_ATTRIBUTES_TAG]));
    assert(d.len() == 10 + bl);
    assert(d.subrange(9, 9 + bl) =~= b);
    assert(d[9 + bl] == END_OF_ATTRIBUTES_TAG);
    assert(d[8] == OPERATION_ATTRIBUTES_TAG);
    lemma_attrs_then(d, 9, Seq::empty(), attrs);
    lemma_attrs_end(d, 9 + bl, if attrs.len() == 0 { Seq::empty() } else { attrs.last().0 });
    assert(attrs + Seq::<AttrView>::empty() =~= attrs);
    assert(parse_attrs(d, 8, Seq::empty()) == parse_attrs(d, 9, Seq::<char>::empty()));
    assert(d[2] == h[2] && d[3] == h[3] && d[4] == h[4] && d[5] == h[5] && d[6] == h[6] && d[7] == h[7]);
    assert(u16_at(d, 2) == u16_at(h, 2));
    assert(u32_at(d, 4) == u32_at(h, 4));
}

/// Attributes that follow an eight-byte header with no group tag read back
/// too: the parser takes the status code and request id from the header
/// and every attribute after it, in order.
pub proof fn law_attributes_read_back(header: Seq<u8>, attrs: Seq<AttrView>)
    requires
        header.len() == 8,
        forall|i: int| 0 <= i < attrs.len() ==> encodable(#[trigger] attrs[i]),
    ensures
        parse_response_spec(header + attrs_bytes(attrs)) == Ok::<_, Fault>(
            (u16_at(header, 2) as u16, u32_at(header, 4) as u32, attrs),
        ),
{
    let d = header + attrs_bytes(attrs);
    let bl: int = attrs_bytes(attrs).len() as int;
    assert(d.subrange(8, 8 + bl) =~= attrs_bytes(attrs));
    lemma_attrs_then(d, 8, Seq::empty(), attrs);
    lemma_attrs_end(d, 8 + bl, if attrs.len() == 0 { Seq::empty() } else { attrs.last().0 });
    assert(attrs + Seq::<AttrView>::empty() =~= attrs);
    assert(d[2] == header[2] && d[3] == header[3] && d[4] == header[4] && d[5] == header[5]
        && d[6] == header[6] && d[7] == header[7]);
}

/// An additional value of a multi-valued attribute on the wire: value tag,
/// a zero name length, value length, value.
pub open spec fn additional_value_bytes(tag: u8, value: Seq<u8>) -> Seq<u8> {
    seq![tag] + be16(0) + be16(len16(value.len())) + value
}

/// An additional value written at `pos` is read back under the name of the
/// attribute before it.
proof fn lemma_additional_value_reads_back(d: Seq<u8>, pos: int, tag: u8, value: Seq<u8>, last: Seq<char>)
    requires
        0 <= pos,
        value.len() < 0x1_0000,
        pos + 5 + value.len() <= d.len(),
        d.subrange(pos, pos + 5 + value.len()) == additional_value_bytes(tag, value),
    ensures
        d[pos] == tag,
        parse_attr(d, pos + 1, tag, last) == Ok::<(AttrView, int), Fault>(
            ((last, tag, value), pos + 5 + value.len()),
        ),
{
    let xb = additional_value_bytes(tag, value);
    let vl: int = value.len() as int;
    assert(xb.len() == 5 + vl);
    assert(d[pos] == tag) by {
        assert(xb[0] == tag);
    }
    assert(u16_at(d, pos + 1) == 0) by {
        assert(d.subrange(pos + 1, pos + 3) =~= xb.subrange(1, 3));
        assert(xb.subrange(1, 3) =~= be16(0));
        lemma_be16_reads_back(d, pos + 1, 0);
    }
    assert(len16(vl as nat) == vl);
    assert(u16_at(d, pos + 3) == vl) by {
        assert(d.subrange(pos + 3, pos + 5) =~= xb.subrange(3, 5));
        assert(xb.subrange(3, 5) =~= be16(len16(vl as nat)));
        lemma_be16_reads_back(d, pos + 3, len16(vl as nat));
    }
    assert(d.subrange(pos + 5, pos + 5 + vl) == value) by {
        assert(d.subrange(pos + 5, pos + 5 + vl) =~= xb.subrange(5, 5 + vl));
        assert(xb.subrange(5, 5 + vl) =~= value);
    }
    assert(parse_value(d, pos + 3, tag, last) == Ok::<(AttrView, int), Fault>(
        ((last, tag, value), pos + 5 + vl),
    ));
}

/// An additional value (name length zero) belongs to the attribute before
/// it: a group holding an attribute and then such a value parses to two
/// attributes with the attribute's name, its value first and the additional
/// value second.
pub proof fn law_additional_value_keeps_name(
    header: Seq<u8>,
    group: u8,
    a: AttrView,
    tag: u8,
    value: Seq<u8>,
)
    requires
        header.len() == 8,
        group <= 0x0F,
        group != END_OF_ATTRIBUTES_TAG,
        encodable(a),
        tag > 0x0F,
        value.len() < 0x1_0000,
    ensures
        parse_response_spec(
            header + seq![group] + attr_bytes(a.1, a.0, a.2) + additional_value_bytes(tag, value)
                + seq![END_OF_ATTRIBUTES_TAG],
        ) == Ok::<_, Fault>(
            (u16_at(header, 2) as u16, u32_at(header, 4) as u32, seq![a, (a.0, tag, value)]),
        ),
{
    let ab = attr_bytes(a.1, a.0, a.2);
    let xb = additional_value_bytes(tag, value);
    let d = header + seq![group] + ab + xb + seq![END_OF_ATTRIBUTES_TAG];
    let abl: int = ab.len() as int;
    let vl: int = value.len() as int;
    let p = 9 + abl;
    let e = p + 5 + vl;
    let b = (a.0, tag, value);
    assert(xb.len() == 5 + vl);
    assert(d.len() == e + 1);
    assert(d[8] == group);
    assert(d.subrange(9, 9 + abl) =~= ab);
    lemma_attr_reads_back(d, 9, a, Seq::empty());
    assert(d.subrange(p, e) =~= xb);
    lemma_additional_value_reads_back(d, p, tag, value, a.0);
    assert(d[e] == END_OF_ATTRIBUTES_TAG);
    lemma_attrs_end(d, e, a.0);
    assert(parse_attrs(d, p, a.0) == Ok::<Seq<AttrView>, Fault>(seq![b] + Seq::<AttrView>::empty()));
    assert(seq![a] + (seq![b] + Seq::<AttrView>::empty()) =~= seq![a, b]);
    assert(parse_attrs(d, 9, Seq::empty()) == Ok::<Seq<AttrView>, Fault>(seq![a, b]));
    assert(parse_attrs(d, 8, Seq::empty()) == parse_attrs(d, 9, Seq::<char>::empty()));
    assert(d[2] == header[2] && d[3] == header[3] && d[4] == header[4] && d[5] == header[5]
        && d[6] == header[6] && d[7] == header[7]);
}

proof fn lemma_encode_len(s: Seq<char>)
    ensures
        encode_utf8(s).len() <= 4 * s.len(),
    decreases s.len(),
{
    if s.len() > 0 {
        lemma_encode_len(s.drop_first());
    }
}

/// The attributes of a Print-Job request, as the parser reads them.
pub open spec fn print_job_attributes(
    printer_uri: Seq<char>,
    document_format: Seq<char>,
    job_name: Seq<char>,
    copies: u32,
) -> Seq<AttrView> {
    seq![
        ("attributes-charset"@, CHARSET_TAG, encode_utf8("utf-8"@)),
        ("attributes-natural-language"@, NATURAL_LANGUAGE_TAG, encode_utf8("en-us"@)),
        ("printer-uri"@, URI_TAG, encode_utf8(printer_uri)),
        ("document-format"@, MIME_MEDIA_TYPE_TAG, encode_utf8(document_format)),
        ("job-name"@, NAME_WITHOUT_LANGUAGE_TAG, encode_utf8(job_name)),
    ] + copies_attributes(copies)
}

/// The Job-Attributes part of a Print-Job request's attributes.
pub open spec fn copies_attributes(copies: u32) -> Seq<AttrView> {
    if effective_copies(copies) > 1 {
        seq![("copies"@, INTEGER_TAG, be32_signed(effective_copies(copies) as i32))]
    } else {
        Seq::<AttrView>::empty()
    }
}

proof fn lemma_print_job_encodable(
    printer_uri: Seq<char>,
    document_format: Seq<char>,
    job_name: Seq<char>,
    copies: u32,
)
    requires
        encode_utf8(printer_uri).len() < 0x1_0000,
        encode_utf8(document_format).len() < 0x1_0000,
        encode_utf8(job_name).len() < 0x1_0000,
    ensures
        forall|i: int|
            0 <= i < 5 ==> encodable(#[trigger] print_job_attributes(printer_uri, document_format, job_name, copies)[i]),
        forall|i: int| 0 <= i < copies_attributes(copies).len() ==> encodable(#[trigger] copies_attributes(copies)[i]),
        print_job_attributes(printer_uri, document_format, job_name, copies) == print_job_attributes(
            printer_uri,
            document_format,
            job_name,
            copies,
        ).take(5) + copies_attributes(copies),
        print_job_attributes(printer_uri, document_format, job_name, copies).len() >= 5,
{
    reveal_strlit("attributes-charset");
    reveal_strlit("attributes-natural-language");
    reveal_strlit("printer-uri");
    reveal_strlit("document-format");
    reveal_strlit("job-name");
    reveal_strlit("copies");
    reveal_strlit("utf-8");
    reveal_strlit("en-us");
    lemma_encode_len("attributes-charset"@);
    lemma_encode_len("attributes-natural-language"@);
    lemma_encode_len("printer-uri"@);
    lemma_encode_len("document-format"@);
    lemma_encode_len("job-name"@);
    lemma_encode_len("copies"@);
    lemma_encode_len("utf-8"@);
    lemma_encode_len("en-us"@);
    let all = print_job_attributes(printer_uri, document_format, job_name, copies);
    assert(all =~= all.take(5) + copies_attributes(copies));
}

#[verifier::rlimit(60)]
proof fn lemma_print_job_bytes(
    printer_uri: Seq<char>,
    document_format: Seq<char>,
    job_name: Seq<char>,
    request_id: u32,
    copies: u32,
)
    ensures
        print_job_request(printer_uri, document_format, job_name, request_id, copies) == header_bytes(
            PRINT_JOB,
            request_id,
        ) + seq![OPERATION_ATTRIBUTES_TAG] + attrs_bytes(
            print_job_attributes(printer_uri, document_format, job_name, copies).take(5),
        ) + (if effective_copies(copies) > 1 {
            seq![JOB_ATTRIBUTES_TAG] + attrs_bytes(copies_attributes(copies))
        } else {
            Seq::<u8>::empty()
        }) + seq![END_OF_ATTRIBUTES_TAG],
{
    reveal_with_fuel(attrs_bytes, 6);
    let ops = print_job_attributes(printer_uri, document_format, job_name, copies).take(5);
    assert(attrs_bytes(ops) =~= attr_bytes(CHARSET_TAG, "attributes-charset"@, encode_utf8("utf-8"@))
        + attr_bytes(NATURAL_LANGUAGE_TAG, "attributes-natural-language"@, encode_utf8("en-us"@))
        + attr_bytes(URI_TAG, "printer-uri"@, encode_utf8(printer_uri)) + attr_bytes(
        MIME_MEDIA_TYPE_TAG,
        "document-format"@,
        encode_utf8(document_format),
    ) + attr_bytes(NAME_WITHOUT_LANGUAGE_TAG, "job-name"@, encode_utf8(job_name)));
    if effective_copies(copies) > 1 {
        assert(attrs_bytes(copies_attributes(copies)) =~= attr_bytes(
            INTEGER_TAG,
            "copies"@,
            be32_signed(effective_copies(copies) as i32),
        ));
    }
    assert(print_job_request(printer_uri, document_format, job_name, request_id, copies) =~= header_bytes(
        PRINT_JOB,
        request_id,
    ) + seq![OPERATION_ATTRIBUTES_TAG] + attrs_bytes(ops) + (if effective_copies(copies) > 1 {
        seq![JOB_ATTRIBUTES_TAG] + attrs_bytes(copies_attributes(copies))
    } else {
        Seq::<u8>::empty()
    }) + seq![END_OF_ATTRIBUTES_TAG]);
}

/// A header, an operation-attributes group, optionally a job-attributes
/// group, and the end tag read back as the attributes of both groups.
proof fn lemma_two_groups(h: Seq<u8>, ops: Seq<AttrView>, job: Seq<AttrView>, has_job: bool)
    requires
        h.len() == 8,
        ops.len() > 0,
        forall|i: int| 0 <= i < ops.len() ==> encodable(#[trigger] ops[i]),
        forall|i: int| 0 <= i < job.len() ==> encodable(#[trigger] job[i]),
        has_job ==> job.len() > 0,
        !has_job ==> job.len() == 0,
    ensures
        parse_response_spec(
            h + seq![OPERATION_ATTRIBUTES_TAG] + attrs_bytes(ops) + (if has_job {
                seq![JOB_ATTRIBUTES_TAG] + attrs_bytes(job)
            } else {
                Seq::<u8>::empty()
            }) + seq![END_OF_ATTRIBUTES_TAG],
        ) == Ok::<_, Fault>((u16_at(h, 2) as u16, u32_at(h, 4) as u32, ops + job)),
{
    let ob = attrs_bytes(ops);
    let jb = attrs_bytes(job);
    let mid = if has_job {
        seq![JOB_ATTRIBUTES_TAG] + jb
    } else {
        Seq::<u8>::empty()
    };
    let d = h + seq![OPERATION_ATTRIBUTES_TAG] + ob + mid + seq![END_OF_ATTRIBUTES_TAG];
    let ol: int = ob.len() as int;
    let jl: int = jb.len() as int;
    assert(d.subrange(9, 9 + ol) =~= ob);
    assert(d[8] == OPERATION_ATTRIBUTES_TAG);
    lemma_attrs_then(d, 9, Seq::empty(), ops);
    let p = 9 + ol;
    let last1 = ops.last().0;
    if has_job {
        assert(d[p] == JOB_ATTRIBUTES_TAG);
        assert(d.subrange(p + 1, p + 1 + jl) =~= jb);
        lemma_attrs_then(d, p + 1, last1, job);
        assert(d[p + 1 + jl] == END_OF_ATTRIBUTES_TAG);
        lemma_attrs_end(d, p + 1 + jl, job.last().0);
        assert(parse_attrs(d, p, last1) == parse_attrs(d, p + 1, last1));
        assert(job + Seq::<AttrView>::empty() =~= job);
    } else {
        assert(d[p] == END_OF_ATTRIBUTES_TAG);
        lemma_attrs_end(d, p, last1);
        assert(job =~= Seq::<AttrView>::empty());
        assert(ops + Seq::<AttrView>::empty() =~= ops + job);
    }
    assert(parse_attrs(d, 8, Seq::empty()) == parse_attrs(d, 9, Seq::<char>::empty()));
    assert(d[2] == h[2] && d[3] == h[3] && d[4] == h[4] && d[5] == h[5] && d[6] == h[6] && d[7] == h[7]);
}

/// The request that [`build_print_job_request`] builds parses back to its
/// operation code, its request id and its attributes: charset, language,
/// printer URI, document format, job name, and `copies` when more than one
/// copy is asked for, whose value reads back as the copy count. (The URI,
/// format and job name must fit the two-byte length fields.)
pub proof fn law_print_job_request_reads_back(
    printer_uri: Seq<char>,
    document_format: Seq<char>,
    job_name: Seq<char>,
    request_id: u32,
    copies: u32,
)
    requires
        encode_utf8(printer_uri).len() < 0x1_0000,
        encode_utf8(document_format).len() < 0x1_0000,
        encode_utf8(job_name).len() < 0x1_0000,
    ensures
        parse_response_spec(print_job_request(printer_uri, document_format, job_name, request_id, copies))
            == Ok::<_, Fault>(
            (PRINT_JOB, request_id, print_job_attributes(printer_uri, document_format, job_name, copies)),
        ),
        1 < copies <= i32::MAX ==> value_i32(
            print_job_attributes(printer_uri, document_format, job_name, copies)[5].2,
        ) == Some(copies as int),
{
    lemma_print_job_encodable(printer_uri, document_format, job_name, copies);
    lemma_print_job_bytes(printer_uri, document_format, job_name, request_id, copies);
    lemma_header_reads_back(PRINT_JOB, request_id);
    let all = print_job_attributes(printer_uri, document_format, job_name, copies);
    let ops = all.take(5);
    let job = copies_attributes(copies);
    assert forall|i: int| 0 <= i < ops.len() implies encodable(#[trigger] ops[i]) by {
        assert(ops[i] == all[i]);
    }
    lemma_two_groups(header_bytes(PRINT_JOB, request_id), ops, job, effective_copies(copies) > 1);
    if 1 < copies <= i32::MAX {
        law_integer_reads_back(copies as i32);
        assert(all[5] == job[0]);
    }
}

proof fn lemma_header_reads_back(status_code: u16, request_id: u32)
    ensures
        header_bytes(status_code, request_id).len() == 8,
        u16_at(header_bytes(status_code, request_id), 2) == status_code,
        u32_at(header_bytes(status_code, request_id), 4) == request_id,
{
    let h = header_bytes(status_code, request_id);
    assert(h[2] == (status_code / 256) as u8 && h[3] == (status_code % 256) as u8);
    assert(h[4] == (request_id / 0x100_0000) as u8 && h[5] == ((request_id / 0x1_0000) % 256) as u8
        && h[6] == ((request_id / 256) % 256) as u8 && h[7] == (request_id % 256) as u8);
}

/// The integer that [`write_integer_attribute`] writes is the one that
/// [`IppAttribute::as_i32`] reads.
#[verifier::spinoff_prover]
pub proof fn law_integer_reads_back(v: i32)
    ensures
        value_i32(be32_signed(v)) == Some(v as int),
{
}

} // verus!
