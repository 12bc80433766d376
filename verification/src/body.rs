//! Request bodies and their encoding per declared content type.
//!
//! A form body is encoded as `application/x-www-form-urlencoded` text
//! (percent-encoded `key=value` pairs joined by `&`, space written `+`) or as
//! a list of `multipart/form-data` parts, one per form entry. A raw byte body
//! passes through unchanged; under any other content type a form body is
//! dropped, and an empty body sends nothing.

use vstd::prelude::*;
use vstd::utf8::encode_utf8;

verus! {

/// The value of one form entry.
pub enum EntryValue {
    /// A plain text value.
    Text(String),
    /// A host file handle, named by its path. File uploads are not supported
    /// in this execution environment; such entries are dropped from multipart
    /// bodies and contribute an empty value to url-encoded bodies.
    File(String),
    /// A file entry with no file selected.
    EmptyFile,
}

/// One entry of an ordered form.
pub struct FormEntry {
    pub name: String,
    pub value: EntryValue,
}

/// A request body as declared by the caller.
pub enum Body {
    Empty,
    Bytes(Vec<u8>),
    Form(Vec<FormEntry>),
}

/// One part of a `multipart/form-data` body.
pub struct MultipartPart {
    pub name: String,
    pub kind: PartKind,
}

pub enum PartKind {
    /// A text part carrying the entry's value.
    Text(String),
    /// An empty part of content type `application/octet-stream`, standing for
    /// a file entry with no file selected.
    EmptyOctetStream,
}

/// A body, encoded and ready for the transport.
pub enum EncodedBody {
    NoBody,
    Raw(Vec<u8>),
    FormUrlEncoded(Vec<u8>),
    Multipart(Vec<MultipartPart>),
}

/// Bytes kept verbatim by the form-urlencoded encoding: ASCII alphanumerics
/// and `*`, `-`, `.`, `_`.
pub open spec fn is_form_unreserved(b: u8) -> bool {
    (48 <= b && b <= 57) || (65 <= b && b <= 90) || (97 <= b && b <= 122) || b == 42 || b == 45
        || b == 46 || b == 95
}

/// The upper-case hexadecimal digit of a value below 16.
pub open spec fn spec_hex_digit(n: u8) -> u8 {
    if n < 10 {
        (48 + n) as u8
    } else {
        (55 + n) as u8
    }
}

/// The form-urlencoded image of one byte.
pub open spec fn encode_byte(b: u8) -> Seq<u8> {
    if b == 32 {
        seq![43u8]
    } else if is_form_unreserved(b) {
        seq![b]
    } else {
        seq![37u8, spec_hex_digit(b / 16), spec_hex_digit(b % 16)]
    }
}

/// The form-urlencoded image of a byte sequence.
pub open spec fn encode_bytes(s: Seq<u8>) -> Seq<u8>
    decreases s.len(),
{
    if s.len() == 0 {
        Seq::empty()
    } else {
        encode_byte(s[0]) + encode_bytes(s.subrange(1, s.len() as int))
    }
}

/// The bytes a form entry value contributes: the UTF-8 of a text value;
/// nothing for file entries.
pub open spec fn spec_value_bytes(v: EntryValue) -> Seq<u8> {
    match v {
        EntryValue::Text(s) => encode_utf8(s@),
        EntryValue::File(_) => Seq::empty(),
        EntryValue::EmptyFile => Seq::empty(),
    }
}

/// One encoded `name=value` pair.
pub open spec fn spec_encode_entry(e: FormEntry) -> Seq<u8> {
    encode_bytes(encode_utf8(e.name@)) + seq![61u8] + encode_bytes(spec_value_bytes(e.value))
}

/// The whole form, entries joined by `&` in order.
pub open spec fn spec_form_urlencoded(entries: Seq<FormEntry>) -> Seq<u8>
    decreases entries.len(),
{
    if entries.len() == 0 {
        Seq::empty()
    } else if entries.len() == 1 {
        spec_encode_entry(entries[0])
    } else {
        spec_encode_entry(entries[0]) + seq![38u8] + spec_form_urlencoded(
            entries.subrange(1, entries.len() as int),
        )
    }
}

/// The view of one multipart part: its name and either its text or `None` for
/// an empty octet-stream part.
pub open spec fn spec_part_view(p: MultipartPart) -> (Seq<char>, Option<Seq<char>>) {
    match p.kind {
        PartKind::Text(s) => (p.name@, Some(s@)),
        PartKind::EmptyOctetStream => (p.name@, None),
    }
}

/// The views of a list of parts.
pub open spec fn spec_parts_view(parts: Seq<MultipartPart>) -> Seq<(Seq<char>, Option<Seq<char>>)>
    decreases parts.len(),
{
    if parts.len() == 0 {
        Seq::empty()
    } else {
        seq![spec_part_view(parts[0])] + spec_parts_view(parts.subrange(1, parts.len() as int))
    }
}

/// The multipart parts a form produces: one text part per text entry, one
/// empty octet-stream part per empty file entry, file entries dropped.
pub open spec fn spec_form_parts(entries: Seq<FormEntry>) -> Seq<(Seq<char>, Option<Seq<char>>)>
    decreases entries.len(),
{
    if entries.len() == 0 {
        Seq::empty()
    } else {
        let head: Seq<(Seq<char>, Option<Seq<char>>)> = match entries[0].value {
            EntryValue::Text(s) => seq![(entries[0].name@, Some(s@))],
            EntryValue::File(_) => Seq::empty(),
            EntryValue::EmptyFile => seq![(entries[0].name@, Option::<Seq<char>>::None)],
        };
        head + spec_form_parts(entries.subrange(1, entries.len() as int))
    }
}

/// The upper-case hexadecimal digit of a value below 16.
fn hex_digit(n: u8) -> (r: u8)
    requires
        n < 16,
    ensures
        r == spec_hex_digit(n),
{
    if n < 10 {
        48 + n
    } else {
        55 + n
    }
}

/// Append the form-urlencoded image of `bytes` to `out`.
fn append_encoded(out: &mut Vec<u8>, bytes: &[u8])
    ensures
        final(out)@ == old(out)@ + encode_bytes(bytes@),
{
    let ghost start = out@;
    let mut j: usize = 0;
    proof {
        assert(bytes@.subrange(0, bytes@.len() as int) =~= bytes@);
    }
    while j < bytes.len()
        invariant
            j <= bytes@.len(),
            out@ + encode_bytes(bytes@.subrange(j as int, bytes@.len() as int)) == start
                + encode_bytes(bytes@),
        decreases bytes@.len() - j,
    {
        let b = bytes[j];
        let ghost pre = out@;
        let ghost suffix = bytes@.subrange(j as int, bytes@.len() as int);
        let ghost suffix2 = bytes@.subrange(j as int + 1, bytes@.len() as int);
        proof {
            assert(suffix[0] == bytes@[j as int]);
            assert(suffix.subrange(1, suffix.len() as int) =~= suffix2);
            assert(encode_bytes(suffix) == encode_byte(b) + encode_bytes(suffix2));
        }
        if b == 32 {
            out.push(43);
            proof {
                assert(out@ =~= pre + encode_byte(b));
            }
        } else if (48 <= b && b <= 57) || (65 <= b && b <= 90) || (97 <= b && b <= 122) || b == 42
            || b == 45 || b == 46 || b == 95 {
            out.push(b);
            proof {
                assert(out@ =~= pre + encode_byte(b));
            }
        } else {
            out.push(37);
            out.push(hex_digit(b / 16));
            out.push(hex_digit(b % 16));
            proof {
                assert(out@ =~= pre + encode_byte(b));
            }
        }
        proof {
            assert(out@ + encode_bytes(suffix2) =~= pre + encode_bytes(suffix));
        }
        j += 1;
    }
    proof {
        assert(bytes@.subrange(bytes@.len() as int, bytes@.len() as int) =~= Seq::<u8>::empty());
        assert(out@ + encode_bytes(Seq::<u8>::empty()) =~= out@);
    }
}

/// Appending an entry appends its encoding, after a `&` if the form was not
/// empty.
proof fn lemma_form_urlencoded_push(entries: Seq<FormEntry>, e: FormEntry)
    ensures
        spec_form_urlencoded(entries.push(e)) == if entries.len() == 0 {
            spec_encode_entry(e)
        } else {
            spec_form_urlencoded(entries) + seq![38u8] + spec_encode_entry(e)
        },
    decreases entries.len(),
{
    let whole = entries.push(e);
    if entries.len() == 0 {
        assert(whole[0] == e);
    } else {
        let rest = entries.subrange(1, entries.len() as int);
        assert(whole.subrange(1, whole.len() as int) =~= rest.push(e));
        lemma_form_urlencoded_push(rest, e);
        if entries.len() == 1 {
            assert(rest =~= Seq::<FormEntry>::empty());
        } else {
            assert((spec_encode_entry(entries[0]) + seq![38u8] + (spec_form_urlencoded(rest)
                + seq![38u8] + spec_encode_entry(e))) =~= ((spec_encode_entry(entries[0])
                + seq![38u8] + spec_form_urlencoded(rest)) + seq![38u8] + spec_encode_entry(e)));
        }
    }
}

/// Encode an ordered form as `application/x-www-form-urlencoded` bytes.
pub fn encode_form_urlencoded(entries: &Vec<FormEntry>) -> (r: Vec<u8>)
    ensures
        r@ == spec_form_urlencoded(entries@),
{
    let mut out: Vec<u8> = Vec::new();
    let mut i: usize = 0;
    proof {
        assert(entries@.subrange(0, 0) =~= Seq::<FormEntry>::empty());
    }
    while i < entries.len()
        invariant
            i <= entries@.len(),
            out@ == spec_form_urlencoded(entries@.subrange(0, i as int)),
        decreases entries@.len() - i,
    {
        let ghost prefix = entries@.subrange(0, i as int);
        proof {
            assert(entries@.subrange(0, i as int + 1) =~= prefix.push(entries@[i as int]));
            lemma_form_urlencoded_push(prefix, entries@[i as int]);
        }
        if i > 0 {
            out.push(38);
        }
        let ghost mid = out@;
        append_encoded(&mut out, entries[i].name.as_str().as_bytes());
        out.push(61);
        match &entries[i].value {
            EntryValue::Text(v) => {
                append_encoded(&mut out, v.as_str().as_bytes());
            },
            EntryValue::File(_) => {
                proof {
                    assert(encode_bytes(Seq::<u8>::empty()) == Seq::<u8>::empty());
                }
            },
            EntryValue::EmptyFile => {
                proof {
                    assert(encode_bytes(Seq::<u8>::empty()) == Seq::<u8>::empty());
                }
            },
        }
        proof {
            assert(out@ =~= mid + spec_encode_entry(entries@[i as int]));
            if i > 0 {
                assert(out@ =~= spec_form_urlencoded(prefix) + seq![38u8] + spec_encode_entry(
                    entries@[i as int],
                ));
            }
        }
        i += 1;
    }
    proof {
        assert(entries@.subrange(0, entries@.len() as int) =~= entries@);
    }
    out
}

/// The part views one entry contributes: a text part, nothing for a file
/// handle, or an empty octet-stream part.
pub open spec fn spec_entry_parts(e: FormEntry) -> Seq<(Seq<char>, Option<Seq<char>>)> {
    match e.value {
        EntryValue::Text(s) => seq![(e.name@, Some(s@))],
        EntryValue::File(_) => Seq::empty(),
        EntryValue::EmptyFile => seq![(e.name@, Option::<Seq<char>>::None)],
    }
}

proof fn lemma_parts_view_push(parts: Seq<MultipartPart>, p: MultipartPart)
    ensures
        spec_parts_view(parts.push(p)) == spec_parts_view(parts) + seq![spec_part_view(p)],
    decreases parts.len(),
{
    let whole = parts.push(p);
    if parts.len() == 0 {
        assert(whole[0] == p);
        assert(whole.subrange(1, whole.len() as int) =~= Seq::<MultipartPart>::empty());
        assert(spec_parts_view(parts) + seq![spec_part_view(p)] =~= seq![spec_part_view(p)]);
        assert(seq![spec_part_view(p)] + spec_parts_view(Seq::<MultipartPart>::empty())
            =~= seq![spec_part_view(p)]);
    } else {
        let rest = parts.subrange(1, parts.len() as int);
        assert(whole.subrange(1, whole.len() as int) =~= rest.push(p));
        lemma_parts_view_push(rest, p);
        assert((seq![spec_part_view(parts[0])] + (spec_parts_view(rest) + seq![spec_part_view(p)]))
            =~= ((seq![spec_part_view(parts[0])] + spec_parts_view(rest)) + seq![spec_part_view(
            p,
        )]));
    }
}

proof fn lemma_form_parts_push(entries: Seq<FormEntry>, e: FormEntry)
    ensures
        spec_form_parts(entries.push(e)) == spec_form_parts(entries) + spec_entry_parts(e),
    decreases entries.len(),
{
    let whole = entries.push(e);
    if entries.len() == 0 {
        assert(whole[0] == e);
        assert(whole.subrange(1, whole.len() as int) =~= Seq::<FormEntry>::empty());
        assert(spec_entry_parts(e) + spec_form_parts(Seq::<FormEntry>::empty())
            =~= spec_entry_parts(e));
        assert(spec_form_parts(entries) + spec_entry_parts(e) =~= spec_entry_parts(e));
    } else {
        let rest = entries.subrange(1, entries.len() as int);
        assert(whole.subrange(1, whole.len() as int) =~= rest.push(e));
        lemma_form_parts_push(rest, e);
        assert((spec_entry_parts(entries[0]) + (spec_form_parts(rest) + spec_entry_parts(e)))
            =~= ((spec_entry_parts(entries[0]) + spec_form_parts(rest)) + spec_entry_parts(e)));
    }
}

/// Build the `multipart/form-data` parts of a form: one text part per text
/// entry, one empty octet-stream part per empty file entry; file-handle
/// entries are unsupported here and dropped.
pub fn form_to_parts(entries: &Vec<FormEntry>) -> (r: Vec<MultipartPart>)
    ensures
        spec_parts_view(r@) == spec_form_parts(entries@),
{
    let mut out: Vec<MultipartPart> = Vec::new();
    let mut i: usize = 0;
    proof {
        assert(entries@.subrange(0, 0) =~= Seq::<FormEntry>::empty());
    }
    while i < entries.len()
        invariant
            i <= entries@.len(),
            spec_parts_view(out@) == spec_form_parts(entries@.subrange(0, i as int)),
        decreases entries@.len() - i,
    {
        let ghost prefix = entries@.subrange(0, i as int);
        let ghost pre_parts = out@;
        proof {
            assert(entries@.subrange(0, i as int + 1) =~= prefix.push(entries@[i as int]));
            lemma_form_parts_push(prefix, entries@[i as int]);
        }
        match &entries[i].value {
            EntryValue::Text(v) => {
                let part = MultipartPart { name: entries[i].name.clone(), kind: PartKind::Text(v.clone()) };
                proof {
                    lemma_parts_view_push(pre_parts, part);
                }
                out.push(part);
                proof {
                    assert(spec_parts_view(out@) =~= spec_form_parts(prefix) + spec_entry_parts(
                        entries@[i as int],
                    ));
                }
            },
            EntryValue::File(_) => {
                proof {
                    assert(spec_form_parts(prefix) + spec_entry_parts(entries@[i as int])
                        =~= spec_form_parts(prefix));
                }
            },
            EntryValue::EmptyFile => {
                let part = MultipartPart {
                    name: entries[i].name.clone(),
                    kind: PartKind::EmptyOctetStream,
                };
                proof {
                    lemma_parts_view_push(pre_parts, part);
                }
                out.push(part);
                proof {
                    assert(spec_parts_view(out@) =~= spec_form_parts(prefix) + spec_entry_parts(
                        entries@[i as int],
                    ));
                }
            },
        }
        i += 1;
    }
    proof {
        assert(entries@.subrange(0, entries@.len() as int) =~= entries@);
    }
    out
}

/// Encode a declared body for the transport, per the declared content type:
/// raw bytes pass through; a form becomes url-encoded bytes or multipart
/// parts; a form under any other content type is dropped; an empty body sends
/// nothing.
pub fn encode_body(body: Body, content_type: &str) -> (r: EncodedBody)
    ensures
        body matches Body::Bytes(b) ==> r matches EncodedBody::Raw(b2) && b2@ == b@,
        body is Empty ==> r is NoBody,
        body matches Body::Form(es) ==> {
            &&& content_type@ == "application/x-www-form-urlencoded"@ ==> (
            r matches EncodedBody::FormUrlEncoded(out) && out@ == spec_form_urlencoded(es@))
            &&& content_type@ == "multipart/form-data"@ ==> (r matches EncodedBody::Multipart(
                parts,
            ) && spec_parts_view(parts@) == spec_form_parts(es@))
            &&& (content_type@ != "application/x-www-form-urlencoded"@ && content_type@
                != "multipart/form-data"@) ==> r is NoBody
        },
{
    proof {
        broadcast use vstd::string::group_string_axioms;

        reveal_strlit("application/x-www-form-urlencoded");
        reveal_strlit("multipart/form-data");
        assert("application/x-www-form-urlencoded"@.len() == 33);
        assert("multipart/form-data"@.len() == 19);
    }
    match body {
        Body::Empty => EncodedBody::NoBody,
        Body::Bytes(b) => EncodedBody::Raw(b),
        Body::Form(es) => {
            if crate::text::str_eq(content_type, "application/x-www-form-urlencoded") {
                EncodedBody::FormUrlEncoded(encode_form_urlencoded(&es))
            } else if crate::text::str_eq(content_type, "multipart/form-data") {
                EncodedBody::Multipart(form_to_parts(&es))
            } else {
                EncodedBody::NoBody
            }
        },
    }
}

} // verus!
