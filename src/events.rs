use vstd::prelude::*;
use vstd::string::*;
use vstd::utf8::encode_utf8;

verus! {

/// Lower-case hexadecimal digit of `d < 16`.
pub open spec fn hex_digit(d: int) -> char {
    seq!['0', '1', '2', '3', '4', '5', '6', '7', '8', '9', 'a', 'b', 'c', 'd', 'e', 'f'][d]
}

/// How one character appears inside a JSON string: quote and backslash
/// escaped, the short escapes for backspace, tab, line feed, form feed and
/// carriage return, `\u00XX` for other control characters, and any other
/// character as itself.
pub open spec fn json_escaped_char(c: char) -> Seq<char> {
    if c == '"' {
        seq!['\\', '"']
    } else if c == '\\' {
        seq!['\\', '\\']
    } else if c == '\x08' {
        seq!['\\', 'b']
    } else if c == '\t' {
        seq!['\\', 't']
    } else if c == '\n' {
        seq!['\\', 'n']
    } else if c == '\x0c' {
        seq!['\\', 'f']
    } else if c == '\r' {
        seq!['\\', 'r']
    } else if (c as u32) < 0x20 {
        seq!['\\', 'u', '0', '0', hex_digit((c as u32) as int / 16), hex_digit((c as u32) as int % 16)]
    } else {
        seq![c]
    }
}

/// The characters of `s`, each escaped for a JSON string.
pub open spec fn json_escaped(s: Seq<char>) -> Seq<char>
    decreases s.len(),
{
    if s.len() == 0 {
        Seq::empty()
    } else {
        json_escaped(s.drop_last()) + json_escaped_char(s.last())
    }
}

/// What `serde_json` writes for a string: the escaped characters between
/// double quotes.
pub open spec fn json_string_literal(s: Seq<char>) -> Seq<char> {
    seq!['"'] + json_escaped(s) + seq!['"']
}

/// The entries of the JSON object in `b`, in ascending key order, when `b`
/// holds one JSON object; `None` otherwise. A string value is `Some` of its
/// text, any other value `None`.
pub uninterp spec fn json_object_entries(b: Seq<u8>) -> Option<Seq<(Seq<char>, Option<Seq<char>>)>>;

/// Relies on `serde_json::to_string` of a `&str` (`format_escaped_str` with
/// the compact formatter): the string between double quotes, escaped as
/// `json_escaped_char` states. Serialising a string does not fail.
#[verifier::external_body]
fn json_quote(s: &str) -> (r: String)
    ensures
        r@ == json_string_literal(s@),
{
    serde_json::to_string(s).unwrap_or_default()
}

/// Relies on `serde_json::from_slice` read into a
/// `BTreeMap<String, serde_json::Value>`, and on `Value::as_str`: it accepts
/// one JSON object, the map hands its entries out in ascending key order
/// (the last of repeated keys), and `as_str` gives the text of a string.
#[verifier::external_body]
fn parse_json_object(b: &[u8]) -> (r: Option<Vec<(String, Option<String>)>>)
    ensures
        r is None <==> json_object_entries(b@) is None,
        r is Some ==> json_object_entries(b@) == Some(entries_view(r.unwrap()@)),
{
    serde_json::from_slice::<std::collections::BTreeMap<String, serde_json::Value>>(b).ok().map(
        |m| m.into_iter().map(|(k, v)| (k, v.as_str().map(String::from))).collect(),
    )
}

/// Whether `b` holds one JSON object.
pub fn is_json_object(b: &[u8]) -> (r: bool)
    ensures
        r == json_object_entries(b@) is Some,
{
    parse_json_object(b).is_some()
}

/// The mathematical value of a list of string entries.
pub open spec fn entries_view(v: Seq<(String, Option<String>)>) -> Seq<Entry> {
    v.map_values(|p: (String, Option<String>)| (p.0@, opt_view(p.1)))
}

/// A JSON object entry: the key, and the text of a string value.
pub type Entry = (Seq<char>, Option<Seq<char>>);

pub open spec fn opt_view(o: Option<String>) -> Option<Seq<char>> {
    match o {
        Some(s) => Some(s@),
        None => None,
    }
}

/// The text of the first entry whose key is `key`, if its value is a string.
pub open spec fn field_value(es: Seq<Entry>, key: Seq<char>) -> Option<Seq<char>>
    decreases es.len(),
{
    if es.len() == 0 {
        None
    } else if es[0].0 == key {
        es[0].1
    } else {
        field_value(es.drop_first(), key)
    }
}

/// Index-based form of `field_value`.
proof fn lemma_field_value_index(es: Seq<Entry>, key: Seq<char>, i: int)
    requires
        0 <= i <= es.len(),
        forall|j: int| 0 <= j < i ==> es[j].0 != key,
    ensures
        field_value(es, key) == field_value(es.subrange(i, es.len() as int), key),
    decreases i,
{
    if i > 0 {
        assert(es[0].0 != key);
        assert forall|j: int| 0 <= j < i - 1 implies es.drop_first()[j].0 != key by {
            assert(es.drop_first()[j] == es[j + 1]);
        }
        lemma_field_value_index(es.drop_first(), key, i - 1);
        assert(es.drop_first().subrange(i - 1, es.len() - 1) =~= es.subrange(i, es.len() as int));
    } else {
        assert(es.subrange(0, es.len() as int) =~= es);
    }
}

/// Looks up the value of the first entry keyed `key`.
fn find_field(es: &Vec<(String, Option<String>)>, key: &String) -> (r: Option<String>)
    ensures
        r is None <==> field_value(entries_view(es@), key@) is None,
        r is Some ==> field_value(entries_view(es@), key@) == Some(r.unwrap()@),
{
    let ghost ev = entries_view(es@);
    let mut i: usize = 0;
    while i < es.len()
        invariant
            ev == entries_view(es@),
            i <= es.len(),
            forall|j: int| 0 <= j < i ==> ev[j].0 != key@,
        decreases es.len() - i,
    {
        if es[i].0 == *key {
            proof {
                lemma_field_value_index(ev, key@, i as int);
            }
            return match &es[i].1 {
                Some(v) => Some(v.clone()),
                None => None,
            };
        }
        i = i + 1;
    }
    proof {
        lemma_field_value_index(ev, key@, i as int);
    }
    None
}

/// Announces a stored original: the object key it was stored under and the
/// key reserved for its compressed copy.
#[derive(Clone, Debug)]
pub struct MediaUploadedMessage {
    pub id: String,
    pub compressed_id: String,
}

/// Announces a compressed copy written under `compressed_id` for the
/// original `id`.
#[derive(Clone, Debug)]
pub struct MediaCompressedMessage {
    pub id: String,
    pub compressed_id: String,
    pub status: String,
}

pub open spec fn key_id() -> Seq<char> {
    seq!['i', 'd']
}

pub open spec fn key_compressed_id() -> Seq<char> {
    seq!['c', 'o', 'm', 'p', 'r', 'e', 's', 's', 'e', 'd', '_', 'i', 'd']
}

pub open spec fn key_status() -> Seq<char> {
    seq!['s', 't', 'a', 't', 'u', 's']
}

/// `"key":` in JSON, for a key that needs no escaping.
pub open spec fn json_key(key: Seq<char>) -> Seq<char> {
    seq!['"'] + key + seq!['"', ':']
}

/// The JSON text of an uploaded event.
pub open spec fn uploaded_json(id: Seq<char>, compressed_id: Seq<char>) -> Seq<char> {
    seq!['{'] + json_key(key_id()) + json_string_literal(id) + seq![','] + json_key(
        key_compressed_id(),
    ) + json_string_literal(compressed_id) + seq!['}']
}

/// The JSON text of a compressed event.
pub open spec fn compressed_json(id: Seq<char>, compressed_id: Seq<char>, status: Seq<char>) -> Seq<
    char,
> {
    seq!['{'] + json_key(key_id()) + json_string_literal(id) + seq![','] + json_key(
        key_compressed_id(),
    ) + json_string_literal(compressed_id) + seq![','] + json_key(key_status())
        + json_string_literal(status) + seq!['}']
}

/// The uploaded event that a list of entries describes.
pub open spec fn uploaded_from(es: Seq<Entry>) -> Option<(Seq<char>, Seq<char>)> {
    match (field_value(es, key_id()), field_value(es, key_compressed_id())) {
        (Some(id), Some(cid)) => Some((id, cid)),
        _ => None,
    }
}

/// The compressed event that a list of entries describes.
pub open spec fn compressed_from(es: Seq<Entry>) -> Option<
    (Seq<char>, Seq<char>, Seq<char>),
> {
    match (
        field_value(es, key_id()),
        field_value(es, key_compressed_id()),
        field_value(es, key_status()),
    ) {
        (Some(id), Some(cid), Some(st)) => Some((id, cid, st)),
        _ => None,
    }
}

/// The uploaded event in a message body, if it holds one.
pub open spec fn decoded_uploaded(b: Seq<u8>) -> Option<(Seq<char>, Seq<char>)> {
    match json_object_entries(b) {
        Some(es) => uploaded_from(es),
        None => None,
    }
}

/// The compressed event in a message body, if it holds one.
pub open spec fn decoded_compressed(b: Seq<u8>) -> Option<(Seq<char>, Seq<char>, Seq<char>)> {
    match json_object_entries(b) {
        Some(es) => compressed_from(es),
        None => None,
    }
}

fn write_key(out: &mut String, key: &str)
    ensures
        final(out)@ == old(out)@ + json_key(key@),
{
    out.append("\"");
    out.append(key);
    out.append("\":");
    proof {
        reveal_strlit("\"");
        reveal_strlit("\":");
    }
    assert(final(out)@ =~= old(out)@ + json_key(key@));
}

impl MediaUploadedMessage {
    /// Reads the event out of the entries of a JSON object.
    pub fn from_fields(es: &Vec<(String, Option<String>)>) -> (r: Option<MediaUploadedMessage>)
        ensures
            r is None <==> uploaded_from(entries_view(es@)) is None,
            r is Some ==> uploaded_from(entries_view(es@)) == Some(
                (r.unwrap().id@, r.unwrap().compressed_id@),
            ),
    {
        let k_id = String::from_str("id");
        let k_cid = String::from_str("compressed_id");
        proof {
            reveal_strlit("id");
            reveal_strlit("compressed_id");
            assert(k_id@ =~= key_id());
            assert(k_cid@ =~= key_compressed_id());
        }
        match (find_field(es, &k_id), find_field(es, &k_cid)) {
            (Some(id), Some(compressed_id)) => Some(MediaUploadedMessage { id, compressed_id }),
            _ => None,
        }
    }

    /// Decodes a message body: a JSON object of string values that holds
    /// `id` and `compressed_id`; other fields are ignored.
    pub fn decode(b: &[u8]) -> (r: Option<MediaUploadedMessage>)
        ensures
            r is None <==> decoded_uploaded(b@) is None,
            r is Some ==> decoded_uploaded(b@) == Some((r.unwrap().id@, r.unwrap().compressed_id@)),
    {
        match parse_json_object(b) {
            Some(es) => MediaUploadedMessage::from_fields(&es),
            None => None,
        }
    }

    /// The JSON body of the event, as UTF-8 bytes.
    pub fn encode(&self) -> (r: Vec<u8>)
        ensures
            r@ == encode_utf8(uploaded_json(self.id@, self.compressed_id@)),
    {
        let mut out = String::from_str("{");
        proof {
            reveal_strlit("{");
        }
        write_key(&mut out, "id");
        out.append(json_quote(self.id.as_str()).as_str());
        out.append(",");
        write_key(&mut out, "compressed_id");
        out.append(json_quote(self.compressed_id.as_str()).as_str());
        out.append("}");
        proof {
            reveal_strlit("id");
            reveal_strlit("compressed_id");
            reveal_strlit(",");
            reveal_strlit("}");
            assert(out@ =~= uploaded_json(self.id@, self.compressed_id@));
        }
        out.as_str().as_bytes_vec()
    }
}

impl MediaCompressedMessage {
    /// Reads the event out of the entries of a JSON object.
    pub fn from_fields(es: &Vec<(String, Option<String>)>) -> (r: Option<MediaCompressedMessage>)
        ensures
            r is None <==> compressed_from(entries_view(es@)) is None,
            r is Some ==> compressed_from(entries_view(es@)) == Some(
                (r.unwrap().id@, r.unwrap().compressed_id@, r.unwrap().status@),
            ),
    {
        let k_id = String::from_str("id");
        let k_cid = String::from_str("compressed_id");
        let k_status = String::from_str("status");
        proof {
            reveal_strlit("id");
            reveal_strlit("compressed_id");
            reveal_strlit("status");
            assert(k_id@ =~= key_id());
            assert(k_cid@ =~= key_compressed_id());
            assert(k_status@ =~= key_status());
        }
        match (find_field(es, &k_id), find_field(es, &k_cid), find_field(es, &k_status)) {
            (Some(id), Some(compressed_id), Some(status)) => Some(
                MediaCompressedMessage { id, compressed_id, status },
            ),
            _ => None,
        }
    }

    /// Decodes a message body: a JSON object of string values that holds
    /// `id`, `compressed_id` and `status`; other fields are ignored.
    pub fn decode(b: &[u8]) -> (r: Option<MediaCompressedMessage>)
        ensures
            r is None <==> decoded_compressed(b@) is None,
            r is Some ==> decoded_compressed(b@) == Some(
                (r.unwrap().id@, r.unwrap().compressed_id@, r.unwrap().status@),
            ),
    {
        match parse_json_object(b) {
            Some(es) => MediaCompressedMessage::from_fields(&es),
            None => None,
        }
    }

    /// The JSON body of the event, as UTF-8 bytes.
    pub fn encode(&self) -> (r: Vec<u8>)
        ensures
            r@ == encode_utf8(compressed_json(self.id@, self.compressed_id@, self.status@)),
    {
        let mut out = String::from_str("{");
        proof {
            reveal_strlit("{");
        }
        write_key(&mut out, "id");
        out.append(json_quote(self.id.as_str()).as_str());
        out.append(",");
        write_key(&mut out, "compressed_id");
        out.append(json_quote(self.compressed_id.as_str()).as_str());
        out.append(",");
        write_key(&mut out, "status");
        out.append(json_quote(self.status.as_str()).as_str());
        out.append("}");
        proof {
            reveal_strlit("id");
            reveal_strlit("compressed_id");
            reveal_strlit("status");
            reveal_strlit(",");
            reveal_strlit("}");
            assert(out@ =~= compressed_json(self.id@, self.compressed_id@, self.status@));
        }
        out.as_str().as_bytes_vec()
    }
}

} // verus!
