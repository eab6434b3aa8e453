use vstd::prelude::*;

use crate::json::JsonValue;

verus! {

#[verifier::external_type_specification]
#[verifier::external_body]
pub struct ExSerdeJsonError(serde_json::Error);

/// The first bytes of an INP puppet file.
pub const INP_MAGIC: [u8; 8] = [84, 82, 78, 83, 82, 84, 83, 0];

/// A parameter of a puppet as its INP file lists it; the ranges and defaults keep the
/// decimal text of their JSON numbers.
#[derive(Debug, Clone, PartialEq, Eq)]
pub struct NumberPair {
    pub x: String,
    pub y: String,
}

#[derive(Debug, Clone, PartialEq, Eq)]
pub struct PuppetParam {
    pub name: String,
    pub is_vec2: bool,
    pub min: NumberPair,
    pub max: NumberPair,
    pub defaults: NumberPair,
}

/// Why the parameters of an INP file could not be read.
#[derive(Debug)]
pub enum ParamBridgeError {
    Io(std::io::Error),
    InvalidMagic,
    Json(serde_json::Error),
    InvalidParamField { index: usize, field: &'static str },
}

/// `io::Error::new(ErrorKind::UnexpectedEof, "failed to fill whole buffer")`, the error of
/// a `read_exact` that runs out of bytes; nothing is claimed of the value.
#[verifier::external_body]
fn unexpected_eof() -> std::io::Error {
    std::io::Error::new(std::io::ErrorKind::UnexpectedEof, "failed to fill whole buffer")
}

/// What `serde_json::from_slice::<serde_json::Value>` makes of bytes, held as a
/// `JsonValue` (`None` where serde_json reports an error).
pub uninterp spec fn json_slice_document(bytes: Seq<u8>) -> Option<JsonValue>;

/// Parses JSON bytes with `serde_json::from_slice::<serde_json::Value>`; the contract
/// claims only that the result is the named document of the bytes, and an error where
/// there is none.
#[verifier::external_body]
fn parse_json_slice(bytes: &[u8]) -> (r: Result<JsonValue, serde_json::Error>)
    ensures
        r is Ok <==> json_slice_document(bytes@) is Some,
        r matches Ok(v) ==> json_slice_document(bytes@) == Some(v),
{
    match serde_json::from_slice::<serde_json::Value>(bytes) {
        Ok(value) => Ok(crate::json::json_from_serde(&value)),
        Err(error) => Err(error),
    }
}

/// A big-endian 32-bit length.
pub open spec fn be_u32(b: Seq<u8>) -> int {
    b[0] * 16777216 + b[1] * 65536 + b[2] * 256 + b[3]
}

/// What the header of an INP file says.
pub enum PayloadView {
    /// The file ends inside the header or the payload.
    Truncated,
    /// The file does not start with the INP magic.
    BadMagic,
    /// The JSON payload that the header announces.
    Payload(Seq<u8>),
}

/// An INP file: eight bytes of magic, a big-endian payload length, the payload.
pub open spec fn inp_payload(bytes: Seq<u8>) -> PayloadView {
    if bytes.len() < 8 {
        PayloadView::Truncated
    } else if bytes.subrange(0, 8) != seq![84u8, 82u8, 78u8, 83u8, 82u8, 84u8, 83u8, 0u8] {
        PayloadView::BadMagic
    } else if bytes.len() < 12 || bytes.len() < 12 + be_u32(bytes.subrange(8, 12)) {
        PayloadView::Truncated
    } else {
        PayloadView::Payload(bytes.subrange(12, 12 + be_u32(bytes.subrange(8, 12))))
    }
}

/// The JSON payload of an INP file.
pub fn extract_payload(inp_bytes: &[u8]) -> (r: Result<Vec<u8>, ParamBridgeError>)
    ensures
        inp_payload(inp_bytes@) is Truncated <==> (r matches Err(ParamBridgeError::Io(_))),
        inp_payload(inp_bytes@) is BadMagic <==> (r matches Err(ParamBridgeError::InvalidMagic)),
        r matches Ok(p) ==> inp_payload(inp_bytes@) == PayloadView::Payload(p@),
        r is Ok || r matches Err(ParamBridgeError::Io(_)) || r matches Err(ParamBridgeError::InvalidMagic),
{
    if inp_bytes.len() < 8 {
        return Err(ParamBridgeError::Io(unexpected_eof()));
    }
    let mut i: usize = 0;
    while i < 8
        invariant
            i <= 8 <= inp_bytes@.len(),
            forall|j: int| 0 <= j < i ==> inp_bytes@[j] == INP_MAGIC@[j],
        decreases 8 - i,
    {
        if inp_bytes[i] != INP_MAGIC[i] {
            proof {
                assert(inp_bytes@.subrange(0, 8)[i as int] != seq![84u8, 82u8, 78u8, 83u8, 82u8, 84u8, 83u8, 0u8][i as int]);
            }
            return Err(ParamBridgeError::InvalidMagic);
        }
        i += 1;
    }
    assert(inp_bytes@.subrange(0, 8) =~= seq![84u8, 82u8, 78u8, 83u8, 82u8, 84u8, 83u8, 0u8]);
    if inp_bytes.len() < 12 {
        return Err(ParamBridgeError::Io(unexpected_eof()));
    }
    let len: usize = (inp_bytes[8] as usize) * 16777216 + (inp_bytes[9] as usize) * 65536
        + (inp_bytes[10] as usize) * 256 + (inp_bytes[11] as usize);
    assert(len == be_u32(inp_bytes@.subrange(8, 12)));
    if inp_bytes.len() - 12 < len {
        return Err(ParamBridgeError::Io(unexpected_eof()));
    }
    let n = inp_bytes.len();
    let mut payload: Vec<u8> = Vec::new();
    let mut k: usize = 0;
    while k < len
        invariant
            k <= len,
            n == inp_bytes@.len(),
            12 + len <= n,
            payload@ == inp_bytes@.subrange(12, 12 + k),
        decreases len - k,
    {
        payload.push(inp_bytes[12 + k]);
        assert(inp_bytes@.subrange(12, 12 + k + 1) =~= inp_bytes@.subrange(12, 12 + k).push(inp_bytes@[12 + k]));
        k += 1;
    }
    Ok(payload)
}

/// A parameter as plain values.
pub struct ParamView {
    pub name: Seq<char>,
    pub is_vec2: bool,
    pub min: (Seq<char>, Seq<char>),
    pub max: (Seq<char>, Seq<char>),
    pub defaults: (Seq<char>, Seq<char>),
}

pub open spec fn param_view(p: PuppetParam) -> ParamView {
    ParamView {
        name: p.name@,
        is_vec2: p.is_vec2,
        min: (p.min.x@, p.min.y@),
        max: (p.max.x@, p.max.y@),
        defaults: (p.defaults.x@, p.defaults.y@),
    }
}

/// The decimal text of a JSON number.
pub open spec fn number_text(v: JsonValue) -> Option<Seq<char>> {
    match v {
        JsonValue::Number(t) => Some(t@),
        _ => None,
    }
}

/// A pair of numbers: an array of exactly two JSON numbers.
pub open spec fn number_pair(v: Option<JsonValue>) -> Option<(Seq<char>, Seq<char>)> {
    match v {
        Some(JsonValue::Array(items)) => if items@.len() == 2 && number_text(items@[0]) is Some
            && number_text(items@[1]) is Some
        {
            Some((number_text(items@[0])->0, number_text(items@[1])->0))
        } else {
            None
        },
        _ => None,
    }
}

/// One entry of the `param` list: the parameter, or the first field that is not valid.
pub open spec fn param_entry(v: JsonValue) -> Result<ParamView, Seq<char>> {
    match v {
        JsonValue::Object(_) => {
            let name = match v.field("name"@) {
                Some(n) => n.text(),
                None => None,
            };
            let is_vec2 = match v.field("is_vec2"@) {
                Some(JsonValue::Bool(b)) => Some(b),
                _ => None,
            };
            if name is None {
                Err("name"@)
            } else if is_vec2 is None {
                Err("is_vec2"@)
            } else if number_pair(v.field("min"@)) is None {
                Err("min"@)
            } else if number_pair(v.field("max"@)) is None {
                Err("max"@)
            } else if number_pair(v.field("defaults"@)) is None {
                Err("defaults"@)
            } else {
                Ok(ParamView {
                    name: name->0,
                    is_vec2: is_vec2->0,
                    min: number_pair(v.field("min"@))->0,
                    max: number_pair(v.field("max"@))->0,
                    defaults: number_pair(v.field("defaults"@))->0,
                })
            }
        },
        _ => Err("param"@),
    }
}

/// The first entry of the list that is not a valid parameter.
pub open spec fn first_invalid(items: Seq<JsonValue>) -> Option<int>
    decreases items.len(),
{
    if items.len() == 0 {
        None
    } else {
        match first_invalid(items.drop_last()) {
            Some(i) => Some(i),
            None => if param_entry(items.last()) is Err { Some(items.len() - 1) } else { None },
        }
    }
}

/// The `param` list of the payload document, when it is a list.
pub open spec fn param_list(root: JsonValue) -> Option<Seq<JsonValue>> {
    match root.field("param"@) {
        Some(JsonValue::Array(items)) => Some(items@),
        _ => None,
    }
}

/// Reads the `param` list of an INP payload document.
pub fn params_of_document(root: &JsonValue) -> (r: Result<Vec<PuppetParam>, ParamBridgeError>)
    ensures
        param_list(*root) is None ==> (r matches Ok(ps) && ps@.len() == 0),
        param_list(*root) matches Some(items) ==> match first_invalid(items) {
            None => r matches Ok(ps) && ps@.len() == items.len()
                && forall|i: int| 0 <= i < items.len() ==> param_entry(items[i]) == Ok::<ParamView, Seq<char>>(param_view(#[trigger] ps@[i])),
            Some(k) => r matches Err(ParamBridgeError::InvalidParamField { index, field })
                && index == k && param_entry(items[k]) == Err::<ParamView, Seq<char>>(field@),
        },
{
    let items = match root.get("param") {
        Some(JsonValue::Array(items)) => items,
        _ => return Ok(Vec::new()),
    };
    let ghost all = items@;
    assert(param_list(*root) == Some(all));
    let mut params: Vec<PuppetParam> = Vec::new();
    let mut i: usize = 0;
    while i < items.len()
        invariant
            i <= items.len(),
            all == items@,
            param_list(*root) == Some(all),
            first_invalid(all.take(i as int)) is None,
            params@.len() == i,
            forall|j: int| 0 <= j < i ==> param_entry(all[j]) == Ok::<ParamView, Seq<char>>(param_view(#[trigger] params@[j])),
        decreases items.len() - i,
    {
        proof {
            let t = all.take(i + 1);
            assert(t.drop_last() =~= all.take(i as int));
            assert(t.last() == all[i as int]);
        }
        match param_from_value(&items[i]) {
            Ok(p) => params.push(p),
            Err(field) => {
                proof {
                    lemma_first_invalid_prefix(all, i as int);
                }
                return Err(ParamBridgeError::InvalidParamField { index: i, field });
            },
        }
        i += 1;
    }
    proof {
        assert(all.take(all.len() as int) =~= all);
    }
    Ok(params)
}

proof fn lemma_first_invalid_prefix(items: Seq<JsonValue>, k: int)
    requires
        0 <= k < items.len(),
        first_invalid(items.take(k)) is None,
        param_entry(items[k]) is Err,
    ensures
        first_invalid(items) == Some(k),
    decreases items.len(),
{
    if items.len() == k + 1 {
        assert(items.drop_last() =~= items.take(k));
    } else {
        assert(items.drop_last().take(k) =~= items.take(k));
        lemma_first_invalid_prefix(items.drop_last(), k);
    }
}

fn number_pair_of(v: Option<&JsonValue>) -> (r: Option<NumberPair>)
    ensures
        r matches Some(p) ==> number_pair(crate::codex::parser::deref_opt(v)) == Some((p.x@, p.y@)),
        r is None ==> number_pair(crate::codex::parser::deref_opt(v)) is None,
{
    match v {
        Some(JsonValue::Array(items)) => {
            if items.len() != 2 {
                return None;
            }
            let x = match &items[0] {
                JsonValue::Number(t) => t.clone(),
                _ => return None,
            };
            let y = match &items[1] {
                JsonValue::Number(t) => t.clone(),
                _ => return None,
            };
            Some(NumberPair { x, y })
        },
        _ => None,
    }
}

fn param_from_value(v: &JsonValue) -> (r: Result<PuppetParam, &'static str>)
    ensures
        r matches Ok(p) ==> param_entry(*v) == Ok::<ParamView, Seq<char>>(param_view(p)),
        r matches Err(field) ==> param_entry(*v) == Err::<ParamView, Seq<char>>(field@),
{
    match v {
        JsonValue::Object(_) => {},
        _ => return Err("param"),
    }
    let name = match v.get("name") {
        Some(n) => match n.as_text() {
            Some(t) => t.clone(),
            None => return Err("name"),
        },
        None => return Err("name"),
    };
    let is_vec2 = match v.get("is_vec2") {
        Some(JsonValue::Bool(b)) => *b,
        _ => return Err("is_vec2"),
    };
    let min = match number_pair_of(v.get("min")) {
        Some(p) => p,
        None => return Err("min"),
    };
    let max = match number_pair_of(v.get("max")) {
        Some(p) => p,
        None => return Err("max"),
    };
    let defaults = match number_pair_of(v.get("defaults")) {
        Some(p) => p,
        None => return Err("defaults"),
    };
    Ok(PuppetParam { name, is_vec2, min, max, defaults })
}

/// The parameters an INP puppet file lists: its payload is read, parsed as JSON, and
/// each entry of its `param` list checked.
pub fn extract_available_params(inp_bytes: &[u8]) -> (r: Result<Vec<PuppetParam>, ParamBridgeError>)
    ensures
        !(inp_payload(inp_bytes@) is Payload) ==> r is Err,
        inp_payload(inp_bytes@) is Truncated ==> (r matches Err(ParamBridgeError::Io(_))),
        inp_payload(inp_bytes@) is BadMagic ==> (r matches Err(ParamBridgeError::InvalidMagic)),
        inp_payload(inp_bytes@) matches PayloadView::Payload(p) ==> {
            &&& json_slice_document(p) is None <==> (r matches Err(ParamBridgeError::Json(_)))
            &&& json_slice_document(p) matches Some(root) ==> {
                &&& param_list(root) is None ==> (r matches Ok(ps) && ps@.len() == 0)
                &&& param_list(root) matches Some(items) ==> match first_invalid(items) {
                    None => r matches Ok(ps) && ps@.len() == items.len()
                        && forall|i: int| 0 <= i < items.len()
                            ==> param_entry(items[i]) == Ok::<ParamView, Seq<char>>(param_view(#[trigger] ps@[i])),
                    Some(k) => r matches Err(ParamBridgeError::InvalidParamField { index, field })
                        && index == k && param_entry(items[k]) == Err::<ParamView, Seq<char>>(field@),
                }
            }
        },
{
    let payload = extract_payload(inp_bytes)?;
    let root = match parse_json_slice(payload.as_slice()) {
        Ok(root) => root,
        Err(error) => return Err(ParamBridgeError::Json(error)),
    };
    params_of_document(&root)
}

} // verus!
