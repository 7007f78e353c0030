//! The extractor layer: decode captured path segments, query strings
//! and structured bodies into typed values, reporting malformed input
//! as a distinguishable error before any handler runs.

use vstd::prelude::*;
use vstd::string::StringSliceAdditionalSpecFns;
use crate::bytesx::{
    split_spec, split_from, views_of, pair_views, assoc_spec, assoc_lookup,
    parse_u32, parse_u32_spec, byte_str,
};
use crate::jsonio::{
    json_str_field, json_string_field, json_str_list_field, json_string_list_field,
    json_field_present, json_has_field,
};

verus! {

/// Why extraction failed, before the handler ran.
#[derive(Debug)]
pub enum ExtractionError {
    /// A declared field has no captured or supplied value.
    Missing(Vec<u8>),
    /// A value exists but cannot be converted to the field's type.
    TypeMismatch(Vec<u8>),
    /// The raw input does not parse under the declared format.
    Malformed,
    /// The body exceeds the configured size limit.
    TooLarge,
}

/// Mathematical model of an `ExtractionError`.
pub enum ErrModel {
    Missing(Seq<u8>),
    TypeMismatch(Seq<u8>),
    Malformed,
    TooLarge,
}

impl ExtractionError {
    pub open spec fn model(&self) -> ErrModel {
        match self {
            ExtractionError::Missing(f) => ErrModel::Missing(f@),
            ExtractionError::TypeMismatch(f) => ErrModel::TypeMismatch(f@),
            ExtractionError::Malformed => ErrModel::Malformed,
            ExtractionError::TooLarge => ErrModel::TooLarge,
        }
    }
}

// ---------------------------------------------------------------------------
// key=value pair lists (query strings and form bodies)
// ---------------------------------------------------------------------------

/// A chunk `key=value` read as a pair: it must split at `=` into
/// exactly two parts.
pub open spec fn chunk_pair(c: Seq<u8>) -> Option<(Seq<u8>, Seq<u8>)> {
    let p = split_spec(c, 61);
    if p.len() == 2 {
        Option::Some((p[0], p[1]))
    } else {
        Option::None
    }
}

/// The pairs of a `&`-separated list of `key=value` chunks; nothing
/// when some chunk is not such a pair. Empty input carries no pairs.
pub open spec fn pairs_spec(s: Seq<u8>) -> Option<Seq<(Seq<u8>, Seq<u8>)>> {
    if s.len() == 0 {
        Option::Some(Seq::empty())
    } else {
        let chunks = split_spec(s, 38);
        if forall|i: int| 0 <= i < chunks.len() ==> chunk_pair(#[trigger] chunks[i]) is Some {
            Option::Some(Seq::new(chunks.len(), |i: int| chunk_pair(chunks[i]).unwrap()))
        } else {
            Option::None
        }
    }
}

/// Split a query string or form body into its `key=value` pairs.
pub fn parse_pairs(s: &[u8]) -> (r: Result<Vec<(Vec<u8>, Vec<u8>)>, ExtractionError>)
    ensures
        match r {
            Result::Ok(v) => pairs_spec(s@) == Option::Some(pair_views(v@)),
            Result::Err(e) => pairs_spec(s@) is None && e.model() == ErrModel::Malformed,
        },
{
    if s.len() == 0 {
        let r: Vec<(Vec<u8>, Vec<u8>)> = Vec::new();
        proof {
            assert(pair_views(r@) =~= Seq::<(Seq<u8>, Seq<u8>)>::empty());
        }
        return Result::Ok(r);
    }
    let chunks = split_from(s, 0, 38);
    proof {
        assert(s@.subrange(0, s@.len() as int) =~= s@);
    }
    let ghost cm = split_spec(s@, 38);
    let mut out: Vec<(Vec<u8>, Vec<u8>)> = Vec::new();
    let mut i: usize = 0;
    while i < chunks.len()
        invariant
            i <= chunks@.len(),
            views_of(chunks@) == cm,
            cm == split_spec(s@, 38),
            s@.len() > 0,
            out@.len() == i,
            forall|j: int| 0 <= j < i ==> chunk_pair(#[trigger] cm[j]) is Some,
            forall|j: int| 0 <= j < i
                ==> #[trigger] pair_views(out@)[j] == chunk_pair(cm[j]).unwrap(),
        decreases chunks@.len() - i,
    {
        let kv = split_from(chunks[i].as_slice(), 0, 61);
        proof {
            assert(chunks@[i as int]@.subrange(0, chunks@[i as int]@.len() as int)
                =~= chunks@[i as int]@);
            assert(views_of(kv@) == split_spec(cm[i as int], 61));
        }
        if kv.len() != 2 {
            proof {
                assert(chunk_pair(cm[i as int]) is None);
            }
            return Result::Err(ExtractionError::Malformed);
        }
        let k = kv[0].clone();
        let v = kv[1].clone();
        let ghost out_pre = out@;
        out.push((k, v));
        proof {
            assert(views_of(kv@)[0] == kv@[0]@);
            assert(views_of(kv@)[1] == kv@[1]@);
            assert forall|j: int| 0 <= j < i + 1
                implies #[trigger] pair_views(out@)[j] == chunk_pair(cm[j]).unwrap()
            by {
                if j < i as int {
                    assert(pair_views(out_pre)[j] == chunk_pair(cm[j]).unwrap());
                    assert(out@[j] == out_pre[j]);
                } else {
                    assert(pair_views(out@)[i as int] == chunk_pair(cm[i as int]).unwrap());
                }
            }
        }
        i = i + 1;
    }
    proof {
        assert(pair_views(out@) =~= Seq::new(cm.len(), |j: int| chunk_pair(cm[j]).unwrap()));
    }
    Result::Ok(out)
}

// ---------------------------------------------------------------------------
// Typed extractors
// ---------------------------------------------------------------------------

/// Path data of the two-parameter echo route.
pub struct MyInfo {
    pub user_id: u32,
    pub name: Vec<u8>,
}

pub struct MyInfoModel {
    pub user_id: u32,
    pub name: Seq<u8>,
}

impl MyInfo {
    pub open spec fn model(&self) -> MyInfoModel {
        MyInfoModel { user_id: self.user_id, name: self.name@ }
    }
}

/// What binding captured path segments into a `MyInfo` yields: the
/// fields in declaration order, the first failure reported.
pub open spec fn my_info_spec(pairs: Seq<(Seq<u8>, Seq<u8>)>) -> Result<MyInfoModel, ErrModel> {
    match assoc_spec(pairs, "user_id".spec_bytes()) {
        Option::None => Result::Err(ErrModel::Missing("user_id".spec_bytes())),
        Option::Some(raw) => match parse_u32_spec(raw) {
            Option::None => Result::Err(ErrModel::TypeMismatch("user_id".spec_bytes())),
            Option::Some(uid) => match assoc_spec(pairs, "name".spec_bytes()) {
                Option::None => Result::Err(ErrModel::Missing("name".spec_bytes())),
                Option::Some(nm) => Result::Ok(MyInfoModel { user_id: uid, name: nm }),
            },
        },
    }
}

/// Bind captured path segments into a `MyInfo`.
pub fn extract_my_info(pairs: &Vec<(Vec<u8>, Vec<u8>)>) -> (r: Result<MyInfo, ExtractionError>)
    ensures
        match r {
            Result::Ok(v) => my_info_spec(pair_views(pairs@)) == Result::<MyInfoModel, ErrModel>::Ok(v.model()),
            Result::Err(e) => my_info_spec(pair_views(pairs@))
                == Result::<MyInfoModel, ErrModel>::Err(e.model()),
        },
{
    let key_uid = byte_str("user_id");
    match assoc_lookup(pairs, key_uid.as_slice()) {
        Option::None => Result::Err(ExtractionError::Missing(key_uid)),
        Option::Some(raw) => match parse_u32(raw.as_slice()) {
            Option::None => Result::Err(ExtractionError::TypeMismatch(key_uid)),
            Option::Some(uid) => {
                let key_name = byte_str("name");
                match assoc_lookup(pairs, key_name.as_slice()) {
                    Option::None => Result::Err(ExtractionError::Missing(key_name)),
                    Option::Some(nm) => Result::Ok(MyInfo { user_id: uid, name: nm }),
                }
            },
        },
    }
}

/// Query (or JSON) data carrying one `name` field.
pub struct Info2 {
    pub name: Vec<u8>,
}

pub struct Info2Model {
    pub name: Seq<u8>,
}

impl Info2 {
    pub open spec fn model(&self) -> Info2Model {
        Info2Model { name: self.name@ }
    }
}

/// What decoding a query string into an `Info2` yields.
pub open spec fn query_info2_spec(q: Seq<u8>) -> Result<Info2Model, ErrModel> {
    match pairs_spec(q) {
        Option::None => Result::Err(ErrModel::Malformed),
        Option::Some(pairs) => match assoc_spec(pairs, "name".spec_bytes()) {
            Option::None => Result::Err(ErrModel::Missing("name".spec_bytes())),
            Option::Some(nm) => Result::Ok(Info2Model { name: nm }),
        },
    }
}

/// Decode a query string into an `Info2`.
pub fn extract_query_info2(q: &[u8]) -> (r: Result<Info2, ExtractionError>)
    ensures
        match r {
            Result::Ok(v) => query_info2_spec(q@) == Result::<Info2Model, ErrModel>::Ok(v.model()),
            Result::Err(e) => query_info2_spec(q@)
                == Result::<Info2Model, ErrModel>::Err(e.model()),
        },
{
    match parse_pairs(q) {
        Result::Err(e) => Result::Err(e),
        Result::Ok(pairs) => {
            let key = byte_str("name");
            match assoc_lookup(&pairs, key.as_slice()) {
                Option::None => Result::Err(ExtractionError::Missing(key)),
                Option::Some(nm) => Result::Ok(Info2 { name: nm }),
            }
        },
    }
}

/// What decoding a JSON body into an `Info2` yields: the object's
/// `name` string field, or a malformed-input error.
pub open spec fn json_info2_spec(body: Seq<u8>) -> Result<Info2Model, ErrModel> {
    match json_str_field(body, "name"@) {
        Option::None => Result::Err(ErrModel::Malformed),
        Option::Some(nm) => Result::Ok(Info2Model { name: nm }),
    }
}

/// Decode a JSON body into an `Info2`.
pub fn extract_json_info2(body: &[u8]) -> (r: Result<Info2, ExtractionError>)
    ensures
        match r {
            Result::Ok(v) => json_info2_spec(body@) == Result::<Info2Model, ErrModel>::Ok(v.model()),
            Result::Err(e) => json_info2_spec(body@)
                == Result::<Info2Model, ErrModel>::Err(e.model()),
        },
{
    match json_string_field(body, "name") {
        Option::None => Result::Err(ExtractionError::Malformed),
        Option::Some(nm) => Result::Ok(Info2 { name: nm }),
    }
}

/// Form-encoded data of the form route.
pub struct FormData {
    pub username: Vec<u8>,
    pub number: u32,
}

pub struct FormModel {
    pub username: Seq<u8>,
    pub number: u32,
}

impl FormData {
    pub open spec fn model(&self) -> FormModel {
        FormModel { username: self.username@, number: self.number }
    }
}

/// What decoding a form-encoded body into a `FormData` yields.
pub open spec fn form_data_spec(body: Seq<u8>) -> Result<FormModel, ErrModel> {
    match pairs_spec(body) {
        Option::None => Result::Err(ErrModel::Malformed),
        Option::Some(pairs) => match assoc_spec(pairs, "username".spec_bytes()) {
            Option::None => Result::Err(ErrModel::Missing("username".spec_bytes())),
            Option::Some(u) => match assoc_spec(pairs, "number".spec_bytes()) {
                Option::None => Result::Err(ErrModel::Missing("number".spec_bytes())),
                Option::Some(raw) => match parse_u32_spec(raw) {
                    Option::None => Result::Err(ErrModel::TypeMismatch("number".spec_bytes())),
                    Option::Some(n) => Result::Ok(FormModel { username: u, number: n }),
                },
            },
        },
    }
}

/// Decode a form-encoded body into a `FormData`.
pub fn extract_form(body: &[u8]) -> (r: Result<FormData, ExtractionError>)
    ensures
        match r {
            Result::Ok(v) => form_data_spec(body@) == Result::<FormModel, ErrModel>::Ok(v.model()),
            Result::Err(e) => form_data_spec(body@)
                == Result::<FormModel, ErrModel>::Err(e.model()),
        },
{
    match parse_pairs(body) {
        Result::Err(e) => Result::Err(e),
        Result::Ok(pairs) => {
            let key_user = byte_str("username");
            match assoc_lookup(&pairs, key_user.as_slice()) {
                Option::None => Result::Err(ExtractionError::Missing(key_user)),
                Option::Some(u) => {
                    let key_num = byte_str("number");
                    match assoc_lookup(&pairs, key_num.as_slice()) {
                        Option::None => Result::Err(ExtractionError::Missing(key_num)),
                        Option::Some(raw) => match parse_u32(raw.as_slice()) {
                            Option::None => Result::Err(ExtractionError::TypeMismatch(key_num)),
                            Option::Some(n) => Result::Ok(FormData { username: u, number: n }),
                        },
                    }
                },
            }
        },
    }
}

/// Whether a JSON body carries the event shape: a string `kind`, an
/// array-of-strings `tags`, and a `timestamp` field of whatever type.
pub open spec fn event_body_ok(body: Seq<u8>) -> bool {
    json_str_field(body, "kind"@) is Some && json_str_list_field(body, "tags"@) is Some
        && json_field_present(body, "timestamp"@)
}

/// Decode the event fields the capture handler reads from a JSON body.
pub fn extract_event(body: &[u8]) -> (r: Result<(Vec<u8>, Vec<Vec<u8>>), ExtractionError>)
    ensures
        match r {
            Result::Ok(kt) => event_body_ok(body@)
                && json_str_field(body@, "kind"@) == Option::Some(kt.0@)
                && json_str_list_field(body@, "tags"@) == Option::Some(views_of(kt.1@)),
            Result::Err(e) => !event_body_ok(body@) && e.model() == ErrModel::Malformed,
        },
{
    let kind = match json_string_field(body, "kind") {
        Option::Some(k) => k,
        Option::None => {
            return Result::Err(ExtractionError::Malformed);
        },
    };
    let tags = match json_string_list_field(body, "tags") {
        Option::Some(t) => t,
        Option::None => {
            return Result::Err(ExtractionError::Malformed);
        },
    };
    if !json_has_field(body, "timestamp") {
        return Result::Err(ExtractionError::Malformed);
    }
    Result::Ok((kind, tags))
}

/// Enforce a configured body-size cap before any parsing.
pub fn check_body_limit(body: &[u8], limit: usize) -> (r: Result<(), ExtractionError>)
    ensures
        match r {
            Result::Ok(_) => body@.len() <= limit,
            Result::Err(e) => body@.len() > limit && e.model() == ErrModel::TooLarge,
        },
{
    if body.len() > limit {
        Result::Err(ExtractionError::TooLarge)
    } else {
        Result::Ok(())
    }
}

} // verus!
