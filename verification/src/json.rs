//! The trusted boundary to the JSON decoder, and the verified decoders
//! built on it. Each trusted wrapper makes one query of the response
//! text with serde_json and hands back plain values; serde_json is
//! deterministic, so each result is a function of the text alone and
//! carries a name. What a whole response denotes — `directory_of`,
//! `generate_address_of`, `reserve_record_of`, `list_result_of` — is an
//! open composition of those names, and the decode functions below are
//! verified to return exactly it.

use vstd::prelude::*;
use vstd::string::*;

use crate::error::Error;
use crate::manager::{
    HMEListEmails, HMEListResult, HMEReserveResult, ListEmailModel, ListResultModel, ReserveModel,
};
use crate::session::{dir_models, Service, ServiceEntry, ServiceEntryModel, ServiceModel};

verus! {

/// The text is a JSON object carrying a boolean `success` and an
/// unsigned integer `timestamp`, the envelope every manager response
/// must carry.
pub uninterp spec fn envelope_ok_of(body: Seq<char>) -> bool;

/// The string under `result.hme`, if the text is a JSON document with
/// one there.
pub uninterp spec fn generate_hme_of(body: Seq<char>) -> Option<Seq<char>>;

/// The seven string fields of the record under `result.hme`: origin,
/// anonymousId, domain, hme, label, note, recipientMailId.
pub uninterp spec fn reserve_strings_of(body: Seq<char>) -> Option<
    (Seq<char>, Seq<char>, Seq<char>, Seq<char>, Seq<char>, Seq<char>, Seq<char>),
>;

/// The `createTimestamp` and `isActive` fields of the record under
/// `result.hme`.
pub uninterp spec fn reserve_scalars_of(body: Seq<char>) -> Option<(u64, bool)>;

/// The field names of the `webservices` object, in the decoder's field
/// order, provided every field holds an object.
pub uninterp spec fn directory_names_of(body: Seq<char>) -> Option<Seq<Seq<char>>>;

/// A field of one service of the `webservices` object: absent or null is
/// `Some(None)`, a string is `Some(Some(..))`, and any other value is
/// nothing.
pub uninterp spec fn service_field_of(body: Seq<char>, name: Seq<char>, field: Seq<char>) -> Option<
    Option<Seq<char>>,
>;

/// The strings of the `result.forwardToEmails` array.
pub uninterp spec fn list_forwards_of(body: Seq<char>) -> Option<Seq<Seq<char>>>;

/// The length of the `result.hmeEmails` array.
pub uninterp spec fn list_count_of(body: Seq<char>) -> Option<int>;

/// The eight string fields of the record at index `i` of
/// `result.hmeEmails`: origin, anonymousId, domain, forwardToEmail, hme,
/// label, note, recipientMailId.
pub uninterp spec fn list_record_strings_of(body: Seq<char>, i: int) -> Option<
    (Seq<char>, Seq<char>, Seq<char>, Seq<char>, Seq<char>, Seq<char>, Seq<char>, Seq<char>),
>;

/// The `createTimestamp` and `isActive` fields of the record at index
/// `i` of `result.hmeEmails`.
pub uninterp spec fn list_record_scalars_of(body: Seq<char>, i: int) -> Option<(u64, bool)>;

/// The string under `result.selectedForwardTo`.
pub uninterp spec fn list_selected_of(body: Seq<char>) -> Option<Seq<char>>;

/// Relies on serde_json::from_str, Value::get, Value::is_boolean and
/// Value::as_u64: whether the text carries the common envelope.
#[verifier::external_body]
fn envelope_ok(body: &str) -> (r: bool)
    ensures
        r == envelope_ok_of(body@),
{
    let Ok(doc) = serde_json::from_str::<serde_json::Value>(body) else { return false };
    doc.get("success").is_some_and(serde_json::Value::is_boolean) && doc.get("timestamp").and_then(
        serde_json::Value::as_u64,
    ).is_some()
}

/// Relies on serde_json::from_str, Value::get and Value::as_str: the
/// string under `result.hme`. The error carries the parser's words for
/// text that is not JSON, and is empty for a wrong shape.
#[verifier::external_body]
fn generate_hme(body: &str) -> (r: Result<String, String>)
    ensures
        match r {
            Ok(s) => generate_hme_of(body@) == Some(s@),
            Err(_) => generate_hme_of(body@) is None,
        },
{
    let doc: serde_json::Value = serde_json::from_str(body).map_err(|e| e.to_string())?;
    doc.get("result").and_then(|x| x.get("hme")).and_then(serde_json::Value::as_str).map(
        str::to_owned,
    ).ok_or_else(String::new)
}

/// Relies on serde_json::from_str, Value::get and Value::as_str: the
/// seven string fields of the record under `result.hme`.
#[verifier::external_body]
fn reserve_strings(body: &str) -> (r: Result<
    (String, String, String, String, String, String, String),
    String,
>)
    ensures
        match r {
            Ok(t) => reserve_strings_of(body@) == Some(
                (t.0@, t.1@, t.2@, t.3@, t.4@, t.5@, t.6@),
            ),
            Err(_) => reserve_strings_of(body@) is None,
        },
{
    let doc: serde_json::Value = serde_json::from_str(body).map_err(|e| e.to_string())?;
    let h = doc.get("result").and_then(|x| x.get("hme")).ok_or_else(String::new)?;
    let s = |k: &str| h.get(k).and_then(serde_json::Value::as_str).map(str::to_owned).ok_or_else(
        String::new,
    );
    Ok((s("origin")?, s("anonymousId")?, s("domain")?, s("hme")?, s("label")?, s("note")?, s(
        "recipientMailId",
    )?))
}

/// Relies on serde_json::from_str, Value::get, Value::as_u64 and
/// Value::as_bool: the timestamp and active flag of the record under
/// `result.hme`.
#[verifier::external_body]
fn reserve_scalars(body: &str) -> (r: Result<(u64, bool), String>)
    ensures
        match r {
            Ok(t) => reserve_scalars_of(body@) == Some((t.0, t.1)),
            Err(_) => reserve_scalars_of(body@) is None,
        },
{
    let doc: serde_json::Value = serde_json::from_str(body).map_err(|e| e.to_string())?;
    let h = doc.get("result").and_then(|x| x.get("hme")).ok_or_else(String::new)?;
    let ts = h.get("createTimestamp").and_then(serde_json::Value::as_u64).ok_or_else(String::new)?;
    let act = h.get("isActive").and_then(serde_json::Value::as_bool).ok_or_else(String::new)?;
    Ok((ts, act))
}

/// Relies on serde_json::from_str, Value::get, Value::as_object,
/// Value::is_object and the object iterator: the service names of the
/// `webservices` object, each of which must hold an object.
#[verifier::external_body]
fn directory_names(body: &str) -> (r: Result<Vec<String>, String>)
    ensures
        match r {
            Ok(v) => directory_names_of(body@) == Some(v@.map_values(|s: String| s@)),
            Err(_) => directory_names_of(body@) is None,
        },
{
    let doc: serde_json::Value = serde_json::from_str(body).map_err(|e| e.to_string())?;
    let m = doc.get("webservices").and_then(serde_json::Value::as_object).ok_or_else(
        String::new,
    )?;
    if !m.values().all(serde_json::Value::is_object) {
        return Err(String::new());
    }
    Ok(m.keys().cloned().collect())
}

/// Relies on serde_json::from_str, Value::get, Value::is_null and
/// Value::as_str: one optional string field of one service of the
/// `webservices` object.
#[verifier::external_body]
fn service_field(body: &str, name: &str, field: &str) -> (r: Result<Option<String>, String>)
    ensures
        match r {
            Ok(f) => service_field_of(body@, name@, field@) == Some(
                match f {
                    Some(s) => Some(s@),
                    None => None,
                },
            ),
            Err(_) => service_field_of(body@, name@, field@) is None,
        },
{
    let doc: serde_json::Value = serde_json::from_str(body).map_err(|e| e.to_string())?;
    match doc.get("webservices").and_then(|w| w.get(name)).and_then(|v| v.get(field)) {
        None => Ok(None),
        Some(x) if x.is_null() => Ok(None),
        Some(x) => x.as_str().map(|s| Some(s.to_owned())).ok_or_else(String::new),
    }
}

/// Relies on serde_json::from_str, Value::get, Value::as_array and
/// Value::as_str: the strings of the `result.forwardToEmails` array.
#[verifier::external_body]
fn list_forwards(body: &str) -> (r: Result<Vec<String>, String>)
    ensures
        match r {
            Ok(v) => list_forwards_of(body@) == Some(v@.map_values(|s: String| s@)),
            Err(_) => list_forwards_of(body@) is None,
        },
{
    let doc: serde_json::Value = serde_json::from_str(body).map_err(|e| e.to_string())?;
    let a = doc.get("result").and_then(|x| x.get("forwardToEmails")).and_then(
        serde_json::Value::as_array,
    ).ok_or_else(String::new)?;
    a.iter().map(|x| x.as_str().map(str::to_owned)).collect::<Option<Vec<String>>>().ok_or_else(
        String::new,
    )
}

/// Relies on serde_json::from_str, Value::get and Value::as_array: the
/// length of the `result.hmeEmails` array.
#[verifier::external_body]
fn list_count(body: &str) -> (r: Result<usize, String>)
    ensures
        match r {
            Ok(n) => list_count_of(body@) == Some(n as int),
            Err(_) => list_count_of(body@) is None,
        },
{
    let doc: serde_json::Value = serde_json::from_str(body).map_err(|e| e.to_string())?;
    let a = doc.get("result").and_then(|x| x.get("hmeEmails")).and_then(
        serde_json::Value::as_array,
    ).ok_or_else(String::new)?;
    Ok(a.len())
}

/// Relies on serde_json::from_str, Value::get and Value::as_str: the
/// eight string fields of the record at index `i` of `result.hmeEmails`.
#[verifier::external_body]
fn list_record_strings(body: &str, i: usize) -> (r: Result<
    (String, String, String, String, String, String, String, String),
    String,
>)
    ensures
        match r {
            Ok(t) => list_record_strings_of(body@, i as int) == Some(
                (t.0@, t.1@, t.2@, t.3@, t.4@, t.5@, t.6@, t.7@),
            ),
            Err(_) => list_record_strings_of(body@, i as int) is None,
        },
{
    let doc: serde_json::Value = serde_json::from_str(body).map_err(|e| e.to_string())?;
    let h = doc.get("result").and_then(|x| x.get("hmeEmails")).and_then(|x| x.get(i)).ok_or_else(
        String::new,
    )?;
    let s = |k: &str| h.get(k).and_then(serde_json::Value::as_str).map(str::to_owned).ok_or_else(
        String::new,
    );
    Ok((s("origin")?, s("anonymousId")?, s("domain")?, s("forwardToEmail")?, s("hme")?, s(
        "label",
    )?, s("note")?, s("recipientMailId")?))
}

/// Relies on serde_json::from_str, Value::get, Value::as_u64 and
/// Value::as_bool: the timestamp and active flag of the record at index
/// `i` of `result.hmeEmails`.
#[verifier::external_body]
fn list_record_scalars(body: &str, i: usize) -> (r: Result<(u64, bool), String>)
    ensures
        match r {
            Ok(t) => list_record_scalars_of(body@, i as int) == Some((t.0, t.1)),
            Err(_) => list_record_scalars_of(body@, i as int) is None,
        },
{
    let doc: serde_json::Value = serde_json::from_str(body).map_err(|e| e.to_string())?;
    let h = doc.get("result").and_then(|x| x.get("hmeEmails")).and_then(|x| x.get(i)).ok_or_else(
        String::new,
    )?;
    let ts = h.get("createTimestamp").and_then(serde_json::Value::as_u64).ok_or_else(String::new)?;
    let act = h.get("isActive").and_then(serde_json::Value::as_bool).ok_or_else(String::new)?;
    Ok((ts, act))
}

/// Relies on serde_json::from_str, Value::get and Value::as_str: the
/// string under `result.selectedForwardTo`.
#[verifier::external_body]
fn list_selected(body: &str) -> (r: Result<String, String>)
    ensures
        match r {
            Ok(s) => list_selected_of(body@) == Some(s@),
            Err(_) => list_selected_of(body@) is None,
        },
{
    let doc: serde_json::Value = serde_json::from_str(body).map_err(|e| e.to_string())?;
    doc.get("result").and_then(|x| x.get("selectedForwardTo")).and_then(
        serde_json::Value::as_str,
    ).map(str::to_owned).ok_or_else(String::new)
}

// What each response denotes, composed openly from the named queries,
// and the verified decoders that return exactly it.
/// The fresh address a generate body denotes: the string under
/// `result.hme` of a text that carries the envelope; nothing otherwise.
pub open spec fn generate_address_of(body: Seq<char>) -> Option<Seq<char>> {
    if envelope_ok_of(body) {
        generate_hme_of(body)
    } else {
        None
    }
}

/// The claimed-address record a reserve body denotes: the full record
/// under `result.hme` of a text that carries the envelope, every field
/// present and well-typed; nothing otherwise.
pub open spec fn reserve_record_of(body: Seq<char>) -> Option<ReserveModel> {
    if envelope_ok_of(body) {
        match (reserve_strings_of(body), reserve_scalars_of(body)) {
            (Some(ss), Some(sc)) => Some(
                ReserveModel {
                    origin: ss.0,
                    anonymous_id: ss.1,
                    domain: ss.2,
                    hme: ss.3,
                    label: ss.4,
                    note: ss.5,
                    create_timestamp: sc.0,
                    is_active: sc.1,
                    recipient_mail_id: ss.6,
                },
            ),
            _ => None,
        }
    } else {
        None
    }
}

/// The directory entries for the named services, each with its optional
/// `url` and `status` strings; nothing as soon as a field holds a value
/// of the wrong type.
pub open spec fn directory_entries_of(body: Seq<char>, names: Seq<Seq<char>>, i: int) -> Option<
    Seq<ServiceEntryModel>,
>
    decreases names.len() - i,
{
    if i < 0 || i >= names.len() {
        Some(Seq::empty())
    } else {
        match (service_field_of(body, names[i], "url"@), service_field_of(
            body,
            names[i],
            "status"@,
        )) {
            (Some(u), Some(st)) => match directory_entries_of(body, names, i + 1) {
                Some(rest) => Some(
                    seq![
                        ServiceEntryModel {
                            name: names[i],
                            service: ServiceModel { url: u, status: st },
                        }
                    ] + rest,
                ),
                None => None,
            },
            _ => None,
        }
    }
}

/// The service directory a validation body denotes: one entry per field
/// of the `webservices` object, in the decoder's field order; nothing
/// when the text is not such a document.
pub open spec fn directory_of(body: Seq<char>) -> Option<Seq<ServiceEntryModel>> {
    match directory_names_of(body) {
        Some(names) => directory_entries_of(body, names, 0),
        None => None,
    }
}

/// The records of the `result.hmeEmails` array from index `i` on;
/// nothing as soon as one record is not complete and well-typed.
pub open spec fn list_records_of(body: Seq<char>, i: int, n: int) -> Option<Seq<ListEmailModel>>
    decreases n - i,
{
    if i < 0 || i >= n {
        Some(Seq::empty())
    } else {
        match (list_record_strings_of(body, i), list_record_scalars_of(body, i)) {
            (Some(ss), Some(sc)) => match list_records_of(body, i + 1, n) {
                Some(rest) => Some(
                    seq![
                        ListEmailModel {
                            origin: ss.0,
                            anonymous_id: ss.1,
                            domain: ss.2,
                            forward_to_email: ss.3,
                            hme: ss.4,
                            label: ss.5,
                            note: ss.6,
                            create_timestamp: sc.0,
                            is_active: sc.1,
                            recipient_mail_id: ss.7,
                        }
                    ] + rest,
                ),
                None => None,
            },
            _ => None,
        }
    }
}

/// The list result a list body denotes; nothing when the text is not a
/// well-formed list document.
pub open spec fn list_result_of(body: Seq<char>) -> Option<ListResultModel> {
    if envelope_ok_of(body) {
        match (list_forwards_of(body), list_count_of(body), list_selected_of(body)) {
            (Some(f), Some(n), Some(sel)) => match list_records_of(body, 0, n) {
                Some(rs) => Some(
                    ListResultModel {
                        forward_to_emails: f,
                        hme_emails: rs,
                        selected_forward_to: sel,
                    },
                ),
                None => None,
            },
            _ => None,
        }
    } else {
        None
    }
}

/// A decode failure carrying the JSON parser's words, or a fixed note
/// where only the shape was wrong.
fn decode_error(detail: String) -> (r: Error)
    ensures
        r matches Error::Decode { .. },
{
    if detail.as_str().is_empty() {
        Error::Decode { detail: String::from_str("unexpected response shape") }
    } else {
        Error::Decode { detail }
    }
}

/// Decodes a generate body to exactly the address it denotes.
pub(crate) fn decode_generate(body: &str) -> (r: Result<String, Error>)
    ensures
        match generate_address_of(body@) {
            Some(a) => r matches Ok(s) && s@ == a,
            None => r matches Err(e) && e matches Error::Decode { .. },
        },
{
    if !envelope_ok(body) {
        return Err(decode_error(String::new()));
    }
    match generate_hme(body) {
        Ok(s) => Ok(s),
        Err(detail) => Err(decode_error(detail)),
    }
}

/// Decodes a reserve body to exactly the record it denotes.
pub(crate) fn decode_reserve(body: &str) -> (r: Result<HMEReserveResult, Error>)
    ensures
        match reserve_record_of(body@) {
            Some(g) => r matches Ok(out) && out@ == g,
            None => r matches Err(e) && e matches Error::Decode { .. },
        },
{
    if !envelope_ok(body) {
        return Err(decode_error(String::new()));
    }
    let ss = match reserve_strings(body) {
        Ok(t) => t,
        Err(detail) => {
            return Err(decode_error(detail));
        },
    };
    let sc = match reserve_scalars(body) {
        Ok(t) => t,
        Err(detail) => {
            return Err(decode_error(detail));
        },
    };
    Ok(
        HMEReserveResult {
            origin: ss.0,
            anonymous_id: ss.1,
            domain: ss.2,
            hme: ss.3,
            label: ss.4,
            note: ss.5,
            create_timestamp: sc.0,
            is_active: sc.1,
            recipient_mail_id: ss.6,
        },
    )
}

/// Decodes a validation body to exactly the directory it denotes.
pub(crate) fn decode_directory(body: &str) -> (r: Result<Vec<ServiceEntry>, Error>)
    ensures
        match directory_of(body@) {
            Some(d) => r matches Ok(v) && dir_models(v@) == d,
            None => r matches Err(e) && e matches Error::Decode { .. },
        },
{
    let names = match directory_names(body) {
        Ok(v) => v,
        Err(detail) => {
            return Err(decode_error(detail));
        },
    };
    let ghost nm = names@.map_values(|s: String| s@);
    proof {
        assert(directory_names_of(body@)->Some_0 =~= nm);
    }
    let n = names.len();
    let mut out: Vec<ServiceEntry> = Vec::new();
    proof {
        assert(dir_models(out@) + Seq::<ServiceEntryModel>::empty() =~= dir_models(out@));
    }
    let mut i: usize = 0;
    while i < n
        invariant
            i <= n,
            n == names@.len(),
            nm == names@.map_values(|s: String| s@),
            directory_names_of(body@) == Some(nm),
            match directory_entries_of(body@, nm, i as int) {
                Some(rest) => directory_entries_of(body@, nm, 0) == Some(dir_models(out@) + rest),
                None => directory_entries_of(body@, nm, 0) is None,
            },
        decreases n - i,
    {
        proof {
            assert(nm[i as int] == names@[i as int]@);
        }
        let url = match service_field(body, names[i].as_str(), "url") {
            Ok(u) => u,
            Err(detail) => {
                return Err(decode_error(detail));
            },
        };
        let status = match service_field(body, names[i].as_str(), "status") {
            Ok(st) => st,
            Err(detail) => {
                return Err(decode_error(detail));
            },
        };
        let ghost prev = dir_models(out@);
        out.push(
            ServiceEntry { name: names[i].clone(), service: Service { url, status } },
        );
        proof {
            assert(dir_models(out@) =~= prev.push(out@.last()@));
            if directory_entries_of(body@, nm, i as int + 1) is Some {
                let rest2 = directory_entries_of(body@, nm, i as int + 1)->Some_0;
                assert((prev + seq![out@.last()@]) + rest2 =~= prev + (seq![out@.last()@] + rest2));
                assert(dir_models(out@) + rest2 =~= prev + (seq![out@.last()@] + rest2));
            }
        }
        i = i + 1;
    }
    proof {
        assert(dir_models(out@) + Seq::<ServiceEntryModel>::empty() =~= dir_models(out@));
    }
    Ok(out)
}

/// Decodes a list body to exactly the list result it denotes.
pub(crate) fn decode_list(body: &str) -> (r: Result<HMEListResult, Error>)
    ensures
        match list_result_of(body@) {
            Some(m) => r matches Ok(out) && out@ == m,
            None => r matches Err(e) && e matches Error::Decode { .. },
        },
{
    if !envelope_ok(body) {
        return Err(decode_error(String::new()));
    }
    let forwards = match list_forwards(body) {
        Ok(v) => v,
        Err(detail) => {
            return Err(decode_error(detail));
        },
    };
    let n = match list_count(body) {
        Ok(n) => n,
        Err(detail) => {
            return Err(decode_error(detail));
        },
    };
    let selected = match list_selected(body) {
        Ok(s) => s,
        Err(detail) => {
            return Err(decode_error(detail));
        },
    };
    let mut records: Vec<HMEListEmails> = Vec::new();
    proof {
        assert(records@.map_values(|e: HMEListEmails| e@) + Seq::<ListEmailModel>::empty()
            =~= records@.map_values(|e: HMEListEmails| e@));
    }
    let mut i: usize = 0;
    while i < n
        invariant
            i <= n,
            envelope_ok_of(body@),
            list_forwards_of(body@) is Some,
            list_count_of(body@) == Some(n as int),
            list_selected_of(body@) is Some,
            match list_records_of(body@, i as int, n as int) {
                Some(rest) => list_records_of(body@, 0, n as int) == Some(
                    records@.map_values(|e: HMEListEmails| e@) + rest,
                ),
                None => list_records_of(body@, 0, n as int) is None,
            },
        decreases n - i,
    {
        let ss = match list_record_strings(body, i) {
            Ok(t) => t,
            Err(detail) => {
                return Err(decode_error(detail));
            },
        };
        let sc = match list_record_scalars(body, i) {
            Ok(t) => t,
            Err(detail) => {
                return Err(decode_error(detail));
            },
        };
        let ghost prev = records@.map_values(|e: HMEListEmails| e@);
        records.push(
            HMEListEmails {
                origin: ss.0,
                anonymous_id: ss.1,
                domain: ss.2,
                forward_to_email: ss.3,
                hme: ss.4,
                label: ss.5,
                note: ss.6,
                create_timestamp: sc.0,
                is_active: sc.1,
                recipient_mail_id: ss.7,
            },
        );
        proof {
            let cur = records@.map_values(|e: HMEListEmails| e@);
            assert(cur =~= prev.push(records@.last()@));
            if list_records_of(body@, i as int + 1, n as int) is Some {
                let rest2 = list_records_of(body@, i as int + 1, n as int)->Some_0;
                assert((prev + seq![records@.last()@]) + rest2 =~= prev + (seq![records@.last()@]
                    + rest2));
                assert(cur + rest2 =~= prev + (seq![records@.last()@] + rest2));
            }
        }
        i = i + 1;
    }
    proof {
        assert(records@.map_values(|e: HMEListEmails| e@) + Seq::<ListEmailModel>::empty()
            =~= records@.map_values(|e: HMEListEmails| e@));
    }
    let out = HMEListResult {
        forward_to_emails: forwards,
        hme_emails: records,
        selected_forward_to: selected,
    };
    proof {
        if list_result_of(body@) is Some {
            assert(out@.forward_to_emails =~= list_result_of(body@)->Some_0.forward_to_emails);
        }
    }
    Ok(out)
}

} // verus!
