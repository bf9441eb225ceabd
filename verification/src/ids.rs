//! Identifiers: parsing tenant and workspace ids, and making upload track
//! ids.
use vstd::prelude::*;
use crate::text::{chars_of, push_str, string_from_range};

verus! {

/// What `uuid::Uuid::parse_str` reads from a text, as the 128-bit value of
/// the UUID: `None` when the text is not a UUID in one of the accepted
/// forms (simple, hyphenated, braced, URN).
pub uninterp spec fn parsed_uuid(text: Seq<char>) -> Option<u128>;

/// `uuid::Uuid::parse_str`, then `Uuid::as_u128`: the result is named by
/// `parsed_uuid` over the text; which texts are accepted is not spelled out.
#[verifier::external_body]
pub(crate) fn parse_uuid(text: &str) -> (r: Option<u128>)
    ensures
        r == parsed_uuid(text@),
{
    match uuid::Uuid::parse_str(text) {
        Ok(u) => Some(u.as_u128()),
        Err(_) => None,
    }
}

/// A lower-case hexadecimal digit.
pub open spec fn is_lower_hex(c: char) -> bool {
    ('0' <= c && c <= '9') || ('a' <= c && c <= 'f')
}

/// The hyphenated lower-case text of a UUID: 36 characters, `-` at
/// positions 8, 13, 18 and 23, a lower-case hex digit everywhere else.
pub open spec fn is_hyphenated_uuid_text(t: Seq<char>) -> bool {
    &&& t.len() == 36
    &&& forall|i: int|
        0 <= i < 36 ==> if i == 8 || i == 13 || i == 18 || i == 23 {
            #[trigger] t[i] == '-'
        } else {
            is_lower_hex(t[i])
        }
}

/// A new random (version 4) UUID in its text form, from
/// `uuid::Uuid::new_v4` and its `Display`, which writes the lower-case
/// hyphenated form. Which UUID comes out is left open.
#[verifier::external_body]
fn random_uuid_text() -> (r: String)
    ensures
        is_hyphenated_uuid_text(r@),
{
    uuid::Uuid::new_v4().to_string()
}

/// The tenant and workspace of a queued task, as UUIDs: the error names the
/// first id that does not parse (`Invalid tenant ID`, then `Invalid
/// workspace ID`).
pub fn task_scope_ids(tenant_id: &str, workspace_id: &str) -> (r: Result<(u128, u128), String>)
    ensures
        match (parsed_uuid(tenant_id@), parsed_uuid(workspace_id@)) {
            (Some(t), Some(w)) => r == Ok::<(u128, u128), String>((t, w)),
            (None, _) => (r matches Err(m) && m@ == "Invalid tenant ID"@),
            (Some(_), None) => (r matches Err(m) && m@ == "Invalid workspace ID"@),
        },
{
    let t = match parse_uuid(tenant_id) {
        Some(t) => t,
        None => return Err("Invalid tenant ID".to_owned()),
    };
    let w = match parse_uuid(workspace_id) {
        Some(w) => w,
        None => return Err("Invalid workspace ID".to_owned()),
    };
    Ok((t, w))
}

/// The track id of an upload: `upload_<timestamp>_<first 8 characters of
/// the random id>`.
pub fn upload_track_id(timestamp: &str, random_id: &str) -> (r: String)
    requires
        random_id@.len() >= 8,
    ensures
        r@ == "upload_"@ + timestamp@ + "_"@ + random_id@.take(8),
{
    let id = chars_of(random_id);
    let short = string_from_range(&id, 0, 8);
    let mut s = String::new();
    push_str(&mut s, "upload_");
    push_str(&mut s, timestamp);
    push_str(&mut s, "_");
    push_str(&mut s, short.as_str());
    s
}

/// The track id of an upload: the one the caller gave, else a new one made
/// of the timestamp and the first 8 characters of a random UUID, which are
/// 8 lower-case hex digits.
pub fn resolve_track_id(given: Option<String>, timestamp: &str) -> (r: String)
    ensures
        match given {
            Some(t) => r == t,
            None => exists|id: Seq<char>|
                #![trigger id.take(8)]
                is_hyphenated_uuid_text(id) && r@ == "upload_"@ + timestamp@ + "_"@ + id.take(8),
        },
        given is None ==> ({
            let prefix_len = 8 + timestamp@.len() as int;
            &&& r@.len() == prefix_len + 8
            &&& r@.take(prefix_len) == "upload_"@ + timestamp@ + "_"@
            &&& forall|i: int| prefix_len <= i < prefix_len + 8 ==> is_lower_hex(#[trigger] r@[i])
        }),
{
    match given {
        Some(t) => t,
        None => {
            let id = random_uuid_text();
            let r = upload_track_id(timestamp, id.as_str());
            proof {
                reveal_strlit("upload_");
                reveal_strlit("_");
                let prefix = "upload_"@ + timestamp@ + "_"@;
                assert(r@.take(prefix.len() as int) =~= prefix);
                assert forall|i: int| prefix.len() <= i < prefix.len() + 8 implies is_lower_hex(
                    #[trigger] r@[i],
                ) by {
                    let k = i - prefix.len();
                    assert(r@[i] == id@[k]);
                    assert(k != 8 && k != 13 && k != 18 && k != 23);
                    assert(is_lower_hex(id@[k]));
                }
            }
            r
        },
    }
}

} // verus!
