//! The Connection Toggle: reads the list of linked third-party accounts,
//! finds the first record of the Spotify provider, flips its
//! `show_activity` flag, and writes that one field back to the record's
//! own sub-resource.  As in the settings toggle, the decision points
//! stand here as verified functions over status codes and body text.

use vstd::prelude::*;
use vstd::string::StringExecFns;
use crate::errors::ToggleError;
use crate::json::{bool_field, bool_field_of, json_array_of, json_bool_field, parse_json_array,
    str_field, str_field_of, top_level_bool_field};

verus! {

/// One linked third-party account, as far as this tool reads it: the
/// provider identifier, the provider-scoped id, and whether activity on
/// the provider is shown.  Unknown fields of the remote record are
/// ignored.
#[derive(Clone, Debug, PartialEq, Eq)]
pub struct ConnectionRecord {
    pub conn_type: String,
    pub id: String,
    pub show_activity: bool,
}

/// The mathematical image of a `ConnectionRecord`.
pub struct ConnectionRecordView {
    pub conn_type: Seq<char>,
    pub id: Seq<char>,
    pub show_activity: bool,
}

impl View for ConnectionRecord {
    type V = ConnectionRecordView;

    open spec fn view(&self) -> ConnectionRecordView {
        ConnectionRecordView {
            conn_type: self.conn_type@,
            id: self.id@,
            show_activity: self.show_activity,
        }
    }
}

/// What one element of the connections array holds: `None` when any of
/// the three fields this tool reads is missing or of the wrong type.
pub open spec fn record_of(v: serde_json::Value) -> Option<ConnectionRecordView> {
    match (str_field_of(v, "type"@), str_field_of(v, "id"@), bool_field_of(
        v,
        "show_activity"@,
    )) {
        (Some(conn_type), Some(id), Some(show_activity)) => Some(
            ConnectionRecordView { conn_type, id, show_activity },
        ),
        _ => None,
    }
}

/// Reads the three fields of one connection record.
pub fn record_from_value(v: &serde_json::Value) -> (r: Option<ConnectionRecord>)
    ensures
        match r {
            None => record_of(*v) is None,
            Some(c) => record_of(*v) == Some(c@),
        },
{
    let conn_type = match str_field(v, "type") {
        Some(t) => t,
        None => { return None; },
    };
    let id = match str_field(v, "id") {
        Some(t) => t,
        None => { return None; },
    };
    let show_activity = match bool_field(v, "show_activity") {
        Some(b) => b,
        None => { return None; },
    };
    Some(ConnectionRecord { conn_type, id, show_activity })
}

/// What the connections body holds: `None` when the body is not a JSON
/// array or some element is not a well-formed connection record,
/// otherwise the records in array order.
pub open spec fn records_of(s: Seq<char>) -> Option<Seq<ConnectionRecordView>> {
    match json_array_of(s) {
        None => None,
        Some(vs) => if forall|i: int| 0 <= i < vs.len() ==> record_of(vs[i]) is Some {
            Some(Seq::new(vs.len(), |i: int| record_of(vs[i]).unwrap()))
        } else {
            None
        },
    }
}

/// Parses the connections body into the records this tool reads.
pub fn records_from_body(s: &str) -> (r: Option<Vec<ConnectionRecord>>)
    ensures
        match r {
            None => records_of(s@) is None,
            Some(recs) => records_of(s@) == Some(
                recs@.map_values(|c: ConnectionRecord| c@),
            ),
        },
{
    let values = match parse_json_array(s) {
        Some(vs) => vs,
        None => { return None; },
    };
    let mut records: Vec<ConnectionRecord> = Vec::new();
    let mut i: usize = 0;
    while i < values.len()
        invariant
            0 <= i <= values.len(),
            records@.len() == i,
            json_array_of(s@) == Some(values@),
            forall|j: int| 0 <= j < i ==> #[trigger] record_of(values@[j]) == Some(records@[j]@),
        decreases values.len() - i,
    {
        match record_from_value(&values[i]) {
            Some(c) => {
                let ghost cv = c@;
                records.push(c);
                proof {
                    assert(records@[i as int]@ == cv);
                    assert(record_of(values@[i as int]) == Some(cv));
                }
            },
            None => {
                proof {
                    assert(record_of(values@[i as int]) is None);
                    assert(!(forall|j: int|
                        0 <= j < values@.len() ==> record_of(values@[j]) is Some));
                }
                return None;
            },
        }
        i = i + 1;
    }
    proof {
        let rs = Seq::new(values@.len(), |j: int| record_of(values@[j]).unwrap());
        assert(rs =~= records@.map_values(|c: ConnectionRecord| c@));
    }
    Some(records)
}

/// The position of the first record whose provider identifier is
/// `provider`, in array order.
pub open spec fn first_provider_index(rs: Seq<ConnectionRecordView>, provider: Seq<char>) -> Option<
    int,
>
    decreases rs.len(),
{
    if rs.len() == 0 {
        None
    } else if rs[0].conn_type == provider {
        Some(0int)
    } else {
        match first_provider_index(rs.drop_first(), provider) {
            None => None,
            Some(i) => Some(i + 1),
        }
    }
}

/// The first occurrence wins: `first_provider_index` names a matching
/// record exactly when one exists, and no earlier record matches.
pub proof fn lemma_first_provider_index(rs: Seq<ConnectionRecordView>, provider: Seq<char>)
    ensures
        match first_provider_index(rs, provider) {
            None => forall|j: int| 0 <= j < rs.len() ==> rs[j].conn_type != provider,
            Some(i) => 0 <= i < rs.len() && rs[i].conn_type == provider && (forall|j: int|
                0 <= j < i ==> rs[j].conn_type != provider),
        },
    decreases rs.len(),
{
    if rs.len() == 0 {
    } else if rs[0].conn_type == provider {
    } else {
        let rest = rs.drop_first();
        lemma_first_provider_index(rest, provider);
        match first_provider_index(rest, provider) {
            None => {
                assert forall|j: int| 0 <= j < rs.len() implies rs[j].conn_type != provider by {
                    if j > 0 {
                        assert(rest[j - 1] == rs[j]);
                    }
                }
            },
            Some(i) => {
                assert(rest[i] == rs[i + 1]);
                assert forall|j: int| 0 <= j < i + 1 implies rs[j].conn_type != provider by {
                    if j > 0 {
                        assert(rest[j - 1] == rs[j]);
                    }
                }
            },
        }
    }
}

/// Finds the first record of `provider`, scanning in array order.
pub fn find_provider(records: &Vec<ConnectionRecord>, provider: &String) -> (r: Option<usize>)
    ensures
        match r {
            None => first_provider_index(
                records@.map_values(|c: ConnectionRecord| c@),
                provider@,
            ) is None,
            Some(i) => first_provider_index(
                records@.map_values(|c: ConnectionRecord| c@),
                provider@,
            ) == Some(i as int),
        },
{
    let ghost rs = records@.map_values(|c: ConnectionRecord| c@);
    let mut i: usize = 0;
    while i < records.len()
        invariant
            0 <= i <= records.len(),
            rs == records@.map_values(|c: ConnectionRecord| c@),
            forall|j: int| 0 <= j < i ==> rs[j].conn_type != provider@,
        decreases records.len() - i,
    {
        if records[i].conn_type == *provider {
            proof {
                lemma_first_provider_index(rs, provider@);
                assert(rs[i as int].conn_type == provider@);
            }
            return Some(i);
        }
        i = i + 1;
    }
    proof {
        lemma_first_provider_index(rs, provider@);
    }
    None
}

/// The connections resource.
pub open spec fn spec_connections_url() -> Seq<char> {
    "https://discord.com/api/v9/users/@me/connections"@
}

/// The URL that the GET of the connection toggle addresses.
pub fn connections_url() -> (r: String)
    ensures
        r@ == spec_connections_url(),
{
    "https://discord.com/api/v9/users/@me/connections".to_owned()
}

/// The sub-resource of the Spotify record with id `id`: the PATCH of the
/// connection toggle addresses this, not the whole list.
pub open spec fn spec_connection_patch_url(id: Seq<char>) -> Seq<char> {
    spec_connections_url() + "/spotify/"@ + id
}

/// Builds the PATCH URL of the connection toggle.
pub fn connection_patch_url(id: &String) -> (r: String)
    ensures
        r@ == spec_connection_patch_url(id@),
{
    let base = connections_url();
    base.concat("/spotify/").concat(id.as_str())
}

/// What the PATCH of the connection toggle is to send: the record's
/// sub-resource address and the negated flag.
#[derive(Clone, Debug, PartialEq, Eq)]
pub struct ConnectionPatch {
    pub id: String,
    pub show_activity: bool,
}

/// The mathematical image of a `ConnectionPatch`.
pub struct ConnectionPatchView {
    pub id: Seq<char>,
    pub show_activity: bool,
}

impl View for ConnectionPatch {
    type V = ConnectionPatchView;

    open spec fn view(&self) -> ConnectionPatchView {
        ConnectionPatchView { id: self.id@, show_activity: self.show_activity }
    }
}

/// What the GET response decides: the id of the first Spotify record and
/// the value to write, or the error.  No PATCH follows an `Err`; a list
/// with no Spotify record is the expected outcome `ConnectionNotFound`,
/// not a transport failure.
pub open spec fn spec_connections_get_step(status: u16, body: Seq<char>) -> Result<
    ConnectionPatchView,
    ToggleError,
> {
    if status != 200 {
        Err(ToggleError::RemoteStatus(status))
    } else {
        match records_of(body) {
            None => Err(ToggleError::MalformedResponse),
            Some(rs) => match first_provider_index(rs, "spotify"@) {
                None => Err(ToggleError::ConnectionNotFound),
                Some(i) => Ok(
                    ConnectionPatchView {
                        id: rs[i].id,
                        show_activity: !rs[i].show_activity,
                    },
                ),
            },
        }
    }
}

/// Interprets the GET response of the connection toggle.  On success the
/// result addresses the first Spotify record and carries the negation of
/// its current `show_activity`: the value the PATCH is to write.
pub fn connections_get_step(status: u16, body: &str) -> (r: Result<ConnectionPatch, ToggleError>)
    ensures
        match r {
            Ok(p) => spec_connections_get_step(status, body@) == Ok::<
                ConnectionPatchView,
                ToggleError,
            >(p@),
            Err(e) => spec_connections_get_step(status, body@) == Err::<
                ConnectionPatchView,
                ToggleError,
            >(e),
        },
{
    if status != 200 {
        return Err(ToggleError::RemoteStatus(status));
    }
    let records = match records_from_body(body) {
        Some(recs) => recs,
        None => { return Err(ToggleError::MalformedResponse); },
    };
    let spotify = String::from_str("spotify");
    match find_provider(&records, &spotify) {
        None => Err(ToggleError::ConnectionNotFound),
        Some(i) => {
            proof {
                let rs = records@.map_values(|c: ConnectionRecord| c@);
                lemma_first_provider_index(rs, "spotify"@);
                assert(rs[i as int] == records@[i as int]@);
            }
            let record = &records[i];
            Ok(ConnectionPatch { id: record.id.clone(), show_activity: !record.show_activity })
        },
    }
}

/// The PATCH body that requests `show_activity = value` and nothing else.
pub open spec fn spec_connection_patch_body(value: bool) -> Seq<char> {
    if value {
        "{\"show_activity\":true}"@
    } else {
        "{\"show_activity\":false}"@
    }
}

/// Builds the PATCH body of the connection toggle.
pub fn connection_patch_body(value: bool) -> (r: String)
    ensures
        r@ == spec_connection_patch_body(value),
{
    if value {
        "{\"show_activity\":true}".to_owned()
    } else {
        "{\"show_activity\":false}".to_owned()
    }
}

/// What the PATCH response decides: the persisted value that the server
/// reports when the response is a 200 whose body holds a boolean
/// `show_activity`, and the error otherwise.
pub open spec fn spec_connections_patch_step(status: u16, body: Seq<char>) -> Result<
    bool,
    ToggleError,
> {
    if status != 200 {
        Err(ToggleError::RemoteStatus(status))
    } else {
        match json_bool_field(body, "show_activity"@) {
            None => Err(ToggleError::MalformedResponse),
            Some(persisted) => Ok(persisted),
        }
    }
}

/// Interprets the PATCH response of the connection toggle.  The returned
/// value is the one the server reports: the response is authoritative.
pub fn connections_patch_step(status: u16, body: &str) -> (r: Result<bool, ToggleError>)
    ensures
        r == spec_connections_patch_step(status, body@),
{
    if status != 200 {
        Err(ToggleError::RemoteStatus(status))
    } else {
        match top_level_bool_field(body, "show_activity") {
            None => Err(ToggleError::MalformedResponse),
            Some(persisted) => Ok(persisted),
        }
    }
}

} // verus!
