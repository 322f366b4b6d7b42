//! The paste bin: pastes that anyone can create, list and read.
use vstd::prelude::*;

use crate::clock::{utc_now, Timestamp};
use crate::ids::{all_url_safe, new_paste_id, PASTE_ID_LEN};
use crate::text::join2;

verus! {

/// Largest accepted paste, in characters.
pub const MAX_PASTE_SIZE: usize = 3200;

pub const STATUS_CREATED: u16 = 201;
pub const STATUS_NOT_FOUND: u16 = 404;
pub const STATUS_PAYLOAD_TOO_LARGE: u16 = 413;
pub const STATUS_INTERNAL_SERVER_ERROR: u16 = 500;
pub const STATUS_PERMANENT_REDIRECT: u16 = 308;

/// How many of the most recent pastes a listing shows.
pub const RECENT_LIMIT: u32 = 50;

/// Settings of the paste bin.
pub struct AppConfig {
    pub max_paste_size: usize,
}

/// A stored paste.
pub struct Paste {
    pub id: String,
    pub content: String,
    pub created_at: Timestamp,
}

/// The body of a request to create a paste.
pub struct CreatePaste {
    pub content: String,
}

/// The body of every non-paste answer of the paste bin.
pub struct ApiResponse {
    pub contents: String,
}

/// An error answer: an HTTP status and its body.
pub struct ErrorReply {
    pub status: u16,
    pub body: ApiResponse,
}

/// The error answer with the given status and text.
pub open spec fn is_error(reply: ErrorReply, status: u16, text: Seq<char>) -> bool {
    reply.status == status && reply.body.contents@ == text
}

/// A paste as values: what the database holds of it.
pub struct PasteRecord {
    pub id: Seq<char>,
    pub content: Seq<char>,
    pub created_at: Timestamp,
}

impl View for Paste {
    type V = PasteRecord;

    open spec fn view(&self) -> PasteRecord {
        PasteRecord { id: self.id@, content: self.content@, created_at: self.created_at }
    }
}

/// An error answer as its status and text.
pub open spec fn error_view(e: ErrorReply) -> (u16, Seq<char>) {
    (e.status, e.body.contents@)
}

/// What a database call reported: nothing, or its error message.
pub open spec fn outcome_view(outcome: Result<(), String>) -> Result<(), Seq<char>> {
    match outcome {
        Ok(()) => Ok(()),
        Err(e) => Err(e@),
    }
}

/// What the database returned for one id, as values.
pub open spec fn row_view(row: Result<Option<Paste>, String>) -> Result<Option<PasteRecord>, Seq<char>> {
    match row {
        Ok(Some(p)) => Ok(Some(p@)),
        Ok(None) => Ok(None),
        Err(e) => Err(e@),
    }
}

/// What the database returned for a listing, as values.
pub open spec fn rows_view(rows: Result<Vec<Paste>, String>) -> Result<Seq<PasteRecord>, Seq<char>> {
    match rows {
        Ok(v) => Ok(v@.map_values(|p: Paste| p@)),
        Err(e) => Err(e@),
    }
}

/// The answer to a creation, as values.
pub open spec fn created_view(res: Result<(u16, Paste), ErrorReply>) -> Result<
    (u16, PasteRecord),
    (u16, Seq<char>),
> {
    match res {
        Ok((status, p)) => Ok((status, p@)),
        Err(e) => Err(error_view(e)),
    }
}

/// The answer to a read, as values.
pub open spec fn paste_view(res: Result<Paste, ErrorReply>) -> Result<PasteRecord, (u16, Seq<char>)> {
    match res {
        Ok(p) => Ok(p@),
        Err(e) => Err(error_view(e)),
    }
}

/// The answer to a listing, as values.
pub open spec fn pastes_view(res: Result<Vec<Paste>, ErrorReply>) -> Result<
    Seq<PasteRecord>,
    (u16, Seq<char>),
> {
    match res {
        Ok(v) => Ok(v@.map_values(|p: Paste| p@)),
        Err(e) => Err(error_view(e)),
    }
}

/// The answer when the database failed with the message `detail`.
pub open spec fn database_failure(detail: Seq<char>) -> (u16, Seq<char>) {
    (STATUS_INTERNAL_SERVER_ERROR, "database error!: "@ + detail)
}

/// How a creation is answered once the database was asked to store `paste`.
pub open spec fn create_answer(paste: PasteRecord, stored: Result<(), Seq<char>>) -> Result<
    (u16, PasteRecord),
    (u16, Seq<char>),
> {
    match stored {
        Ok(()) => Ok((STATUS_CREATED, paste)),
        Err(detail) => Err(database_failure(detail)),
    }
}

/// How a read is answered, given what the database returned for the id.
pub open spec fn get_answer(row: Result<Option<PasteRecord>, Seq<char>>) -> Result<
    PasteRecord,
    (u16, Seq<char>),
> {
    match row {
        Ok(Some(p)) => Ok(p),
        Ok(None) => Err((STATUS_NOT_FOUND, "Paste not found"@)),
        Err(detail) => Err(database_failure(detail)),
    }
}

/// How a listing is answered, given what the database returned.
pub open spec fn list_answer(rows: Result<Seq<PasteRecord>, Seq<char>>) -> Result<
    Seq<PasteRecord>,
    (u16, Seq<char>),
> {
    match rows {
        Ok(v) => Ok(v),
        Err(detail) => Err(database_failure(detail)),
    }
}

/// A permanent redirect (status 308) to `location`.
pub struct Redirect {
    pub location: String,
}

/// Where `/gh` sends the browser: the project's repository.
pub fn gh_redirect() -> (res: Redirect)
    ensures
        res.location@ == "https://github.com/obobed/resolution-w3"@,
{
    Redirect { location: "https://github.com/obobed/resolution-w3".to_string() }
}

/// Where `/` sends the browser: the API documentation.
pub fn root_redirect() -> (res: Redirect)
    ensures
        res.location@ == "/docs"@,
{
    Redirect { location: "/docs".to_string() }
}

/// The settings the paste bin runs with.
pub fn default_config() -> (config: AppConfig)
    ensures
        config.max_paste_size == MAX_PASTE_SIZE,
{
    AppConfig { max_paste_size: MAX_PASTE_SIZE }
}

/// Answer of the health endpoint.
pub fn health() -> (res: ApiResponse)
    ensures
        res.contents@ == "ok"@,
{
    ApiResponse { contents: "ok".to_string() }
}

/// Answer to a request for a route that does not exist.
pub fn handler_404() -> (res: ErrorReply)
    ensures
        is_error(res, STATUS_NOT_FOUND, "Route not found, check your URL!"@),
{
    ErrorReply {
        status: STATUS_NOT_FOUND,
        body: ApiResponse { contents: "Route not found, check your URL!".to_string() },
    }
}

/// The answer to a paste larger than the limit.
fn too_large() -> (res: ErrorReply)
    ensures
        is_error(res, STATUS_PAYLOAD_TOO_LARGE, "Too large!"@),
{
    ErrorReply { status: STATUS_PAYLOAD_TOO_LARGE, body: ApiResponse { contents: "Too large!".to_string() } }
}

/// The answer when the database failed with the message `detail`.
fn database_error(detail: &String) -> (res: ErrorReply)
    ensures
        is_error(res, STATUS_INTERNAL_SERVER_ERROR, "database error!: "@ + detail@),
{
    ErrorReply {
        status: STATUS_INTERNAL_SERVER_ERROR,
        body: ApiResponse { contents: join2("database error!: ", detail.as_str()) },
    }
}

/// Builds the paste to store from a request, a fresh id and the current
/// time, or refuses a content of more characters than the configured
/// limit.
pub fn prepare_paste(config: &AppConfig, body: CreatePaste, id: String, now: Timestamp) -> (res:
    Result<Paste, ErrorReply>)
    ensures
        body.content@.len() > config.max_paste_size <==> res is Err,
        res matches Err(e) ==> is_error(e, STATUS_PAYLOAD_TOO_LARGE, "Too large!"@),
        res matches Ok(p) ==> p.id@ == id@ && p.content@ == body.content@ && p.created_at == now,
{
    if body.content.as_str().unicode_len() > config.max_paste_size {
        return Err(too_large());
    }
    Ok(Paste { id, content: body.content, created_at: now })
}

/// First half of creating a paste: refuses a content of more characters
/// than the limit, else gives the paste to store, with a fresh random id and the
/// current time.
pub fn create_paste(config: &AppConfig, body: CreatePaste) -> (res: Result<Paste, ErrorReply>)
    ensures
        body.content@.len() > config.max_paste_size <==> res is Err,
        res matches Err(e) ==> is_error(e, STATUS_PAYLOAD_TOO_LARGE, "Too large!"@),
        res matches Ok(p) ==> {
            &&& p.content@ == body.content@
            &&& p.id@.len() == PASTE_ID_LEN
            &&& all_url_safe(p.id@)
            &&& p.created_at.secs >= 0
            &&& p.created_at.nanos < 1_000_000_000
        },
{
    if body.content.as_str().unicode_len() > config.max_paste_size {
        return Err(too_large());
    }
    let id = new_paste_id();
    let now = utc_now();
    prepare_paste(config, body, id, now)
}

/// Second half of creating a paste: the answer once the database has been
/// asked to store `paste`, given what it answered.
pub fn finish_create_paste(paste: Paste, stored: Result<(), String>) -> (res: Result<
    (u16, Paste),
    ErrorReply,
>)
    ensures
        created_view(res) == create_answer(paste@, outcome_view(stored)),
        stored is Ok <==> res is Ok,
        res matches Ok(r) ==> r.0 == STATUS_CREATED && r.1 == paste,
        stored matches Err(detail) ==> res matches Err(e) && is_error(
            e,
            STATUS_INTERNAL_SERVER_ERROR,
            "database error!: "@ + detail@,
        ),
{
    match stored {
        Ok(()) => Ok((STATUS_CREATED, paste)),
        Err(detail) => Err(database_error(&detail)),
    }
}

/// The answer to a listing, given what the database returned for the most
/// recent pastes.
pub fn finish_list_pastes(rows: Result<Vec<Paste>, String>) -> (res: Result<Vec<Paste>, ErrorReply>)
    ensures
        pastes_view(res) == list_answer(rows_view(rows)),
        rows is Ok <==> res is Ok,
        rows matches Ok(v) ==> res matches Ok(w) && w@ == v@,
        rows matches Err(detail) ==> res matches Err(e) && is_error(
            e,
            STATUS_INTERNAL_SERVER_ERROR,
            "database error!: "@ + detail@,
        ),
{
    match rows {
        Ok(pastes) => Ok(pastes),
        Err(detail) => Err(database_error(&detail)),
    }
}

/// The answer to a request for one paste, given what the database returned
/// for its id.
pub fn finish_get_paste(row: Result<Option<Paste>, String>) -> (res: Result<Paste, ErrorReply>)
    ensures
        paste_view(res) == get_answer(row_view(row)),
        res is Ok <==> (row matches Ok(Some(_))),
        row matches Ok(Some(p)) ==> res matches Ok(q) && q == p,
        row matches Ok(None) ==> res matches Err(e) && is_error(e, STATUS_NOT_FOUND, "Paste not found"@),
        row matches Err(detail) ==> res matches Err(e) && is_error(
            e,
            STATUS_INTERNAL_SERVER_ERROR,
            "database error!: "@ + detail@,
        ),
{
    match row {
        Ok(Some(p)) => Ok(p),
        Ok(None) => Err(
            ErrorReply {
                status: STATUS_NOT_FOUND,
                body: ApiResponse { contents: "Paste not found".to_string() },
            },
        ),
        Err(detail) => Err(database_error(&detail)),
    }
}

/// `a` is an earlier point in time than `b`.
pub open spec fn earlier(a: Timestamp, b: Timestamp) -> bool {
    a.secs < b.secs || (a.secs == b.secs && a.nanos < b.nanos)
}

/// The table holds a paste with this id.
pub open spec fn has_id(table: Seq<PasteRecord>, id: Seq<char>) -> bool {
    exists|i: int| 0 <= i < table.len() && #[trigger] table[i].id == id
}

/// No two pastes of the table share an id, as the table's primary key
/// ensures.
pub open spec fn unique_ids(table: Seq<PasteRecord>) -> bool {
    forall|i: int, j: int|
        0 <= i < table.len() && 0 <= j < table.len() && i != j ==> #[trigger] table[i].id
            != #[trigger] table[j].id
}

/// What the program's `INSERT INTO pastes` does to the table `before`,
/// leaving `after`: it adds the paste only when no paste has its id (the
/// id is the primary key) and fails otherwise; a failure changes nothing.
pub open spec fn insert_paste(
    before: Seq<PasteRecord>,
    paste: PasteRecord,
    stored: Result<(), Seq<char>>,
    after: Seq<PasteRecord>,
) -> bool {
    match stored {
        Ok(()) => !has_id(before, paste.id) && after == before.push(paste),
        Err(_) => after == before,
    }
}

/// What the program's `SELECT ... WHERE id = ? LIMIT 1` returns: the paste
/// with that id, if there is one.
pub open spec fn select_paste(table: Seq<PasteRecord>, id: Seq<char>) -> Option<PasteRecord> {
    if has_id(table, id) {
        Some(table[choose|i: int| 0 <= i < table.len() && #[trigger] table[i].id == id])
    } else {
        None
    }
}

/// `rows` is an answer to the program's `SELECT ... ORDER BY created_at
/// DESC LIMIT ?` bound to `RECENT_LIMIT`: at most that many pastes of the
/// table, each at most once, newest first, and no paste left out is newer
/// than the last one listed.
pub open spec fn newest_pastes(table: Seq<PasteRecord>, rows: Seq<PasteRecord>) -> bool {
    &&& rows.len() == if table.len() < RECENT_LIMIT {
        table.len()
    } else {
        RECENT_LIMIT as nat
    }
    &&& forall|k: int| 0 <= k < rows.len() ==> table.contains(#[trigger] rows[k])
    &&& forall|k: int, l: int| 0 <= k < l < rows.len() ==> #[trigger] rows[k] != #[trigger] rows[l]
    &&& forall|k: int, l: int|
        0 <= k < l < rows.len() ==> !earlier(#[trigger] rows[k].created_at, #[trigger] rows[l].created_at)
    &&& forall|i: int|
        0 <= i < table.len() && !rows.contains(#[trigger] table[i]) ==> !earlier(
            rows.last().created_at,
            table[i].created_at,
        )
}

/// Reading a paste back after it was stored gives the paste that the
/// creation was answered with, as long as the table was not changed since;
/// the store keeps its ids unique.
pub proof fn law_read_after_create(before: Seq<PasteRecord>, paste: PasteRecord, after: Seq<PasteRecord>)
    requires
        unique_ids(before),
        insert_paste(before, paste, Ok(()), after),
    ensures
        create_answer(paste, Ok(())) == Ok::<(u16, PasteRecord), (u16, Seq<char>)>((STATUS_CREATED, paste)),
        unique_ids(after),
        get_answer(Ok(select_paste(after, paste.id))) == Ok::<PasteRecord, (u16, Seq<char>)>(paste),
{
    let last = before.len() as int;
    assert(after[last] == paste);
    assert forall|i: int, j: int|
        0 <= i < after.len() && 0 <= j < after.len() && i != j implies #[trigger] after[i].id
        != #[trigger] after[j].id by {
        if i == last {
            assert(before[j] == after[j]);
        } else if j == last {
            assert(before[i] == after[i]);
        } else {
            assert(before[i] == after[i] && before[j] == after[j]);
        }
    }
    assert(has_id(after, paste.id));
    let k = choose|i: int| 0 <= i < after.len() && #[trigger] after[i].id == paste.id;
    assert(k == last);
}

/// The newest paste comes first in the listing: when the paste just
/// created is newer than every other paste of the table, the listing is
/// answered with it at its head.
pub proof fn law_newest_listed_first(
    before: Seq<PasteRecord>,
    paste: PasteRecord,
    after: Seq<PasteRecord>,
    rows: Seq<PasteRecord>,
)
    requires
        insert_paste(before, paste, Ok(()), after),
        forall|i: int| 0 <= i < after.len() && #[trigger] after[i] != paste ==> earlier(after[i].created_at, paste.created_at),
        newest_pastes(after, rows),
    ensures
        list_answer(Ok(rows)) matches Ok(listed) && listed.len() > 0 && listed[0] == paste,
{
    let last = before.len() as int;
    assert(after[last] == paste);
    assert(rows.len() > 0);
    if rows[0] != paste {
        assert(after.contains(rows[0]));
        let i0 = choose|i: int| 0 <= i < after.len() && after[i] == rows[0];
        assert(after[i0] != paste);
        assert(earlier(rows[0].created_at, paste.created_at));
        if rows.contains(paste) {
            let k = choose|k: int| 0 <= k < rows.len() && rows[k] == paste;
            assert(k != 0);
            assert(!earlier(rows[0].created_at, rows[k].created_at));
        } else {
            assert(!rows.contains(after[last]));
            assert(!earlier(rows.last().created_at, paste.created_at));
            if rows.len() > 1 {
                assert(!earlier(rows[0].created_at, rows[rows.len() - 1].created_at));
            }
        }
    }
}

/// Successful creations never share an id, never take the id of a paste
/// that was stored before them, and never overwrite a stored paste: over
/// any run of insertions `stored[i]` of `pastes[i]` taking the table from
/// `tables[i]` to `tables[i + 1]`, starting from a table with unique ids.
pub proof fn law_created_ids_distinct(
    pastes: Seq<PasteRecord>,
    stored: Seq<Result<(), Seq<char>>>,
    tables: Seq<Seq<PasteRecord>>,
)
    requires
        tables.len() == pastes.len() + 1,
        stored.len() == pastes.len(),
        unique_ids(tables[0]),
        forall|i: int| 0 <= i < pastes.len() ==> insert_paste(#[trigger] tables[i], pastes[i], stored[i], tables[i + 1]),
    ensures
        forall|i: int, j: int|
            0 <= i < j < pastes.len() && #[trigger] stored[i] is Ok && #[trigger] stored[j] is Ok
                ==> pastes[i].id != pastes[j].id,
        forall|i: int| 0 <= i < pastes.len() && #[trigger] stored[i] is Ok ==> !has_id(tables[0], pastes[i].id),
        forall|i: int| 0 <= i < pastes.len() && #[trigger] stored[i] is Ok ==> create_answer(pastes[i], stored[i])
            == Ok::<(u16, PasteRecord), (u16, Seq<char>)>((STATUS_CREATED, pastes[i])),
        tables[pastes.len() as int].len() >= tables[0].len(),
        forall|k: int| 0 <= k < tables[0].len() ==> #[trigger] tables[pastes.len() as int][k] == tables[0][k],
        unique_ids(tables[pastes.len() as int]),
    decreases pastes.len(),
{
    let n = pastes.len() as int;
    if n == 0 {
        return;
    }
    law_created_ids_distinct(pastes.drop_last(), stored.drop_last(), tables.drop_last());
    let prev = tables[n - 1];
    let fin = tables[n];
    assert(insert_paste(tables[n - 1], pastes[n - 1], stored[n - 1], tables[n]));
    assert forall|i: int| 0 <= i < n - 1 && #[trigger] stored[i] is Ok implies has_id(prev, pastes[i].id) by {
        assert(stored.drop_last()[i] == stored[i]);
        assert(tables.drop_last()[i] == tables[i]);
        assert(insert_paste(tables[i], pastes[i], stored[i], tables[i + 1]));
        // the paste stored by step i is still in the table before the last step
        lemma_stored_paste_kept(pastes, stored, tables, i, n - 1);
    }
    if stored[n - 1] is Ok {
        law_read_after_create(prev, pastes[n - 1], fin);
        assert forall|k: int| 0 <= k < tables[0].len() implies #[trigger] fin[k] == tables[0][k] by {
            assert(fin[k] == prev[k]);
        }
        assert forall|k: int| 0 <= k < tables[0].len() && tables[0][k].id == pastes[n - 1].id implies false by {
            assert(prev[k] == tables[0][k]);
        }
    }
    assert forall|i: int, j: int|
        0 <= i < j < n && #[trigger] stored[i] is Ok && #[trigger] stored[j] is Ok implies pastes[i].id
        != pastes[j].id by {
        if j < n - 1 {
            assert(stored.drop_last()[i] == stored[i] && stored.drop_last()[j] == stored[j]);
        }
    }
    assert forall|i: int| 0 <= i < n && #[trigger] stored[i] is Ok implies !has_id(tables[0], pastes[i].id) by {
        if i < n - 1 {
            assert(stored.drop_last()[i] == stored[i]);
        } else {
            if has_id(tables[0], pastes[i].id) {
                let k = choose|k: int| 0 <= k < tables[0].len() && #[trigger] tables[0][k].id == pastes[i].id;
                assert(prev[k] == tables[0][k]);
            }
        }
    }
}

/// The paste stored at step `i` is still in the table after step `j - 1`.
proof fn lemma_stored_paste_kept(
    pastes: Seq<PasteRecord>,
    stored: Seq<Result<(), Seq<char>>>,
    tables: Seq<Seq<PasteRecord>>,
    i: int,
    j: int,
)
    requires
        tables.len() == pastes.len() + 1,
        stored.len() == pastes.len(),
        forall|m: int| 0 <= m < pastes.len() ==> insert_paste(#[trigger] tables[m], pastes[m], stored[m], tables[m + 1]),
        0 <= i < j <= pastes.len(),
        stored[i] is Ok,
    ensures
        has_id(tables[j], pastes[i].id),
    decreases j - i,
{
    if j == i + 1 {
        assert(insert_paste(tables[i], pastes[i], stored[i], tables[i + 1]));
        assert(tables[j][tables[i].len() as int] == pastes[i]);
    } else {
        lemma_stored_paste_kept(pastes, stored, tables, i, j - 1);
        assert(insert_paste(tables[j - 1], pastes[j - 1], stored[j - 1], tables[j]));
        let k = choose|k: int| 0 <= k < tables[j - 1].len() && #[trigger] tables[j - 1][k].id == pastes[i].id;
        assert(tables[j][k] == tables[j - 1][k]);
    }
}

} // verus!
