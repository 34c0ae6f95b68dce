//! Galleries: the public token derived from a gallery's credentials, and the
//! append-only table of the images that belong to it.

use crate::errors::GalleryError;
use rusqlite::Connection;
use std::sync::Arc;
use std::sync::Mutex;
use std::sync::MutexGuard;
use std::time::SystemTime;
use vstd::prelude::*;
use vstd::slice::slice_subrange;
use vstd::string::StringExecFns;
use vstd::string::StringSliceAdditionalSpecFns;
use vstd::utf8::encode_utf8;

verus! {

/// Number of bytes of the MAC that go into a public token.
pub const TOKEN_BYTES: usize = 7;

/// Length of a MAC.
pub const MAC_LEN: usize = 32;

/// HMAC with SHA-512/256 of a message under a key.
pub uninterp spec fn hmac_sha512_256(key: Seq<u8>, message: Seq<u8>) -> Seq<u8>;

/// `Hmac<Sha512_256>` of the MAC crates: keyed with `key`, fed `val`,
/// finalised. A key of any length is taken. The result is the MAC, 32 bytes
/// long, and a function of key and message.
#[verifier::external_body]
fn hmac_digest(key: &[u8], val: &[u8]) -> (out: Vec<u8>)
    ensures
        out@ == hmac_sha512_256(key@, val@),
        out@.len() == MAC_LEN,
{
    let mut mac = <hmac::Hmac<sha2::Sha512_256> as hmac::Mac>::new_from_slice(key).expect(
        "invalid key len",
    );
    hmac::Mac::update(&mut mac, val);
    hmac::Mac::finalize(mac).into_bytes().to_vec()
}

/// The URL-safe base64 alphabet.
pub open spec fn digit(v: int) -> char {
    "ABCDEFGHIJKLMNOPQRSTUVWXYZabcdefghijklmnopqrstuvwxyz0123456789-_"@[v]
}

/// URL-safe base64 without padding: every three bytes give four digits of
/// six bits each, most significant first; one or two bytes left over give two
/// or three digits, the last filled up with zero bits.
pub open spec fn base64url(bytes: Seq<u8>) -> Seq<char>
    decreases bytes.len(),
{
    if bytes.len() == 0 {
        seq![]
    } else if bytes.len() == 1 {
        seq![digit(bytes[0] as int / 4), digit(bytes[0] as int % 4 * 16)]
    } else if bytes.len() == 2 {
        seq![
            digit(bytes[0] as int / 4),
            digit(bytes[0] as int % 4 * 16 + bytes[1] as int / 16),
            digit(bytes[1] as int % 16 * 4),
        ]
    } else {
        seq![
            digit(bytes[0] as int / 4),
            digit(bytes[0] as int % 4 * 16 + bytes[1] as int / 16),
            digit(bytes[1] as int % 16 * 4 + bytes[2] as int / 64),
            digit(bytes[2] as int % 64),
        ] + base64url(bytes.skip(3))
    }
}

/// `Engine::encode` of the base64 crate with its `URL_SAFE_NO_PAD` engine.
/// The crate panics where the encoded text cannot be allocated.
#[verifier::external_body]
fn encode_base64url(bytes: &[u8]) -> (text: String)
    requires
        bytes@.len() <= isize::MAX / 2,
    ensures
        text@ == base64url(bytes@),
{
    base64::Engine::encode(&base64::engine::general_purpose::URL_SAFE_NO_PAD, bytes)
}

/// The MAC of `val` under `key`.
pub fn mac(key: &[u8], val: &[u8]) -> (out: Vec<u8>)
    ensures
        out@ == hmac_sha512_256(key@, val@),
        out@.len() == MAC_LEN,
{
    hmac_digest(key, val)
}

/// What of the cascade goes into the token: the first bytes of the MAC,
/// under the server's secret, of the MAC of the passphrase under the name.
pub open spec fn masked(secret: Seq<u8>, name: Seq<char>, pass: Seq<char>) -> Seq<u8> {
    hmac_sha512_256(secret, hmac_sha512_256(encode_utf8(name), encode_utf8(pass))).subrange(
        0,
        TOKEN_BYTES as int,
    )
}

/// The text of a token: the gallery's name, a colon, and the masked
/// credentials in URL-safe base64.
pub open spec fn token_text(name: Seq<char>, masked: Seq<u8>) -> Seq<char> {
    name + seq![':'] + base64url(masked)
}

/// A gallery's public token.
pub open spec fn public_token(secret: Seq<u8>, name: Seq<char>, pass: Seq<char>) -> Seq<char> {
    token_text(name, masked(secret, name, pass))
}

/// Puts a token together from a gallery's name and its masked credentials.
pub fn format_token(gallery: &str, masked: &[u8]) -> (public: String)
    requires
        masked@.len() <= isize::MAX / 2,
    ensures
        public@ == token_text(gallery@, masked@),
{
    proof {
        reveal_strlit(":");
    }
    let mut public = String::from_str(gallery);
    public.append(":");
    public.append(encode_base64url(masked).as_str());
    public
}

/// Derives a gallery's public token from the server's secret, the gallery's
/// name and its passphrase.
pub fn public_id_for(global_secret: &[u8], gallery: &str, private: &str) -> (public: String)
    ensures
        public@ == public_token(global_secret@, gallery@, private@),
        public@.len() == gallery@.len() + 11,
{
    let user_details = mac(gallery.as_bytes(), private.as_bytes());
    let masked = mac(global_secret, user_details.as_slice());
    let shown = slice_subrange(masked.as_slice(), 0, TOKEN_BYTES);
    proof {
        token_length(gallery@, shown@);
    }
    format_token(gallery, shown)
}

/// A token made of seven masked bytes is the gallery's name, a colon and ten
/// more characters.
pub proof fn token_length(name: Seq<char>, masked: Seq<u8>)
    requires
        masked.len() == TOKEN_BYTES,
    ensures
        token_text(name, masked).len() == name.len() + 11,
        token_text(name, masked).subrange(0, name.len() as int) == name,
        token_text(name, masked)[name.len() as int] == ':',
{
    // seven bytes are two groups of three and one left over: 4 + 4 + 2 digits
    assert(base64url(masked.skip(3).skip(3)).len() == 2);
    assert(base64url(masked.skip(3)).len() == 6);
    assert(base64url(masked).len() == 10);
}

/// A point in time, as the system's clock gives it.
#[verifier::external_type_specification]
#[verifier::external_body]
pub struct ExSystemTime(std::time::SystemTime);

/// What the clock reports when asked for the time since a later moment.
#[verifier::external_type_specification]
#[verifier::external_body]
pub struct ExSystemTimeError(std::time::SystemTimeError);

/// `SystemTime::now`: the clock's present reading.
pub assume_specification[ std::time::SystemTime::now ]() -> (t: SystemTime)
;

/// `SystemTime::duration_since`: the time from `earlier` to this moment, or
/// an error where `earlier` is in fact later.
pub assume_specification[ std::time::SystemTime::duration_since ](
    t: &SystemTime,
    earlier: SystemTime,
) -> (r: Result<std::time::Duration, std::time::SystemTimeError>)
;

/// The whole seconds of a duration.
pub uninterp spec fn duration_secs(d: std::time::Duration) -> u64;

/// What of a duration goes beyond whole seconds, in nanoseconds.
pub uninterp spec fn duration_subsec_nanos(d: std::time::Duration) -> u32;

/// `Duration::as_secs`: the whole seconds of a duration.
pub assume_specification[ std::time::Duration::as_secs ](d: &std::time::Duration) -> (s: u64)
    ensures
        s == duration_secs(*d),
;

/// `Duration::subsec_nanos`: what of a duration goes beyond whole seconds, in
/// nanoseconds; always less than a second.
pub assume_specification[ std::time::Duration::subsec_nanos ](d: &std::time::Duration) -> (n:
    u32)
    ensures
        n == duration_subsec_nanos(*d),
        n < 1_000_000_000,
;

/// `std::time::UNIX_EPOCH`: the start of 1970.
#[verifier::external_body]
fn unix_epoch() -> (t: SystemTime) {
    std::time::UNIX_EPOCH
}

/// Seconds and nanoseconds as milliseconds, nanoseconds rounded down, and
/// capped at the largest `i64`.
pub open spec fn millis_of(secs: u64, nanos: u32) -> int {
    let total = secs * 1000 + nanos / 1_000_000;
    if total <= i64::MAX {
        total
    } else {
        i64::MAX as int
    }
}

/// Converts a time since the epoch to milliseconds.
pub fn to_millis(secs: u64, nanos: u32) -> (ms: i64)
    ensures
        ms == millis_of(secs, nanos),
        ms >= 0,
{
    let sub: u64 = (nanos / 1_000_000) as u64;
    if secs > (i64::MAX as u64 - sub) / 1000 {
        i64::MAX
    } else {
        (secs * 1000 + sub) as i64
    }
}

/// What the clock's answer to "how long since the start of 1970" comes to
/// in milliseconds: the duration it names, and zero where it says that the
/// clock stands before 1970.
pub open spec fn millis_at(answer: Result<std::time::Duration, std::time::SystemTimeError>) -> int {
    match answer {
        Ok(since) => millis_of(duration_secs(since), duration_subsec_nanos(since)),
        Err(_) => 0,
    }
}

/// Converts the clock's answer to milliseconds.
pub fn millis_since(answer: Result<std::time::Duration, std::time::SystemTimeError>) -> (ms: i64)
    ensures
        ms == millis_at(answer),
        ms >= 0,
{
    match answer {
        Ok(since_the_epoch) => to_millis(
            since_the_epoch.as_secs(),
            since_the_epoch.subsec_nanos(),
        ),
        Err(_) => 0,
    }
}

/// Milliseconds since the start of 1970; zero where the clock stands before
/// that. What the clock answers is not for this library to say.
pub fn epoch_millis() -> (ms: i64)
    ensures
        ms >= 0,
        exists|answer: Result<std::time::Duration, std::time::SystemTimeError>|
            ms == millis_at(answer),
{
    let start = SystemTime::now();
    let answer = start.duration_since(unix_epoch());
    let ms = millis_since(answer);
    assert(ms == millis_at(answer));
    ms
}

/// A connection to the database.
#[verifier::external_type_specification]
#[verifier::external_body]
pub struct ExConnection(rusqlite::Connection);

/// A prepared statement.
#[verifier::external_type_specification]
#[verifier::external_body]
pub struct ExStatement<'conn>(rusqlite::Statement<'conn>);

/// The rows a query has still to give.
#[verifier::external_type_specification]
#[verifier::external_body]
pub struct ExRows<'stmt>(rusqlite::Rows<'stmt>);

/// What the database reports when it fails.
#[verifier::external_type_specification]
#[verifier::external_body]
pub struct ExSqlError(rusqlite::Error);

/// A lock around a value.
#[verifier::external_type_specification]
#[verifier::external_body]
#[verifier::reject_recursive_types(T)]
pub struct ExMutex<T: ?Sized>(Mutex<T>);

/// A held lock.
#[verifier::external_type_specification]
#[verifier::external_body]
#[verifier::reject_recursive_types(T)]
pub struct ExMutexGuard<'a, T: ?Sized + 'a>(MutexGuard<'a, T>);

/// `Mutex::lock`: waits for the lock and holds it, or `None` where the lock
/// is poisoned.
#[verifier::external_body]
fn lock<'a>(shared: &'a Mutex<Connection>) -> (guard: Option<MutexGuard<'a, Connection>>) {
    shared.lock().ok()
}

/// `MutexGuard::deref`: the connection behind a held lock.
#[verifier::external_body]
fn held<'a, 'b>(guard: &'b MutexGuard<'a, Connection>) -> (conn: &'b Connection) {
    guard
}

/// A row as it is offered to the table of gallery members.
pub struct Row {
    pub gallery: Seq<char>,
    pub image: Seq<char>,
    pub added: int,
}

/// The text that a statement was prepared from.
pub uninterp spec fn text_of(stat: rusqlite::Statement) -> Seq<char>;

/// Every row that has been handed to a prepared statement, in order,
/// whatever the database made of it.
pub uninterp spec fn offered(stat: rusqlite::Statement) -> Seq<Row>;

/// What the database has answered each time a prepared statement was run,
/// in order.
pub uninterp spec fn answered(stat: rusqlite::Statement) -> Seq<Result<usize, rusqlite::Error>>;

/// `Connection::prepare`: compiles a statement from its text. A new
/// statement has been handed nothing and has not been run.
#[verifier::external_body]
fn prepare<'c>(conn: &'c Connection, sql: &str) -> (r: Result<
    rusqlite::Statement<'c>,
    rusqlite::Error,
>)
    ensures
        r matches Ok(stat) ==> text_of(stat) == sql@ && offered(stat).len() == 0 && answered(
            stat,
        ).len() == 0,
{
    conn.prepare(sql)
}

/// `Statement::execute` with two texts and an integer bound to the
/// statement's three parameters: the three are handed to the statement as
/// one more row, and the statement is run once more.
#[verifier::external_body]
fn execute(stat: &mut rusqlite::Statement<'_>, first: &str, second: &str, third: i64) -> (r: Result<
    usize,
    rusqlite::Error,
>)
    ensures
        text_of(*final(stat)) == text_of(*old(stat)),
        offered(*final(stat)) == offered(*old(stat)).push(
            Row { gallery: first@, image: second@, added: third as int },
        ),
        answered(*final(stat)) == answered(*old(stat)).push(r),
{
    stat.execute((first, second, third))
}

/// `Statement::execute` without parameters: the statement is run once more,
/// and nothing is handed to it.
#[verifier::external_body]
fn run(stat: &mut rusqlite::Statement<'_>) -> (r: Result<usize, rusqlite::Error>)
    ensures
        text_of(*final(stat)) == text_of(*old(stat)),
        offered(*final(stat)) == offered(*old(stat)),
        answered(*final(stat)) == answered(*old(stat)).push(r),
{
    stat.execute(())
}

/// The kinds of failure that SQLite tells apart.
#[verifier::external_type_specification]
pub struct ExErrorCode(rusqlite::ErrorCode);

/// The kind of failure that an error of the database carries, where it is a
/// failure of SQLite itself.
pub uninterp spec fn failure_kind(e: rusqlite::Error) -> Option<rusqlite::ErrorCode>;

/// The code of `Error::SqliteFailure`, and `None` for every other error. It
/// is read off the error and nothing else.
#[verifier::external_body]
fn failure_code(e: &rusqlite::Error) -> (code: Option<rusqlite::ErrorCode>)
    ensures
        code == failure_kind(*e),
{
    match e {
        rusqlite::Error::SqliteFailure(failure, _) => Some(failure.code),
        _ => None,
    }
}

/// What the database was asked: the text of the statement and the text
/// bound to its parameter.
pub struct Question {
    pub text: Seq<char>,
    pub arg: Seq<char>,
}

/// What the database was asked for these rows.
pub uninterp spec fn asked(rows: rusqlite::Rows) -> Question;

/// `Statement::query` with one text bound to the statement's one parameter:
/// the rows are those of the statement, asked with that text.
#[verifier::external_body]
fn query<'s>(stat: &'s mut rusqlite::Statement<'_>, arg: &str) -> (r: Result<
    rusqlite::Rows<'s>,
    rusqlite::Error,
>)
    ensures
        r matches Ok(rows) ==> asked(rows) == (Question { text: text_of(*old(stat)), arg: arg@ }),
{
    stat.query([arg])
}

/// What a query has still to give: the first column of the rows ahead, in
/// order, up to the end of the rows or the first one that cannot be read,
/// and which of the two it is that comes after them.
pub struct RowsAhead {
    pub texts: Seq<Seq<char>>,
    pub ends_well: bool,
}

/// What a query has still to give.
pub uninterp spec fn rows_ahead(rows: rusqlite::Rows) -> RowsAhead;

/// `Rows::next`, then `Row::get` for the first column as a text: the next
/// row's first column, which is then no longer ahead. Where no row is
/// ahead, the answer is `None` if the rows end there, and an error if they
/// do not.
#[verifier::external_body]
fn next_text(rows: &mut rusqlite::Rows<'_>) -> (r: Result<Option<String>, rusqlite::Error>)
    ensures
        r matches Ok(Some(text)) ==> {
            &&& rows_ahead(*old(rows)).texts.len() > 0
            &&& text@ == rows_ahead(*old(rows)).texts[0]
            &&& rows_ahead(*final(rows)) == (RowsAhead {
                texts: rows_ahead(*old(rows)).texts.drop_first(),
                ends_well: rows_ahead(*old(rows)).ends_well,
            })
        },
        r matches Ok(None) ==> rows_ahead(*old(rows)).texts.len() == 0 && rows_ahead(
            *old(rows),
        ).ends_well,
        r is Err ==> rows_ahead(*old(rows)).texts.len() == 0 && !rows_ahead(*old(rows)).ends_well,
{
    match rows.next()? {
        Some(row) => row.get::<usize, String>(0).map(Some),
        None => Ok(None),
    }
}

/// What a statement that changes the schema comes to: done where the
/// database ran it, a database failure where it did not. How many rows it
/// touched is of no interest.
pub fn finished(result: Result<usize, rusqlite::Error>) -> (r: Result<(), GalleryError>)
    ensures
        r == match result {
            Ok(_) => Ok::<(), GalleryError>(()),
            Err(_) => Err::<(), GalleryError>(GalleryError::Database),
        },
{
    match result {
        Ok(_) => Ok(()),
        Err(_) => Err(GalleryError::Database),
    }
}

/// The statement that makes the table of gallery members.
pub open spec fn table_sql() -> Seq<char> {
    "create table if not exists gallery_images (
gallery char(10) not null,
image char(15) not null,
added datetime not null
)"@
}

/// The statement that makes a gallery hold an image at most once.
pub open spec fn index_sql() -> Seq<char> {
    "create unique index if not exists gal_img
on gallery_images (gallery, image)"@
}

/// A statement of the given text that was run once, with success.
pub open spec fn ran_once(stat: rusqlite::Statement, text: Seq<char>) -> bool {
    text_of(stat) == text && answered(stat).len() == 1 && answered(stat)[0] is Ok
}

/// Prepares a statement and runs it once.
fn run_once<'c>(conn: &'c Connection, sql: &str) -> (r: Result<rusqlite::Statement<'c>, GalleryError>)
    ensures
        match r {
            Ok(stat) => ran_once(stat, sql@),
            Err(e) => e == GalleryError::Database,
        },
{
    let mut stat = match prepare(conn, sql) {
        Ok(stat) => stat,
        Err(_) => {
            return Err(GalleryError::Database);
        },
    };
    let answer = run(&mut stat);
    match finished(answer) {
        Ok(()) => Ok(stat),
        Err(e) => Err(e),
    }
}

/// Creates the table of gallery members and its unique index, unless they
/// exist. The index is only asked for once the table is there.
///
/// The database decides whether the two statements succeed; where the call
/// does, each of the two was prepared and run once, and the database ran
/// it.
pub fn migrate_gallery(conn: &Connection) -> (r: Result<(), GalleryError>)
    ensures
        r is Ok ==> exists|table: rusqlite::Statement, index: rusqlite::Statement|
            #[trigger] ran_once(table, table_sql()) && #[trigger] ran_once(index, index_sql()),
        r matches Err(e) ==> e == GalleryError::Database,
{
    let table = match run_once(
        conn,
        "create table if not exists gallery_images (
gallery char(10) not null,
image char(15) not null,
added datetime not null
)",
    ) {
        Ok(table) => table,
        Err(e) => {
            return Err(e);
        },
    };
    let index = match run_once(
        conn,
        "create unique index if not exists gal_img
on gallery_images (gallery, image)",
    ) {
        Ok(index) => index,
        Err(e) => {
            return Err(e);
        },
    };
    assert(ran_once(table, table_sql()) && ran_once(index, index_sql()));
    Ok(())
}

/// The listing after one more row was read: a row is appended; the end of
/// the rows and a failure change nothing.
pub open spec fn with_row(listing: Seq<String>, row: Result<Option<String>, rusqlite::Error>) -> Seq<
    String,
> {
    match row {
        Ok(Some(image)) => listing.push(image),
        _ => listing,
    }
}

/// Whether the reading goes on after a row: it does after a row that was
/// read, it is complete at the end of the rows, and it fails where the
/// database does.
pub open spec fn reads_on(row: Result<Option<String>, rusqlite::Error>) -> Result<
    bool,
    GalleryError,
> {
    match row {
        Ok(Some(_)) => Ok(true),
        Ok(None) => Ok(false),
        Err(_) => Err(GalleryError::Database),
    }
}

/// Takes what was read of the rows of a listing, one row at a time.
pub fn take_row(listing: &mut Vec<String>, row: Result<Option<String>, rusqlite::Error>) -> (more:
    Result<bool, GalleryError>)
    ensures
        more == reads_on(row),
        final(listing)@ == with_row(old(listing)@, row),
{
    match row {
        Ok(Some(image)) => {
            listing.push(image);
            Ok(true)
        },
        Ok(None) => Ok(false),
        Err(_) => Err(GalleryError::Database),
    }
}

/// The texts of a listing.
pub open spec fn texts(listing: Seq<String>) -> Seq<Seq<char>> {
    listing.map_values(|s: String| s@)
}

/// Reads what a query has still to give, row by row, in the order the
/// database gives it.
///
/// Rows that cannot be read to their end are a database failure, and so is
/// a listing of more rows than a vector can hold.
pub fn read_rows(rows: &mut rusqlite::Rows<'_>) -> (r: Result<Vec<String>, GalleryError>)
    ensures
        r is Ok <==> rows_ahead(*old(rows)).ends_well && rows_ahead(*old(rows)).texts.len()
            < usize::MAX,
        match r {
            Ok(listing) => texts(listing@) == rows_ahead(*old(rows)).texts,
            Err(e) => e == GalleryError::Database,
        },
{
    let ghost all = rows_ahead(*rows);
    let mut resp: Vec<String> = Vec::new();
    assert(texts(resp@) + all.texts =~= all.texts);
    while resp.len() < usize::MAX
        invariant
            resp.len() <= usize::MAX,
            all == rows_ahead(*old(rows)),
            texts(resp@) + rows_ahead(*rows).texts == all.texts,
            rows_ahead(*rows).ends_well == all.ends_well,
        decreases usize::MAX - resp.len(),
    {
        let ghost before = resp@;
        let ghost ahead = rows_ahead(*rows).texts;
        let row = next_text(rows);
        match take_row(&mut resp, row) {
            Ok(true) => {
                proof {
                    assert(texts(resp@) =~= texts(before).push(ahead[0]));
                    assert(texts(before).push(ahead[0]) + ahead.drop_first() =~= texts(before)
                        + ahead);
                }
            },
            Ok(false) => {
                proof {
                    assert(texts(resp@) + ahead =~= texts(resp@));
                }
                return Ok(resp);
            },
            Err(e) => {
                return Err(e);
            },
        }
    }
    proof {
        assert((texts(resp@) + rows_ahead(*rows).texts).len() >= resp@.len());
    }
    Err(GalleryError::Database)
}

/// The question for the images of a gallery, the one added last first.
pub open spec fn list_sql() -> Seq<char> {
    "select image from gallery_images
where gallery=? order by added desc"@
}

/// `listing` is what the database gave, to its end, when it was asked for
/// the images of the gallery `public` with [`list_sql`].
pub open spec fn lists(rows: rusqlite::Rows, public: Seq<char>, listing: Seq<Seq<char>>) -> bool {
    &&& asked(rows) == (Question { text: list_sql(), arg: public })
    &&& rows_ahead(rows).ends_well
    &&& rows_ahead(rows).texts == listing
}

/// The images of a gallery, the one added last first.
///
/// The database is asked for the images of the token in the order of their
/// timestamps, the latest first, and what it gives is read to the end. The
/// database decides what that is and whether it can be read.
pub fn gallery_list_all(conn: &Connection, public: &str) -> (r: Result<Vec<String>, GalleryError>)
    ensures
        r matches Ok(listing) ==> exists|rows: rusqlite::Rows| #[trigger]
            lists(rows, public@, texts(listing@)),
        r matches Err(e) ==> e == GalleryError::Database,
{
    let mut stat = match prepare(
        conn,
        "select image from gallery_images
where gallery=? order by added desc",
    ) {
        Ok(stat) => stat,
        Err(_) => {
            return Err(GalleryError::Database);
        },
    };
    let mut rows = match query(&mut stat, public) {
        Ok(rows) => rows,
        Err(_) => {
            return Err(GalleryError::Database);
        },
    };
    let ghost first = rows;
    let r = read_rows(&mut rows);
    assert(r matches Ok(listing) ==> lists(first, public@, texts(listing@)));
    r
}

/// What became of one row that was offered to the table.
#[derive(Clone, Copy, Debug, PartialEq, Eq, Structural)]
pub enum InsertOutcome {
    /// The row is in the table now.
    Inserted,
    /// The gallery has the image already; the table is unchanged.
    Duplicate,
    /// The database failed.
    Failed,
}

/// What an answer of the database to an insert means: the row went in, or
/// it violated a constraint and the gallery has the image already, or the
/// database failed.
pub open spec fn insert_outcome(result: Result<usize, rusqlite::Error>) -> InsertOutcome {
    match result {
        Ok(_) => InsertOutcome::Inserted,
        Err(e) => if failure_kind(e) == Some(rusqlite::ErrorCode::ConstraintViolation) {
            InsertOutcome::Duplicate
        } else {
            InsertOutcome::Failed
        },
    }
}

/// Reads the outcome of an insert off what the database returned.
pub fn outcome_of(result: Result<usize, rusqlite::Error>) -> (o: InsertOutcome)
    ensures
        o == insert_outcome(result),
{
    match result {
        Ok(_) => InsertOutcome::Inserted,
        Err(e) => match failure_code(&e) {
            Some(rusqlite::ErrorCode::ConstraintViolation) => InsertOutcome::Duplicate,
            _ => InsertOutcome::Failed,
        },
    }
}

/// The timestamp of a batch's first row: the present time, or, where the
/// clock stands so close to the end of time that `rows` timestamps would not
/// fit after it, the last moment from which they do.
pub open spec fn first_stamp_of(now: i64, rows: nat) -> int {
    if now + rows <= i64::MAX {
        now as int
    } else {
        i64::MAX - rows
    }
}

/// The timestamp that follows `stamp` once a row has met its fate: one more
/// after a row that went in, the same after one that did not.
pub open spec fn stamp_after(stamp: int, outcome: InsertOutcome) -> int {
    if outcome == InsertOutcome::Inserted {
        stamp + 1
    } else {
        stamp
    }
}

/// The timestamp offered to row `i` of a batch that starts at `first`, given
/// what became of the rows before it.
pub open spec fn stamp_offered(first: int, outcomes: Seq<InsertOutcome>, i: nat) -> int
    decreases i,
{
    if i == 0 {
        first
    } else {
        stamp_after(stamp_offered(first, outcomes, (i - 1) as nat), outcomes[i - 1])
    }
}

/// Picks the timestamp of a batch's first row.
pub fn first_stamp(now: i64, rows: usize) -> (stamp: i64)
    ensures
        stamp == first_stamp_of(now, rows as nat),
        stamp + rows <= i64::MAX,
{
    let last: i128 = i64::MAX as i128 - rows as i128;
    if now as i128 <= last {
        now
    } else {
        last as i64
    }
}

/// Decides how a batch goes on after one row: with the next timestamp after
/// a row that went in, with the same one after a duplicate, and not at all
/// after a failure.
pub fn absorb(stamp: i64, outcome: InsertOutcome) -> (r: Result<i64, GalleryError>)
    requires
        stamp < i64::MAX,
    ensures
        match outcome {
            InsertOutcome::Failed => r == Err::<i64, GalleryError>(GalleryError::Database),
            _ => r == Ok::<i64, GalleryError>(stamp_after(stamp as int, outcome) as i64),
        },
{
    match outcome {
        InsertOutcome::Inserted => Ok(stamp + 1),
        InsertOutcome::Duplicate => Ok(stamp),
        InsertOutcome::Failed => Err(GalleryError::Database),
    }
}

/// Timestamps never go back within a batch, and a row that went in has a
/// timestamp below that of every row after it: of two images added by one
/// call, the one named later is the one added later.
pub proof fn later_rows_rank_ahead(first: int, outcomes: Seq<InsertOutcome>, i: nat, j: nat)
    requires
        i < j <= outcomes.len(),
    ensures
        stamp_offered(first, outcomes, i) <= stamp_offered(first, outcomes, j),
        outcomes[i as int] == InsertOutcome::Inserted ==> stamp_offered(first, outcomes, i)
            < stamp_offered(first, outcomes, j),
        stamp_offered(first, outcomes, j) <= first + j,
    decreases j,
{
    stamps_are_bounded(first, outcomes, j);
    if i + 1 < j {
        later_rows_rank_ahead(first, outcomes, i, (j - 1) as nat);
    }
}

proof fn stamps_are_bounded(first: int, outcomes: Seq<InsertOutcome>, i: nat)
    ensures
        first <= stamp_offered(first, outcomes, i) <= first + i,
    decreases i,
{
    if i > 0 {
        stamps_are_bounded(first, outcomes, (i - 1) as nat);
    }
}

/// The texts of the images of a batch.
pub open spec fn names(images: Seq<&str>) -> Seq<Seq<char>> {
    images.map_values(|s: &str| s@)
}

/// The rows that a batch offers, given what became of each: one row for
/// every image that was reached, in the order given, under the gallery's
/// token and with the timestamp of its turn.
pub open spec fn batch_rows(
    public: Seq<char>,
    images: Seq<Seq<char>>,
    first: int,
    outcomes: Seq<InsertOutcome>,
) -> Seq<Row> {
    Seq::new(
        outcomes.len(),
        |i: int| Row { gallery: public, image: images[i], added: stamp_offered(first, outcomes, i as nat) },
    )
}

/// How a batch of `rows` images goes: it offers row after row and stops at
/// the first failure of the database; it succeeds where every image was
/// reached and none failed.
pub open spec fn batch_goes(outcomes: Seq<InsertOutcome>, rows: nat, done: bool) -> bool {
    &&& outcomes.len() <= rows
    &&& forall|i: int| 0 <= i < outcomes.len() - 1 ==> outcomes[i] != InsertOutcome::Failed
    &&& done ==> outcomes.len() == rows && forall|i: int|
        0 <= i < outcomes.len() ==> outcomes[i] != InsertOutcome::Failed
    &&& !done ==> outcomes.len() > 0 && outcomes.last() == InsertOutcome::Failed
}

/// What became of each row, read off the answers of the database.
pub open spec fn outcomes_of(answers: Seq<Result<usize, rusqlite::Error>>) -> Seq<InsertOutcome> {
    answers.map_values(|answer: Result<usize, rusqlite::Error>| insert_outcome(answer))
}

/// A statement has taken a batch since it was as `before`: the rows of the
/// batch were offered after those it had, each with the timestamp that the
/// answers to the rows before it give, and the batch went as the answers
/// say.
pub open spec fn took_batch(
    before: rusqlite::Statement,
    after: rusqlite::Statement,
    public: Seq<char>,
    images: Seq<Seq<char>>,
    first: int,
    done: bool,
) -> bool {
    let answers = answered(after).skip(answered(before).len() as int);
    &&& text_of(after) == text_of(before)
    &&& answered(after) == answered(before) + answers
    &&& offered(after) == offered(before) + batch_rows(public, images, first, outcomes_of(answers))
    &&& batch_goes(outcomes_of(answers), images.len(), done)
}

/// Offers the images of a batch to the table, one row each, in the order
/// given, the first with the timestamp `first` and each later one with the
/// timestamp that [`stamp_offered`] gives it.
///
/// A row the gallery has already is passed over. Any other failure of the
/// database ends the batch; rows that went in before it stay.
pub fn offer_all(
    stat: &mut rusqlite::Statement<'_>,
    public: &str,
    images: &[&str],
    first: i64,
) -> (r: Result<(), GalleryError>)
    requires
        first + images@.len() <= i64::MAX,
    ensures
        took_batch(*old(stat), *final(stat), public@, names(images@), first as int, r is Ok),
        r matches Err(e) ==> e == GalleryError::Database,
{
    let ghost before = *stat;
    let ghost mut answers: Seq<Result<usize, rusqlite::Error>> = Seq::empty();
    let mut timestamp = first;
    let mut i: usize = 0;
    proof {
        assert(offered(before) + batch_rows(
            public@,
            names(images@),
            first as int,
            outcomes_of(answers),
        ) =~= offered(before));
        assert(answered(before) + answers =~= answered(before));
    }
    while i < images.len()
        invariant
            i <= images.len(),
            first + images@.len() <= i64::MAX,
            before == *old(stat),
            answers.len() == i,
            text_of(*stat) == text_of(before),
            answered(*stat) == answered(before) + answers,
            forall|k: int| 0 <= k < i ==> outcomes_of(answers)[k] != InsertOutcome::Failed,
            timestamp == stamp_offered(first as int, outcomes_of(answers), i as nat),
            first <= timestamp <= first + i,
            offered(*stat) == offered(before) + batch_rows(
                public@,
                names(images@),
                first as int,
                outcomes_of(answers),
            ),
        decreases images.len() - i,
    {
        let answer = execute(stat, public, images[i], timestamp);
        let outcome = outcome_of(answer);
        proof {
            let outcomes = outcomes_of(answers);
            let longer = outcomes_of(answers.push(answer));
            assert(longer =~= outcomes.push(outcome));
            let so_far = batch_rows(public@, names(images@), first as int, outcomes);
            let more = batch_rows(public@, names(images@), first as int, longer);
            assert forall|k: nat| k <= i implies #[trigger] stamp_offered(first as int, longer, k)
                == stamp_offered(first as int, outcomes, k) by {
                stamp_ignores_later_rows(first as int, outcomes, longer, k);
            }
            stamp_ignores_later_rows(first as int, outcomes, longer, i as nat);
            assert(more =~= so_far.push(
                Row { gallery: public@, image: images@[i as int]@, added: timestamp as int },
            ));
            assert(offered(before) + more =~= (offered(before) + so_far).push(
                Row { gallery: public@, image: images@[i as int]@, added: timestamp as int },
            ));
            assert(answered(before) + answers.push(answer) =~= (answered(before) + answers).push(
                answer,
            ));
            answers = answers.push(answer);
        }
        match absorb(timestamp, outcome) {
            Ok(next) => {
                timestamp = next;
            },
            Err(e) => {
                proof {
                    assert(answered(*stat).skip(answered(before).len() as int) =~= answers);
                    assert(batch_goes(outcomes_of(answers), images@.len(), false));
                }
                return Err(e);
            },
        }
        i += 1;
    }
    proof {
        assert(answered(*stat).skip(answered(before).len() as int) =~= answers);
        assert(batch_goes(outcomes_of(answers), images@.len(), true));
    }
    Ok(())
}

/// The statement that offers a row to the table of gallery members.
pub open spec fn insert_sql() -> Seq<char> {
    "insert into gallery_images (gallery, image, added) values (?, ?, ?)"@
}

/// A statement that has taken the whole batch of a call and nothing else:
/// it was prepared from [`insert_sql`], and was offered one row for every
/// image, in order, under the token, the first with the time `now` as
/// [`first_stamp`] takes it and each later one with the timestamp that the
/// answers to the rows before it give; and none of the answers was a failure
/// other than a duplicate.
pub open spec fn stored_batch(
    stat: rusqlite::Statement,
    public: Seq<char>,
    images: Seq<Seq<char>>,
    now: i64,
) -> bool {
    &&& now >= 0
    &&& text_of(stat) == insert_sql()
    &&& offered(stat) == batch_rows(
        public,
        images,
        first_stamp_of(now, images.len()),
        outcomes_of(answered(stat)),
    )
    &&& batch_goes(outcomes_of(answered(stat)), images.len(), true)
}

/// Adds images to a gallery and returns the gallery's public token.
///
/// The token is derived from the credentials. Then the images are offered to
/// the table as [`offer_all`] does it, the first with the present time, or
/// what [`first_stamp`] makes of it. A poisoned lock is reported as such; the
/// lock, the database and the clock decide the rest.
pub fn gallery_store(
    conn: &Arc<Mutex<Connection>>,
    global_secret: &[u8],
    gallery: &str,
    private: &str,
    images: &[&str],
) -> (r: Result<String, GalleryError>)
    ensures
        r matches Ok(public) ==> public@ == public_token(global_secret@, gallery@, private@),
        r is Ok ==> exists|stat: rusqlite::Statement, now: i64| #[trigger]
            stored_batch(
                stat,
                public_token(global_secret@, gallery@, private@),
                names(images@),
                now,
            ),
{
    let public = public_id_for(global_secret, gallery, private);
    let guard = match lock(conn) {
        Some(guard) => guard,
        None => {
            return Err(GalleryError::LockPoisoned);
        },
    };
    let mut stat = match prepare(
        held(&guard),
        "insert into gallery_images (gallery, image, added) values (?, ?, ?)",
    ) {
        Ok(stat) => stat,
        Err(_) => {
            return Err(GalleryError::Database);
        },
    };
    let ghost fresh = stat;
    let now = epoch_millis();
    let first = first_stamp(now, images.len());
    match offer_all(&mut stat, public.as_str(), images, first) {
        Ok(()) => {
            proof {
                assert(answered(fresh) + answered(stat).skip(0) =~= answered(stat).skip(0));
                assert(answered(stat).skip(0) =~= answered(stat));
                assert(offered(fresh) + batch_rows(
                    public@,
                    names(images@),
                    first as int,
                    outcomes_of(answered(stat)),
                ) =~= batch_rows(
                    public@,
                    names(images@),
                    first as int,
                    outcomes_of(answered(stat)),
                ));
                assert(stored_batch(stat, public@, names(images@), now));
            }
            Ok(public)
        },
        Err(e) => Err(e),
    }
}

proof fn stamp_ignores_later_rows(
    first: int,
    shorter: Seq<InsertOutcome>,
    longer: Seq<InsertOutcome>,
    i: nat,
)
    requires
        i <= shorter.len() <= longer.len(),
        forall|k: int| 0 <= k < i ==> shorter[k] == longer[k],
    ensures
        stamp_offered(first, shorter, i) == stamp_offered(first, longer, i),
    decreases i,
{
    if i > 0 {
        stamp_ignores_later_rows(first, shorter, longer, (i - 1) as nat);
    }
}

} // verus!
