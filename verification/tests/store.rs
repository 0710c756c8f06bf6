use hn_sync::error::Stage;
use hn_sync::listing::Listing;
use hn_sync::store::connect_mode;
use hn_sync::store::db_connect;
use hn_sync::store::db_create;
use hn_sync::store::db_open;
use hn_sync::store::db_query_ids;
use hn_sync::store::db_upsert;
use hn_sync::store::ConnectMode;
use hn_sync::store::CREATE_TABLE_SQL;
use hn_sync::store::ID_COLUMN;
use hn_sync::store::SELECT_IDS_SQL;
use hn_sync::store::UPSERT_SQL;
use rusqlite::Connection;

type Columns = (u32, String, Option<u32>, Option<String>, String);

fn listing(id: u32, title: &str, score: Option<u32>, user: Option<&str>, url: &str) -> Listing {
    Listing {
        id,
        title: title.to_string(),
        score,
        user: user.map(|u| u.to_string()),
        url: url.to_string(),
    }
}

fn columns(l: &Listing) -> Columns {
    (l.id, l.title.clone(), l.score, l.user.clone(), l.url.clone())
}

fn rows(conn: &Connection) -> Vec<Columns> {
    let mut stmt = conn
        .prepare("SELECT id, title, score, user, url FROM Listings ORDER BY id")
        .unwrap();
    let found = stmt
        .query_map([], |row| Ok((row.get(0)?, row.get(1)?, row.get(2)?, row.get(3)?, row.get(4)?)))
        .unwrap();
    found.map(|r| r.unwrap()).collect()
}

fn sorted(mut ids: Vec<u32>) -> Vec<u32> {
    ids.sort();
    ids
}

fn fresh_path(name: &str) -> String {
    let nanos = std::time::SystemTime::now()
        .duration_since(std::time::UNIX_EPOCH)
        .unwrap()
        .as_nanos();
    format!("/tmp/hn_sync_{}_{}.db", name, nanos)
}

#[test]
fn statements_name_the_listings_table() {
    assert_eq!(
        CREATE_TABLE_SQL,
        "CREATE TABLE Listings (id INTEGER PRIMARY KEY, title TEXT NOT NULL, score INTEGER, user TEXT, url TEXT NOT NULL)"
    );
    assert_eq!(
        UPSERT_SQL,
        "INSERT OR REPLACE INTO Listings (id, title, score, user, url) VALUES (?1, ?2, ?3, ?4, ?5)"
    );
    assert_eq!(SELECT_IDS_SQL, "SELECT id FROM Listings");
    assert_eq!(ID_COLUMN, 0);
}

#[test]
fn connect_mode_follows_the_file() {
    assert_eq!(connect_mode(true), ConnectMode::OpenExisting);
    assert_eq!(connect_mode(false), ConnectMode::CreateNew);
}

#[test]
fn new_database_has_an_empty_table() {
    let mut conn = db_connect(":memory:").unwrap();
    assert_eq!(db_query_ids(&mut conn).unwrap(), Vec::<u32>::new());
    assert_eq!(rows(&conn), Vec::<Columns>::new());
}

#[test]
fn created_table_has_the_five_columns() {
    let conn = db_create(":memory:").unwrap();
    let mut stmt = conn.prepare("SELECT name, type, \"notnull\", pk FROM pragma_table_info('Listings')").unwrap();
    let found: Vec<(String, String, i64, i64)> = stmt
        .query_map([], |row| Ok((row.get(0)?, row.get(1)?, row.get(2)?, row.get(3)?)))
        .unwrap()
        .map(|r| r.unwrap())
        .collect();
    assert_eq!(
        found,
        vec![
            ("id".to_string(), "INTEGER".to_string(), 0, 1),
            ("title".to_string(), "TEXT".to_string(), 1, 0),
            ("score".to_string(), "INTEGER".to_string(), 0, 0),
            ("user".to_string(), "TEXT".to_string(), 0, 0),
            ("url".to_string(), "TEXT".to_string(), 1, 0),
        ]
    );
}

#[test]
fn upsert_then_query_returns_exactly_the_ids() {
    let mut conn = db_connect(":memory:").unwrap();
    let batch = vec![
        listing(1, "one", Some(10), Some("ann"), "http://one"),
        listing(2, "two", None, None, "http://two"),
        listing(3, "three", Some(30), Some("cy"), "http://three"),
    ];
    db_upsert(&mut conn, &batch).unwrap();
    assert_eq!(sorted(db_query_ids(&mut conn).unwrap()), vec![1, 2, 3]);
    assert_eq!(rows(&conn), batch.iter().map(columns).collect::<Vec<Columns>>());
}

#[test]
fn upsert_writes_every_column() {
    let mut conn = db_connect(":memory:").unwrap();
    db_upsert(&mut conn, &vec![listing(4_000_000_000, "t", Some(4_294_967_295), Some("u"), "w")])
        .unwrap();
    assert_eq!(
        rows(&conn),
        vec![(4_000_000_000, "t".to_string(), Some(4_294_967_295), Some("u".to_string()), "w".to_string())]
    );
    assert_eq!(db_query_ids(&mut conn).unwrap(), vec![4_000_000_000]);
}

#[test]
fn upsert_same_id_twice_keeps_one_row_with_latest_values() {
    let mut conn = db_connect(":memory:").unwrap();
    db_upsert(&mut conn, &vec![listing(5, "old", Some(1), Some("ann"), "http://old")]).unwrap();
    db_upsert(&mut conn, &vec![listing(5, "new", None, None, "http://new")]).unwrap();
    assert_eq!(db_query_ids(&mut conn).unwrap(), vec![5]);
    assert_eq!(rows(&conn), vec![(5, "new".to_string(), None, None, "http://new".to_string())]);
}

#[test]
fn upsert_same_id_twice_in_one_batch_keeps_the_last() {
    let mut conn = db_connect(":memory:").unwrap();
    let batch = vec![
        listing(5, "first", Some(1), None, "a"),
        listing(6, "other", Some(2), None, "b"),
        listing(5, "second", Some(3), None, "c"),
    ];
    db_upsert(&mut conn, &batch).unwrap();
    assert_eq!(
        rows(&conn),
        vec![
            (5, "second".to_string(), Some(3), None, "c".to_string()),
            (6, "other".to_string(), Some(2), None, "b".to_string()),
        ]
    );
}

#[test]
fn upsert_same_batch_twice_changes_nothing() {
    let mut conn = db_connect(":memory:").unwrap();
    let batch = vec![listing(1, "one", Some(10), None, "u1"), listing(2, "two", None, None, "u2")];
    db_upsert(&mut conn, &batch).unwrap();
    let once = rows(&conn);
    db_upsert(&mut conn, &batch).unwrap();
    assert_eq!(rows(&conn), once);
}

#[test]
fn upsert_of_empty_batch_changes_nothing() {
    let mut conn = db_connect(":memory:").unwrap();
    db_upsert(&mut conn, &vec![listing(1, "one", None, None, "u1")]).unwrap();
    let before = rows(&conn);
    db_upsert(&mut conn, &Vec::new()).unwrap();
    assert_eq!(rows(&conn), before);
}

#[test]
fn cycles_converge_to_union_with_latest_values() {
    let mut conn = db_connect(":memory:").unwrap();
    let cycles = vec![
        vec![listing(1, "a1", Some(1), None, "u1"), listing(2, "b1", Some(1), None, "u2")],
        vec![listing(2, "b2", Some(2), None, "u2"), listing(3, "c2", Some(2), None, "u3")],
        vec![listing(1, "a3", Some(3), Some("z"), "u1x"), listing(4, "d3", None, None, "u4")],
    ];
    for batch in cycles.iter() {
        db_upsert(&mut conn, batch).unwrap();
    }
    assert_eq!(sorted(db_query_ids(&mut conn).unwrap()), vec![1, 2, 3, 4]);
    assert_eq!(
        rows(&conn),
        vec![
            (1, "a3".to_string(), Some(3), Some("z".to_string()), "u1x".to_string()),
            (2, "b2".to_string(), Some(2), None, "u2".to_string()),
            (3, "c2".to_string(), Some(2), None, "u3".to_string()),
            (4, "d3".to_string(), None, None, "u4".to_string()),
        ]
    );
}

#[test]
fn failed_write_rolls_back_the_whole_batch() {
    let mut conn = Connection::open_in_memory().unwrap();
    conn.execute(
        "CREATE TABLE Listings (id INTEGER PRIMARY KEY CHECK (id <> 2), title TEXT NOT NULL, score INTEGER, user TEXT, url TEXT NOT NULL)",
        [],
    )
    .unwrap();
    db_upsert(&mut conn, &vec![listing(9, "kept", None, None, "u9")]).unwrap();
    let batch = vec![
        listing(1, "one", None, None, "u1"),
        listing(2, "two", None, None, "u2"),
        listing(3, "three", None, None, "u3"),
    ];
    let err = db_upsert(&mut conn, &batch).unwrap_err();
    assert_eq!(err.stage, Stage::Write);
    assert!(!err.message.is_empty());
    assert_eq!(db_query_ids(&mut conn).unwrap(), vec![9]);
    db_upsert(&mut conn, &vec![listing(1, "one", None, None, "u1")]).unwrap();
    assert_eq!(sorted(db_query_ids(&mut conn).unwrap()), vec![1, 9]);
}

#[test]
fn upsert_without_table_fails_at_write() {
    let mut conn = Connection::open_in_memory().unwrap();
    let err = db_upsert(&mut conn, &vec![listing(1, "one", None, None, "u1")]).unwrap_err();
    assert_eq!(err.stage, Stage::Write);
}

#[test]
fn upsert_inside_open_transaction_fails_at_begin() {
    let mut conn = db_connect(":memory:").unwrap();
    conn.execute_batch("BEGIN").unwrap();
    let err = db_upsert(&mut conn, &vec![listing(1, "one", None, None, "u1")]).unwrap_err();
    assert_eq!(err.stage, Stage::Begin);
    conn.execute_batch("ROLLBACK").unwrap();
    assert_eq!(db_query_ids(&mut conn).unwrap(), Vec::<u32>::new());
}

#[test]
fn upsert_that_breaks_deferred_constraint_fails_at_commit() {
    let mut conn = Connection::open_in_memory().unwrap();
    conn.execute_batch(
        "PRAGMA foreign_keys = ON;
         CREATE TABLE Owners (id INTEGER PRIMARY KEY);
         CREATE TABLE Listings (id INTEGER PRIMARY KEY REFERENCES Owners(id) DEFERRABLE INITIALLY DEFERRED, title TEXT NOT NULL, score INTEGER, user TEXT, url TEXT NOT NULL);",
    )
    .unwrap();
    let err = db_upsert(&mut conn, &vec![listing(1, "one", None, None, "u1")]).unwrap_err();
    assert_eq!(err.stage, Stage::Commit);
}

#[test]
fn query_without_table_fails_at_prepare() {
    let mut conn = Connection::open_in_memory().unwrap();
    let err = db_query_ids(&mut conn).unwrap_err();
    assert_eq!(err.stage, Stage::Prepare);
    assert!(!err.message.is_empty());
}

#[test]
fn query_of_id_out_of_range_fails_at_read() {
    let mut conn = db_connect(":memory:").unwrap();
    conn.execute("INSERT INTO Listings (id, title, url) VALUES (-1, 't', 'u')", []).unwrap();
    let err = db_query_ids(&mut conn).unwrap_err();
    assert_eq!(err.stage, Stage::Read);
}

#[test]
fn open_of_missing_file_fails_at_open() {
    let err = db_open(&fresh_path("missing")).unwrap_err();
    assert_eq!(err.stage, Stage::Open);
    assert!(!err.message.is_empty());
}

#[test]
fn create_in_missing_directory_fails_at_open() {
    let err = db_create("/hn_sync_no_such_directory/hn.db").unwrap_err();
    assert_eq!(err.stage, Stage::Open);
    let err = db_connect("/hn_sync_no_such_directory/hn.db").unwrap_err();
    assert_eq!(err.stage, Stage::Open);
}

#[test]
fn create_on_provisioned_file_fails_at_schema() {
    let path = fresh_path("twice");
    let first = db_create(&path).unwrap();
    drop(first);
    let err = db_create(&path).unwrap_err();
    assert_eq!(err.stage, Stage::Schema);
}

#[test]
fn connect_creates_then_reopens_the_same_file() {
    let path = fresh_path("reopen");
    let mut first = db_connect(&path).unwrap();
    db_upsert(&mut first, &vec![listing(1, "one", Some(1), None, "u1")]).unwrap();
    drop(first);
    let mut second = db_connect(&path).unwrap();
    assert_eq!(db_query_ids(&mut second).unwrap(), vec![1]);
    let mut third = db_open(&path).unwrap();
    assert_eq!(db_query_ids(&mut third).unwrap(), vec![1]);
}

#[test]
fn connections_of_several_tasks_share_the_file() {
    let path = fresh_path("shared");
    let mut writer = db_connect(&path).unwrap();
    let mut reader = db_connect(&path).unwrap();
    db_upsert(&mut writer, &vec![listing(1, "one", None, None, "u1"), listing(2, "two", None, None, "u2")])
        .unwrap();
    assert_eq!(sorted(db_query_ids(&mut reader).unwrap()), vec![1, 2]);
    db_upsert(&mut reader, &vec![listing(2, "two again", Some(5), None, "u2")]).unwrap();
    assert_eq!(
        rows(&writer),
        vec![
            (1, "one".to_string(), None, None, "u1".to_string()),
            (2, "two again".to_string(), Some(5), None, "u2".to_string()),
        ]
    );
}

#[test]
fn path_with_nul_character_fails_at_open() {
    let err = db_open("/tmp/hn_sync\0.db").unwrap_err();
    assert_eq!(err.stage, Stage::Open);
    assert!(!err.message.is_empty());
    let err = db_create("/tmp/hn_sync\0.db").unwrap_err();
    assert_eq!(err.stage, Stage::Open);
    let err = db_connect("/tmp/hn_sync\0.db").unwrap_err();
    assert_eq!(err.stage, Stage::Open);
    let err = db_connect("\0").unwrap_err();
    assert_eq!(err.stage, Stage::Open);
}

#[test]
fn empty_batch_without_table_writes_nothing_and_succeeds() {
    let mut conn = Connection::open_in_memory().unwrap();
    assert_eq!(db_upsert(&mut conn, &Vec::new()), Ok(()));
    let err = db_upsert(&mut conn, &vec![listing(1, "one", None, None, "u1")]).unwrap_err();
    assert_eq!(err.stage, Stage::Write);
}
