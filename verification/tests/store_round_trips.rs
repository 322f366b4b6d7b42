use hastepilot::clock::Timestamp;
use hastepilot::docker_pilot::{
    finish_get_logs, AuditLog, Command, ContainerFlow, ContainerRequest,
};
use hastepilot::hastebin::{
    create_paste, default_config, finish_create_paste, finish_get_paste, finish_list_pastes,
    CreatePaste, Paste,
};

fn copy(p: &Paste) -> Paste {
    Paste { id: p.id.clone(), content: p.content.clone(), created_at: Timestamp { secs: p.created_at.secs, nanos: p.created_at.nanos } }
}

/// A table that behaves as the program's SQL statements ask.
struct PasteTable {
    rows: Vec<Paste>,
}

impl PasteTable {
    fn insert(&mut self, p: &Paste) -> Result<(), String> {
        if self.rows.iter().any(|r| r.id == p.id) {
            return Err("UNIQUE constraint failed: pastes.id".to_string());
        }
        self.rows.push(copy(p));
        Ok(())
    }
    fn select(&self, id: &str) -> Result<Option<Paste>, String> {
        Ok(self.rows.iter().find(|r| r.id == id).map(copy))
    }
    fn newest(&self) -> Result<Vec<Paste>, String> {
        let mut v: Vec<Paste> = self.rows.iter().map(copy).collect();
        v.sort_by(|a, b| (b.created_at.secs, b.created_at.nanos).cmp(&(a.created_at.secs, a.created_at.nanos)));
        v.truncate(50);
        Ok(v)
    }
}

fn create(table: &mut PasteTable, content: &str) -> Result<(u16, Paste), u16> {
    let p = create_paste(&default_config(), CreatePaste { content: content.to_string() }).map_err(|e| e.status)?;
    let stored = table.insert(&p);
    finish_create_paste(p, stored).map_err(|e| e.status)
}

#[test]
fn read_after_create_gives_the_created_paste() {
    let mut table = PasteTable { rows: Vec::new() };
    let (status, p) = create(&mut table, "hello").unwrap();
    assert_eq!(status, 201);
    let q = finish_get_paste(table.select(&p.id)).ok().unwrap();
    assert_eq!(q.id, p.id);
    assert_eq!(q.content, "hello");
    assert_eq!(q.created_at.secs, p.created_at.secs);
    assert_eq!(q.created_at.nanos, p.created_at.nanos);
    assert!(p.created_at.nanos < 1_000_000_000);
}

#[test]
fn newest_paste_is_listed_first() {
    let mut table = PasteTable { rows: Vec::new() };
    table.insert(&Paste { id: "old".to_string(), content: "a".to_string(), created_at: Timestamp { secs: 100, nanos: 0 } }).unwrap();
    let (_, p) = create(&mut table, "new").unwrap();
    let listed = finish_list_pastes(table.newest()).ok().unwrap();
    assert_eq!(listed.len(), 2);
    assert_eq!(listed[0].id, p.id);
    assert_eq!(listed[0].content, "new");
    assert_eq!(listed[1].id, "old");
}

#[test]
fn colliding_id_is_refused_and_nothing_overwritten() {
    let mut table = PasteTable { rows: Vec::new() };
    let first = Paste { id: "abcdefghij".to_string(), content: "first".to_string(), created_at: Timestamp { secs: 1, nanos: 0 } };
    let stored = table.insert(&first);
    assert_eq!(finish_create_paste(copy(&first), stored).ok().unwrap().0, 201);
    let clash = Paste { id: "abcdefghij".to_string(), content: "second".to_string(), created_at: Timestamp { secs: 2, nanos: 0 } };
    let stored = table.insert(&clash);
    let e = finish_create_paste(clash, stored).err().unwrap();
    assert_eq!(e.status, 500);
    assert_eq!(e.body.contents, "database error!: UNIQUE constraint failed: pastes.id");
    assert_eq!(finish_get_paste(table.select("abcdefghij")).ok().unwrap().content, "first");
}

#[test]
fn successful_creates_have_distinct_ids() {
    let mut table = PasteTable { rows: Vec::new() };
    let mut ids: Vec<String> = Vec::new();
    for i in 0..20 {
        let (_, p) = create(&mut table, &format!("paste {i}")).unwrap();
        assert!(!ids.contains(&p.id));
        ids.push(p.id);
    }
    assert_eq!(table.rows.len(), 20);
}

#[test]
fn stop_heads_the_audit_log() {
    // what the audit table held before
    let mut log = vec![AuditLog { id: 1, action: "create".to_string(), container_name: "web".to_string(), timestamp: "2024-01-01 00:00:00".to_string() }];
    let (flow, _) = ContainerFlow::begin(ContainerRequest::Stop { name: "web".to_string() }, &Some(b"k".to_vec()), "k");
    let (flow, cmd) = flow.step(Ok(()));
    match cmd {
        Command::Record { action, container_name } => {
            let id = log.iter().map(|l| l.id).max().unwrap_or(0) + 1;
            log.push(AuditLog { id, action, container_name, timestamp: "2024-01-01 00:01:00".to_string() });
        }
        _ => panic!("expected a record"),
    }
    let (flow, _) = flow.step(Ok(()));
    assert!(flow.is_finished());
    log.sort_by(|a, b| b.id.cmp(&a.id));
    let rows = finish_get_logs(Ok(log)).ok().unwrap();
    assert_eq!(rows[0].action, "stop");
    assert_eq!(rows[0].container_name, "web");
    assert_eq!(rows[1].action, "create");
}
