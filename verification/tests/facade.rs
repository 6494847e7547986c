use std::sync::{Arc, Mutex};

use kyf_log::{error_label, error_label_data, Hook, InitError, Level, Logger};

struct ShareHook {
    seen: Arc<Mutex<Vec<(Level, String)>>>,
}

impl Hook for ShareHook {
    fn observe(&mut self, level: Level, body: &String) {
        self.seen.lock().unwrap().push((level, body.clone()));
    }
}

// The whole installed-logger lifecycle runs in one test: a process has a
// single global callback slot, so a second test in this binary could not
// install its own logger.
#[test]
fn installed_logger_formats_dispatches_and_survives_reinit() {
    let seen: Arc<Mutex<Vec<(Level, String)>>> = Arc::new(Mutex::new(Vec::new()));
    let mut logger: Logger<ShareHook> = Logger::new();
    logger.add_hook(ShareHook { seen: seen.clone() });
    assert_eq!(logger.init(), Ok(()));

    let mut m = serde_json::Map::new();
    m.insert("n".to_string(), serde_json::Value::from(1));
    let data = serde_json::Value::Object(m);
    let body = error_label_data("boom", &data);
    assert_eq!(body, "\"msg\": \"boom\", \"data\": {\"n\":1}");

    {
        let entries = seen.lock().unwrap();
        assert_eq!(entries.len(), 1);
        assert_eq!(entries[0].0, Level::Error);
        let line = &entries[0].1;
        assert!(line.contains("\"level\": \"ERROR\""));
        assert!(line.contains("\"file\": \"\", \"line\": 0, "));
        assert!(line.contains("\"msg\": \"boom\""));
        assert!(line.contains("\"data\": {\"n\":1}"));
        assert!(line.starts_with("{\"ts\": \""));
        assert!(line.ends_with("}"));
    }

    // A second installation must fail and leave the first one active.
    let mut second: Logger<ShareHook> = Logger::new();
    second.add_hook(ShareHook { seen: Arc::new(Mutex::new(Vec::new())) });
    assert_eq!(second.init(), Err(InitError::AlreadyInstalled));

    error_label("still here");
    let entries = seen.lock().unwrap();
    assert_eq!(entries.len(), 2);
    assert_eq!(entries[1].0, Level::Error);
    assert!(entries[1].1.contains("\"msg\": \"still here\""));
}
