use async_diesel::connection::AsyncSimpleConnection;
use std::cell::RefCell;

struct Recorder {
    issued: RefCell<Vec<String>>,
}

struct NoClient;

impl AsyncSimpleConnection<NoClient, String> for Recorder {
    fn batch_execute_async(&self, query: &str) -> Result<(), String> {
        if query.is_empty() {
            return Err("empty batch".to_string());
        }
        self.issued.borrow_mut().push(query.to_string());
        Ok(())
    }
}

#[test]
fn batch_outcome_is_what_the_connection_reports() {
    let r = Recorder { issued: RefCell::new(Vec::new()) };
    assert_eq!(r.batch_execute_async("CREATE TABLE t (id INT); INSERT INTO t VALUES (1);"), Ok(()));
    assert_eq!(r.batch_execute_async(""), Err("empty batch".to_string()));
    assert_eq!(r.issued.borrow().len(), 1);
}
