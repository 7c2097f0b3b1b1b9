use std::collections::HashSet;
use std::sync::Arc;

use tokio::sync::Mutex;

use web_crawler::crawl::process_unit;
use web_crawler::error::CrawlerError;
use web_crawler::results::ResultSet;

// Sixty units completing concurrently, each appending under the mutex: no
// entry is dropped and none is duplicated, whatever the completion order.
#[test]
fn concurrent_appends_drop_and_duplicate_nothing() {
    let runtime = tokio::runtime::Runtime::new().expect("runtime");
    let results = Arc::new(Mutex::new(ResultSet::new()));

    runtime.block_on(async {
        let mut handles = Vec::new();
        for i in 0..60u32 {
            let results = Arc::clone(&results);
            handles.push(tokio::spawn(async move {
                let url = format!("http://site{}.example", i);
                let fetched: Result<String, CrawlerError> =
                    Ok(format!("<title>Title {}</title>", i));
                if let Some(entry) = process_unit(&url, &fetched) {
                    let mut guard = results.lock().await;
                    guard.append(entry);
                }
            }));
        }
        for handle in handles {
            handle.await.expect("unit panicked");
        }
    });

    let results = runtime.block_on(async { summarize(&*results.lock().await) });
    assert_eq!(results.0, 60);
    assert_eq!(results.1.len(), 60);
    for i in 0..60u32 {
        assert!(results.1.contains(&format!("http://site{}.example", i)));
    }
}

// A failing unit among many concurrent successes blocks nothing: every other
// unit's entry arrives.
#[test]
fn concurrent_failure_blocks_no_other_unit() {
    let runtime = tokio::runtime::Runtime::new().expect("runtime");
    let results = Arc::new(Mutex::new(ResultSet::new()));

    runtime.block_on(async {
        let mut handles = Vec::new();
        for i in 0..50u32 {
            let results = Arc::clone(&results);
            handles.push(tokio::spawn(async move {
                let url = format!("http://site{}.example", i);
                let fetched: Result<String, CrawlerError> = if i % 10 == 0 {
                    Err(CrawlerError::RequestError("dns failure".to_string()))
                } else {
                    Ok(format!("<title>Title {}</title>", i))
                };
                if let Some(entry) = process_unit(&url, &fetched) {
                    let mut guard = results.lock().await;
                    guard.append(entry);
                }
            }));
        }
        for handle in handles {
            handle.await.expect("unit panicked");
        }
    });

    let summary = runtime.block_on(async { summarize(&*results.lock().await) });
    assert_eq!(summary.0, 45);
    for i in 0..50u32 {
        let present = summary.1.contains(&format!("http://site{}.example", i));
        assert_eq!(present, i % 10 != 0);
    }
}

// Reads the set's contents once all units have joined, over the public
// accessors only. A duplicated entry would collapse in the hash set and show
// as a set smaller than the length.
fn summarize(set: &ResultSet) -> (usize, HashSet<String>) {
    let mut urls = HashSet::new();
    for i in 0..set.len() {
        urls.insert(set.get(i).url.clone());
    }
    (set.len(), urls)
}
