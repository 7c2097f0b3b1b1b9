use web_crawler::crawl::crawl_urls;
use web_crawler::crawl::process_unit;
use web_crawler::error::CrawlerError;

#[test]
fn successful_unit_contributes_its_entry() {
    let url = "http://example.com".to_string();
    let fetched: Result<String, CrawlerError> =
        Ok("<html><head><title>Example Domain</title></head></html>".to_string());
    let entry = process_unit(&url, &fetched).expect("a successful fetch owes an entry");
    assert_eq!(entry.url, "http://example.com");
    assert_eq!(entry.title, "Example Domain");
}

#[test]
fn failed_unit_contributes_nothing() {
    let url = "http://invalid.invalid".to_string();
    let fetched: Result<String, CrawlerError> =
        Err(CrawlerError::RequestError("dns failure".to_string()));
    assert!(process_unit(&url, &fetched).is_none());
}

#[test]
fn one_success_one_failure_yields_one_entry() {
    let urls = vec![
        "http://example.com".to_string(),
        "http://invalid.invalid".to_string(),
    ];
    let fetched: Vec<Result<String, CrawlerError>> = vec![
        Ok("<html><head><title>Example Domain</title></head></html>".to_string()),
        Err(CrawlerError::RequestError("connection refused".to_string())),
    ];
    let results = crawl_urls(&urls, &fetched);
    assert_eq!(results.len(), 1);
    let entry = results.get(0);
    assert_eq!(entry.url, "http://example.com");
    assert_eq!(entry.title, "Example Domain");
}

#[test]
fn entry_count_matches_success_count() {
    let urls = vec![
        "http://a.example".to_string(),
        "http://b.example".to_string(),
        "http://c.example".to_string(),
    ];
    let fetched: Vec<Result<String, CrawlerError>> = vec![
        Ok("<title>A</title>".to_string()),
        Err(CrawlerError::InvalidUrl),
        Ok("<title>C</title>".to_string()),
    ];
    let results = crawl_urls(&urls, &fetched);
    assert_eq!(results.len(), 2);
    assert!(results.len() <= urls.len());
    assert_eq!(results.get(0).url, "http://a.example");
    assert_eq!(results.get(0).title, "A");
    assert_eq!(results.get(1).url, "http://c.example");
    assert_eq!(results.get(1).title, "C");
}

#[test]
fn duplicate_urls_each_spawn_their_own_unit() {
    let urls = vec![
        "http://example.com".to_string(),
        "http://example.com".to_string(),
    ];
    let fetched: Vec<Result<String, CrawlerError>> = vec![
        Ok("<title>Same</title>".to_string()),
        Ok("<title>Same</title>".to_string()),
    ];
    let results = crawl_urls(&urls, &fetched);
    assert_eq!(results.len(), 2);
    assert_eq!(results.get(0).url, "http://example.com");
    assert_eq!(results.get(1).url, "http://example.com");
}

#[test]
fn empty_batch_yields_empty_set() {
    let urls: Vec<String> = vec![];
    let fetched: Vec<Result<String, CrawlerError>> = vec![];
    let results = crawl_urls(&urls, &fetched);
    assert!(results.is_empty());
    assert_eq!(results.len(), 0);
}

#[test]
fn success_without_title_gets_sentinel_entry() {
    let urls = vec!["http://bare.example".to_string()];
    let fetched: Vec<Result<String, CrawlerError>> =
        vec![Ok("<html><body>plain page</body></html>".to_string())];
    let results = crawl_urls(&urls, &fetched);
    assert_eq!(results.len(), 1);
    assert_eq!(results.get(0).title, "No Title Found");
}
