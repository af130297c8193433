use buenotea::database::{
    delete_failure, find_record_by_id, first_choice_content, first_returned_row, first_stored_id,
    record_not_found, request_failure, storage_failure, stored_ids, value_distribution, DbOperation,
};
use buenotea::error::Error;

#[test]
fn failures_name_the_operation() {
    match request_failure(DbOperation::Upsert, "conflict") {
        Error::DatabaseError(m) => assert_eq!(m, "Upsert failed: conflict"),
        _ => panic!("expected a database error"),
    }
    match request_failure(DbOperation::Delete, "") {
        Error::DatabaseError(m) => assert_eq!(m, "Delete failed: "),
        _ => panic!("expected a database error"),
    }
}

#[test]
fn first_row_or_error() {
    assert_eq!(first_returned_row(vec![7, 8], DbOperation::Insert).unwrap(), 7);
    match first_returned_row(Vec::<i32>::new(), DbOperation::Insert) {
        Err(Error::DatabaseError(m)) => assert_eq!(m, "No record returned after insert"),
        _ => panic!("expected a database error"),
    }
    match first_returned_row(Vec::<i32>::new(), DbOperation::Upsert) {
        Err(Error::DatabaseError(m)) => assert_eq!(m, "No record returned after upsert"),
        _ => panic!("expected a database error"),
    }
}

#[test]
fn lookup_by_id() {
    let ids = vec![Some(3), None, Some(5), Some(5)];
    assert_eq!(find_record_by_id(&ids, 5), Some(2));
    assert_eq!(find_record_by_id(&ids, 4), None);
    match record_not_found(4) {
        Error::ApiError(s, m) => {
            assert_eq!(s, "Supabase");
            assert_eq!(m, "No fundamentals record found with ID: 4");
        }
        _ => panic!("expected an API error"),
    }
    match delete_failure(9, "denied") {
        Error::ApiError(_, m) => assert_eq!(m, "Failed to delete fundamentals with ID 9: denied"),
        _ => panic!("expected an API error"),
    }
}

#[test]
fn distribution_counts_each_value() {
    let signals: Vec<String> = vec!["Buy".into(), "Hold".into(), "Buy".into(), "Sell".into(), "Buy".into()];
    let d = value_distribution(&signals);
    assert_eq!(d, vec![("Buy".to_string(), 3), ("Hold".to_string(), 1), ("Sell".to_string(), 1)]);
    assert_eq!(d.iter().map(|e| e.1).sum::<u64>(), signals.len() as u64);
    assert!(value_distribution(&vec![]).is_empty());
}

#[test]
fn chat_answer() {
    assert_eq!(first_choice_content(vec!["hi".into(), "there".into()]).unwrap(), "hi");
    match first_choice_content(vec![]) {
        Err(Error::ApiError(s, m)) => {
            assert_eq!(s, "ChatGPT");
            assert_eq!(m, "No response choices returned from ChatGPT API");
        }
        _ => panic!("expected an API error"),
    }
}

#[test]
fn error_variants_exist() {
    let errors = vec![
        Error::InvalidResponseFormat("FMP".into(), "x".into()),
        Error::MissingApiKey("FMP".into()),
        Error::ValidationError { message: "none".into() },
    ];
    assert_eq!(errors.len(), 3);
}

#[test]
fn storage_failure_quotes_status_and_text() {
    match storage_failure("store timing record", "404 Not Found", "no table") {
        Error::DatabaseError(m) => {
            assert_eq!(m, "Failed to store timing record: 404 Not Found - no table")
        }
        _ => panic!("expected a database error"),
    }
}

#[test]
fn stored_id_is_the_first_rows_id() {
    assert!(matches!(first_stored_id(&vec![Some(42), Some(7)]), Ok(42)));
    match first_stored_id(&vec![None, Some(7)]) {
        Err(Error::DatabaseError(m)) => assert_eq!(m, "No ID returned from database"),
        _ => panic!("expected a database error"),
    }
    assert!(matches!(first_stored_id(&vec![]), Err(Error::DatabaseError(_))));
}

#[test]
fn batch_ids_skip_rows_without_id() {
    match stored_ids(&Some(vec![Some(3), None, Some(5)])) {
        Ok(ids) => assert_eq!(ids, vec![3, 5]),
        Err(_) => panic!("expected ids"),
    }
    match stored_ids(&Some(vec![])) {
        Ok(ids) => assert!(ids.is_empty()),
        Err(_) => panic!("expected ids"),
    }
    match stored_ids(&None) {
        Err(Error::DatabaseError(m)) => assert_eq!(m, "Expected array response"),
        _ => panic!("expected a database error"),
    }
}
