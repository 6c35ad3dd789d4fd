use photopipe::accounts::{Account, AuthenticatedAccount, AuthenticatedUser, DBAccount, DBUser,
    QueryParams, S3Data, SearchBody, User};
use photopipe::records::ImageProcessingJob;

/// The interface types of the surrounding collaborators carry plain values.
#[test]
fn interface_types_round_trip() {
    let user = User { username: "ada".to_string(), password: "pw".to_string() };
    assert_eq!(user.username, "ada");
    let account = Account { username: "ada".to_string(), password: "pw".to_string() };
    assert_eq!(account.password, "pw");
    let db_user = DBUser { id: 3, password: "hashed".to_string() };
    assert_eq!(db_user.id, 3);
    let db_account = DBAccount { id: 9, username: "ada".to_string(), password: "hashed".to_string() };
    assert_eq!(db_account.id, 9);
    let config = S3Data {
        bucket: "photos".to_string(),
        endpoint: "http://localhost:9000".to_string(),
        region: "local".to_string(),
        access_key: "SECRET-REDACTED".to_string(),
        secret_key: "SECRET-REDACTED".to_string(),
    };
    let authed = AuthenticatedUser { id: 3, username: "ada".to_string(), config: Some(config) };
    assert!(authed.config.is_some());
    let authed_account = AuthenticatedAccount { id: 9, username: "ada".to_string() };
    assert_eq!(authed_account.username, "ada");
    let params = QueryParams { quality: "medium".to_string() };
    assert_eq!(params.quality, "medium");
    let body = SearchBody { query: "lyon".to_string() };
    assert_eq!(body.query, "lyon");
}

#[test]
fn job_clone_preserves_fields() {
    let job = ImageProcessingJob {
        image_id: 5,
        account_id: 7,
        original_object_name: "key".to_string(),
    };
    let copy = job.clone_job();
    assert_eq!(copy.image_id, 5);
    assert_eq!(copy.account_id, 7);
    assert_eq!(copy.original_object_name, "key");
}
