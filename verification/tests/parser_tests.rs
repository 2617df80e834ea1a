use reinfer_client::dataset;
use reinfer_client::error::Error;
use reinfer_client::integration;
use reinfer_client::source;
use reinfer_client::source::SourceKind;
use reinfer_client::statistics::Statistics;
use reinfer_client::statistics::StatisticsUpdate;
use reinfer_client::pool::{first_error, split_into_chunks};
use reinfer_client::user;

#[test]
fn dataset_full_name_needs_exactly_one_slash() {
    assert!(dataset::FullName::parse("owner/name").is_ok());
    match dataset::FullName::parse("owner") {
        Err(Error::BadDatasetIdentifier { identifier }) => assert_eq!(identifier, "owner"),
        _ => panic!("one segment must be rejected"),
    }
    assert!(dataset::FullName::parse("a/b/c").is_err());
    assert!(dataset::FullName::parse("/").is_ok());
}

#[test]
fn dataset_identifier_hex_is_an_id() {
    match dataset::Identifier::parse("0123abcdef") {
        Ok(dataset::Identifier::Id(id)) => assert_eq!(id.0, "0123abcdef"),
        _ => panic!("hex digits name a dataset id"),
    }
    match dataset::Identifier::parse("owner/name") {
        Ok(dataset::Identifier::FullName(name)) => assert_eq!(name.0, "owner/name"),
        _ => panic!("a slash pair names a dataset"),
    }
    assert!(dataset::Identifier::parse("not hex, no slash").is_err());
}

#[test]
fn source_identifier_mirrors_dataset_rules() {
    assert!(matches!(source::Identifier::parse("beef"), Ok(source::Identifier::Id(_))));
    assert!(matches!(
        source::Identifier::parse("own/src"),
        Ok(source::Identifier::FullName(_))
    ));
    match source::FullName::parse("nope") {
        Err(Error::BadSourceIdentifier { identifier }) => assert_eq!(identifier, "nope"),
        _ => panic!("missing slash must be rejected"),
    }
}

#[test]
fn integration_full_name_parse() {
    assert!(integration::FullName::parse("own/integration").is_ok());
    assert!(matches!(
        integration::FullName::parse("own"),
        Err(Error::BadIntegrationIdentifier { .. })
    ));
}

#[test]
fn user_id_is_hexadecimal() {
    assert!(user::Id::parse("0a1b2c").is_ok());
    match user::Id::parse("not-hex!") {
        Err(Error::BadUserIdentifier { identifier }) => assert_eq!(identifier, "not-hex!"),
        _ => panic!("non-hex user ids must be rejected"),
    }
    // The empty string is made of hex digits vacuously, so it passes.
    assert!(user::Id::parse("").is_ok());
}

#[test]
fn username_allows_word_characters_only() {
    assert!(user::Username::parse("jo_anne-42").is_ok());
    assert!(user::Username::parse("jo anne").is_err());
    assert!(user::Username::parse("émile").is_err());
}

#[test]
fn user_identifier_rejects_names() {
    assert!(matches!(user::Identifier::parse("c0ffee"), Ok(user::Identifier::Id(_))));
    assert!(user::Identifier::parse("someone@example.com").is_err());
}

#[test]
fn source_kind_parse() {
    assert!(matches!(SourceKind::parse("call"), SourceKind::Call));
    assert!(matches!(SourceKind::parse("chat"), SourceKind::Chat));
    match SourceKind::parse("voicemail") {
        SourceKind::Unknown(v) => assert_eq!(v, "voicemail"),
        _ => panic!("unknown kinds are kept as text"),
    }
}

#[test]
fn statistics_counters_accumulate() {
    let mut stats = Statistics::new();
    stats.add_bytes_read(100);
    stats.add_bytes_read(20);
    stats.add_comments(StatisticsUpdate { uploaded: 128, new: 100, updated: 20, unchanged: 8 });
    stats.add_comments(StatisticsUpdate { uploaded: 2, new: 2, updated: 0, unchanged: 0 });
    stats.add_annotation();
    stats.add_annotation();
    assert_eq!(stats.num_bytes_read(), 120);
    assert_eq!(stats.num_uploaded(), 130);
    assert_eq!(stats.num_new(), 102);
    assert_eq!(stats.num_updated(), 20);
    assert_eq!(stats.num_unchanged(), 8);
    assert_eq!(stats.num_annotations(), 2);
}

#[test]
fn statistics_counters_saturate_instead_of_wrapping() {
    let mut stats = Statistics::new();
    stats.add_bytes_read(u64::MAX - 1);
    stats.add_bytes_read(5);
    assert_eq!(stats.num_bytes_read(), u64::MAX);
}

#[test]
fn chunks_partition_the_work() {
    let items: Vec<u32> = (0..10).collect();
    let chunks = split_into_chunks(items, 4);
    assert_eq!(chunks.len(), 3);
    assert_eq!(chunks[0], vec![0, 1, 2, 3]);
    assert_eq!(chunks[1], vec![4, 5, 6, 7]);
    assert_eq!(chunks[2], vec![8, 9]);
    let none: Vec<u32> = Vec::new();
    assert!(split_into_chunks(none, 4).is_empty());
}

#[test]
fn first_failing_job_becomes_the_overall_error() {
    let results: Vec<Result<(), Error>> = vec![
        Ok(()),
        Err(Error::ReqwestError { message: String::from("boom") }),
        Err(Error::ReqwestError { message: String::from("later") }),
    ];
    match first_error(results) {
        Err(Error::ReqwestError { message }) => assert_eq!(message, "boom"),
        _ => panic!("the first error must surface"),
    }
    let all_ok: Vec<Result<(), Error>> = vec![Ok(()), Ok(())];
    assert!(first_error(all_ok).is_ok());
}
