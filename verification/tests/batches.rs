//! Batch coordination, outcome aggregation, the unit lifecycle and the
//! streaming ingestor on concrete runs.

use api_service::batch::{
    batch_response, BatchCoordinator, BatchOutcome, UnitOutcome, PARALLEL_REQUESTS,
};
use api_service::ingest::StreamIngest;
use api_service::media::ValidationError;
use api_service::unit::{
    local_unit_begin, remote_unit_begin, unit_step, UnitError, UnitEvent, UnitState,
};

#[test]
fn empty_batch_is_client_error() {
    let outcomes: Vec<UnitOutcome> = Vec::new();
    match batch_response(&outcomes) {
        BatchOutcome::ClientError => {}
        BatchOutcome::Success(v) => panic!("empty batch reported success: {:?}", v),
    }
}

#[test]
fn all_failed_batch_is_client_error() {
    let outcomes = vec![
        UnitOutcome::Failed(UnitError::Transport),
        UnitOutcome::Failed(UnitError::Io),
    ];
    match batch_response(&outcomes) {
        BatchOutcome::ClientError => {}
        BatchOutcome::Success(v) => panic!("all-failed batch reported success: {:?}", v),
    }
}

#[test]
fn one_failure_of_three_still_succeeds() {
    let outcomes = vec![
        UnitOutcome::Done("11_1.png".to_string()),
        UnitOutcome::Failed(UnitError::Validation(ValidationError::InvalidMediaType)),
        UnitOutcome::Done("22_2.jpg".to_string()),
    ];
    match batch_response(&outcomes) {
        BatchOutcome::Success(v) => {
            assert_eq!(v, vec!["11_1.png".to_string(), "22_2.jpg".to_string()]);
        }
        BatchOutcome::ClientError => panic!("batch with successes reported a client error"),
    }
}

#[test]
fn all_success_batch_reports_one_filename_per_source() {
    let outcomes = vec![
        UnitOutcome::Done("1_1.jpg".to_string()),
        UnitOutcome::Done("2_2.jpg".to_string()),
        UnitOutcome::Done("3_3.jpg".to_string()),
    ];
    match batch_response(&outcomes) {
        BatchOutcome::Success(v) => assert_eq!(v.len(), 3),
        BatchOutcome::ClientError => panic!("all-success batch reported a client error"),
    }
}

#[test]
fn fifty_sources_never_exceed_the_ceiling() {
    let total: usize = 50;
    let mut c = BatchCoordinator::new(total, PARALLEL_REQUESTS);
    let mut in_flight: usize = 0;
    let mut max_in_flight: usize = 0;
    let mut launched_indices: Vec<usize> = Vec::new();
    // admit greedily, completing one unit whenever admission stalls
    while !c.is_done() {
        match c.launch_next() {
            Some(idx) => {
                launched_indices.push(idx);
                in_flight += 1;
                if in_flight > max_in_flight {
                    max_in_flight = in_flight;
                }
            }
            None => {
                c.complete_one();
                in_flight -= 1;
            }
        }
        assert!(in_flight <= PARALLEL_REQUESTS);
    }
    assert_eq!(max_in_flight, PARALLEL_REQUESTS);
    assert_eq!(launched_indices.len(), total);
    for (i, idx) in launched_indices.iter().enumerate() {
        assert_eq!(*idx, i);
    }
}

#[test]
fn unit_walks_forward_to_done() {
    let dir = "./imgs";
    let plan = remote_unit_begin(dir, Some("image/png")).unwrap();
    let filename = plan.filename_ext.clone();
    assert!(filename.ends_with(".png"));
    assert_eq!(plan.original_path, format!("{}/{}", dir, filename));
    assert_eq!(plan.thumbnail_path, format!("{}/preview_{}.jpg", dir, plan.id));

    let s = UnitState::Start;
    let s = unit_step(s, UnitEvent::Begin);
    assert!(matches!(s, UnitState::Validating));
    let s = unit_step(s, UnitEvent::Validated(Ok(plan)));
    assert!(matches!(s, UnitState::Persisting(_)));
    let s = unit_step(s, UnitEvent::Persisted(None));
    assert!(matches!(s, UnitState::Thumbnailing(_)));
    let s = unit_step(s, UnitEvent::Thumbnailed(None));
    match s {
        UnitState::Done(f) => assert_eq!(f, filename),
        _ => panic!("unit did not finish"),
    }
}

#[test]
fn failed_validation_is_terminal_before_persisting() {
    let err = local_unit_begin("./imgs", Some("text/plain")).unwrap_err();
    assert_eq!(err, ValidationError::InvalidMediaType);

    let s = unit_step(UnitState::Validating, UnitEvent::Validated(Err(
        UnitError::Validation(err),
    )));
    assert!(matches!(s, UnitState::Failed(_)));
    // failure is terminal: nothing moves the unit again
    let s = unit_step(s, UnitEvent::Persisted(None));
    assert!(matches!(s, UnitState::Failed(_)));
}

#[test]
fn local_unit_maps_extension_from_media_type() {
    // the stored extension comes from the declared media type's subtype,
    // never from the uploaded file's own suffix
    let plan = local_unit_begin("./imgs", Some("image/jpeg")).unwrap();
    assert_eq!(plan.ext, "jpg");
    assert!(plan.filename_ext.ends_with(".jpg"));
    let plan = local_unit_begin("./imgs", Some("image/png")).unwrap();
    assert_eq!(plan.ext, "png");
    let missing = local_unit_begin("./imgs", None).unwrap_err();
    assert_eq!(missing, ValidationError::MissingMediaType);
}

#[test]
fn ingested_chunks_concatenate_byte_identically() {
    let mut ingest = StreamIngest::new();
    ingest.push_chunk(&[1u8, 2, 3]);
    ingest.push_chunk(&[]);
    ingest.push_chunk(&[4u8, 5]);
    let bytes = ingest.finish();
    assert_eq!(bytes, vec![1u8, 2, 3, 4, 5]);
}
