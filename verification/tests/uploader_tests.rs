use reinfer_client::comment::{EitherLabelling, Id, Label, NewAnnotatedComment, NewComment,
    NewLabelling};
use reinfer_client::label::{LabelGroupName, LabelName};
use reinfer_client::property::PropertyMap;
use reinfer_client::time::Timestamp;
use reinfer_client::uploader::{check_no_duplicate_ids, plan_upload, UploadAction, UploadConfig,
    Uploader};

fn new_comment(id: &str) -> NewComment {
    NewComment {
        id: Id(String::from(id)),
        thread_id: None,
        timestamp: Timestamp(0),
        messages: Vec::new(),
        user_properties: PropertyMap::new(),
        attachments: Vec::new(),
    }
}

fn record(id: &str) -> NewAnnotatedComment {
    NewAnnotatedComment {
        comment: new_comment(id),
        labelling: None,
        entities: None,
        audio_path: None,
        moon_forms: None,
    }
}

fn annotated_record(id: &str) -> NewAnnotatedComment {
    let group = NewLabelling {
        group: LabelGroupName(String::from("default")),
        assigned: Some(vec![Label { name: LabelName(String::from("urgent")), sentiment: None }]),
        dismissed: None,
    };
    NewAnnotatedComment {
        comment: new_comment(id),
        labelling: Some(EitherLabelling::Labelling(vec![group])),
        entities: None,
        audio_path: None,
        moon_forms: None,
    }
}

fn audio_record(id: &str, path: &str) -> NewAnnotatedComment {
    let mut r = record(id);
    r.audio_path = Some(String::from(path));
    r
}

fn config(batch_size: usize) -> UploadConfig {
    UploadConfig {
        batch_size,
        overwrite: false,
        allow_duplicates: false,
        has_dataset: false,
        use_moon_forms: false,
    }
}

fn batch_sizes(actions: &[UploadAction]) -> Vec<(char, usize)> {
    actions
        .iter()
        .filter_map(|a| match a {
            UploadAction::PutBatch(v) => Some(('p', v.len())),
            UploadAction::SyncBatch(v) => Some(('s', v.len())),
            _ => None,
        })
        .collect()
}

#[test]
fn scenario_130_records_batch_128_makes_two_put_batches() {
    let records: Vec<NewAnnotatedComment> = (0..130).map(|i| record(&format!("c{i}"))).collect();
    let actions = plan_upload(config(128), records);
    assert_eq!(batch_sizes(&actions), vec![('p', 128), ('p', 2)]);
}

#[test]
fn batch_count_is_ceiling_of_records_over_batch_size() {
    for (n, b, expected) in [(0usize, 5usize, 0usize), (1, 5, 1), (5, 5, 1), (6, 5, 2), (10, 3, 4)]
    {
        let records: Vec<NewAnnotatedComment> =
            (0..n).map(|i| record(&format!("c{i}"))).collect();
        let actions = plan_upload(config(b), records);
        assert_eq!(batch_sizes(&actions).len(), expected, "n={n} b={b}");
    }
}

#[test]
fn every_record_lands_in_exactly_one_batch_in_order() {
    let records: Vec<NewAnnotatedComment> = (0..7).map(|i| record(&format!("c{i}"))).collect();
    let actions = plan_upload(config(3), records);
    let mut ids: Vec<String> = Vec::new();
    for action in &actions {
        if let UploadAction::PutBatch(v) = action {
            for c in v {
                ids.push(c.id.0.clone());
            }
        }
    }
    let expected: Vec<String> = (0..7).map(|i| format!("c{i}")).collect();
    assert_eq!(ids, expected);
}

#[test]
fn overwrite_routes_everything_to_sync() {
    let mut cfg = config(4);
    cfg.overwrite = true;
    let records = vec![record("a"), record("b")];
    let actions = plan_upload(cfg, records);
    assert_eq!(batch_sizes(&actions), vec![('s', 2)]);
}

#[test]
fn duplicate_second_occurrence_routes_to_sync_with_allow_duplicates() {
    let mut cfg = config(10);
    cfg.allow_duplicates = true;
    let records = vec![record("a"), record("b"), record("a")];
    let actions = plan_upload(cfg, records);
    // The two first occurrences go to the insert batch, the repeat of
    // `a` goes to the upsert batch.
    assert_eq!(batch_sizes(&actions), vec![('p', 2), ('s', 1)]);
    match &actions[0] {
        UploadAction::PutBatch(v) => {
            assert_eq!(v[0].id.0, "a");
            assert_eq!(v[1].id.0, "b");
        },
        _ => panic!("expected the insert batch first"),
    }
    match &actions[1] {
        UploadAction::SyncBatch(v) => assert_eq!(v[0].id.0, "a"),
        _ => panic!("expected the upsert batch second"),
    }
}

#[test]
fn duplicate_ids_rejected_before_any_call() {
    let records = vec![record("a"), record("b"), record("a")];
    match check_no_duplicate_ids(&records) {
        Err(id) => assert_eq!(id.0, "a"),
        Ok(()) => panic!("duplicates must be rejected"),
    }
    let distinct = vec![record("a"), record("b"), record("c")];
    assert!(check_no_duplicate_ids(&distinct).is_ok());
    let empty: Vec<NewAnnotatedComment> = Vec::new();
    assert!(check_no_duplicate_ids(&empty).is_ok());
}

#[test]
fn audio_uploads_come_after_the_batch_of_their_comment() {
    let records = vec![audio_record("a", "/tmp/a.wav"), record("b"),
        audio_record("c", "/tmp/c.wav")];
    let actions = plan_upload(config(2), records);
    let mut batched: Vec<String> = Vec::new();
    for action in &actions {
        match action {
            UploadAction::PutBatch(v) | UploadAction::SyncBatch(v) => {
                for c in v {
                    batched.push(c.id.0.clone());
                }
            },
            UploadAction::UploadAudio(id, path) => {
                assert!(
                    batched.iter().any(|b| b == &id.0),
                    "audio for {} uploaded before its batch",
                    id.0
                );
                assert!(path.starts_with("/tmp/"));
            },
            UploadAction::AnnotationBatch(_) => {},
        }
    }
}

#[test]
fn annotations_flush_after_their_comment_batch() {
    let mut cfg = config(2);
    cfg.has_dataset = true;
    let records = vec![annotated_record("a"), annotated_record("b")];
    let actions = plan_upload(cfg, records);
    // One full comment batch, then the annotation batch.
    assert!(matches!(&actions[0], UploadAction::PutBatch(v) if v.len() == 2));
    match &actions[1] {
        UploadAction::AnnotationBatch(anns) => {
            assert_eq!(anns.len(), 2);
            assert_eq!(anns[0].comment.id.0, "a");
            assert_eq!(anns[1].comment.id.0, "b");
            let labelling = anns[0].labelling.as_ref().expect("labelling kept");
            assert_eq!(labelling[0].group.0, "default");
        },
        _ => panic!("expected the annotation batch after the comment batch"),
    }
}

#[test]
fn moon_forms_replace_labellings_when_requested() {
    let mut cfg = config(10);
    cfg.has_dataset = true;
    cfg.use_moon_forms = true;
    let mut r = annotated_record("a");
    r.moon_forms = Some(vec![reinfer_client::comment::NewMoonForm {
        assigned: vec![Label { name: LabelName(String::from("form")), sentiment: None }],
    }]);
    let mut uploader = Uploader::new(cfg);
    let immediate = uploader.push(r);
    assert!(immediate.is_empty());
    let actions = uploader.finish();
    match &actions[1] {
        UploadAction::AnnotationBatch(anns) => {
            assert!(anns[0].labelling.is_none());
            assert!(anns[0].entities.is_none());
            assert!(anns[0].moon_forms.is_some());
        },
        _ => panic!("expected an annotation batch"),
    }
}

#[test]
fn finish_flushes_the_partial_batch() {
    let mut uploader = Uploader::new(config(100));
    for i in 0..5 {
        let acts = uploader.push(record(&format!("c{i}")));
        assert!(acts.is_empty());
    }
    let actions = uploader.finish();
    assert_eq!(batch_sizes(&actions), vec![('p', 5)]);
}

#[test]
fn empty_input_makes_no_calls() {
    let actions = plan_upload(config(8), Vec::new());
    assert!(actions.is_empty());
}
