use reinfer_client::comment::{get_default_labelling_group, AnnotatedComment, Comment, Entities,
    Entity, EitherLabelling, HasAnnotations, Id, Label, Labelling, NewAnnotatedComment,
    NewComment, NewLabelling, NewLegacyLabelling, PredictedLabel, PredictedLabelName, Uid};
use reinfer_client::label::{EntityName, LabelGroupName, LabelName};
use reinfer_client::property::{parse_property_key, NotNan, PropertyKind, PropertyMap,
    PropertyValue};
use reinfer_client::time::Timestamp;

fn label(name: &str) -> Label {
    Label { name: LabelName(String::from(name)), sentiment: None }
}

fn group(name: &str, assigned: Vec<Label>, predicted: bool) -> Labelling {
    Labelling {
        group: LabelGroupName(String::from(name)),
        assigned,
        dismissed: Vec::new(),
        predicted: if predicted {
            Some(vec![PredictedLabel {
                name: PredictedLabelName(String::from("guess")),
                probability: NotNan(0),
            }])
        } else {
            None
        },
    }
}

fn bare_comment(id: &str) -> Comment {
    Comment {
        id: Id(String::from(id)),
        uid: Uid(String::from("s.0")),
        thread_id: None,
        timestamp: Timestamp(0),
        messages: Vec::new(),
        user_properties: PropertyMap::new(),
        attachments: Vec::new(),
        created_at: Timestamp(0),
        has_annotations: false,
    }
}

fn annotated(labelling: Option<Vec<Labelling>>, entities: Option<Entities>) -> AnnotatedComment {
    AnnotatedComment {
        comment: bare_comment("c"),
        labelling,
        entities,
        thread_properties: None,
        moon_forms: None,
        label_properties: None,
    }
}

#[test]
fn default_group_lookup_finds_the_first_default() {
    let groups = Some(vec![
        group("custom", vec![label("a")], false),
        group("default", vec![label("b")], false),
        group("default", vec![label("c")], false),
    ]);
    let found = get_default_labelling_group(&groups).expect("a default group exists");
    assert_eq!(found.assigned[0].name.0, "b");
    assert!(get_default_labelling_group(&None).is_none());
    let no_default = Some(vec![group("custom", Vec::new(), false)]);
    assert!(get_default_labelling_group(&no_default).is_none());
}

#[test]
fn is_default_group_compares_the_group_name() {
    assert!(group("default", Vec::new(), false).is_default_group());
    assert!(!group("other", Vec::new(), false).is_default_group());
    let new_labelling = NewLabelling {
        group: LabelGroupName(String::from("default")),
        assigned: None,
        dismissed: None,
    };
    assert!(new_labelling.is_default_group());
}

#[test]
fn has_annotations_sees_labels_and_entities() {
    assert!(annotated(Some(vec![group("g", vec![label("a")], false)]), None).has_annotations());
    let with_entities = annotated(
        None,
        Some(Entities {
            assigned: vec![Entity {
                name: EntityName(String::from("date")),
                formatted_value: String::from("today"),
            }],
            dismissed: Vec::new(),
            predicted: None,
        }),
    );
    assert!(with_entities.has_annotations());
    assert!(!annotated(None, None).has_annotations());
    // A predicted-only labelling is not an annotation.
    assert!(!annotated(Some(vec![group("g", Vec::new(), true)]), None).has_annotations());
}

#[test]
fn without_predictions_strips_predictions_and_drops_empty_groups() {
    let input = annotated(
        Some(vec![group("g", vec![label("a")], true)]),
        Some(Entities {
            assigned: vec![Entity {
                name: EntityName(String::from("d")),
                formatted_value: String::from("v"),
            }],
            dismissed: Vec::new(),
            predicted: Some(Vec::new()),
        }),
    );
    let out = input.without_predictions();
    let groups = out.labelling.expect("annotated labelling kept");
    assert_eq!(groups.len(), 1);
    assert!(groups[0].predicted.is_none());
    assert_eq!(groups[0].assigned[0].name.0, "a");
    let entities = out.entities.expect("annotated entities kept");
    assert!(entities.predicted.is_none());

    let prediction_only = annotated(Some(vec![group("g", Vec::new(), true)]), None);
    let stripped = prediction_only.without_predictions();
    assert!(stripped.labelling.is_none());
    assert!(stripped.entities.is_none());
}

#[test]
fn legacy_labelling_normalises_to_the_default_group() {
    let legacy = EitherLabelling::LegacyLabelling(NewLegacyLabelling {
        assigned: Some(vec![label("x")]),
        dismissed: None,
    });
    let groups = legacy.into_new_labellings();
    assert_eq!(groups.len(), 1);
    assert_eq!(groups[0].group.0, "default");
    assert_eq!(groups[0].assigned.as_ref().expect("assigned kept")[0].name.0, "x");

    let grouped = EitherLabelling::Labelling(vec![NewLabelling {
        group: LabelGroupName(String::from("g")),
        assigned: None,
        dismissed: Some(vec![label("y")]),
    }]);
    let groups = grouped.into_new_labellings();
    assert_eq!(groups.len(), 1);
    assert_eq!(groups[0].group.0, "g");
}

#[test]
fn new_annotated_comment_annotation_presence() {
    let none = NewAnnotatedComment {
        comment: NewComment {
            id: Id(String::from("c")),
            thread_id: None,
            timestamp: Timestamp(0),
            messages: Vec::new(),
            user_properties: PropertyMap::new(),
            attachments: Vec::new(),
        },
        labelling: None,
        entities: None,
        audio_path: None,
        moon_forms: None,
    };
    assert!(!none.has_annotations());
    let mut with_labels = none;
    with_labels.labelling = Some(EitherLabelling::Labelling(vec![NewLabelling {
        group: LabelGroupName(String::from("default")),
        assigned: Some(vec![label("a")]),
        dismissed: None,
    }]));
    assert!(with_labels.has_annotations());
}

#[test]
fn property_map_keeps_one_entry_per_key() {
    let mut map = PropertyMap::new();
    map.insert_string(String::from("city"), String::from("Paris"));
    map.insert_number(String::from("score"), NotNan(0x3ff0000000000000));
    assert_eq!(map.len(), 2);
    map.insert_string(String::from("city"), String::from("Lyon"));
    assert_eq!(map.len(), 2);
    let entry = map.entry_at(0);
    assert_eq!(entry.0, "city");
    match &entry.1 {
        PropertyValue::Text(v) => assert_eq!(v, "Lyon"),
        PropertyValue::Number(_) => panic!("city is a text property"),
    }
}

#[test]
fn wire_entries_prefix_names_and_drop_blank_strings() {
    let mut map = PropertyMap::new();
    map.insert_string(String::from("city"), String::from("Paris"));
    map.insert_string(String::from("note"), String::from("  \t "));
    map.insert_number(String::from("score"), NotNan(0x4000000000000000));
    let wire = map.wire_entries();
    assert_eq!(wire.len(), 2);
    assert_eq!(wire[0].0, "string:city");
    assert_eq!(wire[1].0, "number:score");
}

#[test]
fn parse_property_key_accepts_only_known_prefixes() {
    match parse_property_key("string:city") {
        Some((PropertyKind::Text, key)) => assert_eq!(key, "city"),
        _ => panic!("string prefix must parse"),
    }
    match parse_property_key("number:score") {
        Some((PropertyKind::Number, key)) => assert_eq!(key, "score"),
        _ => panic!("number prefix must parse"),
    }
    assert!(parse_property_key("city").is_none());
    assert!(parse_property_key("str:city").is_none());
}

#[test]
fn not_nan_bit_patterns() {
    assert!(NotNan(0).is_wf());
    assert!(NotNan(0x3ff0000000000000).is_wf());
    assert!(NotNan(0x7ff0000000000000).is_wf());
    assert!(!NotNan(0x7ff8000000000000).is_wf());
    assert!(!NotNan(0xfff0000000000001).is_wf());
    assert_eq!(NotNan(f64::to_bits(1.5)).0, 0x3ff8000000000000);
    assert!(!NotNan(f64::to_bits(f64::NAN)).is_wf());
}
