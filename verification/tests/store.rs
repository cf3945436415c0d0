use gmail_archiver::model::{
    Attachment, AttachmentId, FullMessage, Header, HistoryId, Label, LabelColor, LabelId,
    LabelListVisibility, LabelType, MessageId, MessageListVisibility, MessagePart,
    MessagePartBody, PartId, ThreadId,
};
use gmail_archiver::oauth::client::AccessTokenUpdate;
use gmail_archiver::oauth::{AccessToken, OAuthTokens, RefreshToken};
use gmail_archiver::store::{
    access_token_row, attachment_row, children_column, init_or_migrate_db, label_row,
    message_rows, raw_message_row, row_exists, token_row, tokens_from_row, SchemaAction,
    StoreError, SCHEMA_VERSION,
};
use gmail_archiver::time::Timestamp;

fn store_part(id: &str, attachment: Option<&str>, parts: Vec<MessagePart>) -> MessagePart {
    MessagePart {
        part_id: PartId(id.to_string()),
        mime_type: format!("type/{}", id),
        filename: format!("file-{}", id),
        headers: vec![Header { name: "Part".to_string(), value: id.to_string() }],
        body: MessagePartBody {
            size: id.len(),
            attachment_id: attachment.map(|a| AttachmentId(a.to_string())),
            data: if attachment.is_some() { None } else { Some(id.as_bytes().to_vec()) },
        },
        parts,
    }
}

fn store_message() -> FullMessage {
    FullMessage {
        id: MessageId("msg-1".to_string()),
        thread_id: ThreadId("thread-1".to_string()),
        label_ids: vec![LabelId("INBOX".to_string()), LabelId("Label_7".to_string())],
        snippet: "a snippet".to_string(),
        history_id: HistoryId("991".to_string()),
        internal_date: Timestamp::from_millis(1_700_000_000_000).unwrap(),
        size_estimate: 4321,
        payload: store_part(
            "",
            None,
            vec![
                store_part(
                    "0",
                    None,
                    vec![
                        store_part("0.0", None, Vec::new()),
                        store_part("0.1", Some("att-a"), Vec::new()),
                    ],
                ),
                store_part("1", Some("att-b"), Vec::new()),
            ],
        ),
    }
}

fn find<'a>(root: &'a MessagePart, id: &str) -> Option<&'a MessagePart> {
    if root.part_id.0 == id {
        return Some(root);
    }
    root.parts.iter().find_map(|p| find(p, id))
}

#[test]
fn a_new_store_is_created() {
    assert_eq!(init_or_migrate_db(None), Ok(SchemaAction::Create));
}

#[test]
fn a_store_of_the_current_version_is_kept() {
    assert_eq!(SCHEMA_VERSION, 0);
    assert_eq!(init_or_migrate_db(Some(0)), Ok(SchemaAction::Keep));
}

#[test]
fn a_store_of_an_unknown_version_is_refused() {
    assert_eq!(init_or_migrate_db(Some(1)), Err(StoreError::UnrecognizedVersion(1)));
    assert_eq!(init_or_migrate_db(Some(-1)), Err(StoreError::UnrecognizedVersion(-1)));
    assert_eq!(init_or_migrate_db(Some(i32::MAX)), Err(StoreError::UnrecognizedVersion(i32::MAX)));
}

#[test]
fn a_count_above_zero_means_stored() {
    assert!(!row_exists(0));
    assert!(row_exists(1));
    assert!(row_exists(2));
    assert!(row_exists(usize::MAX));
}

#[test]
fn a_label_becomes_its_row() {
    let label = Label {
        id: LabelId("Label_1".to_string()),
        name: "Receipts".to_string(),
        message_list_visibility: Some(MessageListVisibility::Hide),
        label_list_visibility: Some(LabelListVisibility::ShowIfUnread),
        kind: LabelType::User,
        color: Some(LabelColor {
            text_color: "#ffffff".to_string(),
            background_color: "#000000".to_string(),
        }),
    };
    let row = label_row(&label);
    assert_eq!(row.id, "Label_1");
    assert_eq!(row.name, "Receipts");
    assert_eq!(row.message_list_visibility, Some("HIDE"));
    assert_eq!(row.label_list_visibility, Some("SHOW_IF_UNREAD"));
    assert_eq!(row.kind, "USER");
    assert_eq!(row.color_text, Some("#ffffff"));
    assert_eq!(row.background_color, Some("#000000"));
}

#[test]
fn a_bare_label_becomes_a_row_with_gaps() {
    let label = Label {
        id: LabelId("INBOX".to_string()),
        name: "INBOX".to_string(),
        message_list_visibility: None,
        label_list_visibility: None,
        kind: LabelType::System,
        color: None,
    };
    let row = label_row(&label);
    assert_eq!(row.id, "INBOX");
    assert_eq!(row.message_list_visibility, None);
    assert_eq!(row.label_list_visibility, None);
    assert_eq!(row.kind, "SYSTEM");
    assert_eq!(row.color_text, None);
    assert_eq!(row.background_color, None);
}

#[test]
fn the_names_of_the_variants_are_in_upper_snake_case() {
    assert_eq!(MessageListVisibility::Show.as_str(), "SHOW");
    assert_eq!(MessageListVisibility::Hide.as_str(), "HIDE");
    assert_eq!(LabelListVisibility::Show.as_str(), "SHOW");
    assert_eq!(LabelListVisibility::ShowIfUnread.as_str(), "SHOW_IF_UNREAD");
    assert_eq!(LabelListVisibility::Hide.as_str(), "HIDE");
    assert_eq!(LabelType::System.as_str(), "SYSTEM");
    assert_eq!(LabelType::User.as_str(), "USER");
}

#[test]
fn a_message_becomes_its_row() {
    let m = store_message();
    let rows = message_rows(&m);
    assert_eq!(rows.message.id, "msg-1");
    assert_eq!(rows.message.thread_id, "thread-1");
    assert_eq!(rows.message.snippet, "a snippet");
    assert_eq!(rows.message.history_id, "991");
    assert_eq!(rows.message.internal_date, "2023-11-14T22:13:20+00:00");
    assert_eq!(rows.message.size_estimate, 4321);
}

#[test]
fn each_label_of_a_message_becomes_a_join_row() {
    let m = store_message();
    let rows = message_rows(&m);
    assert_eq!(rows.labels.len(), 2);
    assert_eq!(rows.labels[0].message_id, "msg-1");
    assert_eq!(rows.labels[0].label_id, "INBOX");
    assert_eq!(rows.labels[1].message_id, "msg-1");
    assert_eq!(rows.labels[1].label_id, "Label_7");
}

#[test]
fn a_message_without_labels_has_no_join_rows() {
    let mut m = store_message();
    m.label_ids.clear();
    assert!(message_rows(&m).labels.is_empty());
}

#[test]
fn each_part_becomes_one_pair_of_rows() {
    let m = store_message();
    let rows = message_rows(&m);
    let order: Vec<&str> = rows.parts.iter().map(|r| r.part.part_id).collect();
    assert_eq!(order, vec!["", "1", "0", "0.1", "0.0"]);
    for r in &rows.parts {
        assert_eq!(r.part.message_id, "msg-1");
        assert_eq!(r.body.message_id, "msg-1");
        assert_eq!(r.body.part_id, r.part.part_id);
    }
}

#[test]
fn a_three_level_tree_can_be_rebuilt_from_its_rows() {
    let m = store_message();
    let rows = message_rows(&m);
    for r in &rows.parts {
        let source = find(&m.payload, r.part.part_id).unwrap();
        let children: Vec<&str> = source.parts.iter().map(|p| p.part_id.0.as_str()).collect();
        assert_eq!(r.part.children, children);
        assert_eq!(r.body.attachment_id, source.body.attachment_id.as_ref().map(|a| a.0.as_str()));
        assert_eq!(r.part.mime_type, source.mime_type);
        assert_eq!(r.part.filename, source.filename);
        assert_eq!(r.part.headers.len(), 1);
        assert_eq!(r.part.headers[0].value, source.part_id.0);
        assert_eq!(r.body.size, source.body.size);
        assert_eq!(r.body.data, source.body.data.as_ref());
    }
    let root = &rows.parts[0];
    assert_eq!(root.part.children, vec!["0", "1"]);
    let zero = rows.parts.iter().find(|r| r.part.part_id == "0").unwrap();
    assert_eq!(zero.part.children, vec!["0.0", "0.1"]);
    let leaf = rows.parts.iter().find(|r| r.part.part_id == "0.1").unwrap();
    assert!(leaf.part.children.is_empty());
    assert_eq!(leaf.body.attachment_id, Some("att-a"));
    assert_eq!(leaf.body.data, None);
    let inline = rows.parts.iter().find(|r| r.part.part_id == "0.0").unwrap();
    assert_eq!(inline.body.attachment_id, None);
    assert_eq!(inline.body.data, Some(&b"0.0".to_vec()));
}

#[test]
fn a_part_with_reference_and_data_is_recorded_with_both() {
    let mut m = store_message();
    m.payload.body.attachment_id = Some(AttachmentId("root-att".to_string()));
    assert!(m.payload.body.data.is_some());
    let rows = message_rows(&m);
    assert_eq!(rows.parts[0].body.attachment_id, Some("root-att"));
    assert_eq!(rows.parts[0].body.data, Some(&Vec::new()));
    let fetched: Vec<&str> =
        gmail_archiver::tree::extract_attachment_ids(&m).iter().map(|a| a.0.as_str()).collect();
    assert_eq!(fetched, vec!["att-b", "att-a"]);
}

#[test]
fn the_children_are_stored_as_a_json_array() {
    let m = store_message();
    let rows = message_rows(&m);
    assert_eq!(rows.parts[0].part.children_json(), Ok("[\"0\",\"1\"]".to_string()));
    assert_eq!(rows.parts[1].part.children_json(), Ok("[]".to_string()));
    assert_eq!(rows.parts[2].part.children_json(), Ok("[\"0.0\",\"0.1\"]".to_string()));
}

#[test]
fn the_json_array_escapes_what_needs_escaping() {
    let mut m = store_message();
    m.payload.parts = vec![
        store_part("a\"b", None, Vec::new()),
        store_part("c\\d", None, Vec::new()),
        store_part("e\nf", None, Vec::new()),
    ];
    let rows = message_rows(&m);
    let text = rows.parts[0].part.children_json().unwrap();
    assert_eq!(text, "[\"a\\\"b\",\"c\\\\d\",\"e\\nf\"]");
    let back: Vec<String> = serde_json::from_str(&text).unwrap();
    assert_eq!(back, vec!["a\"b", "c\\d", "e\nf"]);
}

#[test]
fn the_serializers_answer_becomes_the_column() {
    assert_eq!(children_column(Ok("[]".to_string())), Ok("[]".to_string()));
    let failure = serde_json::from_str::<Vec<String>>("nonsense").unwrap_err();
    assert_eq!(children_column(Err(failure)), Err(StoreError::ChildrenNotSerialized));
}

#[test]
fn an_attachment_becomes_its_row() {
    let mid = MessageId("msg-1".to_string());
    let aid = AttachmentId("att-a".to_string());
    let attachment = Attachment { size: 3, data: vec![7, 8, 9] };
    let row = attachment_row(&mid, &aid, &attachment);
    assert_eq!(row.message_id, "msg-1");
    assert_eq!(row.attachment_id, "att-a");
    assert_eq!(row.size, 3);
    assert_eq!(row.data, &vec![7, 8, 9]);
}

#[test]
fn a_wire_message_becomes_its_row() {
    let mid = MessageId("msg-1".to_string());
    let data = b"From: a\r\n\r\nbody".to_vec();
    let row = raw_message_row(&mid, &data);
    assert_eq!(row.message_id, "msg-1");
    assert_eq!(row.data, data.as_slice());
}

#[test]
fn tokens_become_their_row() {
    let tokens = OAuthTokens {
        access_token: AccessToken("access".to_string()),
        refresh_token: RefreshToken("refresh".to_string()),
        expires_at: Timestamp::new(1_700_000_000, 0).unwrap(),
        refresh_token_expires_at: Some(Timestamp::new(1_700_003_600, 500_000_000).unwrap()),
    };
    let row = token_row(&tokens);
    assert_eq!(row.access_token, "access");
    assert_eq!(row.refresh_token, "refresh");
    assert_eq!(row.expires_at, "2023-11-14T22:13:20+00:00");
    assert_eq!(row.refresh_token_expires_at, Some("2023-11-14T23:13:20.500+00:00".to_string()));
}

#[test]
fn tokens_without_a_refresh_expiry_leave_the_column_empty() {
    let tokens = OAuthTokens {
        access_token: AccessToken("access".to_string()),
        refresh_token: RefreshToken("refresh".to_string()),
        expires_at: Timestamp::new(0, 0).unwrap(),
        refresh_token_expires_at: None,
    };
    let row = token_row(&tokens);
    assert_eq!(row.expires_at, "1970-01-01T00:00:00+00:00");
    assert_eq!(row.refresh_token_expires_at, None);
}

#[test]
fn a_refresh_rewrites_token_and_expiry() {
    let update = AccessTokenUpdate {
        access_token: AccessToken("fresh".to_string()),
        expires_at: Timestamp::new(1_700_000_000, 0).unwrap(),
    };
    let row = access_token_row(&update);
    assert_eq!(row.access_token, "fresh");
    assert_eq!(row.expires_at, "2023-11-14T22:13:20+00:00");
}

#[test]
fn a_token_row_is_read_back() {
    let tokens = tokens_from_row(
        "access".to_string(),
        "refresh".to_string(),
        1_700_000_000_000_001,
        Some(1_700_003_600_000_000),
    )
    .unwrap();
    assert_eq!(tokens.access_token.0, "access");
    assert_eq!(tokens.refresh_token.0, "refresh");
    assert_eq!(tokens.expires_at.secs(), 1_700_000_000);
    assert_eq!(tokens.expires_at.subsec_nanos(), 1_000);
    assert_eq!(tokens.refresh_token_expires_at.unwrap().secs(), 1_700_003_600);
    let tokens = tokens_from_row("a".to_string(), "r".to_string(), 0, None).unwrap();
    assert_eq!(tokens.expires_at.secs(), 0);
    assert!(tokens.refresh_token_expires_at.is_none());
}

#[test]
fn a_token_row_with_a_timestamp_out_of_range_is_refused() {
    let r = tokens_from_row("a".to_string(), "r".to_string(), i64::MAX, None);
    assert_eq!(r.unwrap_err(), StoreError::IntegralValueOutOfRange(2, i64::MAX));
    let r = tokens_from_row("a".to_string(), "r".to_string(), 0, Some(i64::MIN));
    assert_eq!(r.unwrap_err(), StoreError::IntegralValueOutOfRange(3, i64::MIN));
    let r = tokens_from_row("a".to_string(), "r".to_string(), i64::MAX, Some(i64::MIN));
    assert_eq!(r.unwrap_err(), StoreError::IntegralValueOutOfRange(2, i64::MAX));
}
