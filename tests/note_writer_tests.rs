use notebooklm_runner::notes::writer::{note_file_name, render_note, slugify_title, NoteData};

#[test]
fn slug_collapses_separators_and_drops_symbols() {
    assert_eq!(slugify_title("Title with / invalid : chars"), "title-with-invalid-chars");
    assert_eq!(slugify_title("  --Hello__World--  "), "hello-world");
    assert_eq!(slugify_title("Ünïcödé ✓"), "ncd");
    assert_eq!(slugify_title("!!!"), "note");
    assert_eq!(slugify_title(""), "note");
}

#[test]
fn note_body_has_metadata_and_content() {
    let data = NoteData {
        clip_id: uuid::Uuid::nil(),
        source: Some("web-clipper".to_string()),
        clip_type: " selection ".to_string(),
        title: "Title with / invalid : chars".to_string(),
        url: "https://example.com/article".to_string(),
        content_markdown: "\nSelected paragraph\n\n[Source](https://example.com/article)\n".to_string(),
        created_at: "2026-02-24T00:00:00.000Z".to_string(),
    };
    let body = render_note(&data, "2026-02-24T10:00:00+00:00");
    assert_eq!(
        body,
        "# Title with / invalid : chars\n\n- Source: web-clipper\n- Type: selection\n\
- URL: https://example.com/article\n- CreatedAt: 2026-02-24T00:00:00.000Z\n\
- ImportedAt: 2026-02-24T10:00:00+00:00\n\nSelected paragraph\n\n[Source](https://example.com/article)\n"
    );
    let unknown = NoteData { source: None, ..data };
    assert!(render_note(&unknown, "t").contains("- Source: unknown\n"));
}

#[test]
fn note_file_name_uses_slug_and_short_id() {
    let id = uuid::Uuid::parse_str("67e55044-10b1-426f-9247-bb680e5fe0c8").unwrap();
    assert_eq!(
        note_file_name("20260224-100000", "A / B", &id),
        "20260224-100000-a-b-67e55044.md"
    );
}
