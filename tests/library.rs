use pastoral_report::extract::{format_of, DocFormat};
use pastoral_report::ingest::{classify_part, file_extension, last_segment, FormInput, PartKind};
use pastoral_report::prompt::{
    compose_request, get_system_prompt, user_message, CATALAN_PROMPT, DEFAULT_MODEL,
    SPANISH_PROMPT,
};
use pastoral_report::report::{
    report_html, reply_for, Reply, CONNECTION_ERROR_MESSAGE, PLACEHOLDER_REPORT,
};
use pastoral_report::response::{extract_output_text, ContentPart, OutputItem, ResponsesResponse};
use pastoral_report::sanitize::sanitize_ai_html;

fn part(kind: &str, text: Option<&str>) -> ContentPart {
    ContentPart { part_type: kind.to_string(), text: text.map(|t| t.to_string()) }
}

fn item(kind: &str, content: Option<Vec<ContentPart>>) -> OutputItem {
    OutputItem { item_type: kind.to_string(), content }
}

fn one_message(text: &str) -> ResponsesResponse {
    ResponsesResponse { output: vec![item("message", Some(vec![part("output_text", Some(text))]))] }
}

#[test]
fn sanitize_keeps_clean_html() {
    let clean = "<article><section class=\"acogida\"><h2>Paz</h2><p>Texto <strong>fuerte</strong> y <em>suave</em></p></section></article>";
    assert_eq!(sanitize_ai_html(clean), clean);
    let quote = "<blockquote class=\"bible-quote\">Cita<footer>— <cite>Jn 3:16</cite></footer></blockquote>";
    assert_eq!(sanitize_ai_html(quote), quote);
    let list = "<ul><li>uno</li><li>dos</li></ul><div><span>a</span><br><h3>b</h3></div>";
    assert_eq!(sanitize_ai_html(list), list);
}

#[test]
fn sanitize_removes_script() {
    let dirty = "<p>Hola</p><script>alert(1)</script>";
    let once = sanitize_ai_html(dirty);
    assert!(!once.contains("<script"));
    assert!(!once.contains("alert"));
    assert!(once.contains("<p>Hola</p>"));
    assert_eq!(sanitize_ai_html(&once), once);
}

#[test]
fn sanitize_strips_attributes_and_foreign_tags() {
    let dirty = "<p class=\"x\" style=\"color:red\" onclick=\"evil()\">a</p><table><tr><td>b</td></tr></table>";
    let out = sanitize_ai_html(dirty);
    assert!(out.contains("<p class=\"x\">a</p>"));
    assert!(!out.contains("style"));
    assert!(!out.contains("onclick"));
    assert!(!out.contains("<table"));
    assert!(out.contains('b'));
    assert_eq!(sanitize_ai_html(&out), out);
}

#[test]
fn unsupported_extension_has_no_extraction() {
    assert!(format_of(&file_extension("nofile.xyz")) == DocFormat::Unsupported);
    assert!(format_of("xyz") == DocFormat::Unsupported);
}

#[test]
fn supported_extensions() {
    assert!(format_of("txt") == DocFormat::PlainText);
    assert!(format_of("md") == DocFormat::PlainText);
    assert!(format_of("docx") == DocFormat::WordDoc);
    assert!(format_of("pdf") == DocFormat::Pdf);
    assert!(format_of("") == DocFormat::Unsupported);
    assert!(format_of("TXT") == DocFormat::Unsupported);
}

#[test]
fn output_text_found() {
    assert_eq!(extract_output_text(&one_message("Hello")), Some("Hello".to_string()));
}

#[test]
fn output_text_absent_for_other_part() {
    let resp = ResponsesResponse {
        output: vec![item("message", Some(vec![part("other", Some("X"))]))],
    };
    assert_eq!(extract_output_text(&resp), None);
}

#[test]
fn output_text_scans_in_order() {
    let resp = ResponsesResponse {
        output: vec![
            item("reasoning", Some(vec![part("output_text", Some("skip"))])),
            item("message", None),
            item("message", Some(vec![part("refusal", Some("no"))])),
            item(
                "message",
                Some(vec![part("output_text", Some("first")), part("output_text", Some("second"))]),
            ),
            item("message", Some(vec![part("output_text", Some("third"))])),
        ],
    };
    assert_eq!(extract_output_text(&resp), Some("first".to_string()));
    assert_eq!(extract_output_text(&ResponsesResponse { output: vec![] }), None);
}

#[test]
fn output_text_part_without_text() {
    let resp = ResponsesResponse {
        output: vec![
            item("message", Some(vec![part("output_text", None)])),
            item("message", Some(vec![part("output_text", Some("later"))])),
        ],
    };
    assert_eq!(extract_output_text(&resp), None);
}

#[test]
fn end_to_end_catalan_report() {
    let mut form = FormInput::new();
    form.add_text_field("experience", b"I feel lost".to_vec());
    form.add_text_field("context", Vec::new());
    form.add_text_field("lang", b"ca".to_vec());
    let request = compose_request(DEFAULT_MODEL, &form.lang, &form.experience, &form.context);
    assert_eq!(request.input[0].content, CATALAN_PROMPT);
    assert_eq!(
        request.input[1].content,
        "=== EXPERIENCIA ===\nI feel lost\n\n=== CONTEXTO ===\n"
    );
    let article = "<article><section class=\"acogida\"><p>Pau i sentit</p></section></article>";
    let reply = reply_for(Some(&one_message(article)), &form.lang);
    assert_eq!(reply.status(), 200);
    match reply {
        Reply::Page { report, lang } => {
            assert!(report.contains("Pau i sentit"));
            assert_eq!(report, article);
            assert_eq!(lang, "ca");
        }
        Reply::Failure { .. } => panic!("expected a report page"),
    }
}

#[test]
fn end_to_end_connection_failure() {
    let reply = reply_for(None, "es");
    assert_eq!(reply.status(), 500);
    match reply {
        Reply::Failure { message } => {
            assert_eq!(message, "Error de conexión / Error de connexió");
            assert_eq!(message, CONNECTION_ERROR_MESSAGE);
        }
        Reply::Page { .. } => panic!("expected the failure page"),
    }
}

#[test]
fn attachment_marker_precedes_text() {
    let mut form = FormInput::new();
    assert!(matches!(classify_part(Some("notes.txt")), PartKind::Attachment));
    assert_eq!(file_extension("notes.txt"), "txt");
    form.add_attachment("experience_file", "notes.txt", "hi");
    assert_eq!(form.experience, "\n[Adjunto: notes.txt]\nhi");
    assert!(form.experience.contains("notes.txt"));
    assert_eq!(form.context, "");
}

#[test]
fn attachments_route_by_field() {
    let mut form = FormInput::new();
    form.add_attachment("context_file", "a.md", "x");
    form.add_attachment("other_file", "b.md", "y");
    form.add_attachment("experience", "c.md", "z");
    assert_eq!(form.context, "\n[Adjunto: a.md]\nx");
    assert_eq!(form.experience, "");
    assert_eq!(form.lang, "es");
}

#[test]
fn text_fields_route_by_name() {
    let mut form = FormInput::new();
    assert_eq!(form.lang, "es");
    form.add_text_field("experience", b"uno ".to_vec());
    form.add_text_field("experience", "dós".as_bytes().to_vec());
    form.add_text_field("context", b"ctx".to_vec());
    form.add_text_field("unknown", b"ignored".to_vec());
    form.add_text_field("lang", b"fr".to_vec());
    assert_eq!(form.experience, "uno dós");
    assert_eq!(form.context, "ctx");
    assert_eq!(form.lang, "fr");
}

#[test]
fn invalid_utf8_field_is_empty() {
    let mut form = FormInput::new();
    form.add_text_field("experience", vec![0x61, 0xff, 0x62]);
    assert_eq!(form.experience, "");
    form.add_text_field("lang", vec![0xc3]);
    assert_eq!(form.lang, "");
}

#[test]
fn part_classification() {
    assert!(matches!(classify_part(None), PartKind::Field));
    assert!(matches!(classify_part(Some("")), PartKind::Skipped));
    assert!(matches!(classify_part(Some("x")), PartKind::Attachment));
}

#[test]
fn extension_is_last_segment_lowercased() {
    assert_eq!(file_extension("Report.Final.PDF"), "pdf");
    assert_eq!(file_extension("README"), "readme");
    assert_eq!(file_extension("trailing."), "");
    assert_eq!(file_extension("Doc.DOCX"), "docx");
    assert_eq!(last_segment("a.b.c"), "c");
    assert_eq!(last_segment(".hidden"), "hidden");
    assert_eq!(last_segment(""), "");
    assert_eq!(last_segment("sin.extensión"), "extensión");
}

#[test]
fn prompt_selection_falls_back_to_spanish() {
    assert_eq!(get_system_prompt("ca"), CATALAN_PROMPT);
    assert_eq!(get_system_prompt("es"), SPANISH_PROMPT);
    assert_eq!(get_system_prompt("fr"), SPANISH_PROMPT);
    assert_eq!(get_system_prompt(""), SPANISH_PROMPT);
    assert!(CATALAN_PROMPT.contains("RESPON ÚNICAMENT EN CATALÀ."));
    assert!(SPANISH_PROMPT.contains("RESPONDE ÚNICAMENTE EN ESPAÑOL."));
}

#[test]
fn user_message_layout() {
    assert_eq!(
        user_message("exp", "ctx"),
        "=== EXPERIENCIA ===\nexp\n\n=== CONTEXTO ===\nctx"
    );
    assert_eq!(user_message("", ""), "=== EXPERIENCIA ===\n\n\n=== CONTEXTO ===\n");
}

#[test]
fn request_has_two_messages() {
    let r = compose_request("my-model", "es", "e", "c");
    assert_eq!(r.model, "my-model");
    assert_eq!(r.input.len(), 2);
    assert_eq!(r.input[0].role, "system");
    assert_eq!(r.input[0].content, SPANISH_PROMPT);
    assert_eq!(r.input[1].role, "user");
    assert_eq!(r.input[1].content, "=== EXPERIENCIA ===\ne\n\n=== CONTEXTO ===\nc");
    assert!(!r.store);
    assert_eq!(DEFAULT_MODEL, "gpt-4o-mini");
}

#[test]
fn placeholder_report_without_text() {
    let empty = ResponsesResponse { output: vec![] };
    assert_eq!(report_html(&empty), PLACEHOLDER_REPORT);
    assert_eq!(report_html(&empty), "<p>...</p>");
    assert_eq!(report_html(&one_message("<p>ok</p><img src=x onerror=y>")), "<p>ok</p>");
}
