use document_generator::api::error::ApiError;
use document_generator::api::handlers::{
    accept_chunk, extract_tenant_user, is_compressed_upload, upload_body, upload_key,
    upload_limit_mb, AuthInfo,
};
use document_generator::api::middleware::auth::validate_token;
use document_generator::api::routes::{is_allowed_origin, readiness_check};
use document_generator::base::error::DocumentError;
use document_generator::pdf::builder::{join, PdfBuilder};
use document_generator::pdf::generator::{
    check_content, generate_typst_document, temp_markup_path, uuid_simple,
};
use document_generator::templates::helpers::{
    escape_typst_filter, format_currency_text, format_money_text, format_number_text,
};
use document_generator::text::{chars_of, group_thousands, parse_i64, segment_of, starts_with};
use document_generator::worker::{decode_text, decompress, on_delivery, PollAction};
use std::io::Write;

fn chars(text: &str) -> Vec<char> {
    text.chars().collect()
}

#[test]
fn integers_are_parsed_like_the_standard_library_does() {
    for text in [
        "0", "7", "-7", "+7", "007", "-0", "9223372036854775807", "9223372036854775808",
        "-9223372036854775808", "-9223372036854775809", "", "-", "+", "1a", " 1", "1 ", "--1",
        "12345678901234567890123456789012345678901234567890", "٣", "1_000",
    ] {
        assert_eq!(parse_i64(&chars(text)), text.parse::<i64>().ok(), "for {:?}", text);
    }
    assert_eq!(parse_i64(&chars("42")), Some(42));
    assert_eq!(parse_i64(&chars("-42")), Some(-42));
    assert_eq!(parse_i64(&chars("9223372036854775808")), None);
}

#[test]
fn texts_are_cut_at_separators() {
    let text = chars("valid_tenant12_user7_extra");
    assert_eq!(segment_of(&text, '_', 0), Some(chars("valid")));
    assert_eq!(segment_of(&text, '_', 1), Some(chars("tenant12")));
    assert_eq!(segment_of(&text, '_', 2), Some(chars("user7")));
    assert_eq!(segment_of(&text, '_', 3), Some(chars("extra")));
    assert_eq!(segment_of(&text, '_', 4), None);
    assert_eq!(segment_of(&chars(""), '_', 0), Some(chars("")));
    assert_eq!(segment_of(&chars(""), '_', 1), None);
    assert_eq!(segment_of(&chars("a__b"), '_', 1), Some(chars("")));
    assert_eq!(segment_of(&chars("a_"), '_', 1), Some(chars("")));
    assert_eq!(chars_of("añb"), chars("añb"));
    assert!(starts_with(&chars("tenant12"), &chars("tenant")));
    assert!(starts_with(&chars("tenant"), &chars("")));
    assert!(!starts_with(&chars("tena"), &chars("tenant")));
    assert!(!starts_with(&chars("Tenant12"), &chars("tenant")));
}

#[test]
fn thousands_are_grouped_in_threes() {
    assert_eq!(group_thousands(""), "");
    assert_eq!(group_thousands("1"), "1");
    assert_eq!(group_thousands("123"), "123");
    assert_eq!(group_thousands("1234"), "1,234");
    assert_eq!(group_thousands("123456"), "123,456");
    assert_eq!(group_thousands("1234567"), "1,234,567");
    assert_eq!(group_thousands("-123"), "-,123");
}

#[test]
fn numbers_and_amounts_are_formatted_from_decimal_text() {
    assert_eq!(format_number_text("1234567.50", true), "1,234,567.50");
    assert_eq!(format_number_text("1234567.50", false), "1,234,567");
    assert_eq!(format_number_text("999", true), "999.00");
    assert_eq!(format_number_text("0.05", true), "0.05");
    assert_eq!(format_number_text("1000", false), "1,000");
    assert_eq!(format_currency_text(false, "$", "2465000.00"), "$2,465,000.00");
    assert_eq!(format_currency_text(true, "RD$", "1500.25"), "-RD$1,500.25");
    assert_eq!(format_money_text("$", "55000.00"), "\\$55,000.00");
    assert_eq!(format_money_text("RD$", "55000.00"), "RD$55,000.00");
    assert_eq!(format_money_text("€", "12.30"), "€12.30");
}

#[test]
fn filter_escapes_its_four_characters() {
    assert_eq!(escape_typst_filter("a_b*c#d$e@f"), "a\\_b\\*c\\#d\\$e@f");
    assert_eq!(escape_typst_filter(""), "");
    let text = "$1 #2 _3 *4";
    assert_eq!(
        escape_typst_filter(text),
        text.replace("$", "\\$").replace("#", "\\#").replace("_", "\\_").replace("*", "\\*")
    );
}

#[test]
fn tokens_name_tenant_and_user() {
    let sender = validate_token("valid_tenant123_user456").expect("accepted");
    assert_eq!(sender.tenant_id, 123);
    assert_eq!(sender.user_id, 456);
    assert_eq!(sender.organization_id, None);
    let defaulted = validate_token("valid_").expect("accepted");
    assert_eq!((defaulted.tenant_id, defaulted.user_id), (1, 1));
    let partial = validate_token("valid_tenant9").expect("accepted");
    assert_eq!((partial.tenant_id, partial.user_id), (9, 1));
    let unlabelled = validate_token("valid_12_user3").expect("accepted");
    assert_eq!((unlabelled.tenant_id, unlabelled.user_id), (1, 3));
    let negative = validate_token("valid_tenant-5_userx").expect("accepted");
    assert_eq!((negative.tenant_id, negative.user_id), (-5, 1));
    let too_big = validate_token("valid_tenant99999999999999999999_user2").expect("accepted");
    assert_eq!((too_big.tenant_id, too_big.user_id), (1, 2));
    assert!(validate_token("").is_none());
    assert!(validate_token("invalid_tenant1_user1").is_none());
    assert!(validate_token("valid").is_none());
    assert!(validate_token("Valid_tenant1_user1").is_none());
}

#[test]
fn sender_comes_from_authentication_or_headers() {
    let auth = Some(AuthInfo { tenant_id: 4, user_id: 5 });
    let tenant = Some("12".to_string());
    let user = Some("x".to_string());
    assert_eq!(extract_tenant_user(&tenant, &user, auth, 0), AuthInfo { tenant_id: 4, user_id: 5 });
    assert_eq!(extract_tenant_user(&tenant, &user, None, 0), AuthInfo { tenant_id: 12, user_id: 0 });
    assert_eq!(extract_tenant_user(&None, &None, None, 0), AuthInfo { tenant_id: 0, user_id: 0 });
    assert_eq!(extract_tenant_user(&None, &tenant, None, 1), AuthInfo { tenant_id: 1, user_id: 12 });
    let sender = validate_token("valid_tenant3_user4");
    assert_eq!(
        document_generator::api::middleware::auth::extract_tenant_user(&sender),
        Some((3, 4))
    );
    assert_eq!(document_generator::api::middleware::auth::extract_tenant_user(&None), None);
}

#[test]
fn api_errors_carry_their_status() {
    let plain = ApiError::new("teapot".to_string(), 418);
    assert_eq!(plain.status_code(), 418);
    assert_eq!(plain.to_text(), "teapot");
    assert_eq!(ApiError::internal_server_error("a".to_string()).status_code(), 500);
    assert_eq!(ApiError::bad_request("b".to_string()).status_code(), 400);
    assert_eq!(ApiError::not_found("c".to_string()).status_code(), 404);
    let invalid = ApiError::from_document_error(&DocumentError::ValidationError("no".to_string()));
    assert_eq!(invalid.status_code(), 400);
    assert_eq!(invalid.to_text(), "Error de validación: no");
    let broken = ApiError::from_document_error(&DocumentError::IoError("disk".to_string()));
    assert_eq!(broken.status_code(), 500);
    assert_eq!(broken.to_text(), "Error de E/S: disk");
}

#[test]
fn origins_and_readiness() {
    assert!(is_allowed_origin("http://localhost"));
    assert!(is_allowed_origin("http://localhost:3000"));
    assert!(is_allowed_origin("https://app.example"));
    assert!(!is_allowed_origin("http://app.example"));
    assert!(!is_allowed_origin("http://local"));
    assert!(!is_allowed_origin(""));
    let ready = readiness_check(true, 4);
    assert!(ready.ready);
    assert_eq!(ready.status, 200);
    let empty = readiness_check(true, 0);
    assert!(!empty.ready);
    assert_eq!(empty.status, 503);
    assert!(empty.storage_ok);
    assert!(!empty.templates_ok);
    let down = readiness_check(false, 4);
    assert_eq!(down.status, 503);
    assert!(!down.storage_ok);
}

#[test]
fn uploads_are_bounded_and_unpacked() {
    assert_eq!(accept_chunk(0, 10, 10), Some(10));
    assert_eq!(accept_chunk(5, 6, 10), None);
    assert_eq!(accept_chunk(usize::MAX, 1, usize::MAX), None);
    assert_eq!(accept_chunk(0, 0, 0), Some(0));
    assert_eq!(upload_limit_mb(104_857_600), 100);
    assert_eq!(upload_limit_mb(1_048_575), 0);
    assert!(is_compressed_upload(&Some("gzip".to_string())));
    assert!(!is_compressed_upload(&Some("GZIP".to_string())));
    assert!(!is_compressed_upload(&Some("br".to_string())));
    assert!(!is_compressed_upload(&None));
    assert_eq!(upload_key(42, 1), "uploads/42/00000000-0000-0000-0000-000000000001.json");

    let mut encoder = flate2::write::GzEncoder::new(Vec::new(), flate2::Compression::default());
    encoder.write_all(b"{\"rows\":[]}").expect("write");
    let packed = encoder.finish().expect("finish");
    assert_eq!(decompress(&packed), Some(b"{\"rows\":[]}".to_vec()));
    assert_eq!(decompress(&vec![0, 1, 2]), None);
    assert_eq!(
        upload_body(packed.clone(), &Some("gzip".to_string())).expect("unpacked"),
        b"{\"rows\":[]}".to_vec()
    );
    assert_eq!(upload_body(packed.clone(), &None).expect("as it came"), packed);
    let refused = upload_body(vec![1, 2, 3], &Some("gzip".to_string())).unwrap_err();
    assert_eq!(refused.status_code(), 500);
    assert_eq!(decode_text(Some("añ".as_bytes().to_vec())), Some("añ".to_string()));
    assert_eq!(decode_text(Some(vec![0xff, 0xfe])), None);
    assert_eq!(decode_text(None), None);
}

#[test]
fn broker_errors_are_waited_out() {
    assert_eq!(on_delivery(true), PollAction::Process);
    assert_eq!(on_delivery(false), PollAction::BackOff { seconds: 5 });
}

#[test]
fn builder_collects_sections() {
    let mut builder = PdfBuilder::new();
    assert_eq!(builder.build(), "");
    builder.add_title("Reporte", 2);
    builder.add_paragraph("Resumen del inventario");
    builder.add_line_break();
    builder.add_horizontal_line();
    builder.add_list(&vec!["uno".to_string(), "dos".to_string()], true);
    builder.add_list(&vec!["tres".to_string()], false);
    builder.add_page_break();
    builder.add_raw_typst("#set text(size: 9pt)");
    builder.add_grid(2, &vec!["a".to_string(), "b".to_string()]);
    builder.add_box("Nota", &Some("255, 243, 224".to_string()), true);
    builder.add_box("Sin marco", &None, false);
    let expected = [
        "== Reporte",
        "Resumen del inventario",
        "",
        "#v(10pt)",
        "#line(length: 100%, stroke: 0.5pt)",
        "1. uno",
        "2. dos",
        "",
        "- tres",
        "",
        "#pagebreak()",
        "#set text(size: 9pt)",
        "#grid(\n  columns: 2,\n  gutter: 10pt,\n  [a],\n  [b],\n)",
        "#rect(fill: rgb(255, 243, 224), stroke: 0.5pt, radius: 3pt, inset: 10pt)[Nota]",
        "#rect(radius: 3pt, inset: 10pt)[Sin marco]",
    ]
    .join("\n\n");
    assert_eq!(builder.build(), expected);
    let mut untitled = PdfBuilder::new();
    untitled.add_title("x", 0);
    assert_eq!(untitled.build(), " x");
    assert_eq!(join(&vec!["a".to_string(), "b".to_string(), "c".to_string()], ", "), "a, b, c");
    assert_eq!(join(&Vec::new(), ", "), "");
}

#[test]
fn render_steps_before_the_compiler() {
    assert_eq!(uuid_simple(0), "0");
    assert_eq!(uuid_simple(255), "ff");
    assert_eq!(uuid_simple(1_700_000_000_000), format!("{:x}", 1_700_000_000_000u128));
    assert_eq!(uuid_simple(u128::MAX), format!("{:x}", u128::MAX));
    assert_eq!(temp_markup_path("temp", "18bcfe56800"), "temp/temp_18bcfe56800.typ");
    assert_eq!(generate_typst_document("#set page()", "= Title"), "#set page()\n\n= Title");
    assert!(check_content("x").is_ok());
    match check_content("") {
        Err(DocumentError::ValidationError(message)) => {
            assert_eq!(message, "El contenido del documento está vacío")
        }
        other => panic!("unexpected result {:?}", other),
    }
}

#[test]
fn builder_writes_tables_and_images() {
    let mut table = document_generator::base::data::TableData::new(vec![
        "SKU".to_string(),
        "Producto".to_string(),
    ]);
    assert!(table.rows.is_empty());
    assert!(table.column_widths.is_none());
    assert!(table.alignment.is_none());
    table.add_row(vec!["A001".to_string(), "Laptop".to_string()]);
    table.add_row(vec!["A002".to_string()]);
    let mut plain = PdfBuilder::new();
    plain.add_table(&table);
    assert_eq!(
        plain.build(),
        "#table(\n  columns: 2,\n  stroke: 0.5pt,\n  fill: (x, y) => if y == 0 { rgb(240, 240, 240) } else { white },\n  inset: 8pt,\n\n  [#text(weight: \"bold\")[SKU]],\n  [#text(weight: \"bold\")[Producto]],\n  [A001],\n  [Laptop],\n  [A002],\n)"
    );
    let styled = table
        .with_column_widths(vec!["60".to_string(), "150.5".to_string()])
        .with_alignment(vec![
            document_generator::base::data::ColumnAlign::Center,
            document_generator::base::data::ColumnAlign::Right,
        ]);
    let mut builder = PdfBuilder::new();
    builder.add_table(&styled);
    assert_eq!(
        builder.build(),
        "#table(\n  columns: (60pt, 150.5pt),\n  align: (col, row) => {\n    if col == 0 { center }\n    else if col == 1 { right }\n    else { left }\n  },\n  stroke: 0.5pt,\n  fill: (x, y) => if y == 0 { rgb(240, 240, 240) } else { white },\n  inset: 8pt,\n\n  [#text(weight: \"bold\")[SKU]],\n  [#text(weight: \"bold\")[Producto]],\n  [A001],\n  [Laptop],\n  [A002],\n)"
    );
    let mut images = PdfBuilder::new();
    images.add_image("logo.png", &None, &None);
    images.add_image("logo.png", &Some("120".to_string()), &None);
    images.add_image("qr.png", &Some("80".to_string()), &Some("Código".to_string()));
    assert_eq!(
        images.build(),
        "#image(\"logo.png\")\n\n#image(\"logo.png\", width: 120pt)\n\n#figure(\n  #image(\"qr.png\", width: 80pt),\n  caption: [Código]\n)"
    );
    let mut empty = PdfBuilder::new();
    empty.add_table(&document_generator::base::data::TableData::new(Vec::new()).with_column_widths(Vec::new()).with_alignment(Vec::new()));
    assert_eq!(
        empty.build(),
        "#table(\n  columns: (),\n  align: (col, row) => {\n    else { left }\n  },\n  stroke: 0.5pt,\n  fill: (x, y) => if y == 0 { rgb(240, 240, 240) } else { white },\n  inset: 8pt,\n\n)"
    );
}
