use serial_tui::app::ExportFormat;
use serial_tui::export::{csv_document, export_file_name, text_document, DataRecord};

fn sample_records() -> Vec<DataRecord> {
    vec![
        DataRecord {
            time: "14:32:01.234".into(),
            dir: "RX".into(),
            data: "AT+GMR".into(),
        },
        DataRecord {
            time: "14:32:01.456".into(),
            dir: "TX".into(),
            data: "OK".into(),
        },
    ]
}

#[test]
fn csv_document_has_header_and_rows() {
    let doc = csv_document(&sample_records());
    assert_eq!(
        doc,
        "\u{65f6}\u{95f4}\u{6233},\u{65b9}\u{5411},\u{6570}\u{636e}\n14:32:01.234,RX,AT+GMR\n14:32:01.456,TX,OK\n"
    );
    assert!(doc.contains("AT+GMR"));
    assert!(doc.contains("OK"));
}

#[test]
fn text_document_has_one_line_per_record() {
    let doc = text_document(&sample_records());
    assert_eq!(doc, "14:32:01.234 [RX] AT+GMR\n14:32:01.456 [TX] OK\n");
    assert!(doc.contains("[RX]"));
    assert!(doc.contains("[TX]"));
    assert_eq!(text_document(&[]), "");
}

#[test]
fn export_file_name_from_stamp() {
    assert_eq!(
        export_file_name("./", "20260610_120000", ExportFormat::Csv),
        "./serial_export_20260610_120000.csv"
    );
    assert_eq!(
        export_file_name("/tmp/out//", "20260610_120000", ExportFormat::Txt),
        "/tmp/out/serial_export_20260610_120000.txt"
    );
    assert_eq!(
        export_file_name("logs", "1", ExportFormat::Csv),
        "logs/serial_export_1.csv"
    );
    assert_eq!(export_file_name("/", "1", ExportFormat::Txt), "/serial_export_1.txt");
}
