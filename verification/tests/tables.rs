use rcli::process::csv::{process_csv, process_record};
use rcli::process::http_serve::{file_response, FileLookup};

fn strings(items: &[&str]) -> Vec<String> {
    items.iter().map(|item| item.to_string()).collect()
}

fn pairs(items: &[(&str, &str)]) -> Vec<(String, String)> {
    items.iter().map(|(name, value)| (name.to_string(), value.to_string())).collect()
}

#[test]
fn a_record_is_paired_with_the_headers() {
    let headers = strings(&["Name", "Position", "Kit Number"]);
    let record = strings(&["Ada", "Forward", "9"]);
    assert_eq!(
        process_record(&headers, &record),
        pairs(&[("Name", "Ada"), ("Position", "Forward"), ("Kit Number", "9")])
    );
}

#[test]
fn pairing_stops_at_the_shorter_side() {
    let headers = strings(&["Name", "Position"]);
    assert_eq!(process_record(&headers, &strings(&["Ada"])), pairs(&[("Name", "Ada")]));
    assert_eq!(
        process_record(&headers, &strings(&["Ada", "Forward", "extra"])),
        pairs(&[("Name", "Ada"), ("Position", "Forward")])
    );
    assert_eq!(process_record(&headers, &Vec::new()), Vec::new());
    assert_eq!(process_record(&Vec::new(), &strings(&["Ada"])), Vec::new());
}

#[test]
fn a_table_keeps_the_order_of_its_records() {
    let headers = strings(&["Name", "Kit Number"]);
    let records = vec![strings(&["Ada", "9"]), strings(&["Grace"]), strings(&["Edsger", "7"])];
    assert_eq!(
        process_csv(&headers, &records),
        vec![
            pairs(&[("Name", "Ada"), ("Kit Number", "9")]),
            pairs(&[("Name", "Grace")]),
            pairs(&[("Name", "Edsger"), ("Kit Number", "7")]),
        ]
    );
    assert!(process_csv(&headers, &Vec::new()).is_empty());
}

#[test]
fn a_file_that_was_read_is_sent_as_it_is() {
    let lookup = FileLookup::Read { content: "[package]\nname = \"x\"".to_string() };
    assert_eq!(file_response(lookup), (200, "[package]\nname = \"x\"".to_string()));
}

#[test]
fn a_missing_file_is_not_found() {
    let lookup = FileLookup::Missing { shown: "\"./nothing\"".to_string() };
    assert_eq!(file_response(lookup), (404, "\"./nothing\" not found".to_string()));
}

#[test]
fn an_unreadable_file_is_a_server_error() {
    let lookup = FileLookup::Unreadable { reason: "Is a directory (os error 21)".to_string() };
    assert_eq!(
        file_response(lookup),
        (500, "Failed to read file: Is a directory (os error 21)".to_string())
    );
}
