use bluetape_rs::benchmark::{fixture_file_name, iterations_for, payload_matrix};

#[test]
fn iteration_schedule_matches_payload_sizes() {
    assert_eq!(iterations_for("small"), 500);
    assert_eq!(iterations_for("medium"), 80);
    assert_eq!(iterations_for("large"), 10);
}

#[test]
fn payload_matrix_lists_every_kind_with_every_size() {
    let matrix = payload_matrix();
    assert_eq!(matrix.len(), 12);
    assert_eq!(matrix[0], ("json", "small"));
    assert_eq!(matrix[1], ("json", "medium"));
    assert_eq!(matrix[3], ("text", "small"));
    assert_eq!(matrix[11], ("random", "large"));
    assert_eq!(fixture_file_name("json", "small"), "json-small.bin");
    assert_eq!(iterations_for("huge"), 10);
}
