use provision::table::{params_rows, print_params_table};

#[test]
fn table_rows_are_stable() {
    let rows = params_rows();
    assert_eq!(rows.len(), 63);
    assert_eq!(rows[0].0, "--env KEY=VALUE");
    assert_eq!(rows[0].1, "Override environment values (repeatable)");
    assert_eq!(rows[62].0, "--dry-run");
    assert_eq!(rows[62].1, "Simulate actions without changes");
    // Two runs render identically.
    assert_eq!(print_params_table(), print_params_table());
}

#[test]
fn table_column_widths_are_the_maxima() {
    let rows = params_rows();
    let name_width = rows
        .iter()
        .map(|(n, _)| n.chars().count())
        .max()
        .unwrap()
        .max("Parameter/ENV".chars().count());
    let desc_width = rows
        .iter()
        .map(|(_, d)| d.chars().count())
        .max()
        .unwrap()
        .max("Description".chars().count());
    assert_eq!(name_width, 20); // NGINX_DEFAULT_OUTPUT
    assert_eq!(desc_width, 42); // Primary domain (used for default cert/key)

    let text = print_params_table();
    let lines: Vec<&str> = text.lines().collect();
    // Border, header, border, the rows, border.
    assert_eq!(lines.len(), 3 + rows.len() + 1);
    let border = format!("+-{}-+-{}-+", "-".repeat(name_width), "-".repeat(desc_width));
    assert_eq!(lines[0], border);
    assert_eq!(lines[2], border);
    assert_eq!(lines[lines.len() - 1], border);
    let header = format!(
        "| {:name_width$} | {:desc_width$} |",
        "Parameter/ENV", "Description"
    );
    assert_eq!(lines[1], header);
    // Every line is exactly as wide as the border, so the columns align.
    assert!(lines.iter().all(|l| l.chars().count() == border.chars().count()));
    // Each body row holds its entry padded to the column width.
    for (i, (n, d)) in rows.iter().enumerate() {
        let expected = format!("| {:name_width$} | {:desc_width$} |", n, d);
        assert_eq!(lines[3 + i], expected);
    }
    assert!(text.ends_with('\n'));
}
