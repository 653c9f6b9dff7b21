use flatfile_pipeline::index::ProcessedDateSet;
use flatfile_pipeline::names::output_location;
use flatfile_pipeline::names::output_name;
use flatfile_pipeline::plan::is_processed;
use flatfile_pipeline::plan::outstanding_work;

fn listing(names: &[&str]) -> Vec<String> {
    names.iter().map(|name| name.to_string()).collect()
}

#[test]
fn processed_date_is_skipped_and_the_next_is_not() {
    let index = ProcessedDateSet::build(&listing(&["out/2024-03-01.parquet"]));
    assert!(is_processed(&index, "2024-03-01.csv.gz"));
    assert!(is_processed(&index, "flatfiles/trades/2024-03-01.csv.gz"));
    assert!(!is_processed(&index, "2024-03-02.csv.gz"));
}

#[test]
fn object_without_a_date_is_never_skipped() {
    let index = ProcessedDateSet::build(&listing(&["out/2024-03-01.parquet"]));
    assert!(!is_processed(&index, "prefix/not-a-date.csv.gz"));
    assert!(!is_processed(&index, "prefix/2024-03-01.csv"));
    assert!(!is_processed(&index, "prefix/2024-03-01.parquet"));
    assert!(!is_processed(&index, ""));
}

#[test]
fn outstanding_work_keeps_the_order_of_the_listing() {
    let index = ProcessedDateSet::build(&listing(&["out/2024-03-02.parquet"]));
    let inputs = listing(&[
        "in/2024-03-03.csv.gz",
        "in/2024-03-02.csv.gz",
        "in/notes.txt",
        "in/2024-03-01.csv.gz",
    ]);
    assert_eq!(
        outstanding_work(&inputs, &index),
        listing(&["in/2024-03-03.csv.gz", "in/notes.txt", "in/2024-03-01.csv.gz"])
    );
}

#[test]
fn second_run_finds_nothing() {
    let inputs = listing(&["in/2024-03-01.csv.gz", "in/2024-03-02.csv.gz", "in/2024-03-03.csv.gz"]);
    let mut outputs = listing(&["out/2024-03-02.parquet", "out/readme.txt"]);
    let first = outstanding_work(&inputs, &ProcessedDateSet::build(&outputs));
    assert_eq!(first, listing(&["in/2024-03-01.csv.gz", "in/2024-03-03.csv.gz"]));
    for location in first.iter() {
        outputs.push(output_location("out", &output_name(location)));
    }
    let second = outstanding_work(&inputs, &ProcessedDateSet::build(&outputs));
    assert_eq!(second, Vec::<String>::new());
}

#[test]
fn object_without_a_date_is_worked_on_in_every_run() {
    let inputs = listing(&["in/notes.csv.gz"]);
    let mut outputs = Vec::new();
    let first = outstanding_work(&inputs, &ProcessedDateSet::build(&outputs));
    assert_eq!(first, inputs);
    outputs.push(output_location("out", &output_name(&first[0])));
    assert_eq!(outputs[0], "out/notes.parquet");
    let second = outstanding_work(&inputs, &ProcessedDateSet::build(&outputs));
    assert_eq!(second, inputs);
}
