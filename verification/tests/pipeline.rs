use flate2::write::GzEncoder;
use flate2::Compression;
use flatfile_pipeline::config::Config;
use flatfile_pipeline::date::DateKey;
use flatfile_pipeline::error::ErrorKind;
use flatfile_pipeline::pipeline::Action;
use flatfile_pipeline::pipeline::Event;
use flatfile_pipeline::pipeline::Phase;
use flatfile_pipeline::pipeline::Run;
use flatfile_pipeline::pipeline::Sink;
use polars::prelude::ParquetReader;
use polars::prelude::SerReader;
use std::io::Cursor;
use std::io::Write;

fn config() -> Config {
    Config {
        input_prefix: "us_stocks/trades".to_string(),
        output_prefix: "parquet/trades".to_string(),
        bucket_name: "bucket".to_string(),
    }
}

fn gzip(text: &[u8]) -> Vec<u8> {
    let mut encoder = GzEncoder::new(Vec::new(), Compression::default());
    encoder.write_all(text).unwrap();
    encoder.finish().unwrap()
}

fn one_day() -> Vec<u8> {
    gzip(
        b"ticker,conditions,exchange,id,participant_timestamp,price,size\nAAPL,1,4,123,1690000000000,150.25,100.0\n",
    )
}

fn output(location: &str) -> Event {
    Event::OutputListed { location: location.to_string() }
}

fn input(location: &str) -> Event {
    Event::InputListed { location: location.to_string() }
}

/// A run with dedup and a local sink that has read `outputs` and waits for
/// the first input object.
fn run_after_listing(outputs: &[&str]) -> Run {
    let (mut run, first) = Run::start(&config(), true, Sink::LocalDirectory);
    assert_eq!(first, Action::NextOutput);
    for location in outputs {
        assert_eq!(run.step(output(location)), Action::NextOutput);
    }
    assert_eq!(
        run.step(Event::OutputsEnded),
        Action::CreateDirectory { path: "local_parquet_files".to_string() }
    );
    assert_eq!(run.phase(), Phase::Preparing);
    assert_eq!(run.step(Event::DirectoryReady), Action::NextInput);
    assert_eq!(run.phase(), Phase::Listing);
    run
}

#[test]
fn a_run_skips_what_is_done_and_converts_the_rest() {
    let mut run = run_after_listing(&["parquet/trades/2024-03-01.parquet", "parquet/trades/readme.txt"]);
    assert!(run.is_done(&DateKey::new(2024, 3, 1).unwrap()));
    assert!(!run.is_done(&DateKey::new(2024, 3, 2).unwrap()));

    assert_eq!(
        run.step(input("us_stocks/trades/2024-03-01.csv.gz")),
        Action::Skip {
            location: "us_stocks/trades/2024-03-01.csv.gz".to_string(),
            date: DateKey::new(2024, 3, 1).unwrap(),
        }
    );
    assert_eq!(run.phase(), Phase::Listing);

    assert_eq!(
        run.step(input("us_stocks/trades/2024-03-02.csv.gz")),
        Action::Fetch { location: "us_stocks/trades/2024-03-02.csv.gz".to_string() }
    );
    assert_eq!(run.phase(), Phase::Fetching);

    match run.step(Event::Fetched { body: one_day() }) {
        Action::Publish { sink, path, artifact } => {
            assert_eq!(sink, Sink::LocalDirectory);
            assert_eq!(path, "local_parquet_files/2024-03-02.parquet");
            let frame = ParquetReader::new(Cursor::new(artifact)).finish().unwrap();
            assert_eq!(frame.height(), 1);
            assert_eq!(frame.column("ticker").unwrap().str().unwrap().get(0), Some("AAPL"));
            assert_eq!(frame.column("price").unwrap().f64().unwrap().get(0), Some(150.25));
        },
        other => panic!("expected an artifact to publish, got {:?}", other),
    }
    assert_eq!(run.phase(), Phase::Publishing);
    assert_eq!(run.written(), 0);

    assert_eq!(run.step(Event::Published), Action::NextInput);
    assert_eq!(run.written(), 1);
    assert_eq!(run.step(Event::InputsEnded), Action::Finish { written: 1 });
    assert_eq!(run.phase(), Phase::Finished);
}

#[test]
fn a_run_against_its_own_results_writes_nothing() {
    let inputs = ["in/2024-03-01.csv.gz", "in/2024-03-02.csv.gz"];
    let (mut first, _) = Run::start(&config(), true, Sink::OutputStore);
    assert_eq!(first.step(Event::OutputsEnded), Action::NextInput);
    let mut published = Vec::new();
    for location in inputs {
        assert_eq!(first.step(input(location)), Action::Fetch { location: location.to_string() });
        match first.step(Event::Fetched { body: one_day() }) {
            Action::Publish { sink, path, .. } => {
                assert_eq!(sink, Sink::OutputStore);
                published.push(path);
            },
            other => panic!("expected an artifact to publish, got {:?}", other),
        }
        assert_eq!(first.step(Event::Published), Action::NextInput);
    }
    assert_eq!(first.step(Event::InputsEnded), Action::Finish { written: 2 });
    assert_eq!(published, vec!["parquet/trades/2024-03-01.parquet", "parquet/trades/2024-03-02.parquet"]);

    let (mut second, action) = Run::start(&config(), true, Sink::OutputStore);
    assert_eq!(action, Action::NextOutput);
    for path in published {
        assert_eq!(second.step(Event::OutputListed { location: path }), Action::NextOutput);
    }
    assert_eq!(second.step(Event::OutputsEnded), Action::NextInput);
    for location in inputs {
        assert!(matches!(second.step(input(location)), Action::Skip { .. }));
    }
    assert_eq!(second.step(Event::InputsEnded), Action::Finish { written: 0 });
}

#[test]
fn an_object_without_a_date_is_fetched() {
    let mut run = run_after_listing(&["parquet/trades/2024-03-01.parquet"]);
    assert_eq!(
        run.step(input("prefix/not-a-date.csv.gz")),
        Action::Fetch { location: "prefix/not-a-date.csv.gz".to_string() }
    );
    match run.step(Event::Fetched { body: one_day() }) {
        Action::Publish { path, .. } => assert_eq!(path, "local_parquet_files/not-a-date.parquet"),
        other => panic!("expected an artifact to publish, got {:?}", other),
    }
}

#[test]
fn without_dedup_nothing_is_listed_and_nothing_skipped() {
    let (mut run, first) = Run::start(&config(), false, Sink::OutputStore);
    assert_eq!(first, Action::NextInput);
    assert_eq!(run.phase(), Phase::Listing);
    assert_eq!(
        run.step(input("in/2024-03-01.csv.gz")),
        Action::Fetch { location: "in/2024-03-01.csv.gz".to_string() }
    );
    let (run, first) = Run::start(&config(), false, Sink::LocalDirectory);
    assert_eq!(first, Action::CreateDirectory { path: "local_parquet_files".to_string() });
    assert_eq!(run.phase(), Phase::Preparing);
}

#[test]
fn a_body_that_is_no_gzip_stream_ends_the_run() {
    let mut run = run_after_listing(&[]);
    run.step(input("in/2024-03-01.csv.gz"));
    assert_eq!(
        run.step(Event::Fetched { body: b"no gzip".to_vec() }),
        Action::Abort {
            error: ErrorKind::Decompress,
            object: Some("in/2024-03-01.csv.gz".to_string()),
        }
    );
    assert_eq!(run.phase(), Phase::Aborted);
}

#[test]
fn a_file_that_does_not_parse_is_reported_and_the_run_goes_on() {
    let bad_row = gzip(
        b"ticker,conditions,exchange,id,participant_timestamp,price,size\nAAPL,x,4,123,1690000000000,150.25,100.0\n",
    );
    let mut run = run_after_listing(&[]);
    let mut published = Vec::new();
    let bodies = [("in/2024-03-01.csv.gz", one_day()), ("in/2024-03-02.csv.gz", bad_row), ("in/2024-03-03.csv.gz", one_day())];
    for (location, body) in bodies {
        assert_eq!(run.step(input(location)), Action::Fetch { location: location.to_string() });
        match run.step(Event::Fetched { body }) {
            Action::Publish { path, .. } => {
                published.push(path);
                assert_eq!(run.step(Event::Published), Action::NextInput);
            },
            Action::Report { location: reported, error } => {
                assert_eq!(reported, "in/2024-03-02.csv.gz");
                assert_eq!(error, ErrorKind::Parse);
                assert_eq!(run.phase(), Phase::Listing);
            },
            other => panic!("expected an artifact or a report, got {:?}", other),
        }
    }
    assert_eq!(
        published,
        vec!["local_parquet_files/2024-03-01.parquet", "local_parquet_files/2024-03-03.parquet"]
    );
    assert_eq!(run.step(Event::InputsEnded), Action::Finish { written: 2 });
}

#[test]
fn a_header_that_does_not_name_the_columns_is_a_parse_failure() {
    let mut run = run_after_listing(&[]);
    run.step(input("in/2024-03-01.csv.gz"));
    assert_eq!(
        run.step(Event::Fetched { body: gzip(b"ticker,conditions\nAAPL,1\n") }),
        Action::Report { location: "in/2024-03-01.csv.gz".to_string(), error: ErrorKind::Parse }
    );
    assert_eq!(run.phase(), Phase::Listing);
    assert_eq!(run.written(), 0);
    assert_eq!(
        run.step(input("in/2024-03-02.csv.gz")),
        Action::Fetch { location: "in/2024-03-02.csv.gz".to_string() }
    );
}

#[test]
fn a_failed_action_ends_the_run_with_its_kind() {
    let (mut run, _) = Run::start(&config(), true, Sink::LocalDirectory);
    assert_eq!(run.step(Event::Failed), Action::Abort { error: ErrorKind::Listing, object: None });
    assert_eq!(run.phase(), Phase::Aborted);

    let (mut run, _) = Run::start(&config(), true, Sink::LocalDirectory);
    run.step(Event::OutputsEnded);
    assert_eq!(run.step(Event::Failed), Action::Abort { error: ErrorKind::Publish, object: None });

    let mut run = run_after_listing(&[]);
    assert_eq!(run.step(Event::Failed), Action::Abort { error: ErrorKind::Listing, object: None });

    let mut run = run_after_listing(&[]);
    run.step(input("in/2024-03-01.csv.gz"));
    assert_eq!(
        run.step(Event::Failed),
        Action::Abort { error: ErrorKind::Fetch, object: Some("in/2024-03-01.csv.gz".to_string()) }
    );

    let mut run = run_after_listing(&[]);
    run.step(input("in/2024-03-01.csv.gz"));
    run.step(Event::Fetched { body: one_day() });
    assert_eq!(
        run.step(Event::Failed),
        Action::Abort { error: ErrorKind::Publish, object: Some("in/2024-03-01.csv.gz".to_string()) }
    );
    assert_eq!(run.written(), 0);
}

#[test]
fn an_event_out_of_turn_ends_the_run() {
    let (mut run, _) = Run::start(&config(), true, Sink::LocalDirectory);
    assert_eq!(run.step(Event::Published), Action::Abort { error: ErrorKind::OutOfTurn, object: None });
    assert_eq!(run.phase(), Phase::Aborted);
    assert_eq!(run.step(Event::OutputsEnded), Action::Abort { error: ErrorKind::OutOfTurn, object: None });
    assert_eq!(run.phase(), Phase::Aborted);

    let mut run = run_after_listing(&[]);
    assert_eq!(
        run.step(Event::Fetched { body: one_day() }),
        Action::Abort { error: ErrorKind::OutOfTurn, object: None }
    );

    let mut run = run_after_listing(&[]);
    assert_eq!(run.step(Event::InputsEnded), Action::Finish { written: 0 });
    assert_eq!(run.step(input("in/2024-03-01.csv.gz")), Action::Abort { error: ErrorKind::OutOfTurn, object: None });
    assert_eq!(run.phase(), Phase::Finished);
}

#[test]
fn on_converted_publishes_or_aborts() {
    let mut run = run_after_listing(&[]);
    run.step(input("in/2024-03-01.csv.gz"));
    assert_eq!(
        run.on_converted(Ok(vec![9, 9])),
        Action::Publish {
            sink: Sink::LocalDirectory,
            path: "local_parquet_files/2024-03-01.parquet".to_string(),
            artifact: vec![9, 9],
        }
    );

    let mut run = run_after_listing(&[]);
    run.step(input("in/2024-03-01.csv.gz"));
    assert_eq!(
        run.on_converted(Err(ErrorKind::Encode)),
        Action::Abort { error: ErrorKind::Encode, object: Some("in/2024-03-01.csv.gz".to_string()) }
    );
    assert_eq!(run.phase(), Phase::Aborted);

    let mut run = run_after_listing(&[]);
    run.step(input("in/2024-03-01.csv.gz"));
    assert_eq!(
        run.on_converted(Err(ErrorKind::Parse)),
        Action::Report { location: "in/2024-03-01.csv.gz".to_string(), error: ErrorKind::Parse }
    );
    assert_eq!(run.phase(), Phase::Listing);
    assert_eq!(
        run.step(input("in/2024-03-02.csv.gz")),
        Action::Fetch { location: "in/2024-03-02.csv.gz".to_string() }
    );

    let mut run = run_after_listing(&[]);
    assert_eq!(run.on_converted(Ok(vec![9])), Action::Abort { error: ErrorKind::OutOfTurn, object: None });
    assert_eq!(run.phase(), Phase::Aborted);
}
