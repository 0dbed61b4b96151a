use taotie::conn::{verify_conn, Compression, ConnError, DatasetConn};

fn file_of(r: Result<DatasetConn, ConnError>) -> (bool, String, String, Compression) {
    match r {
        Ok(DatasetConn::CSv(o)) => (true, o.filename, o.ext, o.compression),
        Ok(DatasetConn::NdJson(o)) => (false, o.filename, o.ext, o.compression),
        other => panic!("not a file source: {:?}", other),
    }
}

fn unsupported(r: Result<DatasetConn, ConnError>) -> String {
    match r {
        Err(ConnError::UnsupportedFormat(x)) => x,
        other => panic!("expected an unsupported format: {:?}", other),
    }
}

#[test]
fn every_format_and_compression_pair_resolves() {
    let comps = [
        ("gz", Compression::Gzip),
        ("bz2", Compression::Bzip2),
        ("xz", Compression::Xz),
        ("zstd", Compression::Zstd),
    ];
    for fmt in ["csv", "json", "jsonl", "ndjson"] {
        for (tag, comp) in comps {
            let name = format!("data/people.{}.{}", fmt, tag);
            let (is_csv, filename, ext, c) = file_of(verify_conn(&name));
            assert_eq!(is_csv, fmt == "csv");
            assert_eq!(filename, name);
            assert_eq!(ext, fmt);
            assert_eq!(c, comp);
        }
    }
}

#[test]
fn plain_csv_is_uncompressed() {
    let (is_csv, filename, ext, c) = file_of(verify_conn("assets/person.csv"));
    assert!(is_csv);
    assert_eq!(filename, "assets/person.csv");
    assert_eq!(ext, "csv");
    assert_eq!(c, Compression::Uncompressed);
}

#[test]
fn dotted_stem_keeps_last_suffix() {
    let (is_csv, _, ext, c) = file_of(verify_conn("my.data.csv"));
    assert!(is_csv);
    assert_eq!(ext, "csv");
    assert_eq!(c, Compression::Uncompressed);
}

#[test]
fn plain_json_is_newline_delimited() {
    let (is_csv, _, ext, c) = file_of(verify_conn("events.ndjson"));
    assert!(!is_csv);
    assert_eq!(ext, "ndjson");
    assert_eq!(c, Compression::Uncompressed);
}

#[test]
fn parquet_suffix_wins() {
    match verify_conn("x.csv.gz.parquet") {
        Ok(DatasetConn::Parquet(p)) => assert_eq!(p, "x.csv.gz.parquet"),
        other => panic!("{:?}", other),
    }
}

#[test]
fn postgres_scheme_wins_over_suffix() {
    match verify_conn("postgres://host/db.csv.gz") {
        Ok(DatasetConn::Postgres(u)) => assert_eq!(u, "postgres://host/db.csv.gz"),
        other => panic!("{:?}", other),
    }
}

#[test]
fn unknown_suffixes_are_rejected() {
    assert_eq!(unsupported(verify_conn("notes.txt")), "txt");
    assert_eq!(unsupported(verify_conn("notes.txt.gz")), "gz");
    assert_eq!(unsupported(verify_conn("archive.gz")), "gz");
    assert_eq!(unsupported(verify_conn("a.csv.rar")), "rar");
    assert_eq!(unsupported(verify_conn("csv.gz")), "gz");
    assert!(matches!(verify_conn("no_suffix"), Err(ConnError::NoSuffix)));
    assert!(matches!(verify_conn(""), Err(ConnError::NoSuffix)));
}

#[test]
fn rejection_messages() {
    let e = verify_conn("notes.txt").unwrap_err();
    assert_eq!(e.message("notes.txt"), "Invalid file extension: txt");
    let e = verify_conn("plain").unwrap_err();
    assert_eq!(e.message("plain"), "Invalid Connection string: plain");
}
