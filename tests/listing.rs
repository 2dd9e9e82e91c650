use arrow_array::cast::AsArray;
use arrow_array::types::{TimestampMicrosecondType, UInt32Type, UInt64Type};
use arrow_array::{Array, RecordBatch};
use arrow_ipc::reader::StreamReader;
use arrow_schema::{DataType, TimeUnit};
use dirents2arrow::batch::{dirents2batch_full, strings_fit_in_batch, DirentBatch};
use dirents2arrow::entry::{filetype_tag, timestamp_micros, DirentInfo, EpochOffset, FileKind};
use dirents2arrow::schema::{dirent_fields, dirent_schema_full, LogicalType};
use dirents2arrow::stream::{IpcStreamWriter, StreamError};

const FILE: FileKind = FileKind { is_dir: false, is_file: true, is_symlink: false };
const DIR: FileKind = FileKind { is_dir: true, is_file: false, is_symlink: false };
const LINK: FileKind = FileKind { is_dir: false, is_file: false, is_symlink: true };
const OTHER: FileKind = FileKind { is_dir: false, is_file: false, is_symlink: false };

fn at(secs: u64, nanos: u32) -> Option<EpochOffset> {
    Some(EpochOffset { secs, nanos })
}

fn entry(name: &str, kind: FileKind, len: u64, mode: u32) -> DirentInfo {
    DirentInfo {
        basename: name.to_string(),
        path: format!("/d/{}", name),
        kind,
        len,
        readonly: mode & 0o222 == 0,
        permissions: mode,
        created: at(100, 1_000),
        accessed: at(200, 2_999),
        modified: at(300, 999_999_999),
    }
}

fn build(entries: Vec<DirentInfo>) -> RecordBatch {
    let input: Vec<Result<DirentInfo, String>> = entries.into_iter().map(Ok).collect();
    match dirents2batch_full(input) {
        Ok(b) => b.record,
        Err(e) => panic!("build failed: {}", e),
    }
}

fn strings(b: &RecordBatch, k: usize) -> Vec<String> {
    let a = b.column(k).as_string::<i32>();
    (0..a.len()).map(|i| a.value(i).to_string()).collect()
}

fn micros(b: &RecordBatch, k: usize) -> Vec<Option<i64>> {
    b.column(k).as_primitive::<TimestampMicrosecondType>().iter().collect()
}

fn stream_of(batch: &DirentBatch) -> Vec<u8> {
    let mut buf: Vec<u8> = Vec::new();
    {
        let mut w = IpcStreamWriter::try_new(&mut buf, dirent_schema_full()).unwrap();
        w.write(batch).unwrap();
        w.finish().unwrap();
    }
    buf
}

fn read_back(bytes: &[u8]) -> (arrow_schema::SchemaRef, Vec<RecordBatch>) {
    let reader = StreamReader::try_new(bytes, None).unwrap();
    let schema = reader.schema();
    let batches: Vec<RecordBatch> = reader.map(|b| b.unwrap()).collect();
    (schema, batches)
}

#[test]
fn micros_truncates_below_a_microsecond() {
    assert_eq!(timestamp_micros(at(1, 1_500)), Some(1_000_001));
    assert_eq!(timestamp_micros(at(0, 999)), Some(0));
    assert_eq!(timestamp_micros(at(1_700_000_000, 123_456_789)), Some(1_700_000_000_123_456));
}

#[test]
fn micros_null_when_absent_or_too_large() {
    assert_eq!(timestamp_micros(None), None);
    assert_eq!(timestamp_micros(at(u64::MAX, 0)), None);
    assert_eq!(timestamp_micros(at(9_223_372_036_854, 775_807_000)), Some(i64::MAX));
    assert_eq!(timestamp_micros(at(9_223_372_036_854, 775_808_000)), None);
}

#[test]
fn filetype_tags() {
    assert_eq!(filetype_tag(DIR), "dir");
    assert_eq!(filetype_tag(FILE), "file");
    assert_eq!(filetype_tag(LINK), "symlink");
    assert_eq!(filetype_tag(OTHER), "unknown");
    let dir_link = FileKind { is_dir: true, is_file: false, is_symlink: true };
    assert_eq!(filetype_tag(dir_link), "dir");
}

#[test]
fn schema_has_nine_fixed_fields() {
    let fields = dirent_fields();
    let names: Vec<&str> = fields.iter().map(|f| f.name.as_str()).collect();
    assert_eq!(
        names,
        vec!["basename", "filetype", "path", "len", "readonly", "permissions", "created", "accessed", "modified"]
    );
    assert_eq!(fields[3].ty, LogicalType::UInt64);
    assert_eq!(fields[5].ty, LogicalType::UInt32);
    let s = dirent_schema_full();
    assert_eq!(s.fields().len(), 9);
    assert_eq!(s.field(0).data_type(), &DataType::Utf8);
    assert_eq!(s.field(4).data_type(), &DataType::Boolean);
    assert_eq!(s.field(8).data_type(), &DataType::Timestamp(TimeUnit::Microsecond, None));
    for i in 0..6 {
        assert!(!s.field(i).is_nullable());
    }
    for i in 6..9 {
        assert!(s.field(i).is_nullable());
    }
}

#[test]
fn scenario_a_empty_directory() {
    let input: Vec<Result<DirentInfo, String>> = Vec::new();
    let batch = match dirents2batch_full(input) {
        Ok(b) => b,
        Err(e) => panic!("{}", e),
    };
    assert_eq!(batch.record.num_rows(), 0);
    assert_eq!(batch.record.num_columns(), 9);
    for c in batch.record.columns() {
        assert_eq!(c.len(), 0);
    }
    let (schema, batches) = read_back(&stream_of(&batch));
    assert_eq!(schema.fields().len(), 9);
    assert!(batches.len() <= 1);
    for b in batches {
        assert_eq!(b.num_rows(), 0);
    }
}

#[test]
fn scenario_b_three_read_only_files() {
    let b = build(vec![
        entry("a.txt", FILE, 10, 0o100444),
        entry("b.txt", FILE, 20, 0o100400),
        entry("c.txt", FILE, 30, 0o100555),
    ]);
    assert_eq!(b.num_rows(), 3);
    assert_eq!(strings(&b, 0), vec!["a.txt", "b.txt", "c.txt"]);
    assert_eq!(strings(&b, 1), vec!["file", "file", "file"]);
    assert_eq!(strings(&b, 2), vec!["/d/a.txt", "/d/b.txt", "/d/c.txt"]);
    let lens: Vec<u64> = b.column(3).as_primitive::<UInt64Type>().values().to_vec();
    assert_eq!(lens, vec![10, 20, 30]);
    let ro: Vec<Option<bool>> = b.column(4).as_boolean().iter().collect();
    assert_eq!(ro, vec![Some(true), Some(true), Some(true)]);
    let perms: Vec<u32> = b.column(5).as_primitive::<UInt32Type>().values().to_vec();
    assert_eq!(perms, vec![0o100444, 0o100400, 0o100555]);
    assert_eq!(micros(&b, 6), vec![Some(100_000_001); 3]);
    assert_eq!(micros(&b, 7), vec![Some(200_000_002); 3]);
    assert_eq!(micros(&b, 8), vec![Some(300_999_999); 3]);
    for c in b.columns() {
        assert_eq!(c.null_count(), 0);
    }
}

#[test]
fn scenario_c_symlink() {
    let b = build(vec![entry("dir", DIR, 4096, 0o40755), entry("link", LINK, 3, 0o120777), entry("fifo", OTHER, 0, 0o10644)]);
    assert_eq!(strings(&b, 1), vec!["dir", "symlink", "unknown"]);
    let ro: Vec<Option<bool>> = b.column(4).as_boolean().iter().collect();
    assert_eq!(ro, vec![Some(false), Some(false), Some(false)]);
}

#[test]
fn scenario_d_vanished_entry_fails_the_build() {
    let input: Vec<Result<DirentInfo, String>> = vec![
        Ok(entry("a", FILE, 1, 0o100644)),
        Ok(entry("b", FILE, 2, 0o100644)),
        Err("b vanished".to_string()),
        Ok(entry("c", FILE, 3, 0o100644)),
        Err("later".to_string()),
    ];
    match dirents2batch_full(input) {
        Ok(_) => panic!("a batch was built"),
        Err(e) => assert_eq!(e, "b vanished"),
    }
    let first: Vec<Result<DirentInfo, String>> = vec![Err("listing failed".to_string())];
    assert!(matches!(dirents2batch_full(first), Err(e) if e == "listing failed"));
}

#[test]
fn missing_timestamps_are_null_only_there() {
    let mut e = entry("x", FILE, 5, 0o100644);
    e.created = None;
    e.modified = at(u64::MAX, 0);
    let b = build(vec![e, entry("y", FILE, 6, 0o100644)]);
    assert_eq!(micros(&b, 6), vec![None, Some(100_000_001)]);
    assert_eq!(micros(&b, 7), vec![Some(200_000_002), Some(200_000_002)]);
    assert_eq!(micros(&b, 8), vec![None, Some(300_999_999)]);
    for k in 0..6 {
        assert_eq!(b.column(k).null_count(), 0);
    }
    for c in b.columns() {
        assert_eq!(c.len(), 2);
    }
}

#[test]
fn rows_keep_input_order() {
    let names = ["z", "a", "m", "b"];
    let b = build(names.iter().map(|n| entry(n, FILE, 1, 0o100644)).collect());
    assert_eq!(strings(&b, 0), vec!["z", "a", "m", "b"]);
}

#[test]
fn non_ascii_names_are_kept() {
    let b = build(vec![entry("é€😀", FILE, 1, 0o100644)]);
    assert_eq!(strings(&b, 0), vec!["é€😀"]);
}

#[test]
fn stream_round_trip() {
    let mut e = entry("x", LINK, 7, 0o120777);
    e.accessed = None;
    let input: Vec<Result<DirentInfo, String>> = vec![Ok(entry("w", DIR, 9, 0o40500)), Ok(e)];
    let batch = match dirents2batch_full(input) {
        Ok(b) => b,
        Err(e) => panic!("{}", e),
    };
    let (schema, batches) = read_back(&stream_of(&batch));
    assert_eq!(schema.as_ref(), &dirent_schema_full());
    assert_eq!(batches.len(), 1);
    assert_eq!(batches[0], batch.record);
    assert_eq!(micros(&batches[0], 7), vec![Some(200_000_002), None]);
}

#[test]
fn writer_refuses_work_after_finish() {
    let batch = build(vec![entry("a", FILE, 1, 0o100644)]);
    let batch = DirentBatch { record: batch };
    let mut buf: Vec<u8> = Vec::new();
    let mut w = IpcStreamWriter::try_new(&mut buf, dirent_schema_full()).unwrap();
    w.write(&batch).unwrap();
    w.flush().unwrap();
    w.finish().unwrap();
    assert!(matches!(w.write(&batch), Err(StreamError::Finished)));
    assert!(matches!(w.flush(), Err(StreamError::Finished)));
    assert!(matches!(w.finish(), Err(StreamError::Finished)));
}

#[test]
fn writer_refuses_a_batch_of_another_schema() {
    let other = arrow_schema::Schema::new(vec![arrow_schema::Field::new("n", DataType::UInt64, false)]);
    let col: arrow_array::ArrayRef = std::sync::Arc::new(arrow_array::UInt64Array::from(vec![1u64]));
    let record = RecordBatch::try_new(std::sync::Arc::new(other), vec![col]).unwrap();
    let mut buf: Vec<u8> = Vec::new();
    {
        let mut w = IpcStreamWriter::try_new(&mut buf, dirent_schema_full()).unwrap();
        assert!(matches!(w.write(&DirentBatch { record }), Err(StreamError::SchemaMismatch)));
        w.write(&DirentBatch { record: build(vec![entry("a", FILE, 1, 0o100644)]) }).unwrap();
        w.finish().unwrap();
    }
    let (_, batches) = read_back(&buf);
    assert_eq!(batches.len(), 1);
    assert_eq!(strings(&batches[0], 0), vec!["a"]);
}

#[test]
fn ordinary_listings_fit_a_batch() {
    let empty: Vec<Result<DirentInfo, String>> = Vec::new();
    assert!(strings_fit_in_batch(&empty));
    let some: Vec<Result<DirentInfo, String>> =
        vec![Ok(entry("a", FILE, 1, 0o100644)), Err("gone".to_string()), Ok(entry("é", LINK, 1, 0o120777))];
    assert!(strings_fit_in_batch(&some));
}

#[test]
fn repeated_flushes_succeed_and_add_no_framing() {
    let batch = DirentBatch { record: build(vec![entry("a", FILE, 1, 0o100644)]) };
    let mut plain: Vec<u8> = Vec::new();
    {
        let mut w = IpcStreamWriter::try_new(&mut plain, dirent_schema_full()).unwrap();
        w.write(&batch).unwrap();
        w.finish().unwrap();
    }
    let mut flushed: Vec<u8> = Vec::new();
    {
        let mut w = IpcStreamWriter::try_new(&mut flushed, dirent_schema_full()).unwrap();
        w.flush().unwrap();
        w.write(&batch).unwrap();
        w.flush().unwrap();
        w.flush().unwrap();
        w.finish().unwrap();
    }
    assert_eq!(plain, flushed);
}

#[test]
fn several_batches_read_back_in_order() {
    let b1 = DirentBatch { record: build(vec![entry("one", FILE, 1, 0o100644)]) };
    let b2 = DirentBatch { record: build(vec![entry("two", DIR, 2, 0o40755), entry("three", LINK, 3, 0o120777)]) };
    let mut buf: Vec<u8> = Vec::new();
    {
        let mut w = IpcStreamWriter::try_new(&mut buf, dirent_schema_full()).unwrap();
        w.write(&b1).unwrap();
        w.write(&b2).unwrap();
        w.finish().unwrap();
    }
    let (_, batches) = read_back(&buf);
    assert_eq!(batches.len(), 2);
    assert_eq!(batches[0], b1.record);
    assert_eq!(batches[1], b2.record);
}

#[test]
fn a_listing_that_fails_first_passes_the_size_check() {
    let some: Vec<Result<DirentInfo, String>> = vec![Err("first".to_string()), Ok(entry("h", FILE, 1, 0o100644))];
    assert!(strings_fit_in_batch(&some));
    assert!(matches!(dirents2batch_full(some), Err(e) if e == "first"));
}
