use std::io::Cursor;
use std::sync::Arc;

use arrow::array::Array;
use arrow::array::BooleanArray;
use arrow::array::StringArray;
use arrow::datatypes::DataType;
use arrow::datatypes::Field;
use arrow::datatypes::Schema;
use arrow::ipc::reader::StreamReader;
use arrow::record_batch::RecordBatch;

use networks2arrow::batch2writer;
use networks2arrow::network_schema;
use networks2arrow::networks2batch;
use networks2arrow::networks2writer;
use networks2arrow::networks_to_writer;
use networks2arrow::Error;
use networks2arrow::Network;

const NAMES: [&str; 9] = [
    "id",
    "name",
    "created",
    "scope",
    "driver",
    "enable_ipv6",
    "internal",
    "attachable",
    "ingress",
];

fn decode(bytes: &[u8]) -> (Arc<Schema>, Vec<RecordBatch>) {
    let reader = StreamReader::try_new(Cursor::new(bytes.to_vec()), None).unwrap();
    let schema = reader.schema();
    let mut batches = Vec::new();
    for batch in reader {
        batches.push(batch.unwrap());
    }
    (schema, batches)
}

fn text(batch: &RecordBatch, column: usize, row: usize) -> Option<String> {
    let array = batch.column(column).as_any().downcast_ref::<StringArray>().unwrap();
    if array.is_null(row) {
        None
    } else {
        Some(array.value(row).to_string())
    }
}

fn flag(batch: &RecordBatch, column: usize, row: usize) -> Option<bool> {
    let array = batch.column(column).as_any().downcast_ref::<BooleanArray>().unwrap();
    if array.is_null(row) {
        None
    } else {
        Some(array.value(row))
    }
}

fn rows(batch: &RecordBatch) -> Vec<Network> {
    let mut out = Vec::new();
    for row in 0..batch.num_rows() {
        out.push(Network {
            id: text(batch, 0, row),
            name: text(batch, 1, row),
            created: text(batch, 2, row),
            scope: text(batch, 3, row),
            driver: text(batch, 4, row),
            enable_ipv6: flag(batch, 5, row),
            internal: flag(batch, 6, row),
            attachable: flag(batch, 7, row),
            ingress: flag(batch, 8, row),
        });
    }
    out
}

fn sample() -> Vec<Network> {
    vec![
        Network {
            id: Some("4f2a".to_string()),
            name: Some("bridge".to_string()),
            created: Some("2024-03-01T10:00:00.000000000Z".to_string()),
            scope: Some("local".to_string()),
            driver: Some("bridge".to_string()),
            enable_ipv6: Some(false),
            internal: Some(false),
            attachable: Some(false),
            ingress: Some(false),
        },
        Network {
            id: Some("".to_string()),
            name: None,
            created: None,
            scope: Some("swarm".to_string()),
            driver: Some("overlay".to_string()),
            enable_ipv6: None,
            internal: Some(true),
            attachable: Some(true),
            ingress: None,
        },
        Network {
            id: Some("r\u{e9}seau-\u{7f51}\u{7edc}-\u{1f310}".to_string()),
            name: Some("h\u{f4}te".to_string()),
            created: Some("not a date".to_string()),
            scope: None,
            driver: None,
            enable_ipv6: Some(true),
            internal: None,
            attachable: None,
            ingress: Some(true),
        },
    ]
}

fn encode(networks: Vec<Network>) -> Vec<u8> {
    let mut sink = Vec::new();
    networks2writer(Ok(networks), &mut sink).unwrap();
    sink
}

#[test]
fn empty_input_gives_zero_rows_and_nine_columns() {
    let bytes = encode(Vec::new());
    let (schema, batches) = decode(&bytes);
    assert_eq!(schema.fields().len(), 9);
    assert_eq!(batches.len(), 1);
    assert_eq!(batches[0].num_rows(), 0);
    assert_eq!(batches[0].num_columns(), 9);
    for column in 0..9 {
        assert_eq!(batches[0].column(column).len(), 0);
    }
}

#[test]
fn one_record_with_three_fields_present() {
    let network = Network {
        id: Some("net1".to_string()),
        name: Some("bridge".to_string()),
        enable_ipv6: Some(true),
        ..Network::default()
    };
    let bytes = encode(vec![network]);
    let (_, batches) = decode(&bytes);
    assert_eq!(batches.len(), 1);
    let batch = &batches[0];
    assert_eq!(batch.num_rows(), 1);
    assert_eq!(text(batch, 0, 0), Some("net1".to_string()));
    assert_eq!(text(batch, 1, 0), Some("bridge".to_string()));
    assert_eq!(text(batch, 2, 0), None);
    assert_eq!(text(batch, 3, 0), None);
    assert_eq!(text(batch, 4, 0), None);
    assert_eq!(flag(batch, 5, 0), Some(true));
    assert_eq!(flag(batch, 6, 0), None);
    assert_eq!(flag(batch, 7, 0), None);
    assert_eq!(flag(batch, 8, 0), None);
}

#[test]
fn absent_flag_is_null_not_false() {
    let first = Network {
        id: Some("a".to_string()),
        name: Some("n".to_string()),
        internal: Some(true),
        ..Network::default()
    };
    let second = Network { internal: None, ..first.clone() };
    let bytes = encode(vec![first, second]);
    let (_, batches) = decode(&bytes);
    let batch = &batches[0];
    assert_eq!(batch.num_rows(), 2);
    assert_eq!(flag(batch, 6, 0), Some(true));
    assert_eq!(flag(batch, 6, 1), None);
    assert_ne!(flag(batch, 6, 1), Some(false));
    assert_eq!(text(batch, 0, 1), Some("a".to_string()));
    assert_eq!(text(batch, 1, 1), Some("n".to_string()));
}

#[test]
fn present_false_and_empty_string_stay_present() {
    let network = Network {
        id: Some(String::new()),
        ingress: Some(false),
        ..Network::default()
    };
    let bytes = encode(vec![network.clone()]);
    let (_, batches) = decode(&bytes);
    assert_eq!(text(&batches[0], 0, 0), Some(String::new()));
    assert_eq!(flag(&batches[0], 8, 0), Some(false));
    assert_eq!(rows(&batches[0]), vec![network]);
}

#[test]
fn every_column_has_one_cell_per_record() {
    for count in [0usize, 1, 2, 3, 17] {
        let mut networks = Vec::new();
        for k in 0..count {
            networks.push(sample()[k % 3].clone());
        }
        let bytes = encode(networks);
        let (_, batches) = decode(&bytes);
        assert_eq!(batches.len(), 1);
        assert_eq!(batches[0].num_columns(), 9);
        for column in 0..9 {
            assert_eq!(batches[0].column(column).len(), count);
        }
    }
}

#[test]
fn batch_has_nine_columns_and_one_row_per_record() {
    for count in [0usize, 1, 3, 25] {
        let mut networks = Vec::new();
        for k in 0..count {
            networks.push(sample()[k % 3].clone());
        }
        let batch = networks2batch(networks, network_schema()).unwrap();
        assert_eq!(batch.num_columns(), 9);
        assert_eq!(batch.num_rows(), count);
    }
}

#[test]
fn decoding_gives_the_records_back() {
    let networks = sample();
    let bytes = encode(networks.clone());
    let (_, batches) = decode(&bytes);
    assert_eq!(batches.len(), 1);
    assert_eq!(rows(&batches[0]), networks);
}

#[test]
fn record_order_is_kept() {
    let mut networks = Vec::new();
    for k in 0..40 {
        networks.push(Network { id: Some(format!("net-{}", k)), ..Network::default() });
    }
    let bytes = encode(networks.clone());
    let (_, batches) = decode(&bytes);
    assert_eq!(text(&batches[0], 0, 0), Some("net-0".to_string()));
    assert_eq!(text(&batches[0], 0, 39), Some("net-39".to_string()));
    assert_eq!(rows(&batches[0]), networks);
}

#[test]
fn converting_twice_gives_the_same_stream() {
    let first = encode(sample());
    let second = encode(sample());
    assert_eq!(first, second);
    let (_, one) = decode(&first);
    let (_, other) = decode(&second);
    assert_eq!(one, other);
}

#[test]
fn decoded_columns_come_in_the_fixed_order() {
    for networks in [Vec::new(), sample()] {
        let bytes = encode(networks);
        let (schema, batches) = decode(&bytes);
        assert_eq!(schema.fields().len(), 9);
        for (i, name) in NAMES.iter().enumerate() {
            assert_eq!(schema.field(i).name(), name);
            assert!(schema.field(i).is_nullable());
            let expected = if i < 5 { DataType::Utf8 } else { DataType::Boolean };
            assert_eq!(schema.field(i).data_type(), &expected);
            assert_eq!(batches[0].column(i).data_type(), &expected);
        }
        assert_eq!(batches[0].schema(), schema);
    }
}

#[test]
fn schema_has_nine_nullable_columns() {
    let schema = network_schema();
    assert_eq!(schema.fields().len(), 9);
    for (i, name) in NAMES.iter().enumerate() {
        assert_eq!(schema.field(i).name(), name);
        assert!(schema.field(i).is_nullable());
    }
    for i in 0..5 {
        assert_eq!(schema.field(i).data_type(), &DataType::Utf8);
    }
    for i in 5..9 {
        assert_eq!(schema.field(i).data_type(), &DataType::Boolean);
    }
    assert!(schema.metadata().is_empty());
    assert_eq!(*network_schema(), *schema);
}

#[test]
fn transport_failure_is_handed_on_and_sink_stays_empty() {
    let mut sink = Vec::new();
    let done = networks2writer(Err("connection refused".to_string()), &mut sink);
    assert_eq!(done, Err(Error::Transport("connection refused".to_string())));
    assert!(sink.is_empty());
}

#[test]
fn transport_failure_leaves_earlier_bytes_alone() {
    let mut sink = vec![1u8, 2, 3];
    let done = networks2writer(Err("timeout".to_string()), &mut sink);
    assert!(matches!(done, Err(Error::Transport(_))));
    assert_eq!(sink, vec![1u8, 2, 3]);
}

#[test]
fn stream_is_appended_behind_what_the_sink_holds() {
    let alone = encode(sample());
    let mut sink = vec![9u8, 8, 7];
    networks2writer(Ok(sample()), &mut sink).unwrap();
    assert_eq!(&sink[..3], &[9u8, 8, 7]);
    assert_eq!(&sink[3..], &alone[..]);
}

#[test]
fn stream_ends_with_the_end_marker() {
    let bytes = encode(sample());
    assert!(bytes.len() > 8);
    assert_eq!(&bytes[bytes.len() - 8..], &[255u8, 255, 255, 255, 0, 0, 0, 0]);
    let bytes = encode(Vec::new());
    assert_eq!(&bytes[bytes.len() - 8..], &[255u8, 255, 255, 255, 0, 0, 0, 0]);
}

#[test]
fn networks_to_writer_matches_batch_then_write() {
    let mut direct = Vec::new();
    networks_to_writer(sample(), &mut direct, network_schema()).unwrap();
    let schema = network_schema();
    let batch = networks2batch(sample(), schema.clone()).unwrap();
    let mut stepwise = Vec::new();
    batch2writer(&batch, &mut stepwise, &schema).unwrap();
    assert_eq!(direct, stepwise);
    assert_eq!(direct, encode(sample()));
}

#[test]
fn other_names_are_accepted_and_written() {
    let mut fields = Vec::new();
    for i in 0..9 {
        let kind = if i < 5 { DataType::Utf8 } else { DataType::Boolean };
        fields.push(Field::new(format!("c{}", i), kind, true));
    }
    let schema = Arc::new(Schema::new(fields));
    let mut sink = Vec::new();
    networks_to_writer(sample(), &mut sink, schema).unwrap();
    let (decoded, batches) = decode(&sink);
    assert_eq!(decoded.field(0).name(), "c0");
    assert_eq!(decoded.field(8).name(), "c8");
    assert_eq!(rows(&batches[0]), sample());
}

#[test]
fn schema_with_eight_fields_is_refused() {
    let mut fields = Vec::new();
    for i in 0..8 {
        let kind = if i < 5 { DataType::Utf8 } else { DataType::Boolean };
        fields.push(Field::new(NAMES[i], kind, true));
    }
    let schema = Arc::new(Schema::new(fields));
    let converted = networks2batch(sample(), schema.clone());
    assert!(matches!(converted, Err(Error::Io(_))));
    let mut sink = vec![5u8];
    let done = networks_to_writer(sample(), &mut sink, schema);
    assert!(matches!(done, Err(Error::Io(_))));
    assert_eq!(sink, vec![5u8]);
}

#[test]
fn schema_with_ten_fields_is_refused() {
    let mut fields = Vec::new();
    for i in 0..9 {
        let kind = if i < 5 { DataType::Utf8 } else { DataType::Boolean };
        fields.push(Field::new(NAMES[i], kind, true));
    }
    fields.push(Field::new("extra", DataType::Boolean, true));
    let converted = networks2batch(Vec::new(), Arc::new(Schema::new(fields)));
    assert!(matches!(converted, Err(Error::Io(_))));
}

#[test]
fn schema_with_another_type_is_refused() {
    for wrong in 0..9 {
        let mut fields = Vec::new();
        for i in 0..9 {
            let kind = if i < 5 { DataType::Utf8 } else { DataType::Boolean };
            let kind = if i != wrong {
                kind
            } else if i < 5 {
                DataType::LargeUtf8
            } else {
                DataType::Utf8
            };
            fields.push(Field::new(NAMES[i], kind, true));
        }
        let converted = networks2batch(sample(), Arc::new(Schema::new(fields)));
        match converted {
            Err(Error::Io(text)) => assert!(text.contains("column types must match schema types")),
            _ => panic!("a schema of another type was accepted"),
        }
    }
}

#[test]
fn required_field_refuses_a_null_and_takes_full_columns() {
    let mut fields = Vec::new();
    for i in 0..9 {
        let kind = if i < 5 { DataType::Utf8 } else { DataType::Boolean };
        fields.push(Field::new(NAMES[i], kind, i != 0));
    }
    let schema = Arc::new(Schema::new(fields));
    let full = Network { id: Some("x".to_string()), ..Network::default() };
    let hole = Network { name: Some("y".to_string()), ..Network::default() };
    assert!(networks2batch(vec![full.clone()], schema.clone()).is_ok());
    assert!(networks2batch(Vec::new(), schema.clone()).is_ok());
    let converted = networks2batch(vec![full, hole], schema);
    match converted {
        Err(Error::Io(text)) => assert!(text.contains("non-nullable")),
        _ => panic!("a null was accepted in a required column"),
    }
}

#[test]
fn unsupported_schema_fails_and_leaves_the_sink() {
    let inner = DataType::Dictionary(Box::new(DataType::Int32), Box::new(DataType::Utf8));
    let outer = DataType::Dictionary(Box::new(DataType::Int32), Box::new(inner));
    let bad = Schema::new(vec![Field::new("d", outer, true)]);
    let batch = networks2batch(sample(), network_schema()).unwrap();
    let mut sink = vec![4u8, 2];
    let done = batch2writer(&batch, &mut sink, &bad);
    assert!(matches!(done, Err(Error::Io(_))));
    assert_eq!(sink, vec![4u8, 2]);
}
