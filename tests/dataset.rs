use porcino::dataset::{
    column_layout, label_codes, reading_of, select_columns, split_record, transpose_vec,
    ClassType, ColumnReading, ColumnType, DataSettings, Metadata, ParameterType,
};

#[test]
fn layout_numbers_kept_columns() {
    let settings = DataSettings {
        columns: vec![
            ColumnType::Parameter(ParameterType::Numeric),
            ColumnType::Ignored,
            ColumnType::Class(ClassType::Label),
            ColumnType::Parameter(ParameterType::Boolean),
            ColumnType::Ignored,
            ColumnType::Parameter(ParameterType::Label),
        ],
    };
    let meta = column_layout(&settings);
    assert_eq!(meta.params, vec![0, 2, 3]);
    assert_eq!(meta.classes, vec![1]);
}

#[test]
fn layout_of_no_columns_is_empty() {
    let meta = column_layout(&DataSettings::default());
    assert!(meta.params.is_empty());
    assert!(meta.classes.is_empty());
}

#[test]
fn default_metadata_is_empty() {
    let meta = Metadata::default();
    assert!(meta.params.is_empty());
    assert!(meta.classes.is_empty());
}

#[test]
fn labels_numbered_by_first_appearance() {
    let column: Vec<String> = ["b", "a", "b", "c", "a"].iter().map(|s| s.to_string()).collect();
    assert_eq!(label_codes(&column), vec![0, 1, 0, 2, 1]);
}

#[test]
fn labels_of_empty_column() {
    assert!(label_codes(&Vec::new()).is_empty());
}

#[test]
fn labels_all_equal() {
    let column = vec!["x".to_string(); 4];
    assert_eq!(label_codes(&column), vec![0, 0, 0, 0]);
}

#[test]
fn transpose_swaps_rows_and_columns() {
    let v = vec![vec![1, 2, 3], vec![4, 5, 6]];
    assert_eq!(transpose_vec(v, 3), vec![vec![1, 4], vec![2, 5], vec![3, 6]]);
}

#[test]
fn transpose_drops_entries_past_inner_len() {
    let v = vec![vec!["a", "b", "c"], vec!["d", "e"]];
    assert_eq!(transpose_vec(v, 2), vec![vec!["a", "d"], vec!["b", "e"]]);
}

#[test]
fn transpose_twice_restores() {
    let v = vec![vec![1.5, 2.5], vec![3.5, 4.5], vec![5.5, 6.5]];
    let t = transpose_vec(v.clone(), 2);
    assert_eq!(transpose_vec(t, 3), v);
}

#[test]
fn transpose_of_no_rows() {
    let v: Vec<Vec<u32>> = Vec::new();
    assert_eq!(transpose_vec(v, 2), vec![Vec::<u32>::new(), Vec::new()]);
}

#[test]
fn select_keeps_record_order() {
    let row = vec![10, 11, 12, 13, 14];
    assert_eq!(select_columns(&row, &vec![3, 0, 3, 9]), vec![10, 13]);
}

#[test]
fn split_record_by_layout() {
    let meta = Metadata { params: vec![0, 2], classes: vec![1, 3] };
    let row = vec![0.25, 1.0, 0.75, 0.0];
    assert_eq!(split_record(&row, &meta), (vec![0.25, 0.75], vec![1.0, 0.0]));
}

#[test]
fn each_column_type_has_its_reading() {
    assert_eq!(reading_of(ColumnType::Ignored), None);
    assert_eq!(
        reading_of(ColumnType::Parameter(ParameterType::Numeric)),
        Some(ColumnReading::Normalized)
    );
    assert_eq!(
        reading_of(ColumnType::Parameter(ParameterType::NumericUnnormalized)),
        Some(ColumnReading::Number)
    );
    assert_eq!(
        reading_of(ColumnType::Parameter(ParameterType::Boolean)),
        Some(ColumnReading::Number)
    );
    assert_eq!(
        reading_of(ColumnType::Parameter(ParameterType::Label)),
        Some(ColumnReading::Label)
    );
    assert_eq!(reading_of(ColumnType::Class(ClassType::Value)), Some(ColumnReading::Number));
    assert_eq!(reading_of(ColumnType::Class(ClassType::Label)), Some(ColumnReading::Label));
}
