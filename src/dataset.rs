//! Column handling of tabular training data: which columns feed the network
//! and which hold the expected output, how text labels become class codes,
//! and how records are turned into columns and back.
use vstd::prelude::*;

verus! {

/// A preview of a delimited text file.
#[derive(Debug)]
pub struct FileView {
    pub headers: Option<Vec<String>>,
    pub fields: Vec<Vec<String>>,
}

/// How each column of a data file is to be read.
#[derive(Debug)]
pub struct DataSettings {
    pub columns: Vec<ColumnType>,
}

impl Default for DataSettings {
    fn default() -> (r: Self)
        ensures
            r.columns@.len() == 0,
    {
        DataSettings { columns: Vec::new() }
    }
}

/// The role of a column.
#[derive(Copy, Clone, Debug, PartialEq, Eq, Structural)]
pub enum ColumnType {
    /// An input of the network.
    Parameter(ParameterType),
    /// An expected output of the network.
    Class(ClassType),
    /// Dropped.
    Ignored,
}

/// How an input column is read.
#[derive(Copy, Clone, Debug, PartialEq, Eq, Structural)]
pub enum ParameterType {
    Boolean,
    Numeric,
    NumericUnnormalized,
    Label,
}

/// How an output column is read.
#[derive(Copy, Clone, Debug, PartialEq, Eq, Structural)]
pub enum ClassType {
    Value,
    Label,
}

/// How the text of a kept column becomes numbers.
#[derive(Copy, Clone, Debug, PartialEq, Eq, Structural)]
pub enum ColumnReading {
    /// Each field is read as a number.
    Number,
    /// Each field is read as a number, then the column is scaled to [0, 1].
    Normalized,
    /// Each field is a label and becomes its label code.
    Label,
}

/// How a column is read, or `None` where it is ignored.
pub fn reading_of(column: ColumnType) -> (r: Option<ColumnReading>)
    ensures
        r == match column {
            ColumnType::Ignored => None,
            ColumnType::Parameter(ParameterType::Numeric) => Some(ColumnReading::Normalized),
            ColumnType::Parameter(ParameterType::Label) => Some(ColumnReading::Label),
            ColumnType::Class(ClassType::Label) => Some(ColumnReading::Label),
            _ => Some(ColumnReading::Number),
        },
{
    match column {
        ColumnType::Ignored => None,
        ColumnType::Parameter(ParameterType::Numeric) => Some(ColumnReading::Normalized),
        ColumnType::Parameter(ParameterType::Label) => Some(ColumnReading::Label),
        ColumnType::Class(ClassType::Label) => Some(ColumnReading::Label),
        ColumnType::Parameter(ParameterType::Boolean) => Some(ColumnReading::Number),
        ColumnType::Parameter(ParameterType::NumericUnnormalized) => Some(ColumnReading::Number),
        ColumnType::Class(ClassType::Value) => Some(ColumnReading::Number),
    }
}

/// Where, in a record of the kept columns, the inputs and the expected
/// outputs stand.
#[derive(Debug, Clone)]
pub struct Metadata {
    pub params: Vec<usize>,
    pub classes: Vec<usize>,
}

impl Default for Metadata {
    fn default() -> (r: Self)
        ensures
            r.params@.len() == 0,
            r.classes@.len() == 0,
    {
        Metadata { params: Vec::new(), classes: Vec::new() }
    }
}

/// The number of columns that are not ignored.
pub open spec fn kept_count(columns: Seq<ColumnType>) -> nat
    decreases columns.len(),
{
    if columns.len() == 0 {
        0
    } else if columns.last() is Ignored {
        kept_count(columns.drop_last())
    } else {
        kept_count(columns.drop_last()) + 1
    }
}

/// The positions, among the kept columns, of the input columns, in order.
pub open spec fn param_positions(columns: Seq<ColumnType>) -> Seq<usize>
    decreases columns.len(),
{
    if columns.len() == 0 {
        seq![]
    } else if columns.last() is Parameter {
        param_positions(columns.drop_last()).push(kept_count(columns.drop_last()) as usize)
    } else {
        param_positions(columns.drop_last())
    }
}

/// The positions, among the kept columns, of the output columns, in order.
pub open spec fn class_positions(columns: Seq<ColumnType>) -> Seq<usize>
    decreases columns.len(),
{
    if columns.len() == 0 {
        seq![]
    } else if columns.last() is Class {
        class_positions(columns.drop_last()).push(kept_count(columns.drop_last()) as usize)
    } else {
        class_positions(columns.drop_last())
    }
}

/// Numbers the columns that are not ignored from zero, in order, and lists
/// the numbers of the input columns and of the output columns.
pub fn column_layout(settings: &DataSettings) -> (r: Metadata)
    ensures
        r.params@ == param_positions(settings.columns@),
        r.classes@ == class_positions(settings.columns@),
{
    let ghost columns = settings.columns@;
    let mut meta = Metadata { params: Vec::new(), classes: Vec::new() };
    let mut new_idx: usize = 0;
    let mut i: usize = 0;
    assert(columns.take(0) =~= seq![]);
    while i < settings.columns.len()
        invariant
            columns == settings.columns@,
            i <= columns.len(),
            new_idx <= i,
            new_idx == kept_count(columns.take(i as int)),
            meta.params@ == param_positions(columns.take(i as int)),
            meta.classes@ == class_positions(columns.take(i as int)),
        decreases columns.len() - i,
    {
        assert(columns.take(i + 1).drop_last() =~= columns.take(i as int));
        match settings.columns[i] {
            ColumnType::Parameter(_) => {
                meta.params.push(new_idx);
                new_idx = new_idx + 1;
            },
            ColumnType::Class(_) => {
                meta.classes.push(new_idx);
                new_idx = new_idx + 1;
            },
            ColumnType::Ignored => {},
        }
        i = i + 1;
    }
    assert(columns.take(i as int) =~= columns);
    meta
}

/// Swaps rows and columns: the result has `inner_len` rows, and row `j`
/// holds the `j`-th entry of each input row, in order. Entries past
/// `inner_len` are dropped.
pub fn transpose_vec<T: Copy>(vec: Vec<Vec<T>>, inner_len: usize) -> (r: Vec<Vec<T>>)
    requires
        forall|i: int| 0 <= i < vec@.len() ==> #[trigger] vec@[i]@.len() >= inner_len,
    ensures
        r@.len() == inner_len,
        forall|j: int| 0 <= j < inner_len ==> #[trigger] r@[j]@.len() == vec@.len(),
        forall|j: int, i: int|
            0 <= j < inner_len && 0 <= i < vec@.len() ==> #[trigger] r@[j]@[i] == vec@[i]@[j],
{
    let mut r: Vec<Vec<T>> = Vec::new();
    let mut j: usize = 0;
    while j < inner_len
        invariant
            j <= inner_len,
            forall|i: int| 0 <= i < vec@.len() ==> #[trigger] vec@[i]@.len() >= inner_len,
            r@.len() == j,
            forall|jj: int| 0 <= jj < j ==> #[trigger] r@[jj]@.len() == vec@.len(),
            forall|jj: int, i: int|
                0 <= jj < j && 0 <= i < vec@.len() ==> #[trigger] r@[jj]@[i] == vec@[i]@[jj],
        decreases inner_len - j,
    {
        let mut row: Vec<T> = Vec::new();
        let mut i: usize = 0;
        while i < vec.len()
            invariant
                j < inner_len,
                i <= vec@.len(),
                forall|k: int| 0 <= k < vec@.len() ==> #[trigger] vec@[k]@.len() >= inner_len,
                row@.len() == i,
                forall|k: int| 0 <= k < i ==> #[trigger] row@[k] == vec@[k]@[j as int],
            decreases vec@.len() - i,
        {
            let x: T = vec[i][j];
            row.push(x);
            i = i + 1;
        }
        r.push(row);
        j = j + 1;
    }
    r
}

/// The text of each entry of a column.
pub open spec fn texts(column: Seq<String>) -> Seq<Seq<char>> {
    column.map_values(|s: String| s@)
}

/// The distinct labels of a column, in the order of their first appearance.
pub open spec fn distinct_labels(labels: Seq<Seq<char>>) -> Seq<Seq<char>>
    decreases labels.len(),
{
    if labels.len() == 0 {
        seq![]
    } else if distinct_labels(labels.drop_last()).contains(labels.last()) {
        distinct_labels(labels.drop_last())
    } else {
        distinct_labels(labels.drop_last()).push(labels.last())
    }
}

/// No label appears twice among the distinct labels.
pub proof fn lemma_distinct_labels_unique(labels: Seq<Seq<char>>)
    ensures
        distinct_labels(labels).no_duplicates(),
    decreases labels.len(),
{
    if labels.len() > 0 {
        lemma_distinct_labels_unique(labels.drop_last());
    }
}

/// Gives each entry of a column the code of its label: labels are numbered
/// from zero in the order in which they first appear, so equal labels get
/// equal codes and different labels different ones.
pub fn label_codes(column: &Vec<String>) -> (r: Vec<usize>)
    ensures
        r@.len() == column@.len(),
        forall|i: int|
            0 <= i < column@.len() ==> #[trigger] r@[i] < distinct_labels(texts(column@)).len()
                && distinct_labels(texts(column@))[r@[i] as int] == column@[i]@,
{
    let ghost all = texts(column@);
    let mut seen: Vec<String> = Vec::new();
    let mut codes: Vec<usize> = Vec::new();
    let mut i: usize = 0;
    assert(all.take(0) =~= seq![]);
    while i < column.len()
        invariant
            all == texts(column@),
            i <= column@.len(),
            texts(seen@) == distinct_labels(all.take(i as int)),
            seen@.len() <= i,
            codes@.len() == i,
            forall|k: int|
                0 <= k < i ==> #[trigger] codes@[k] < seen@.len() && seen@[codes@[k] as int]@
                    == column@[k]@,
        decreases column@.len() - i,
    {
        let ghost before = all.take(i as int);
        assert(all.take(i + 1).drop_last() =~= before);
        assert(all.take(i + 1).last() == column@[i as int]@);
        let mut j: usize = 0;
        let mut found: bool = false;
        while j < seen.len() && !found
            invariant
                i < column@.len(),
                j <= seen@.len(),
                found ==> j < seen@.len() && seen@[j as int]@ == column@[i as int]@,
                !found ==> forall|k: int| 0 <= k < j ==> #[trigger] seen@[k]@ != column@[i as int]@,
            decreases seen@.len() - j + (if found { 0int } else { 1int }),
        {
            if seen[j] == column[i] {
                found = true;
            } else {
                j = j + 1;
            }
        }
        proof {
            if !found {
                assert forall|k: int| 0 <= k < seen@.len() implies texts(seen@)[k]
                    != column@[i as int]@ by {
                    assert(seen@[k]@ != column@[i as int]@);
                }
            } else {
                assert(texts(seen@)[j as int] == column@[i as int]@);
            }
        }
        if found {
            codes.push(j);
        } else {
            let label = column[i].clone();
            seen.push(label);
            codes.push(seen.len() - 1);
            assert(texts(seen@) =~= distinct_labels(before).push(column@[i as int]@));
        }
        i = i + 1;
        assert forall|k: int| 0 <= k < i implies #[trigger] codes@[k] < seen@.len() && seen@[codes@[k] as int]@
            == column@[k]@ by {}
    }
    assert(all.take(i as int) =~= all);
    assert forall|k: int| 0 <= k < column@.len() implies #[trigger] codes@[k] < distinct_labels(texts(column@)).len()
        && distinct_labels(texts(column@))[codes@[k] as int] == column@[k]@ by {
        assert(texts(seen@)[codes@[k] as int] == seen@[codes@[k] as int]@);
    }
    codes
}

/// The entries of a record whose positions are listed in `keep`, in the
/// record's own order.
pub open spec fn selected<T>(row: Seq<T>, keep: Seq<usize>) -> Seq<T>
    decreases row.len(),
{
    if row.len() == 0 {
        seq![]
    } else if keep.contains((row.len() - 1) as usize) {
        selected(row.drop_last(), keep).push(row.last())
    } else {
        selected(row.drop_last(), keep)
    }
}

/// Whether `k` is listed in `keep`.
fn is_listed(keep: &Vec<usize>, k: usize) -> (r: bool)
    ensures
        r == keep@.contains(k),
{
    let mut j: usize = 0;
    while j < keep.len()
        invariant
            j <= keep@.len(),
            forall|m: int| 0 <= m < j ==> #[trigger] keep@[m] != k,
        decreases keep@.len() - j,
    {
        if keep[j] == k {
            return true;
        }
        j = j + 1;
    }
    false
}

/// Keeps the entries of a record whose positions are listed in `keep`, in
/// the record's own order; each is kept once, however often it is listed.
pub fn select_columns<T: Copy>(row: &Vec<T>, keep: &Vec<usize>) -> (r: Vec<T>)
    ensures
        r@ == selected(row@, keep@),
{
    let mut r: Vec<T> = Vec::new();
    let mut k: usize = 0;
    assert(row@.take(0) =~= seq![]);
    while k < row.len()
        invariant
            k <= row@.len(),
            r@ == selected(row@.take(k as int), keep@),
        decreases row@.len() - k,
    {
        assert(row@.take(k + 1).drop_last() =~= row@.take(k as int));
        if is_listed(keep, k) {
            r.push(row[k]);
        }
        k = k + 1;
    }
    assert(row@.take(k as int) =~= row@);
    r
}

/// Splits a record into the network's input and its expected output, as the
/// layout lists them.
pub fn split_record<T: Copy>(row: &Vec<T>, meta: &Metadata) -> (r: (Vec<T>, Vec<T>))
    ensures
        r.0@ == selected(row@, meta.params@),
        r.1@ == selected(row@, meta.classes@),
{
    (select_columns(row, &meta.params), select_columns(row, &meta.classes))
}

} // verus!
