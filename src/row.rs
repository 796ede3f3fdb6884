//! Table descriptors from table-map events, and rows assembled against them.

use vstd::prelude::*;
use crate::decimal::{decimal, format_u64};
use crate::text::concat;
use crate::value::{decode_value, decoded, ColumnValue, Value, ValueView};

verus! {

/// What a table-map event says of a table: its schema and name, and the
/// names of its columns when the server sends column metadata.
#[derive(Clone, Debug, PartialEq)]
pub struct TableInfo {
    pub schema: String,
    pub table: String,
    /// `None` where the event carries no column metadata; an entry is `None`
    /// where that column's name is missing.
    pub column_names: Option<Vec<Option<String>>>,
}

pub struct TableInfoView {
    pub schema: Seq<char>,
    pub table: Seq<char>,
    pub column_names: Option<Seq<Option<Seq<char>>>>,
}

pub open spec fn names_view(names: Seq<Option<String>>) -> Seq<Option<Seq<char>>> {
    names.map_values(|n: Option<String>| match n {
        Some(s) => Some(s@),
        None => None,
    })
}

impl View for TableInfo {
    type V = TableInfoView;

    open spec fn view(&self) -> TableInfoView {
        TableInfoView {
            schema: self.schema@,
            table: self.table@,
            column_names: match self.column_names {
                Some(v) => Some(names_view(v@)),
                None => None,
            },
        }
    }
}

/// A named column value of an assembled row.
#[derive(Clone, Debug, PartialEq)]
pub struct Field {
    pub name: String,
    pub value: Value,
}

impl View for Field {
    type V = (Seq<char>, ValueView);

    open spec fn view(&self) -> (Seq<char>, ValueView) {
        (self.name@, self.value@)
    }
}

pub open spec fn fields_view(fields: Seq<Field>) -> Seq<(Seq<char>, ValueView)> {
    fields.map_values(|f: Field| f@)
}

/// Why a row could not be given column names.
#[derive(Clone, Copy, Debug, PartialEq, Eq, Structural)]
pub enum RowFault {
    /// The table map carries no column metadata.
    NoTableMetadata,
    /// The table map has no metadata for the column at this index.
    NoColumnMetadata(usize),
    /// The column at this index has no name.
    NoColumnName(usize),
}

/// A row that could not be assembled, with the table it belongs to.
#[derive(Clone, Debug, PartialEq)]
pub struct RowError {
    pub fault: RowFault,
    pub schema: String,
    pub table: String,
}

/// Whether the column at index `i` has a name in `names`.
pub open spec fn named_at(names: Seq<Option<Seq<char>>>, i: int) -> bool {
    i < names.len() && names[i] is Some
}

/// The fault for a row of `n` values against `names`, if any: the first
/// column without a name.
pub open spec fn row_fault(names: Option<Seq<Option<Seq<char>>>>, n: int) -> Option<RowFault> {
    if n <= 0 {
        None
    } else {
        match names {
            None => Some(RowFault::NoTableMetadata),
            Some(ns) => if exists|i: int| 0 <= i < n && !named_at(ns, i) {
                let i = choose|i: int|
                    0 <= i < n && !named_at(ns, i) && forall|j: int| 0 <= j < i ==> named_at(ns, j);
                if i < ns.len() {
                    Some(RowFault::NoColumnName(i as usize))
                } else {
                    Some(RowFault::NoColumnMetadata(i as usize))
                }
            } else {
                None
            },
        }
    }
}

/// The row that `values` make against `t`: each value under the name of the
/// column at its index.
pub open spec fn assembled(t: TableInfoView, values: Seq<ColumnValue>) -> Result<
    Seq<(Seq<char>, ValueView)>,
    RowFault,
> {
    match row_fault(t.column_names, values.len() as int) {
        Some(f) => Err(f),
        None => Ok(
            Seq::new(
                values.len(),
                |i: int| (t.column_names->Some_0[i]->Some_0, decoded(values[i])),
            ),
        ),
    }
}

/// The items of `v` in reverse order.
pub fn reversed<T>(v: Vec<T>) -> (r: Vec<T>)
    ensures
        r@.len() == v@.len(),
        forall|j: int| 0 <= j < v@.len() ==> r@[j] == v@[v@.len() - 1 - j],
{
    let ghost all = v@;
    let mut rest = v;
    let mut out: Vec<T> = Vec::new();
    while rest.len() > 0
        invariant
            rest@.len() + out@.len() == all.len(),
            forall|j: int| 0 <= j < rest@.len() ==> rest@[j] == all[j],
            forall|j: int| 0 <= j < out@.len() ==> out@[j] == all[all.len() - 1 - j],
        decreases rest@.len(),
    {
        let x = rest.pop().unwrap();
        out.push(x);
    }
    out
}

/// The description of a row of `schema.table` that could not be assembled.
pub open spec fn row_error_message(fault: RowFault, schema: Seq<char>, table: Seq<char>) -> Seq<
    char,
> {
    let qualified = schema + "."@ + table;
    match fault {
        RowFault::NoTableMetadata => "Table metadata not available for table "@ + qualified
            + " - ensure binlog_row_metadata=FULL"@,
        RowFault::NoColumnMetadata(i) => "Column metadata not available for column index "@
            + decimal(i as nat) + " in table "@ + qualified,
        RowFault::NoColumnName(i) => "Column name not available for column index "@ + decimal(
            i as nat,
        ) + " in table "@ + qualified,
    }
}

/// Gives each value of a row the name of its column.
pub fn assemble_row(t: &TableInfo, values: Vec<ColumnValue>) -> (r: Result<Vec<Field>, RowError>)
    ensures
        match r {
            Ok(fields) => assembled(t@, values@) == Ok::<_, RowFault>(fields_view(fields@)),
            Err(e) => assembled(t@, values@) == Err::<Seq<(Seq<char>, ValueView)>, _>(e.fault)
                && e.schema@ == t.schema@ && e.table@ == t.table@,
        },
{
    let n = values.len();
    if n == 0 {
        proof {
            assert(fields_view(Seq::<Field>::empty()) =~= Seq::new(
                0,
                |i: int| (t@.column_names->Some_0[i]->Some_0, decoded(values@[i])),
            ));
        }
        return Ok(Vec::new());
    }
    let names = match &t.column_names {
        None => {
            return Err(
                RowError {
                    fault: RowFault::NoTableMetadata,
                    schema: t.schema.clone(),
                    table: t.table.clone(),
                },
            );
        },
        Some(names) => names,
    };
    let ghost ns = names_view(names@);
    let mut i: usize = 0;
    while i < n
        invariant
            n == values@.len(),
            t@.column_names == Some(ns),
            ns == names_view(names@),
            i <= n,
            forall|j: int| 0 <= j < i ==> named_at(ns, j),
        decreases n - i,
    {
        if i >= names.len() || names[i].is_none() {
            proof {
                assert(!named_at(ns, i as int));
                let k = choose|k: int|
                    0 <= k < n && !named_at(ns, k) && forall|j: int| 0 <= j < k ==> named_at(ns, j);
                assert(k == i) by {
                    if k < i {
                    } else if k > i {
                        assert(named_at(ns, i as int));
                    }
                };
            }
            let fault = if i < names.len() {
                RowFault::NoColumnName(i)
            } else {
                RowFault::NoColumnMetadata(i)
            };
            return Err(RowError { fault, schema: t.schema.clone(), table: t.table.clone() });
        }
        i = i + 1;
    }
    proof {
        assert(!exists|k: int| 0 <= k < n && !named_at(ns, k));
        assert(named_at(ns, n - 1));
        assert(ns.len() == names@.len());
    }
    let ghost all = values@;
    let mut rev = reversed(values);
    let mut fields: Vec<Field> = Vec::new();
    let mut k: usize = 0;
    while k < n
        invariant
            all.len() == n,
            n <= names@.len(),
            rev@.len() == n - k,
            k <= n,
            t@.column_names == Some(ns),
            ns == names_view(names@),
            forall|j: int| 0 <= j < n ==> named_at(ns, j),
            forall|j: int| 0 <= j < rev@.len() ==> rev@[j] == all[n - 1 - j],
            fields@.len() == k,
            forall|j: int|
                0 <= j < k ==> #[trigger] fields@[j]@ == (ns[j]->Some_0, decoded(all[j])),
        decreases n - k,
    {
        proof {
            assert(named_at(ns, k as int));
            assert(named_at(ns, n - 1));
        }
        let v = rev.pop().unwrap();
        let name = match &names[k] {
            Some(s) => s.clone(),
            None => String::new(),
        };
        let value = decode_value(v);
        fields.push(Field { name, value });
        k = k + 1;
    }
    proof {
        assert(fields_view(fields@) =~= Seq::new(
            n as nat,
            |i: int| (t@.column_names->Some_0[i]->Some_0, decoded(all[i])),
        ));
    }
    Ok(fields)
}

impl RowError {
    pub open spec fn message_spec(&self) -> Seq<char> {
        row_error_message(self.fault, self.schema@, self.table@)
    }

    /// The error's description, naming the table and the column.
    pub fn message(&self) -> (r: String)
        ensures
            r@ == self.message_spec(),
    {
        let mut qualified = concat(self.schema.as_str(), ".");
        qualified.append(self.table.as_str());
        match self.fault {
            RowFault::NoTableMetadata => {
                let mut r = concat("Table metadata not available for table ", qualified.as_str());
                r.append(" - ensure binlog_row_metadata=FULL");
                r
            },
            RowFault::NoColumnMetadata(i) => {
                let index = format_u64(i as u64);
                let mut r = concat("Column metadata not available for column index ", index.as_str());
                r.append(" in table ");
                r.append(qualified.as_str());
                proof {
                    assert(r@ =~= self.message_spec());
                }
                r
            },
            RowFault::NoColumnName(i) => {
                let index = format_u64(i as u64);
                let mut r = concat("Column name not available for column index ", index.as_str());
                r.append(" in table ");
                r.append(qualified.as_str());
                proof {
                    assert(r@ =~= self.message_spec());
                }
                r
            },
        }
    }
}

} // verus!
