use vstd::prelude::*;
use vstd::string::StringExecFns;
use crate::errors::Error;
use crate::sheet::SheetMetadata;

verus! {

/// The four mutually exclusive container formats a workbook can have,
/// fixed at open time for its whole lifetime.
#[derive(Debug, Clone, Copy, PartialEq, Eq, Structural)]
pub enum WorkbookType {
    Xls,
    Xlsx,
    Xlsb,
    Ods,
}

/// Lifecycle of a workbook: opening it makes it `Open`, `close` makes it
/// `Closed` for good.
#[derive(Debug, Clone, Copy, PartialEq, Eq, Structural)]
pub enum WorkbookState {
    Open,
    Closed,
}

/// Whether a format has a notion of tables: only the zipped XML format
/// does.
pub open spec fn spec_supports_tables(t: WorkbookType) -> bool {
    t is Xlsx
}

pub fn supports_tables(t: WorkbookType) -> (r: bool)
    ensures
        r == spec_supports_tables(t),
{
    match t {
        WorkbookType::Xlsx => true,
        _ => false,
    }
}

/// Whether a format has a notion of merged cells: only the two Excel
/// formats backed by worksheet part metadata do.
pub open spec fn spec_supports_merged_cells(t: WorkbookType) -> bool {
    t is Xls || t is Xlsx
}

pub fn supports_merged_cells(t: WorkbookType) -> (r: bool)
    ensures
        r == spec_supports_merged_cells(t),
{
    match t {
        WorkbookType::Xls => true,
        WorkbookType::Xlsx => true,
        _ => false,
    }
}

/// An independent copy of a list of names.
fn clone_string_vec(v: &Vec<String>) -> (r: Vec<String>)
    ensures
        r@ == v@,
{
    let mut out: Vec<String> = Vec::new();
    let n = v.len();
    let mut i: usize = 0;
    while i < n
        invariant
            n == v@.len(),
            i <= n,
            out@.len() == i,
            forall|k: int| 0 <= k < i ==> out@[k] == v@[k],
        decreases n - i,
    {
        out.push(v[i].clone());
        i += 1;
    }
    proof {
        assert(out@ =~= v@);
    }
    out
}

/// The state machine over one decoded workbook: the metadata captured
/// eagerly at open time, the format's capabilities, the cached table
/// names, and the one-way open → closed lifecycle.
///
/// The live container handle itself stays with the caller that decodes
/// sheets; this type decides, for every operation, whether the handle may
/// be consulted and with which capabilities, and owns every failure the
/// decision can produce.
pub struct CalamineWorkbook {
    path: Option<String>,
    workbook_type: WorkbookType,
    state: WorkbookState,
    sheet_names: Vec<String>,
    sheets_metadata: Vec<SheetMetadata>,
    table_names: Option<Vec<String>>,
}

impl CalamineWorkbook {
    /// The sheet-name list and the metadata list are parallel.
    #[verifier::type_invariant]
    spec fn inv(self) -> bool {
        self.sheet_names@.len() == self.sheets_metadata@.len()
    }

    pub closed spec fn spec_path(self) -> Option<String> {
        self.path
    }

    pub closed spec fn spec_workbook_type(self) -> WorkbookType {
        self.workbook_type
    }

    pub closed spec fn spec_is_open(self) -> bool {
        self.state is Open
    }

    pub closed spec fn spec_sheet_names(self) -> Seq<String> {
        self.sheet_names@
    }

    pub closed spec fn spec_sheets_metadata(self) -> Seq<SheetMetadata> {
        self.sheets_metadata@
    }

    pub closed spec fn spec_table_names(self) -> Option<Seq<String>> {
        match self.table_names {
            Some(v) => Some(v@),
            None => None,
        }
    }

    /// Open a workbook around freshly decoded structural metadata.
    pub fn open(
        path: Option<String>,
        workbook_type: WorkbookType,
        sheet_names: Vec<String>,
        sheets_metadata: Vec<SheetMetadata>,
    ) -> (r: Self)
        requires
            sheet_names@.len() == sheets_metadata@.len(),
        ensures
            r.spec_path() == path,
            r.spec_workbook_type() == workbook_type,
            r.spec_is_open(),
            r.spec_sheet_names() == sheet_names@,
            r.spec_sheets_metadata() == sheets_metadata@,
            r.spec_table_names() is None,
    {
        CalamineWorkbook {
            path,
            workbook_type,
            state: WorkbookState::Open,
            sheet_names,
            sheets_metadata,
            table_names: None,
        }
    }

    pub fn path(&self) -> (r: &Option<String>)
        ensures
            *r == self.spec_path(),
    {
        &self.path
    }

    pub fn workbook_type(&self) -> (r: WorkbookType)
        ensures
            r == self.spec_workbook_type(),
    {
        self.workbook_type
    }

    pub fn is_open(&self) -> (r: bool)
        ensures
            r == self.spec_is_open(),
    {
        match self.state {
            WorkbookState::Open => true,
            WorkbookState::Closed => false,
        }
    }

    pub fn sheet_names(&self) -> (r: &Vec<String>)
        ensures
            r@ == self.spec_sheet_names(),
    {
        &self.sheet_names
    }

    pub fn sheets_metadata(&self) -> (r: &Vec<SheetMetadata>)
        ensures
            r@ == self.spec_sheets_metadata(),
    {
        &self.sheets_metadata
    }

    /// Record the table names that table discovery produced.
    pub fn set_table_names(&mut self, names: Vec<String>)
        ensures
            final(self).spec_table_names() == Some(names@),
            final(self).spec_path() == old(self).spec_path(),
            final(self).spec_workbook_type() == old(self).spec_workbook_type(),
            final(self).spec_is_open() == old(self).spec_is_open(),
            final(self).spec_sheet_names() == old(self).spec_sheet_names(),
            final(self).spec_sheets_metadata() == old(self).spec_sheets_metadata(),
    {
        proof {
            use_type_invariant(&*self);
        }
        self.table_names = Some(names);
    }

    /// Release the workbook. One-way: a second `close` is a programmer
    /// error and fails with `WorkbookClosed` rather than doing nothing.
    pub fn close(&mut self) -> (r: Result<(), Error>)
        ensures
            old(self).spec_is_open() ==> r is Ok,
            !old(self).spec_is_open() ==> (r matches Err(e) && e == Error::WorkbookClosed),
            !final(self).spec_is_open(),
            final(self).spec_path() == old(self).spec_path(),
            final(self).spec_workbook_type() == old(self).spec_workbook_type(),
            final(self).spec_sheet_names() == old(self).spec_sheet_names(),
            final(self).spec_sheets_metadata() == old(self).spec_sheets_metadata(),
            final(self).spec_table_names() == old(self).spec_table_names(),
    {
        proof {
            use_type_invariant(&*self);
        }
        match self.state {
            WorkbookState::Closed => Err(Error::WorkbookClosed),
            WorkbookState::Open => {
                self.state = WorkbookState::Closed;
                Ok(())
            },
        }
    }

    /// The cached table names: fails for a format without tables, fails
    /// when tables were never loaded at open time, and otherwise returns
    /// exactly the discovered list. Needs no live handle, so a closed
    /// workbook answers too.
    pub fn table_names(&self) -> (r: Result<Vec<String>, Error>)
        ensures
            !spec_supports_tables(self.spec_workbook_type()) ==> (r matches Err(e) && e
                == Error::TablesNotSupported),
            spec_supports_tables(self.spec_workbook_type()) && self.spec_table_names() is None
                ==> (r matches Err(e) && e == Error::TablesNotLoaded),
            spec_supports_tables(self.spec_workbook_type()) ==> (self.spec_table_names()
                matches Some(names) ==> (r matches Ok(v) && v@ == names)),
    {
        if !supports_tables(self.workbook_type) {
            return Err(Error::TablesNotSupported);
        }
        match &self.table_names {
            Some(v) => Ok(clone_string_vec(v)),
            None => Err(Error::TablesNotLoaded),
        }
    }

    /// Whether table discovery may run now: it needs the live handle and a
    /// table-capable format.
    pub fn plan_load_tables(&self) -> (r: Result<(), Error>)
        ensures
            !self.spec_is_open() ==> (r matches Err(e) && e == Error::WorkbookClosed),
            self.spec_is_open() && !spec_supports_tables(self.spec_workbook_type()) ==> (r
                matches Err(e) && e == Error::TablesNotSupported),
            self.spec_is_open() && spec_supports_tables(self.spec_workbook_type()) ==> r is Ok,
    {
        if !self.is_open() {
            return Err(Error::WorkbookClosed);
        }
        if !supports_tables(self.workbook_type) {
            return Err(Error::TablesNotSupported);
        }
        Ok(())
    }

    /// The name under a sheet index: fails with `WorksheetNotFound` at or
    /// past the end of the sheet list, and otherwise returns exactly
    /// `sheet_names[index]`. Index resolution reads only the cached list,
    /// so it precedes any lifecycle check.
    pub fn sheet_name_at(&self, index: usize) -> (r: Result<String, Error>)
        ensures
            index < self.spec_sheet_names().len() ==> (r matches Ok(n) && n
                == self.spec_sheet_names()[index as int]),
            index >= self.spec_sheet_names().len() ==> (r matches Err(e) && e matches
                Error::WorksheetNotFound(m) && m@ == "worksheet index out of range"@),
    {
        if index < self.sheet_names.len() {
            Ok(self.sheet_names[index].clone())
        } else {
            Err(Error::WorksheetNotFound(String::from_str("worksheet index out of range")))
        }
    }

    /// Whether a sheet may be decoded now, and with which capabilities:
    /// fails with `WorkbookClosed` without the live handle, and otherwise
    /// tells whether merged-cell geometry should be fetched along with the
    /// cell grid (only the merge-capable formats).
    pub fn plan_get_sheet(&self) -> (r: Result<bool, Error>)
        ensures
            !self.spec_is_open() ==> (r matches Err(e) && e == Error::WorkbookClosed),
            self.spec_is_open() ==> (r matches Ok(m) && m == spec_supports_merged_cells(
                self.spec_workbook_type(),
            )),
    {
        if !self.is_open() {
            return Err(Error::WorkbookClosed);
        }
        Ok(supports_merged_cells(self.workbook_type))
    }

    /// Normalize fetched merged-cell geometry by format: the legacy Excel
    /// format hands its answer through; the zipped XML format always has
    /// an answer, an empty list where none was recorded; the other
    /// formats have no merges at all.
    pub fn normalize_merged_cells(
        &self,
        fetched: Option<Vec<((u32, u32), (u32, u32))>>,
    ) -> (r: Option<Vec<((u32, u32), (u32, u32))>>)
        ensures
            self.spec_workbook_type() is Xls ==> r == fetched,
            self.spec_workbook_type() is Xlsx && fetched is Some ==> r == fetched,
            self.spec_workbook_type() is Xlsx && fetched is None ==> (r matches Some(v)
                && v@.len() == 0),
            !spec_supports_merged_cells(self.spec_workbook_type()) ==> r is None,
    {
        match self.workbook_type {
            WorkbookType::Xls => fetched,
            WorkbookType::Xlsx => match fetched {
                Some(v) => Some(v),
                None => Some(Vec::new()),
            },
            _ => None,
        }
    }

    /// Whether the named table may be produced now: the capability and
    /// loaded-state gates run first, then the live-handle gate, then the
    /// name must be among the discovered table names.
    pub fn plan_get_table(&self, name: &str) -> (r: Result<(), Error>)
        ensures
            !spec_supports_tables(self.spec_workbook_type()) ==> (r matches Err(e) && e
                == Error::TablesNotSupported),
            spec_supports_tables(self.spec_workbook_type()) && self.spec_table_names() is None
                ==> (r matches Err(e) && e == Error::TablesNotLoaded),
            self.spec_table_names() matches Some(names)
                && spec_supports_tables(self.spec_workbook_type()) && !self.spec_is_open() ==> (r
                matches Err(e) && e == Error::WorkbookClosed),
            self.spec_table_names() matches Some(names)
                && spec_supports_tables(self.spec_workbook_type()) && self.spec_is_open() && !(
            exists|i: int| 0 <= i < names.len() && (#[trigger] names[i])@ == name@) ==> (r
                matches Err(e) && e matches Error::TableNotFound(m) && m@ == name@),
            self.spec_table_names() matches Some(names)
                && spec_supports_tables(self.spec_workbook_type()) && self.spec_is_open() && (
            exists|i: int| 0 <= i < names.len() && (#[trigger] names[i])@ == name@) ==> r is Ok,
    {
        if !supports_tables(self.workbook_type) {
            return Err(Error::TablesNotSupported);
        }
        let names = match &self.table_names {
            Some(v) => v,
            None => {
                return Err(Error::TablesNotLoaded);
            },
        };
        if !self.is_open() {
            return Err(Error::WorkbookClosed);
        }
        let key = String::from_str(name);
        let n = names.len();
        let mut i: usize = 0;
        let mut found: bool = false;
        while i < n
            invariant
                n == names@.len(),
                key@ == name@,
                i <= n,
                found == exists|k: int| 0 <= k < i && (#[trigger] names@[k])@ == name@,
            decreases n - i,
        {
            if names[i] == key {
                found = true;
            }
            i += 1;
        }
        proof {
            assert(names@ == self.spec_table_names()->Some_0);
            assert(found == (exists|k: int|
                0 <= k < names@.len() && (#[trigger] names@[k])@ == name@));
        }
        if found {
            Ok(())
        } else {
            Err(Error::TableNotFound(key))
        }
    }
}

} // verus!
