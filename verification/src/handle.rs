//! The handle of an opened plugin.

use vstd::prelude::*;
use crate::error::{ErrorView, PluginError};
use crate::table::{
    find_first, first_match, has_match, lemma_first_match, table_view, Callable, EntryView,
    PluginTypeInfo, TypeId,
};

verus! {

/// What the platform's loader reported for a library file.
#[derive(Debug)]
pub enum LoadOutcome {
    /// The file could not be loaded, for the reason given.
    Unloadable(String),
    /// The file was loaded, but the symbol of the export table is absent, or
    /// what lies at it cannot be read as a table.
    NoTable(String),
    /// The file was loaded and this is its export table, in table order.
    Table(PluginTypeInfo),
}

/// What a loader's report is to the specifications.
pub enum OutcomeView {
    Unloadable(Seq<char>),
    NoTable(Seq<char>),
    Table(Seq<EntryView>),
}

impl View for LoadOutcome {
    type V = OutcomeView;

    open spec fn view(&self) -> OutcomeView {
        match *self {
            LoadOutcome::Unloadable(reason) => OutcomeView::Unloadable(reason@),
            LoadOutcome::NoTable(reason) => OutcomeView::NoTable(reason@),
            LoadOutcome::Table(entries) => OutcomeView::Table(table_view(entries@)),
        }
    }
}

/// What opening gives for a loader's report: the table, or the error that
/// belongs to the report.
pub open spec fn spec_open(outcome: OutcomeView) -> Result<Seq<EntryView>, ErrorView> {
    match outcome {
        OutcomeView::Unloadable(reason) => Err(ErrorView::Load(reason)),
        OutcomeView::NoTable(reason) => Err(ErrorView::MissingTable(reason)),
        OutcomeView::Table(table) => Ok(table),
    }
}

/// What a lookup gives: the function of the first entry that has both the
/// name and the type identifier, or `NotFound` with the name.
pub open spec fn spec_lookup(table: Seq<EntryView>, name: Seq<char>, type_id: TypeId) -> Result<
    Callable,
    ErrorView,
> {
    match first_match(table, name, type_id) {
        Some(i) => Ok(table[i].callable),
        None => Err(ErrorView::NotFound(name)),
    }
}

/// An opened plugin: its export table, read once and never changed.
///
/// The handle holds the table and nothing of the loaded image. Whoever
/// loaded the image keeps it mapped for the rest of the process, since a
/// function handed out by `lookup_fn` may be called at any later time.
#[derive(Debug)]
pub struct CheckedDynLib {
    type_info: PluginTypeInfo,
}

impl View for CheckedDynLib {
    type V = Seq<EntryView>;

    closed spec fn view(&self) -> Seq<EntryView> {
        table_view(self.type_info@)
    }
}

impl CheckedDynLib {
    /// Makes the handle from what the loader reported.
    ///
    /// A library that could not be loaded gives `Load`, one without an
    /// export table gives `MissingTable`, and a table gives a handle over
    /// exactly that table.
    pub fn open(outcome: LoadOutcome) -> (r: Result<CheckedDynLib, PluginError>)
        ensures
            match r {
                Ok(lib) => spec_open(outcome@) == Ok::<Seq<EntryView>, ErrorView>(lib@),
                Err(e) => spec_open(outcome@) == Err::<Seq<EntryView>, ErrorView>(e@),
            },
    {
        match outcome {
            LoadOutcome::Unloadable(reason) => Err(PluginError::Load(reason)),
            LoadOutcome::NoTable(reason) => Err(PluginError::MissingTable(reason)),
            LoadOutcome::Table(entries) => Ok(CheckedDynLib { type_info: entries }),
        }
    }

    /// Looks up the function exported as `name` with the signature
    /// that `type_id` identifies.
    ///
    /// The table is scanned in order and the first entry that has both the
    /// name and the type identifier is taken. An entry with the name but
    /// another type identifier is passed over, so the function is never
    /// handed out under a signature it was not exported with.
    pub fn lookup_fn(&self, name: &str, type_id: TypeId) -> (r: Result<
        Callable,
        PluginError,
    >)
        ensures
            match r {
                Ok(f) => spec_lookup(self@, name@, type_id) == Ok::<Callable, ErrorView>(f),
                Err(e) => spec_lookup(self@, name@, type_id) == Err::<Callable, ErrorView>(
                    e@,
                ),
            },
    {
        match find_first(self.type_info.as_slice(), name, type_id) {
            Some(i) => Ok(self.type_info[i].callable),
            None => Err(PluginError::NotFound(name.to_owned())),
        }
    }
}

/// Opening a library that exposes an export table always gives a handle, and
/// a lookup on that handle succeeds exactly when some entry of the table has
/// both the requested name and the requested type identifier.
pub proof fn lemma_open_then_lookup(table: Seq<EntryView>, name: Seq<char>, type_id: TypeId)
    ensures
        spec_open(OutcomeView::Table(table)) == Ok::<Seq<EntryView>, ErrorView>(table),
        spec_lookup(table, name, type_id) is Ok <==> has_match(table, name, type_id),
{
}

/// A successful lookup hands out the function of an entry that has the
/// requested name and the requested type identifier, and of no other entry.
pub proof fn lemma_lookup_is_type_checked(
    table: Seq<EntryView>,
    name: Seq<char>,
    type_id: TypeId,
)
    ensures
        spec_lookup(table, name, type_id) matches Ok(f) ==> exists|i: int|
            0 <= i < table.len() && #[trigger] table[i].matches(name, type_id) && table[i].callable
                == f,
{
    lemma_first_match(table, name, type_id);
}

/// A name that the table holds, requested with a type identifier that no
/// entry of that name has, is not found: no function is handed out under a
/// signature other than its own.
pub proof fn lemma_wrong_type_is_not_found(
    table: Seq<EntryView>,
    name: Seq<char>,
    type_id: TypeId,
)
    requires
        exists|i: int| 0 <= i < table.len() && (#[trigger] table[i]).name == name,
        forall|i: int|
            0 <= i < table.len() && (#[trigger] table[i]).name == name ==> table[i].type_id
                != type_id,
    ensures
        spec_lookup(table, name, type_id) == Err::<Callable, ErrorView>(ErrorView::NotFound(name)),
{
    lemma_first_match(table, name, type_id);
}

/// A name that stands nowhere in the table is not found, whatever the type
/// identifier.
pub proof fn lemma_absent_name_is_not_found(
    table: Seq<EntryView>,
    name: Seq<char>,
    type_id: TypeId,
)
    requires
        forall|i: int| 0 <= i < table.len() ==> (#[trigger] table[i]).name != name,
    ensures
        spec_lookup(table, name, type_id) == Err::<Callable, ErrorView>(ErrorView::NotFound(name)),
{
    lemma_first_match(table, name, type_id);
}

/// Table order is precedence. Of two entries with one name and different
/// type identifiers, a request for the earlier one's type is answered at or
/// before the earlier entry, never by the later one; and the later entry is
/// reached only by a request that the earlier entry does not answer.
pub proof fn lemma_table_order_is_precedence(
    table: Seq<EntryView>,
    name: Seq<char>,
    type_id: TypeId,
    earlier: int,
    later: int,
)
    requires
        0 <= earlier < later < table.len(),
        table[earlier].name == name,
        table[later].name == name,
        table[earlier].type_id != table[later].type_id,
    ensures
        table[earlier].type_id == type_id ==> (first_match(table, name, type_id) matches Some(i)
            && i <= earlier),
        table[later].type_id == type_id ==> (first_match(table, name, type_id) matches Some(i)
            && i <= later && i != earlier),
        first_match(table, name, type_id) == Some(later) ==> table[earlier].type_id != type_id,
{
    lemma_first_match(table, name, type_id);
    if table[earlier].type_id == type_id {
        assert(table[earlier].matches(name, type_id));
    }
    if table[later].type_id == type_id {
        assert(table[later].matches(name, type_id));
    }
}

} // verus!
