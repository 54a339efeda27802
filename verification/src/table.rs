//! The export table of a plugin and the search through it.
//!
//! The table is an ordered list. Its order is the order of precedence: where
//! several entries answer a request, the one that stands first is taken.

use vstd::prelude::*;
use vstd::string::StringSliceAdditionalSpecFns;
use vstd::utf8::encode_utf8_decode_utf8;

verus! {

/// Identifies a function signature: parameter types and return type.
///
/// Two signatures with the same identifier are taken to be the same
/// signature. The identifier is a 64-bit token which the plugin and the host
/// derive from the signature in the same way; nothing here rules out that two
/// different signatures collide on one token, so the scheme that produces the
/// tokens has to make that unlikely enough for its use.
#[derive(Clone, Copy, Debug, PartialEq, Eq, Hash, Structural)]
pub struct TypeId(pub u64);

/// The address of an exported function.
///
/// The library never calls it; it hands the address to the caller, who
/// invokes it under the signature that the lookup was made with.
#[derive(Clone, Copy, Debug, PartialEq, Eq, Hash, Structural)]
pub struct Callable(pub usize);

/// One exported item: its signature, its name and the function itself.
#[derive(Clone, Debug, PartialEq, Eq)]
pub struct ExportEntry {
    pub type_id: TypeId,
    pub name: String,
    pub callable: Callable,
}

/// An export table: its entries in table order.
pub type PluginTypeInfo = Vec<ExportEntry>;

/// What an entry is to the specifications.
pub struct EntryView {
    pub type_id: TypeId,
    pub name: Seq<char>,
    pub callable: Callable,
}

impl View for ExportEntry {
    type V = EntryView;

    open spec fn view(&self) -> EntryView {
        EntryView { type_id: self.type_id, name: self.name@, callable: self.callable }
    }
}

impl EntryView {
    /// An entry answers a request when the name and the type identifier both
    /// agree; the name alone is never enough.
    pub open spec fn matches(self, name: Seq<char>, type_id: TypeId) -> bool {
        self.name == name && self.type_id == type_id
    }
}

/// The table that a list of entries stands for.
pub open spec fn table_view(entries: Seq<ExportEntry>) -> Seq<EntryView> {
    Seq::new(entries.len(), |i: int| entries[i]@)
}

/// Some entry of the table answers the request.
pub open spec fn has_match(table: Seq<EntryView>, name: Seq<char>, type_id: TypeId) -> bool {
    exists|i: int| 0 <= i < table.len() && #[trigger] table[i].matches(name, type_id)
}

/// Entry `i` answers the request and no entry before it does.
pub open spec fn is_first_match(
    table: Seq<EntryView>,
    name: Seq<char>,
    type_id: TypeId,
    i: int,
) -> bool {
    &&& 0 <= i < table.len()
    &&& table[i].matches(name, type_id)
    &&& forall|j: int| 0 <= j < i ==> !#[trigger] table[j].matches(name, type_id)
}

/// The position of the first entry that answers the request, if there is one.
pub open spec fn first_match(table: Seq<EntryView>, name: Seq<char>, type_id: TypeId) -> Option<
    int,
> {
    if has_match(table, name, type_id) {
        Some(choose|i: int| is_first_match(table, name, type_id, i))
    } else {
        None
    }
}

/// An entry that answers the request and has none before it is the first
/// match: there is only one such entry.
pub proof fn lemma_first_match_is(
    table: Seq<EntryView>,
    name: Seq<char>,
    type_id: TypeId,
    i: int,
)
    requires
        is_first_match(table, name, type_id, i),
    ensures
        first_match(table, name, type_id) == Some(i),
{
    let k = choose|k: int| is_first_match(table, name, type_id, k);
    assert(is_first_match(table, name, type_id, k));
    if k < i {
        assert(!table[k].matches(name, type_id));
    } else if i < k {
        assert(!table[i].matches(name, type_id));
    }
}

/// Where no entry answers the request, there is no first match.
pub proof fn lemma_no_match(table: Seq<EntryView>, name: Seq<char>, type_id: TypeId)
    requires
        forall|j: int| 0 <= j < table.len() ==> !#[trigger] table[j].matches(name, type_id),
    ensures
        first_match(table, name, type_id) is None,
{
}

/// What `first_match` gives: the first answering entry where the table has
/// one, and nothing exactly where no entry answers.
pub proof fn lemma_first_match(table: Seq<EntryView>, name: Seq<char>, type_id: TypeId)
    ensures
        match first_match(table, name, type_id) {
            Some(i) => is_first_match(table, name, type_id, i),
            None => forall|j: int|
                0 <= j < table.len() ==> !#[trigger] table[j].matches(name, type_id),
        },
{
    if has_match(table, name, type_id) {
        let w = choose|i: int| 0 <= i < table.len() && #[trigger] table[i].matches(name, type_id);
        lemma_least_match(table, name, type_id, w);
    }
}

/// Below any answering entry stands a first one.
proof fn lemma_least_match(table: Seq<EntryView>, name: Seq<char>, type_id: TypeId, w: int)
    requires
        0 <= w < table.len(),
        table[w].matches(name, type_id),
    ensures
        exists|i: int| 0 <= i <= w && is_first_match(table, name, type_id, i),
    decreases w,
{
    if exists|j: int| 0 <= j < w && #[trigger] table[j].matches(name, type_id) {
        let j = choose|j: int| 0 <= j < w && #[trigger] table[j].matches(name, type_id);
        lemma_least_match(table, name, type_id, j);
    } else {
        assert(is_first_match(table, name, type_id, w));
    }
}

/// Whether two strings hold the same text.
pub fn same_text(a: &str, b: &str) -> (r: bool)
    ensures
        r == (a@ == b@),
{
    let x = a.as_bytes();
    let y = b.as_bytes();
    proof {
        encode_utf8_decode_utf8(a@);
        encode_utf8_decode_utf8(b@);
    }
    if x.len() != y.len() {
        return false;
    }
    let mut i: usize = 0;
    while i < x.len()
        invariant
            i <= x.len(),
            x.len() == y.len(),
            x@ == a.spec_bytes(),
            y@ == b.spec_bytes(),
            forall|k: int| 0 <= k < i ==> x@[k] == y@[k],
        decreases x.len() - i,
    {
        if x[i] != y[i] {
            return false;
        }
        i += 1;
    }
    assert(x@ =~= y@);
    true
}

impl ExportEntry {
    /// Whether this entry answers a request for `name` under `type_id`.
    pub fn matches(&self, name: &str, type_id: TypeId) -> (r: bool)
        ensures
            r == self@.matches(name@, type_id),
    {
        self.type_id == type_id && same_text(self.name.as_str(), name)
    }
}

/// Scans the entries in order and gives the position of the first one that
/// answers a request for `name` under `type_id`.
pub fn find_first(entries: &[ExportEntry], name: &str, type_id: TypeId) -> (r: Option<usize>)
    ensures
        match r {
            Some(i) => i < entries@.len() && first_match(table_view(entries@), name@, type_id)
                == Some(i as int),
            None => first_match(table_view(entries@), name@, type_id) is None,
        },
{
    let ghost table = table_view(entries@);
    let mut i: usize = 0;
    while i < entries.len()
        invariant
            i <= entries.len(),
            table == table_view(entries@),
            forall|j: int| 0 <= j < i ==> !#[trigger] table[j].matches(name@, type_id),
        decreases entries.len() - i,
    {
        if entries[i].matches(name, type_id) {
            proof {
                lemma_first_match_is(table, name@, type_id, i as int);
            }
            return Some(i);
        }
        i += 1;
    }
    proof {
        lemma_no_match(table, name@, type_id);
    }
    None
}

} // verus!
