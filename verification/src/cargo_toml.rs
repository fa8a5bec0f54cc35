//! The whole-table patching backend for `Cargo.toml` manifests.
//!
//! Instead of streaming lines, this backend parses the manifest into
//! toml_edit's formatting-preserving tree, walks every dependency table
//! (top-level `[dependencies]` and each `[target.'cfg(...)'.dependencies]`),
//! and for every entry whose resolved crate name matches a requested
//! dependency rebuilds its whole source descriptor: the `path`, `branch`
//! and `registry` keys are dropped together with `version`, `git` points at
//! the override repository, `rev` at the new revision (an empty requested
//! revision leaves the entry's own `rev` untouched), and every other key is
//! kept.  Entries may start out as plain version strings, inline tables or
//! full tables; a matched entry of any other shape, or a dependency table
//! that is not a table, stops the patch with an error rather than letting
//! it silently skip work.
//!
//! The tree is reached only through the trusted items below.  Their
//! contracts speak of the tree through uninterpreted projections — a
//! table's key list, its string value at a key, its child tables — so the
//! rewrite itself is stated and proved: see [`deps_table_patched`].

use vstd::prelude::*;
use vstd::string::StringExecFns;
use crate::patcher::{find_update_from, find_update_exec, ups_view, Update, UpdateV};
use crate::strutil::{opt_str_view, starts_with, str_eq, vec_contains_str};

verus! {

#[verifier::external_type_specification]
#[verifier::external_body]
pub struct ExDocument(toml_edit::Document);

#[verifier::external_type_specification]
#[verifier::external_body]
pub struct ExItem(toml_edit::Item);

#[verifier::external_type_specification]
#[verifier::external_body]
pub struct ExTable(toml_edit::Table);

#[verifier::external_type_specification]
#[verifier::external_body]
pub struct ExKey(toml_edit::Key);

#[verifier::external_type_specification]
#[verifier::external_body]
pub struct ExInlineTable(toml_edit::InlineTable);

#[verifier::external_type_specification]
#[verifier::external_body]
pub struct ExValue(toml_edit::Value);

/// Whether toml_edit accepts `s` as a TOML document; parsing is a function
/// of the text alone.
pub uninterp spec fn toml_parse_ok(s: Seq<char>) -> bool;

/// The document toml_edit parses `s` into, when it accepts `s`.
pub uninterp spec fn parsed_doc(s: Seq<char>) -> toml_edit::Document;

/// The text a document serializes to.
pub uninterp spec fn doc_text(d: toml_edit::Document) -> Seq<char>;

/// A document's root table.
pub uninterp spec fn root_table_of(d: toml_edit::Document) -> toml_edit::Table;

/// A table's keys, in storage order.
pub uninterp spec fn table_keys_of(t: toml_edit::Table) -> Seq<Seq<char>>;

/// The string value a table holds at a key; nothing when the key is absent
/// or holds something other than a string.
pub uninterp spec fn table_str_of(t: toml_edit::Table, k: Seq<char>) -> Option<Seq<char>>;

/// The child table at a key; nothing when the key is absent or holds
/// something other than a regular table.
pub uninterp spec fn sub_table_of(t: toml_edit::Table, k: Seq<char>) -> Option<toml_edit::Table>;

/// The dependency entry at a key viewed as a table: a regular table as
/// itself, an inline table in its table form; nothing otherwise.
pub uninterp spec fn entry_table_of(t: toml_edit::Table, k: Seq<char>) -> Option<
    toml_edit::Table,
>;

/// The table inside an item, when the item is a regular table.
pub uninterp spec fn item_table_of(i: toml_edit::Item) -> Option<toml_edit::Table>;

/// The string a key is spelled as.
pub uninterp spec fn key_str_of(k: toml_edit::Key) -> Seq<char>;

/// Relies on `toml_edit`'s `Document` parser (`str::parse`): it accepts a
/// fixed TOML grammar and is a pure function of the text.
#[verifier::external_body]
fn parse_document(s: &str) -> (r: Option<toml_edit::Document>)
    ensures
        r is Some <==> toml_parse_ok(s@),
        r is Some ==> r->0 == parsed_doc(s@),
{
    match s.parse::<toml_edit::Document>() {
        Ok(d) => Some(d),
        Err(_) => None,
    }
}

/// Relies on `Document`'s `Display`: serializing is deterministic in the
/// document value.
#[verifier::external_body]
fn document_to_string(d: &toml_edit::Document) -> (r: String)
    ensures
        r@ == doc_text(*d),
{
    d.to_string()
}

/// Relies on `Document::as_table`: the root table.
#[verifier::external_body]
fn document_root<'a>(d: &'a toml_edit::Document) -> (r: &'a toml_edit::Table)
    ensures
        *r == root_table_of(*d),
{
    d.as_table()
}

/// Relies on `Table::iter`: the keys in storage order; a table holds each
/// key once.
#[verifier::external_body]
fn table_keys(t: &toml_edit::Table) -> (r: Vec<String>)
    ensures
        r.deep_view() == table_keys_of(*t),
        forall|i: int, j: int|
            0 <= i < j < r.deep_view().len() ==> #[trigger] r.deep_view()[i]
                != #[trigger] r.deep_view()[j],
{
    t.iter().map(|(k, _)| k.to_string()).collect()
}

/// Relies on `Table::get` and `Item::as_str`: the string value at `key`.
#[verifier::external_body]
fn table_str_value(t: &toml_edit::Table, key: &str) -> (r: Option<String>)
    ensures
        opt_str_view(r) == table_str_of(*t, key@),
{
    match t.get(key) {
        Some(it) => it.as_str().map(|s| s.to_string()),
        None => None,
    }
}

/// Relies on `Table::get`, `Item::as_table`, `Item::as_inline_table`,
/// `Table`'s derived `Clone` and `InlineTable::into_table`: the dependency
/// entry at `key` as an owned table, whether it was written as a table or
/// as an inline table.
#[verifier::external_body]
fn entry_table(t: &toml_edit::Table, key: &str) -> (r: Option<toml_edit::Table>)
    ensures
        r == entry_table_of(*t, key@),
{
    match t.get(key) {
        Some(it) => {
            if let Some(tb) = it.as_table() {
                Some(tb.clone())
            } else if let Some(il) = it.as_inline_table() {
                Some(il.clone().into_table())
            } else {
                None
            }
        },
        None => None,
    }
}

/// Relies on `Table`'s derived `Clone`: a deep copy is the same table
/// value.
#[verifier::external_body]
fn table_clone(t: &toml_edit::Table) -> (r: toml_edit::Table)
    ensures
        r == *t,
{
    t.clone()
}

/// Relies on `Table::new`: an empty table.
#[verifier::external_body]
fn table_new() -> (r: toml_edit::Table)
    ensures
        table_keys_of(r) == Seq::<Seq<char>>::empty(),
        forall|k: Seq<char>| #[trigger] table_str_of(r, k) is None,
        forall|k: Seq<char>| #[trigger] sub_table_of(r, k) is None,
        forall|k: Seq<char>| #[trigger] entry_table_of(r, k) is None,
{
    toml_edit::Table::new()
}

/// Relies on `Table::remove` (a shift-remove on an index map): the key
/// goes, every other entry keeps its place.
#[verifier::external_body]
fn table_remove(t: &mut toml_edit::Table, key: &str) -> (r: Option<toml_edit::Item>)
    ensures
        r is Some <==> table_keys_of(*old(t)).contains(key@),
        table_keys_of(*final(t)) == remove_key(table_keys_of(*old(t)), key@),
        table_str_of(*final(t), key@) is None,
        sub_table_of(*final(t), key@) is None,
        entry_table_of(*final(t), key@) is None,
        forall|k2: Seq<char>|
            k2 != key@ ==> #[trigger] table_str_of(*final(t), k2) == table_str_of(*old(t), k2),
        forall|k2: Seq<char>|
            k2 != key@ ==> #[trigger] sub_table_of(*final(t), k2) == sub_table_of(*old(t), k2),
        forall|k2: Seq<char>|
            k2 != key@ ==> #[trigger] entry_table_of(*final(t), k2) == entry_table_of(
                *old(t),
                k2,
            ),
{
    t.remove(key)
}

/// Relies on `Table::remove_entry`: like `remove`, but hands back the
/// stored key (with its decor) and the item.
#[verifier::external_body]
fn table_remove_entry(t: &mut toml_edit::Table, key: &str) -> (r: Option<
    (toml_edit::Key, toml_edit::Item),
>)
    ensures
        r is Some <==> table_keys_of(*old(t)).contains(key@),
        (r matches Some(p) ==> key_str_of(p.0) == key@ && item_table_of(p.1) == sub_table_of(
            *old(t),
            key@,
        )),
        table_keys_of(*final(t)) == remove_key(table_keys_of(*old(t)), key@),
        table_str_of(*final(t), key@) is None,
        sub_table_of(*final(t), key@) is None,
        entry_table_of(*final(t), key@) is None,
        forall|k2: Seq<char>|
            k2 != key@ ==> #[trigger] table_str_of(*final(t), k2) == table_str_of(*old(t), k2),
        forall|k2: Seq<char>|
            k2 != key@ ==> #[trigger] sub_table_of(*final(t), k2) == sub_table_of(*old(t), k2),
        forall|k2: Seq<char>|
            k2 != key@ ==> #[trigger] entry_table_of(*final(t), k2) == entry_table_of(
                *old(t),
                k2,
            ),
{
    t.remove_entry(key)
}

/// Relies on `Table::insert` and `toml_edit::value`: stores the string at
/// the key; an existing key keeps its place, a new one is appended.
#[verifier::external_body]
fn table_insert_str(t: &mut toml_edit::Table, key: &str, val: &str)
    ensures
        table_keys_of(*final(t)) == with_key(table_keys_of(*old(t)), key@),
        table_str_of(*final(t), key@) == Some(val@),
        sub_table_of(*final(t), key@) is None,
        entry_table_of(*final(t), key@) is None,
        forall|k2: Seq<char>|
            k2 != key@ ==> #[trigger] table_str_of(*final(t), k2) == table_str_of(*old(t), k2),
        forall|k2: Seq<char>|
            k2 != key@ ==> #[trigger] sub_table_of(*final(t), k2) == sub_table_of(*old(t), k2),
        forall|k2: Seq<char>|
            k2 != key@ ==> #[trigger] entry_table_of(*final(t), k2) == entry_table_of(
                *old(t),
                k2,
            ),
{
    t.insert(key, toml_edit::value(val));
}

/// Relies on `Table::insert` and `Item::Table`: stores the table at the
/// key; an existing key keeps its place, a new one is appended.
#[verifier::external_body]
fn table_insert_table(t: &mut toml_edit::Table, key: &str, sub: toml_edit::Table)
    ensures
        table_keys_of(*final(t)) == with_key(table_keys_of(*old(t)), key@),
        table_str_of(*final(t), key@) is None,
        sub_table_of(*final(t), key@) == Some(sub),
        entry_table_of(*final(t), key@) == Some(sub),
        forall|k2: Seq<char>|
            k2 != key@ ==> #[trigger] table_str_of(*final(t), k2) == table_str_of(*old(t), k2),
        forall|k2: Seq<char>|
            k2 != key@ ==> #[trigger] sub_table_of(*final(t), k2) == sub_table_of(*old(t), k2),
        forall|k2: Seq<char>|
            k2 != key@ ==> #[trigger] entry_table_of(*final(t), k2) == entry_table_of(
                *old(t),
                k2,
            ),
{
    t.insert(key, toml_edit::Item::Table(sub));
}

/// Relies on `Table::insert_formatted` and `Item::Table`: puts a table
/// back under a previously removed key, decor included.
#[verifier::external_body]
fn table_insert_table_formatted(
    t: &mut toml_edit::Table,
    key: &toml_edit::Key,
    sub: toml_edit::Table,
)
    ensures
        table_keys_of(*final(t)) == with_key(table_keys_of(*old(t)), key_str_of(*key)),
        table_str_of(*final(t), key_str_of(*key)) is None,
        sub_table_of(*final(t), key_str_of(*key)) == Some(sub),
        entry_table_of(*final(t), key_str_of(*key)) == Some(sub),
        forall|k2: Seq<char>|
            k2 != key_str_of(*key) ==> #[trigger] table_str_of(*final(t), k2) == table_str_of(
                *old(t),
                k2,
            ),
        forall|k2: Seq<char>|
            k2 != key_str_of(*key) ==> #[trigger] sub_table_of(*final(t), k2) == sub_table_of(
                *old(t),
                k2,
            ),
        forall|k2: Seq<char>|
            k2 != key_str_of(*key) ==> #[trigger] entry_table_of(*final(t), k2)
                == entry_table_of(*old(t), k2),
{
    t.insert_formatted(key, toml_edit::Item::Table(sub));
}

/// Relies on `Table::insert_formatted` (on the root, through `Document`'s
/// deref): puts an arbitrary item back under a previously removed key.
/// Only error paths use it, to leave no entry behind; nothing is claimed.
#[verifier::external_body]
fn document_insert_item_formatted(
    d: &mut toml_edit::Document,
    key: &toml_edit::Key,
    item: toml_edit::Item,
) {
    d.insert_formatted(key, item);
}

/// Relies on `Table::remove_entry` on the root table (through `Document`'s
/// deref); same facts as [`table_remove_entry`].
#[verifier::external_body]
fn document_remove_entry(d: &mut toml_edit::Document, key: &str) -> (r: Option<
    (toml_edit::Key, toml_edit::Item),
>)
    ensures
        r is Some <==> table_keys_of(root_table_of(*old(d))).contains(key@),
        (r matches Some(p) ==> key_str_of(p.0) == key@ && item_table_of(p.1) == sub_table_of(
            root_table_of(*old(d)),
            key@,
        )),
        table_keys_of(root_table_of(*final(d))) == remove_key(
            table_keys_of(root_table_of(*old(d))),
            key@,
        ),
        table_str_of(root_table_of(*final(d)), key@) is None,
        sub_table_of(root_table_of(*final(d)), key@) is None,
        entry_table_of(root_table_of(*final(d)), key@) is None,
        forall|k2: Seq<char>|
            k2 != key@ ==> #[trigger] table_str_of(root_table_of(*final(d)), k2) == table_str_of(
                root_table_of(*old(d)),
                k2,
            ),
        forall|k2: Seq<char>|
            k2 != key@ ==> #[trigger] sub_table_of(root_table_of(*final(d)), k2) == sub_table_of(
                root_table_of(*old(d)),
                k2,
            ),
        forall|k2: Seq<char>|
            k2 != key@ ==> #[trigger] entry_table_of(root_table_of(*final(d)), k2)
                == entry_table_of(root_table_of(*old(d)), k2),
{
    d.remove_entry(key)
}

/// Relies on `Table::insert_formatted` on the root table and `Item::Table`;
/// same facts as [`table_insert_table_formatted`].
#[verifier::external_body]
fn document_insert_table_formatted(
    d: &mut toml_edit::Document,
    key: &toml_edit::Key,
    sub: toml_edit::Table,
)
    ensures
        table_keys_of(root_table_of(*final(d))) == with_key(
            table_keys_of(root_table_of(*old(d))),
            key_str_of(*key),
        ),
        table_str_of(root_table_of(*final(d)), key_str_of(*key)) is None,
        sub_table_of(root_table_of(*final(d)), key_str_of(*key)) == Some(sub),
        entry_table_of(root_table_of(*final(d)), key_str_of(*key)) == Some(sub),
        forall|k2: Seq<char>|
            k2 != key_str_of(*key) ==> #[trigger] table_str_of(root_table_of(*final(d)), k2)
                == table_str_of(root_table_of(*old(d)), k2),
        forall|k2: Seq<char>|
            k2 != key_str_of(*key) ==> #[trigger] sub_table_of(root_table_of(*final(d)), k2)
                == sub_table_of(root_table_of(*old(d)), k2),
        forall|k2: Seq<char>|
            k2 != key_str_of(*key) ==> #[trigger] entry_table_of(root_table_of(*final(d)), k2)
                == entry_table_of(root_table_of(*old(d)), k2),
{
    d.insert_formatted(key, toml_edit::Item::Table(sub));
}

pub assume_specification[ toml_edit::Item::into_table ](i: toml_edit::Item) -> (r: Result<
    toml_edit::Table,
    toml_edit::Item,
>)
    ensures
        match r {
            Ok(t) => item_table_of(i) == Some(t),
            Err(o) => item_table_of(i) is None && o == i,
        },
;

/// A key list with every occurrence of `k` removed, order kept.
pub open spec fn remove_key(s: Seq<Seq<char>>, k: Seq<char>) -> Seq<Seq<char>>
    decreases s.len(),
{
    if s.len() == 0 {
        s
    } else if s[0] == k {
        remove_key(s.drop_first(), k)
    } else {
        seq![s[0]] + remove_key(s.drop_first(), k)
    }
}

/// A key list after an insert: unchanged when the key is present, the key
/// appended when it is new.
pub open spec fn with_key(s: Seq<Seq<char>>, k: Seq<char>) -> Seq<Seq<char>> {
    if s.contains(k) {
        s
    } else {
        s.push(k)
    }
}

/// Removing one key keeps exactly the other keys.
pub proof fn lemma_remove_key_contains(s: Seq<Seq<char>>, k: Seq<char>, x: Seq<char>)
    ensures
        remove_key(s, k).contains(x) <==> s.contains(x) && x != k,
    decreases s.len(),
{
    if s.len() > 0 {
        lemma_remove_key_contains(s.drop_first(), k, x);
        assert(s.contains(x) <==> s[0] == x || s.drop_first().contains(x)) by {
            if s.contains(x) {
                let i = choose|i: int| 0 <= i < s.len() && s[i] == x;
                if i > 0 {
                    assert(s.drop_first()[i - 1] == x);
                }
            }
            if s.drop_first().contains(x) {
                let i = choose|i: int| 0 <= i < s.drop_first().len() && s.drop_first()[i] == x;
                assert(s[i + 1] == x);
            }
        }
        if s[0] != k {
            assert(remove_key(s, k) == seq![s[0]] + remove_key(s.drop_first(), k));
            assert(remove_key(s, k).contains(x) <==> s[0] == x || remove_key(
                s.drop_first(),
                k,
            ).contains(x)) by {
                assert(remove_key(s, k)[0] == s[0]);
                if remove_key(s, k).contains(x) {
                    let i = choose|i: int|
                        0 <= i < remove_key(s, k).len() && remove_key(s, k)[i] == x;
                    if i > 0 {
                        assert(remove_key(s.drop_first(), k)[i - 1] == x);
                    }
                }
                if remove_key(s.drop_first(), k).contains(x) {
                    let i = choose|i: int|
                        0 <= i < remove_key(s.drop_first(), k).len() && remove_key(
                            s.drop_first(),
                            k,
                        )[i] == x;
                    assert(remove_key(s, k)[i + 1] == x);
                }
            }
        }
    }
}

/// Inserting a key keeps every key and adds the inserted one.
pub proof fn lemma_with_key_contains(s: Seq<Seq<char>>, k: Seq<char>, x: Seq<char>)
    ensures
        with_key(s, k).contains(x) <==> s.contains(x) || x == k,
{
    if !s.contains(k) {
        assert(s.push(k).contains(x) <==> s.contains(x) || x == k) by {
            if s.contains(x) {
                let i = choose|i: int| 0 <= i < s.len() && s[i] == x;
                assert(s.push(k)[i] == x);
            }
            assert(s.push(k)[s.len() as int] == k);
            if s.push(k).contains(x) {
                let i = choose|i: int| 0 <= i < s.push(k).len() && s.push(k)[i] == x;
                if i < s.len() {
                    assert(s[i] == x);
                }
            }
        }
    }
}

/// The keys removed from a rebuilt source descriptor.
pub open spec fn is_source_key(k: Seq<char>) -> bool {
    k == "path"@ || k == "branch"@ || k == "registry"@ || k == "version"@
}

/// The base projections of a matched entry: its table form, or nothing for
/// an entry that was a plain version string.
pub open spec fn base_keys_of(base: Option<toml_edit::Table>) -> Seq<Seq<char>> {
    match base {
        Some(b) => table_keys_of(b),
        None => Seq::empty(),
    }
}

pub open spec fn base_str_of(base: Option<toml_edit::Table>, k: Seq<char>) -> Option<Seq<char>> {
    match base {
        Some(b) => table_str_of(b, k),
        None => None,
    }
}

pub open spec fn base_sub_of(base: Option<toml_edit::Table>, k: Seq<char>) -> Option<
    toml_edit::Table,
> {
    match base {
        Some(b) => sub_table_of(b, k),
        None => None,
    }
}

pub open spec fn base_entry_of(base: Option<toml_edit::Table>, k: Seq<char>) -> Option<
    toml_edit::Table,
> {
    match base {
        Some(b) => entry_table_of(b, k),
        None => None,
    }
}

/// The key list of a rebuilt source descriptor: the base's keys without
/// the source-selection keys, then `git`, then `rev` when a revision is
/// being written.
pub open spec fn rebuilt_keys(bk: Seq<Seq<char>>, writes_rev: bool) -> Seq<Seq<char>> {
    let cleaned = remove_key(
        remove_key(remove_key(remove_key(bk, "path"@), "branch"@), "registry"@),
        "version"@,
    );
    let with_git = with_key(cleaned, "git"@);
    if writes_rev {
        with_key(with_git, "rev"@)
    } else {
        with_git
    }
}

/// What a rebuilt dependency entry holds, relative to its base: `git`
/// points at the override repository; `rev` is the new revision, or the
/// base's own when the requested one is empty (do not touch); the
/// source-selection keys are gone; everything else is the base's.
pub open spec fn entry_rebuilt_from(
    base: Option<toml_edit::Table>,
    e: toml_edit::Table,
    upd: UpdateV,
    ov: Seq<char>,
) -> bool {
    &&& table_keys_of(e) == rebuilt_keys(base_keys_of(base), upd.revision.len() > 0)
    &&& table_str_of(e, "git"@) == Some(ov)
    &&& (upd.revision.len() > 0 ==> table_str_of(e, "rev"@) == Some(upd.revision))
    &&& (upd.revision.len() == 0 ==> table_str_of(e, "rev"@) == base_str_of(base, "rev"@))
    &&& table_str_of(e, "path"@) is None
    &&& table_str_of(e, "branch"@) is None
    &&& table_str_of(e, "registry"@) is None
    &&& table_str_of(e, "version"@) is None
    &&& forall|k2: Seq<char>|
        !is_source_key(k2) && k2 != "git"@ && k2 != "rev"@ ==> #[trigger] table_str_of(e, k2)
            == base_str_of(base, k2)
    &&& forall|k2: Seq<char>|
        !is_source_key(k2) && k2 != "git"@ && k2 != "rev"@ ==> #[trigger] entry_table_of(e, k2)
            == base_entry_of(base, k2)
    &&& forall|k2: Seq<char>|
        !is_source_key(k2) && k2 != "git"@ && k2 != "rev"@ ==> #[trigger] sub_table_of(e, k2)
            == base_sub_of(base, k2)
}

/// The `package` rename of the dependency entry at `k`, when it has one.
pub open spec fn entry_package_of(t: toml_edit::Table, k: Seq<char>) -> Option<Seq<char>> {
    match entry_table_of(t, k) {
        Some(b) => table_str_of(b, "package"@),
        None => None,
    }
}

/// The crate a dependency entry resolves to: its `package` rename when it
/// has one, else the dependency key itself.
pub open spec fn crate_name_of(dep_key: Seq<char>, package: Option<Seq<char>>) -> Seq<char> {
    match package {
        Some(p) => p,
        None => dep_key,
    }
}

/// The requested update that applies to the entry at `k`: the first update
/// whose identifier equals the entry's resolved crate name.
pub open spec fn matched_of(t: toml_edit::Table, k: Seq<char>, ups: Seq<UpdateV>) -> Option<int> {
    find_update_from(ups, crate_name_of(k, entry_package_of(t, k)), 0)
}

/// The entry shapes the rewrite accepts: a version string, a table, or an
/// inline table.
pub open spec fn entry_shape_ok(t: toml_edit::Table, k: Seq<char>) -> bool {
    table_str_of(t, k) is Some || entry_table_of(t, k) is Some
}

/// Every matched entry of `t` (from index `i` of its key list on) has an
/// accepted shape.
pub open spec fn deps_shapes_ok(
    t: toml_edit::Table,
    ks: Seq<Seq<char>>,
    i: int,
    ups: Seq<UpdateV>,
) -> bool
    decreases ks.len() - i,
    when 0 <= i <= ks.len()
{
    if i >= ks.len() {
        true
    } else {
        (matched_of(t, ks[i], ups) is Some ==> entry_shape_ok(t, ks[i])) && deps_shapes_ok(
            t,
            ks,
            i + 1,
            ups,
        )
    }
}

/// The `rev` value of the entry at `k`, when the entry is a table with one.
pub open spec fn entry_prev_rev(t: toml_edit::Table, k: Seq<char>) -> Option<Seq<char>> {
    match entry_table_of(t, k) {
        Some(b) => table_str_of(b, "rev"@),
        None => None,
    }
}

/// The revisions the matched entries of `t` pin, in key order, from `i`.
pub open spec fn deps_prev_revs(
    t: toml_edit::Table,
    ks: Seq<Seq<char>>,
    i: int,
    ups: Seq<UpdateV>,
) -> Seq<Seq<char>>
    decreases ks.len() - i,
    when 0 <= i <= ks.len()
{
    if i >= ks.len() {
        Seq::empty()
    } else {
        (if matched_of(t, ks[i], ups) is Some {
            match entry_prev_rev(t, ks[i]) {
                Some(r) => seq![r],
                None => Seq::<Seq<char>>::empty(),
            }
        } else {
            Seq::<Seq<char>>::empty()
        }) + deps_prev_revs(t, ks, i + 1, ups)
    }
}

/// What patching one dependency table does: the key list is unchanged;
/// every matched entry is rebuilt from its base as [`entry_rebuilt_from`]
/// says; every unmatched entry keeps all its projections.
pub open spec fn deps_table_patched(
    t0: toml_edit::Table,
    t1: toml_edit::Table,
    ups: Seq<UpdateV>,
    ov: Seq<char>,
) -> bool {
    let ks = table_keys_of(t0);
    &&& table_keys_of(t1) == ks
    &&& forall|j: int|
        0 <= j < ks.len() ==> match matched_of(t0, #[trigger] ks[j], ups) {
            Some(i) => entry_table_of(t1, ks[j]) is Some && entry_rebuilt_from(
                entry_table_of(t0, ks[j]),
                entry_table_of(t1, ks[j])->0,
                ups[i],
                ov,
            ) && table_str_of(t1, ks[j]) is None,
            None => table_str_of(t1, ks[j]) == table_str_of(t0, ks[j]) && entry_table_of(
                t1,
                ks[j],
            ) == entry_table_of(t0, ks[j]) && sub_table_of(t1, ks[j]) == sub_table_of(t0, ks[j]),
        }
}

/// A `cfg(..)` table is acceptable when its `dependencies` entry, if any,
/// is a table whose matched entries have accepted shapes.
pub open spec fn cfg_shapes_ok(c: toml_edit::Table, ups: Seq<UpdateV>) -> bool {
    table_keys_of(c).contains("dependencies"@) ==> match sub_table_of(c, "dependencies"@) {
        Some(d) => deps_shapes_ok(d, table_keys_of(d), 0, ups),
        None => false,
    }
}

/// The revisions a `cfg(..)` table's dependencies pin.
pub open spec fn cfg_prev_revs(c: toml_edit::Table, ups: Seq<UpdateV>) -> Seq<Seq<char>> {
    if table_keys_of(c).contains("dependencies"@) {
        match sub_table_of(c, "dependencies"@) {
            Some(d) => deps_prev_revs(d, table_keys_of(d), 0, ups),
            None => Seq::empty(),
        }
    } else {
        Seq::empty()
    }
}

/// What patching one `cfg(..)` table does: its `dependencies` table, if
/// it had one, is patched per [`deps_table_patched`] and every other key
/// keeps its projections; without one the table is untouched.
pub open spec fn cfg_patched(
    c0: toml_edit::Table,
    c1: toml_edit::Table,
    ups: Seq<UpdateV>,
    ov: Seq<char>,
) -> bool {
    if table_keys_of(c0).contains("dependencies"@) {
        &&& (match (sub_table_of(c0, "dependencies"@), sub_table_of(c1, "dependencies"@)) {
            (Some(d0), Some(d1)) => deps_table_patched(d0, d1, ups, ov),
            _ => false,
        })
        &&& forall|k2: Seq<char>|
            k2 != "dependencies"@ ==> #[trigger] table_str_of(c1, k2) == table_str_of(c0, k2)
                && sub_table_of(c1, k2) == sub_table_of(c0, k2) && entry_table_of(c1, k2)
                == entry_table_of(c0, k2)
    } else {
        c1 == c0
    }
}

/// What patching a target table does at one of its keys: a `cfg(..)`
/// child is patched per [`cfg_patched`]; every other key keeps its
/// projections.
pub open spec fn target_patched_at(
    t0: toml_edit::Table,
    t1: toml_edit::Table,
    ck: Seq<char>,
    ups: Seq<UpdateV>,
    ov: Seq<char>,
) -> bool {
    if ("cfg("@).is_prefix_of(ck) {
        match sub_table_of(t0, ck) {
            Some(c0) => (sub_table_of(t1, ck) matches Some(c1) && cfg_patched(c0, c1, ups, ov)),
            None => true,
        }
    } else {
        table_str_of(t1, ck) == table_str_of(t0, ck) && sub_table_of(t1, ck) == sub_table_of(
            t0,
            ck,
        ) && entry_table_of(t1, ck) == entry_table_of(t0, ck)
    }
}

/// Every `cfg(..)` child of a target table is a table acceptable per
/// [`cfg_shapes_ok`], from index `i` of the target's key list on.
pub open spec fn target_shapes_ok(
    t: toml_edit::Table,
    cks: Seq<Seq<char>>,
    i: int,
    ups: Seq<UpdateV>,
) -> bool
    decreases cks.len() - i,
    when 0 <= i <= cks.len()
{
    if i >= cks.len() {
        true
    } else {
        (("cfg("@).is_prefix_of(cks[i]) ==> match sub_table_of(t, cks[i]) {
            Some(c) => cfg_shapes_ok(c, ups),
            None => false,
        }) && target_shapes_ok(t, cks, i + 1, ups)
    }
}

/// The revisions a target table's `cfg(..)` children pin, in key order.
pub open spec fn target_prev_revs(
    t: toml_edit::Table,
    cks: Seq<Seq<char>>,
    i: int,
    ups: Seq<UpdateV>,
) -> Seq<Seq<char>>
    decreases cks.len() - i,
    when 0 <= i <= cks.len()
{
    if i >= cks.len() {
        Seq::empty()
    } else {
        (if ("cfg("@).is_prefix_of(cks[i]) {
            match sub_table_of(t, cks[i]) {
                Some(c) => cfg_prev_revs(c, ups),
                None => Seq::<Seq<char>>::empty(),
            }
        } else {
            Seq::<Seq<char>>::empty()
        }) + target_prev_revs(t, cks, i + 1, ups)
    }
}

/// The document shapes the patch accepts, from index `i` of the root key
/// list on: a `dependencies` key and every `target*` key must hold tables,
/// acceptable per [`deps_shapes_ok`] / [`target_shapes_ok`].
pub open spec fn doc_shapes_ok_from(
    root: toml_edit::Table,
    ks: Seq<Seq<char>>,
    i: int,
    ups: Seq<UpdateV>,
) -> bool
    decreases ks.len() - i,
    when 0 <= i <= ks.len()
{
    if i >= ks.len() {
        true
    } else {
        (if ks[i] == "dependencies"@ {
            match sub_table_of(root, ks[i]) {
                Some(d) => deps_shapes_ok(d, table_keys_of(d), 0, ups),
                None => false,
            }
        } else if ("target"@).is_prefix_of(ks[i]) {
            match sub_table_of(root, ks[i]) {
                Some(t) => target_shapes_ok(t, table_keys_of(t), 0, ups),
                None => false,
            }
        } else {
            true
        }) && doc_shapes_ok_from(root, ks, i + 1, ups)
    }
}

/// With no updates nothing is walked; otherwise the whole document must be
/// acceptably shaped.
pub open spec fn doc_shapes_ok(root: toml_edit::Table, ups: Seq<UpdateV>) -> bool {
    ups.len() == 0 || doc_shapes_ok_from(root, table_keys_of(root), 0, ups)
}

/// The revisions the whole document's matched entries pin, in document
/// order, from index `i` of the root key list on.
pub open spec fn doc_prev_revs_from(
    root: toml_edit::Table,
    ks: Seq<Seq<char>>,
    i: int,
    ups: Seq<UpdateV>,
) -> Seq<Seq<char>>
    decreases ks.len() - i,
    when 0 <= i <= ks.len()
{
    if i >= ks.len() {
        Seq::empty()
    } else {
        (if ks[i] == "dependencies"@ {
            match sub_table_of(root, ks[i]) {
                Some(d) => deps_prev_revs(d, table_keys_of(d), 0, ups),
                None => Seq::<Seq<char>>::empty(),
            }
        } else if ("target"@).is_prefix_of(ks[i]) {
            match sub_table_of(root, ks[i]) {
                Some(t) => target_prev_revs(t, table_keys_of(t), 0, ups),
                None => Seq::<Seq<char>>::empty(),
            }
        } else {
            Seq::<Seq<char>>::empty()
        }) + doc_prev_revs_from(root, ks, i + 1, ups)
    }
}

/// The revisions the whole document's matched entries pin.
pub open spec fn doc_prev_revs(root: toml_edit::Table, ups: Seq<UpdateV>) -> Seq<Seq<char>> {
    if ups.len() == 0 {
        Seq::empty()
    } else {
        doc_prev_revs_from(root, table_keys_of(root), 0, ups)
    }
}

/// The requested update that applies to a dependency entry, by its key and
/// optional `package` rename.
pub fn chosen_update(dep_key: &str, package: &Option<String>, updates: &Vec<Update>) -> (r:
    Option<usize>)
    ensures
        match r {
            Some(i) => i < updates@.len() && find_update_from(
                ups_view(updates@),
                crate_name_of(dep_key@, opt_str_view(*package)),
                0,
            ) == Some(i as int),
            None => find_update_from(
                ups_view(updates@),
                crate_name_of(dep_key@, opt_str_view(*package)),
                0,
            ) is None,
        },
{
    match package {
        Some(p) => find_update_exec(updates, p.as_str()),
        None => find_update_exec(updates, dep_key),
    }
}

/// Rebuild one source descriptor from its base: drop the source-selection
/// keys, point `git` at the override repository, and write the new
/// revision unless it is empty.
fn rebuild_source_table(base: Option<&toml_edit::Table>, upd: &Update, override_repository: &str)
    -> (nt: toml_edit::Table)
    ensures
        entry_rebuilt_from(
            match base {
                Some(b) => Some(*b),
                None => None,
            },
            nt,
            upd@,
            override_repository@,
        ),
{
    proof {
        reveal_strlit("path");
        reveal_strlit("branch");
        reveal_strlit("registry");
        reveal_strlit("version");
        reveal_strlit("git");
        reveal_strlit("rev");
        assert(("git"@)[0] == 'g' && ("rev"@)[0] == 'r' && ("path"@)[0] == 'p' && ("branch"@)[0]
            == 'b' && ("registry"@)[0] == 'r' && ("version"@)[0] == 'v');
        assert(("registry"@).len() != ("rev"@).len());
        assert(("git"@) != ("rev"@));
        assert(("rev"@) != ("path"@) && ("rev"@) != ("branch"@) && ("rev"@) != ("registry"@) && (
        "rev"@) != ("version"@));
        assert(("git"@) != ("path"@) && ("git"@) != ("branch"@) && ("git"@) != ("registry"@) && (
        "git"@) != ("version"@));
    }
    let mut nt = match base {
        Some(b) => table_clone(b),
        None => table_new(),
    };
    table_remove(&mut nt, "path");
    table_remove(&mut nt, "branch");
    table_remove(&mut nt, "registry");
    table_remove(&mut nt, "version");
    table_insert_str(&mut nt, "git", override_repository);
    if upd.revision.as_str().unicode_len() > 0 {
        table_insert_str(&mut nt, "rev", upd.revision.as_str());
    }
    nt
}

/// One planned step for one key of a dependency table.
struct PlanEntry {
    key: String,
    action: Option<usize>,
    base: Option<toml_edit::Table>,
}

/// Why a structured patch failed.
#[derive(Clone, Copy, Debug, PartialEq, Eq, Structural)]
pub enum CargoTomlError {
    /// The input is not a TOML document.
    Parse,
    /// A dependency table or matched entry has a shape the rewrite does
    /// not handle; nothing plausible is written in that case.
    UnexpectedShape,
}


/// Patch one dependency table in place.
///
/// Validates first and fails without touching anything when a matched
/// entry has an unexpected shape; otherwise rebuilds every matched entry
/// and appends the revisions the matched entries pinned, in key order.
pub fn patch_dep_table(
    t: &mut toml_edit::Table,
    updates: &Vec<Update>,
    override_repository: &str,
    prev_revs: &mut Vec<String>,
) -> (r: Result<(), CargoTomlError>)
    ensures
        r is Ok <==> deps_shapes_ok(*old(t), table_keys_of(*old(t)), 0, ups_view(updates@)),
        r is Err ==> r->Err_0 is UnexpectedShape && *final(t) == *old(t) && final(prev_revs)@
            == old(prev_revs)@,
        r is Ok ==> deps_table_patched(
            *old(t),
            *final(t),
            ups_view(updates@),
            override_repository@,
        ),
        r is Ok ==> final(prev_revs).deep_view() == old(prev_revs).deep_view() + deps_prev_revs(
            *old(t),
            table_keys_of(*old(t)),
            0,
            ups_view(updates@),
        ),
        updates@.len() == 0 ==> *final(t) == *old(t),
{
    let ghost t0 = *t;
    let ghost upsv = ups_view(updates@);
    let keys = table_keys(t);
    let ghost ks0 = keys.deep_view();
    let n = keys.len();
    let mut plan: Vec<PlanEntry> = Vec::new();
    let mut found: Vec<String> = Vec::new();
    let mut j: usize = 0;
    while j < n
        invariant
            j <= n,
            n == keys@.len(),
            ks0 == keys.deep_view(),
            t0 == *old(t),
            *t == t0,
            prev_revs@ == old(prev_revs)@,
            ks0 == table_keys_of(t0),
            upsv == ups_view(updates@),
            plan@.len() == j,
            forall|j2: int| 0 <= j2 < j ==> (#[trigger] plan@[j2]).key@ == ks0[j2],
            forall|j2: int|
                0 <= j2 < j ==> match (#[trigger] plan@[j2]).action {
                    Some(i) => matched_of(t0, ks0[j2], upsv) == Some(i as int) && i < upsv.len()
                        && plan@[j2].base == entry_table_of(t0, ks0[j2]) && entry_shape_ok(
                        t0,
                        ks0[j2],
                    ),
                    None => matched_of(t0, ks0[j2], upsv) is None,
                },
            deps_shapes_ok(t0, ks0, 0, upsv) == deps_shapes_ok(t0, ks0, j as int, upsv),
            deps_prev_revs(t0, ks0, 0, upsv) =~= found.deep_view() + deps_prev_revs(
                t0,
                ks0,
                j as int,
                upsv,
            ),
        decreases n - j,
    {
        proof {
            assert(ks0[j as int] == keys@[j as int]@);
        }
        let key = &keys[j];
        let s_opt = table_str_value(t, key.as_str());
        let b_opt = entry_table(t, key.as_str());
        let package = match &b_opt {
            Some(b) => table_str_value(b, "package"),
            None => None,
        };
        proof {
            assert(opt_str_view(package) == entry_package_of(t0, ks0[j as int]));
        }
        match chosen_update(key.as_str(), &package, updates) {
            Some(i) => {
                if s_opt.is_none() && b_opt.is_none() {
                    proof {
                        assert(!entry_shape_ok(t0, ks0[j as int]));
                        assert(!deps_shapes_ok(t0, ks0, j as int, upsv));
                    }
                    return Err(CargoTomlError::UnexpectedShape);
                }
                let ghost before = found.deep_view();
                match &b_opt {
                    Some(b) => {
                        match table_str_value(b, "rev") {
                            Some(rev) => {
                                found.push(rev);
                                proof {
                                    assert(found.deep_view() =~= before.push(
                                        entry_prev_rev(t0, ks0[j as int])->0,
                                    ));
                                    assert(before.push(entry_prev_rev(t0, ks0[j as int])->0)
                                        + deps_prev_revs(t0, ks0, j + 1, upsv) =~= before
                                        + deps_prev_revs(t0, ks0, j as int, upsv));
                                }
                            },
                            None => (),
                        }
                    },
                    None => (),
                }
                plan.push(PlanEntry { key: key.clone(), action: Some(i), base: b_opt });
            },
            None => {
                plan.push(PlanEntry { key: key.clone(), action: None, base: None });
            },
        }
        j = j + 1;
    }
    let ghost found0 = found.deep_view();
    let ghost prevs0 = prev_revs.deep_view();
    proof {
        assert(found0 =~= deps_prev_revs(t0, ks0, 0, upsv));
    }
    prev_revs.append(&mut found);
    proof {
        assert(prev_revs.deep_view() =~= prevs0 + found0);
    }
    let m = plan.len();
    let mut k: usize = 0;
    while k < m
        invariant
            k <= m,
            m == plan@.len(),
            m == ks0.len(),
            t0 == *old(t),
            upsv == ups_view(updates@),
            ks0 == table_keys_of(t0),
            forall|i2: int, j2: int|
                0 <= i2 < j2 < ks0.len() ==> #[trigger] ks0[i2] != #[trigger] ks0[j2],
            forall|j2: int| 0 <= j2 < m ==> (#[trigger] plan@[j2]).key@ == ks0[j2],
            forall|j2: int|
                0 <= j2 < m ==> match (#[trigger] plan@[j2]).action {
                    Some(i) => matched_of(t0, ks0[j2], upsv) == Some(i as int) && i < upsv.len()
                        && plan@[j2].base == entry_table_of(t0, ks0[j2]) && entry_shape_ok(
                        t0,
                        ks0[j2],
                    ),
                    None => matched_of(t0, ks0[j2], upsv) is None,
                },
            table_keys_of(*t) == ks0,
            upsv.len() == 0 ==> *t == t0,
            forall|j2: int|
                k <= j2 < m ==> #[trigger] table_str_of(*t, ks0[j2]) == table_str_of(t0, ks0[j2])
                    && entry_table_of(*t, ks0[j2]) == entry_table_of(t0, ks0[j2]) && sub_table_of(
                    *t,
                    ks0[j2],
                ) == sub_table_of(t0, ks0[j2]),
            forall|j2: int|
                0 <= j2 < k ==> match matched_of(t0, #[trigger] ks0[j2], upsv) {
                    Some(i) => entry_table_of(*t, ks0[j2]) is Some && entry_rebuilt_from(
                        entry_table_of(t0, ks0[j2]),
                        entry_table_of(*t, ks0[j2])->0,
                        upsv[i],
                        override_repository@,
                    ) && table_str_of(*t, ks0[j2]) is None,
                    None => table_str_of(*t, ks0[j2]) == table_str_of(t0, ks0[j2])
                        && entry_table_of(*t, ks0[j2]) == entry_table_of(t0, ks0[j2])
                        && sub_table_of(*t, ks0[j2]) == sub_table_of(t0, ks0[j2]),
                },
        decreases m - k,
    {
        let entry = &plan[k];
        match entry.action {
            Some(i) => {
                let base_ref = match &entry.base {
                    Some(b) => Some(b),
                    None => None,
                };
                proof {
                    assert(upsv[i as int] == updates@[i as int]@);
                }
                let nt = rebuild_source_table(base_ref, &updates[i], override_repository);
                proof {
                    assert(ks0.contains(ks0[k as int]));
                }
                table_insert_table(t, entry.key.as_str(), nt);
            },
            None => (),
        }
        k = k + 1;
    }
    proof {
        assert(deps_table_patched(t0, *t, upsv, override_repository@));
    }
    Ok(())
}

/// Patch every `[target.<cfg>.dependencies]` table of one target table in
/// place, appending the revisions their matched entries pinned, in key
/// order.  Fails when a `cfg(..)` child or its `dependencies` entry is not
/// a table, or a matched entry has an unexpected shape.
fn patch_target_table(
    t: &mut toml_edit::Table,
    updates: &Vec<Update>,
    override_repository: &str,
    prev_revs: &mut Vec<String>,
) -> (r: Result<(), CargoTomlError>)
    ensures
        r is Ok <==> target_shapes_ok(*old(t), table_keys_of(*old(t)), 0, ups_view(updates@)),
        r is Err ==> r->Err_0 is UnexpectedShape,
        r is Ok ==> final(prev_revs).deep_view() == old(prev_revs).deep_view()
            + target_prev_revs(*old(t), table_keys_of(*old(t)), 0, ups_view(updates@)),
        r is Ok ==> forall|j: int|
            0 <= j < table_keys_of(*old(t)).len() ==> target_patched_at(
                *old(t),
                *final(t),
                #[trigger] table_keys_of(*old(t))[j],
                ups_view(updates@),
                override_repository@,
            ),
{
    let ghost t0 = *t;
    let ghost upsv = ups_view(updates@);
    proof {
        reveal_strlit("dependencies");
    }
    let cfg_keys = table_keys(t);
    let ghost cks = cfg_keys.deep_view();
    let ghost prevs0 = prev_revs.deep_view();
    let n = cfg_keys.len();
    let mut c: usize = 0;
    while c < n
        invariant
            c <= n,
            n == cfg_keys@.len(),
            cks == cfg_keys.deep_view(),
            cks == table_keys_of(t0),
            t0 == *old(t),
            prevs0 == old(prev_revs).deep_view(),
            upsv == ups_view(updates@),
            forall|i2: int, j2: int|
                0 <= i2 < j2 < cks.len() ==> #[trigger] cks[i2] != #[trigger] cks[j2],
            target_shapes_ok(t0, cks, 0, upsv) == target_shapes_ok(t0, cks, c as int, upsv),
            prevs0 + target_prev_revs(t0, cks, 0, upsv) =~= prev_revs.deep_view()
                + target_prev_revs(t0, cks, c as int, upsv),
            forall|j2: int|
                c <= j2 < n ==> #[trigger] table_str_of(*t, cks[j2]) == table_str_of(t0, cks[j2])
                    && sub_table_of(*t, cks[j2]) == sub_table_of(t0, cks[j2]) && entry_table_of(
                    *t,
                    cks[j2],
                ) == entry_table_of(t0, cks[j2]),
            forall|j2: int| c <= j2 < n ==> table_keys_of(*t).contains(#[trigger] cks[j2]),
            forall|j2: int|
                0 <= j2 < c ==> target_patched_at(
                    t0,
                    *t,
                    #[trigger] cks[j2],
                    upsv,
                    override_repository@,
                ),
        decreases n - c,
    {
        proof {
            assert(cks[c as int] == cfg_keys@[c as int]@);
        }
        let ck = &cfg_keys[c];
        if starts_with(ck.as_str(), "cfg(") {
            let ghost ctbl0 = sub_table_of(t0, cks[c as int]);
            let ghost keys_before = table_keys_of(*t);
            proof {
                assert(table_str_of(*t, cks[c as int]) == table_str_of(t0, cks[c as int]));
                assert(sub_table_of(*t, cks[c as int]) == ctbl0);
            }
            let pair = table_remove_entry(t, ck.as_str());
            let (ckey, citem) = match pair {
                Some(p) => p,
                None => {
                    proof {
                        assert(false);
                    }
                    return Err(CargoTomlError::UnexpectedShape);
                },
            };
            match toml_edit::Item::into_table(citem) {
                Ok(ctbl) => {
                    proof {
                        assert(ctbl0 == Some(ctbl));
                    }
                    let mut ctbl = ctbl;
                    let dep_keys = table_keys(&ctbl);
                    if vec_contains_str(&dep_keys, "dependencies") {
                        let ghost dsub = sub_table_of(ctbl0->0, "dependencies"@);
                        let dpair = table_remove_entry(&mut ctbl, "dependencies");
                        let (dkey, ditem) = match dpair {
                            Some(p) => p,
                            None => {
                                proof {
                                    assert(false);
                                }
                                return Err(CargoTomlError::UnexpectedShape);
                            },
                        };
                        match toml_edit::Item::into_table(ditem) {
                            Ok(dtbl) => {
                                let mut dtbl = dtbl;
                                proof {
                                    assert(dsub == Some(dtbl));
                                }
                                match patch_dep_table(
                                    &mut dtbl,
                                    updates,
                                    override_repository,
                                    prev_revs,
                                ) {
                                    Ok(()) => {
                                        table_insert_table_formatted(&mut ctbl, &dkey, dtbl);
                                        table_insert_table_formatted(t, &ckey, ctbl);
                                    },
                                    Err(e) => {
                                        proof {
                                            assert(!cfg_shapes_ok(ctbl0->0, upsv));
                                            assert(!target_shapes_ok(t0, cks, c as int, upsv));
                                        }
                                        return Err(e);
                                    },
                                }
                            },
                            Err(_orig) => {
                                proof {
                                    assert(dsub is None);
                                    assert(!cfg_shapes_ok(ctbl0->0, upsv));
                                    assert(!target_shapes_ok(t0, cks, c as int, upsv));
                                }
                                return Err(CargoTomlError::UnexpectedShape);
                            },
                        }
                    } else {
                        proof {
                            assert(cfg_shapes_ok(ctbl0->0, upsv));
                            assert(cfg_prev_revs(ctbl0->0, upsv) =~= Seq::<Seq<char>>::empty());
                        }
                        table_insert_table_formatted(t, &ckey, ctbl);
                    }
                },
                Err(_orig) => {
                    proof {
                        assert(ctbl0 is None);
                        assert(!target_shapes_ok(t0, cks, c as int, upsv));
                    }
                    return Err(CargoTomlError::UnexpectedShape);
                },
            }
            proof {
                assert forall|j2: int| c + 1 <= j2 < n implies table_keys_of(*t).contains(
                    #[trigger] cks[j2],
                ) by {
                    lemma_remove_key_contains(keys_before, cks[c as int], cks[j2]);
                    lemma_with_key_contains(
                        remove_key(keys_before, cks[c as int]),
                        cks[c as int],
                        cks[j2],
                    );
                }
            }
        }
        c = c + 1;
    }
    proof {
        assert(prev_revs.deep_view() =~= prevs0 + target_prev_revs(t0, cks, 0, upsv));
    }
    Ok(())
}

/// What one key of the root table looks like after a patch: the
/// `dependencies` table is patched per [`deps_table_patched`]; a `target*`
/// table is patched key by key per [`target_patched_at`]; every other key
/// keeps all its projections.
pub open spec fn doc_patched_at(
    root0: toml_edit::Table,
    root1: toml_edit::Table,
    k: Seq<char>,
    ups: Seq<UpdateV>,
    ov: Seq<char>,
) -> bool {
    if k == "dependencies"@ {
        match sub_table_of(root0, k) {
            Some(d0) => (sub_table_of(root1, k) matches Some(d1) && deps_table_patched(
                d0,
                d1,
                ups,
                ov,
            )),
            None => true,
        }
    } else if ("target"@).is_prefix_of(k) {
        match sub_table_of(root0, k) {
            Some(t0) => (sub_table_of(root1, k) matches Some(t1) && forall|j: int|
                0 <= j < table_keys_of(t0).len() ==> target_patched_at(
                    t0,
                    t1,
                    #[trigger] table_keys_of(t0)[j],
                    ups,
                    ov,
                )),
            None => true,
        }
    } else {
        table_str_of(root1, k) == table_str_of(root0, k) && sub_table_of(root1, k)
            == sub_table_of(root0, k) && entry_table_of(root1, k) == entry_table_of(root0, k)
    }
}

/// Patch a whole parsed manifest in place: the top-level `[dependencies]`
/// table and every `[target.<cfg>.dependencies]` table, in document order.
///
/// With an empty update list nothing is walked and the document is
/// untouched.  Otherwise the patch fails — without stating anything about
/// the partially walked document — when a dependency table is not a table
/// or a matched entry has an unexpected shape; on success it returns the
/// revisions the matched entries pinned, in document order.
pub fn patch_manifest(
    doc: &mut toml_edit::Document,
    updates: &Vec<Update>,
    override_repository: &str,
) -> (r: Result<Vec<String>, CargoTomlError>)
    ensures
        r is Ok <==> doc_shapes_ok(root_table_of(*old(doc)), ups_view(updates@)),
        r is Err ==> r->Err_0 is UnexpectedShape,
        r is Ok ==> (r->Ok_0).deep_view() == doc_prev_revs(
            root_table_of(*old(doc)),
            ups_view(updates@),
        ),
        updates@.len() == 0 ==> r is Ok && *final(doc) == *old(doc),
        (r is Ok && updates@.len() > 0) ==> forall|j: int|
            0 <= j < table_keys_of(root_table_of(*old(doc))).len() ==> doc_patched_at(
                root_table_of(*old(doc)),
                root_table_of(*final(doc)),
                #[trigger] table_keys_of(root_table_of(*old(doc)))[j],
                ups_view(updates@),
                override_repository@,
            ),
{
    let ghost root0 = root_table_of(*doc);
    let ghost upsv = ups_view(updates@);
    let mut prevs: Vec<String> = Vec::new();
    if updates.len() == 0 {
        proof {
            assert(prevs.deep_view() =~= doc_prev_revs(root0, upsv));
        }
        return Ok(prevs);
    }
    proof {
        reveal_strlit("dependencies");
    }
    let root_keys = table_keys(document_root(doc));
    let ghost ks0 = root_keys.deep_view();
    let n = root_keys.len();
    let mut i: usize = 0;
    while i < n
        invariant
            i <= n,
            n == root_keys@.len(),
            ks0 == root_keys.deep_view(),
            root0 == root_table_of(*old(doc)),
            ks0 == table_keys_of(root0),
            upsv == ups_view(updates@),
            upsv.len() > 0,
            forall|i2: int, j2: int|
                0 <= i2 < j2 < ks0.len() ==> #[trigger] ks0[i2] != #[trigger] ks0[j2],
            doc_shapes_ok_from(root0, ks0, 0, upsv) == doc_shapes_ok_from(
                root0,
                ks0,
                i as int,
                upsv,
            ),
            doc_prev_revs_from(root0, ks0, 0, upsv) =~= prevs.deep_view() + doc_prev_revs_from(
                root0,
                ks0,
                i as int,
                upsv,
            ),
            forall|j2: int|
                i <= j2 < n ==> #[trigger] table_str_of(root_table_of(*doc), ks0[j2])
                    == table_str_of(root0, ks0[j2]) && sub_table_of(root_table_of(*doc), ks0[j2])
                    == sub_table_of(root0, ks0[j2]) && entry_table_of(
                    root_table_of(*doc),
                    ks0[j2],
                ) == entry_table_of(root0, ks0[j2]),
            forall|j2: int|
                i <= j2 < n ==> table_keys_of(root_table_of(*doc)).contains(#[trigger] ks0[j2]),
            forall|j2: int|
                0 <= j2 < i ==> doc_patched_at(
                    root0,
                    root_table_of(*doc),
                    #[trigger] ks0[j2],
                    upsv,
                    override_repository@,
                ),
        decreases n - i,
    {
        proof {
            assert(ks0[i as int] == root_keys@[i as int]@);
        }
        let key = &root_keys[i];
        if str_eq(key.as_str(), "dependencies") {
            let ghost dsub = sub_table_of(root0, ks0[i as int]);
            let ghost keys_before = table_keys_of(root_table_of(*doc));
            proof {
                assert(table_str_of(root_table_of(*doc), ks0[i as int]) == table_str_of(
                    root0,
                    ks0[i as int],
                ));
                assert(sub_table_of(root_table_of(*doc), ks0[i as int]) == dsub);
            }
            let pair = document_remove_entry(doc, key.as_str());
            let (dkey, ditem) = match pair {
                Some(p) => p,
                None => {
                    proof {
                        assert(false);
                    }
                    return Err(CargoTomlError::UnexpectedShape);
                },
            };
            match toml_edit::Item::into_table(ditem) {
                Ok(dtbl) => {
                    let mut dtbl = dtbl;
                    proof {
                        assert(dsub == Some(dtbl));
                    }
                    match patch_dep_table(&mut dtbl, updates, override_repository, &mut prevs) {
                        Ok(()) => {
                            document_insert_table_formatted(doc, &dkey, dtbl);
                        },
                        Err(e) => {
                            proof {
                                assert(!doc_shapes_ok_from(root0, ks0, i as int, upsv));
                            }
                            document_insert_table_formatted(doc, &dkey, dtbl);
                            return Err(e);
                        },
                    }
                },
                Err(orig) => {
                    proof {
                        assert(dsub is None);
                        assert(!doc_shapes_ok_from(root0, ks0, i as int, upsv));
                    }
                    document_insert_item_formatted(doc, &dkey, orig);
                    return Err(CargoTomlError::UnexpectedShape);
                },
            }
            proof {
                assert forall|j2: int| i + 1 <= j2 < n implies table_keys_of(
                    root_table_of(*doc),
                ).contains(#[trigger] ks0[j2]) by {
                    lemma_remove_key_contains(keys_before, ks0[i as int], ks0[j2]);
                    lemma_with_key_contains(
                        remove_key(keys_before, ks0[i as int]),
                        ks0[i as int],
                        ks0[j2],
                    );
                }
            }
        } else if starts_with(key.as_str(), "target") {
            let ghost tsub = sub_table_of(root0, ks0[i as int]);
            let ghost keys_before = table_keys_of(root_table_of(*doc));
            proof {
                assert(table_str_of(root_table_of(*doc), ks0[i as int]) == table_str_of(
                    root0,
                    ks0[i as int],
                ));
                assert(sub_table_of(root_table_of(*doc), ks0[i as int]) == tsub);
            }
            let pair = document_remove_entry(doc, key.as_str());
            let (tkey, titem) = match pair {
                Some(p) => p,
                None => {
                    proof {
                        assert(false);
                    }
                    return Err(CargoTomlError::UnexpectedShape);
                },
            };
            match toml_edit::Item::into_table(titem) {
                Ok(ttbl) => {
                    let mut ttbl = ttbl;
                    proof {
                        assert(tsub == Some(ttbl));
                    }
                    match patch_target_table(&mut ttbl, updates, override_repository, &mut prevs) {
                        Ok(()) => {
                            document_insert_table_formatted(doc, &tkey, ttbl);
                        },
                        Err(e) => {
                            proof {
                                assert(!doc_shapes_ok_from(root0, ks0, i as int, upsv));
                            }
                            document_insert_table_formatted(doc, &tkey, ttbl);
                            return Err(e);
                        },
                    }
                },
                Err(orig) => {
                    proof {
                        assert(tsub is None);
                        assert(!doc_shapes_ok_from(root0, ks0, i as int, upsv));
                    }
                    document_insert_item_formatted(doc, &tkey, orig);
                    return Err(CargoTomlError::UnexpectedShape);
                },
            }
            proof {
                assert forall|j2: int| i + 1 <= j2 < n implies table_keys_of(
                    root_table_of(*doc),
                ).contains(#[trigger] ks0[j2]) by {
                    lemma_remove_key_contains(keys_before, ks0[i as int], ks0[j2]);
                    lemma_with_key_contains(
                        remove_key(keys_before, ks0[i as int]),
                        ks0[i as int],
                        ks0[j2],
                    );
                }
            }
        }
        i = i + 1;
    }
    proof {
        assert(prevs.deep_view() =~= doc_prev_revs(root0, upsv));
    }
    Ok(prevs)
}

/// A whole document was patched: every root key of the parsed input
/// relates to the result as [`doc_patched_at`] says.
pub open spec fn manifest_patched(
    root0: toml_edit::Table,
    d: toml_edit::Document,
    ups: Seq<UpdateV>,
    ov: Seq<char>,
) -> bool {
    forall|j: int|
        0 <= j < table_keys_of(root0).len() ==> doc_patched_at(
            root0,
            root_table_of(d),
            #[trigger] table_keys_of(root0)[j],
            ups,
            ov,
        )
}

/// The outcome of a structured patch: the serialized document and the
/// revisions the matched entries pinned before the rewrite, in document
/// order.
pub struct CargoTomlPatch {
    pub text: String,
    pub previous_revs: Vec<String>,
}

/// Patch a `Cargo.toml` by rebuilding whole dependency entries.
///
/// Parses the input, patches it per [`patch_manifest`] (whose contract
/// states the rewrite over the tree's projections), and serializes the
/// result.  Fails with `Parse` exactly when the input is not TOML and with
/// `UnexpectedShape` exactly when the document's shapes defeat the walk;
/// with an empty update list the output is the parsed document serialized
/// back, with no revisions reported.
pub fn update_cargo_toml(input: &str, updates: &Vec<Update>, override_repository: &str) -> (r:
    Result<CargoTomlPatch, CargoTomlError>)
    ensures
        (r matches Err(e) && e is Parse) <==> !toml_parse_ok(input@),
        toml_parse_ok(input@) ==> ((r matches Err(e) && e is UnexpectedShape) <==> !doc_shapes_ok(
            root_table_of(parsed_doc(input@)),
            ups_view(updates@),
        )),
        r is Ok ==> (r->Ok_0).previous_revs.deep_view() == doc_prev_revs(
            root_table_of(parsed_doc(input@)),
            ups_view(updates@),
        ),
        (r is Ok && updates@.len() == 0) ==> (r->Ok_0).text@ == doc_text(parsed_doc(input@)) && (
        r->Ok_0).previous_revs@.len() == 0,
        updates@.len() == 0 ==> (r is Ok <==> toml_parse_ok(input@)),
        (r is Ok && updates@.len() > 0) ==> (exists|d: toml_edit::Document|
            manifest_patched(
                root_table_of(parsed_doc(input@)),
                d,
                ups_view(updates@),
                override_repository@,
            ) && (r->Ok_0).text@ == #[trigger] doc_text(d)),
{
    let mut doc = match parse_document(input) {
        Some(d) => d,
        None => {
            return Err(CargoTomlError::Parse);
        },
    };
    let ghost doc0 = doc;
    match patch_manifest(&mut doc, updates, override_repository) {
        Ok(prevs) => {
            let text = document_to_string(&doc);
            proof {
                assert(doc0 == parsed_doc(input@));
                if updates@.len() == 0 {
                    assert(doc == doc0);
                    assert(prevs.deep_view() =~= Seq::<Seq<char>>::empty());
                    assert(prevs@.len() == prevs.deep_view().len());
                } else {
                    assert(manifest_patched(
                        root_table_of(parsed_doc(input@)),
                        doc,
                        ups_view(updates@),
                        override_repository@,
                    ) && text@ == doc_text(doc));
                }
            }
            Ok(CargoTomlPatch { text: text, previous_revs: prevs })
        },
        Err(e) => Err(e),
    }
}

} // verus!
