use crate::error::SetVersionError;
use toml_edit::DocumentMut;
use vstd::prelude::*;

verus! {

#[verifier::external_type_specification]
#[verifier::external_body]
pub struct ExDocumentMut(toml_edit::DocumentMut);

/// What a manifest entry holds, as far as version rewriting is concerned.
pub enum EntryView {
    /// A bare string, such as `a = "1.0.0"`.
    Text(Seq<char>),
    /// An inline table, such as `a = { path = "../a", version = "1.0.0" }`,
    /// given by its string-valued keys.
    Inline(Map<Seq<char>, Seq<char>>),
    /// Anything else.
    Other,
}

/// A top-level item of a manifest: a table (standard or inline) with its
/// entries, or anything else.
pub enum TopView {
    Table(Map<Seq<char>, EntryView>),
    Other,
}

/// The top-level items of a document, by key.
pub uninterp spec fn document_view(d: DocumentMut) -> Map<Seq<char>, TopView>;

/// The text a document serialises to.
pub uninterp spec fn document_text(d: DocumentMut) -> Seq<char>;

/// The items toml_edit reads from a text, or `None` where it refuses it.
pub uninterp spec fn toml_parsed(s: Seq<char>) -> Option<Map<Seq<char>, TopView>>;

/// The shape of an entry, as the rewrite distinguishes it.
#[derive(PartialEq, Eq, Structural)]
pub enum EntryShape {
    Text,
    Inline,
    Other,
}

pub open spec fn shape_of(e: EntryView) -> EntryShape {
    match e {
        EntryView::Text(_) => EntryShape::Text,
        EntryView::Inline(_) => EntryShape::Inline,
        EntryView::Other => EntryShape::Other,
    }
}

pub open spec fn string_views(v: Seq<String>) -> Seq<Seq<char>> {
    v.map_values(|s: String| s@)
}

pub open spec fn table_of(d: Map<Seq<char>, TopView>, t: Seq<char>) -> Map<Seq<char>, EntryView> {
    match d[t] {
        TopView::Table(m) => m,
        TopView::Other => Map::empty(),
    }
}

pub open spec fn is_table(d: Map<Seq<char>, TopView>, t: Seq<char>) -> bool {
    d.contains_key(t) && d[t] is Table
}

/// Relies on toml_edit's `FromStr` for `DocumentMut`, which parses a manifest
/// and keeps its layout. The error is toml_edit's message.
#[verifier::external_body]
fn parse_document(text: &str) -> (r: Result<DocumentMut, String>)
    ensures
        match r {
            Ok(d) => toml_parsed(text@) == Some(document_view(d)),
            Err(_) => toml_parsed(text@) is None,
        },
{
    match text.parse::<DocumentMut>() {
        Ok(d) => Ok(d),
        Err(e) => Err(e.to_string()),
    }
}

/// Relies on toml_edit's `Display` for `DocumentMut`.
#[verifier::external_body]
fn render_document(d: &DocumentMut) -> (r: String)
    ensures
        r@ == document_text(*d),
{
    d.to_string()
}

/// Relies on toml_edit's `Table::contains_key` on the document's root table.
#[verifier::external_body]
fn has_top_key(d: &DocumentMut, key: &str) -> (r: bool)
    ensures
        r == document_view(*d).contains_key(key@),
{
    d.contains_key(key)
}

/// Relies on toml_edit's `Item::as_table_like` and `TableLike::iter`: the keys
/// of a top-level table, each once, or `None` where the item is missing or no
/// table.
#[verifier::external_body]
fn table_keys(d: &DocumentMut, table: &str) -> (r: Option<Vec<String>>)
    ensures
        r is Some <==> is_table(document_view(*d), table@),
        r matches Some(ks) ==> string_views(ks@).no_duplicates()
            && string_views(ks@).to_set() == table_of(document_view(*d), table@).dom(),
{
    d.get(table).and_then(|i| i.as_table_like()).map(|t| t.iter().map(|(k, _)| k.to_string()).collect())
}

/// Relies on toml_edit's `Item::get`, `Item::is_inline_table` and
/// `Item::is_str`.
#[verifier::external_body]
fn entry_shape(d: &DocumentMut, table: &str, key: &str) -> (r: EntryShape)
    requires
        is_table(document_view(*d), table@),
        table_of(document_view(*d), table@).contains_key(key@),
    ensures
        r == shape_of(table_of(document_view(*d), table@)[key@]),
{
    match d.get(table).and_then(|t| t.get(key)) {
        Some(i) if i.is_inline_table() => EntryShape::Inline,
        Some(i) if i.is_str() => EntryShape::Text,
        _ => EntryShape::Other,
    }
}

/// Relies on toml_edit's `Item::get_mut`, which finds or adds the entry of a
/// table, and on `toml_edit::value`: the entry becomes the string `value`.
#[verifier::external_body]
fn set_text_entry(d: &mut DocumentMut, table: &str, key: &str, value: &str)
    requires
        is_table(document_view(*old(d)), table@),
    ensures
        document_view(*final(d)) == document_view(*old(d)).insert(
            table@,
            TopView::Table(table_of(document_view(*old(d)), table@).insert(key@, EntryView::Text(value@))),
        ),
{
    if let Some(item) = d.get_mut(table).and_then(|t| t.get_mut(key)) {
        *item = toml_edit::value(value);
    }
}

/// Relies on toml_edit's `Item::as_inline_table_mut` and
/// `InlineTable::insert`: the inline table's `field` becomes the string
/// `value`, and its other keys stay.
#[verifier::external_body]
fn set_inline_field(d: &mut DocumentMut, table: &str, key: &str, field: &str, value: &str)
    requires
        is_table(document_view(*old(d)), table@),
        table_of(document_view(*old(d)), table@).contains_key(key@),
        table_of(document_view(*old(d)), table@)[key@] is Inline,
    ensures
        document_view(*final(d)) == document_view(*old(d)).insert(
            table@,
            TopView::Table(table_of(document_view(*old(d)), table@).insert(
                key@,
                EntryView::Inline(table_of(document_view(*old(d)), table@)[key@]->Inline_0.insert(field@, value@)),
            )),
        ),
{
    if let Some(t) = d.get_mut(table).and_then(|t| t.get_mut(key)).and_then(|i| i.as_inline_table_mut()) {
        t.insert(field, toml_edit::Value::from(value));
    }
}

/// A dependency entry after the rewrite: a bare string becomes `v`, an
/// inline table gets `version = v`, anything else stays.
pub open spec fn updated_entry(e: EntryView, v: Seq<char>) -> EntryView {
    match e {
        EntryView::Text(_) => EntryView::Text(v),
        EntryView::Inline(f) => EntryView::Inline(f.insert("version"@, v)),
        EntryView::Other => EntryView::Other,
    }
}

/// A dependency table after the rewrite: the entries named after a member
/// are rewritten, the others stay.
pub open spec fn updated_dependencies(m: Map<Seq<char>, EntryView>, members: Seq<Seq<char>>, v: Seq<char>) -> Map<Seq<char>, EntryView> {
    Map::new(
        |k: Seq<char>| m.contains_key(k),
        |k: Seq<char>| if members.contains(k) { updated_entry(m[k], v) } else { m[k] },
    )
}

pub open spec fn is_dependency_table(k: Seq<char>) -> bool {
    k == "dependencies"@ || k == "dev-dependencies"@ || k == "build-dependencies"@
}

/// A top-level item after the rewrite: the package table's `version` becomes
/// `v`, the dependency tables are rewritten, everything else stays.
pub open spec fn updated_top(k: Seq<char>, t: TopView, members: Seq<Seq<char>>, v: Seq<char>) -> TopView {
    match t {
        TopView::Table(m) => if k == "package"@ {
            TopView::Table(m.insert("version"@, EntryView::Text(v)))
        } else if is_dependency_table(k) {
            TopView::Table(updated_dependencies(m, members, v))
        } else {
            t
        },
        TopView::Other => t,
    }
}

/// A whole manifest after the rewrite to version `v`.
pub open spec fn updated_manifest(d: Map<Seq<char>, TopView>, members: Seq<Seq<char>>, v: Seq<char>) -> Map<Seq<char>, TopView> {
    Map::new(|k: Seq<char>| d.contains_key(k), |k: Seq<char>| updated_top(k, d[k], members, v))
}

/// Whether a dependency table holds a rewritable entry for some member.
pub open spec fn names_member(m: Map<Seq<char>, EntryView>, members: Seq<Seq<char>>) -> bool {
    exists|k: Seq<char>| m.contains_key(k) && members.contains(k) && !(m[k] is Other)
}

pub open spec fn table_names_member(d: Map<Seq<char>, TopView>, t: Seq<char>, members: Seq<Seq<char>>) -> bool {
    is_table(d, t) && names_member(table_of(d, t), members)
}

/// Whether the rewrite touches the manifest at all.
pub open spec fn manifest_changes(d: Map<Seq<char>, TopView>, members: Seq<Seq<char>>) -> bool {
    ||| is_table(d, "package"@)
    ||| table_names_member(d, "dependencies"@, members)
    ||| table_names_member(d, "dev-dependencies"@, members)
    ||| table_names_member(d, "build-dependencies"@, members)
}

/// What rewriting manifest text `s` to version `v` gives: a parse error, a
/// missing package table, no change, or the new text.
pub open spec fn rewrite_outcome(
    s: Seq<char>,
    members: Seq<Seq<char>>,
    v: Seq<char>,
    r: Result<Option<String>, SetVersionError>,
) -> bool {
    match toml_parsed(s) {
        None => r matches Err(SetVersionError::ManifestParse { .. }),
        Some(d) => if !d.contains_key("package"@) {
            r matches Err(SetVersionError::MissingPackageTable)
        } else if !manifest_changes(d, members) {
            r matches Ok(None)
        } else {
            r matches Ok(Some(t)) && exists|doc: DocumentMut|
                document_view(doc) == updated_manifest(d, members, v) && #[trigger] document_text(doc) == t@
        },
    }
}

/// Whether `name` is one of `members`.
pub fn is_member(members: &Vec<String>, name: &String) -> (r: bool)
    ensures
        r == string_views(members@).contains(name@),
{
    let mut i: usize = 0;
    while i < members.len()
        invariant
            i <= members@.len(),
            forall|j: int| 0 <= j < i ==> members@[j]@ != name@,
        decreases members@.len() - i,
    {
        if members[i] == *name {
            assert(string_views(members@)[i as int] == name@);
            return true;
        }
        i += 1;
    }
    assert(!string_views(members@).contains(name@));
    false
}

/// The entries of `m` with the keys in `done` rewritten where they name a member.
pub open spec fn partly_updated(
    m: Map<Seq<char>, EntryView>,
    done: Seq<Seq<char>>,
    members: Seq<Seq<char>>,
    v: Seq<char>,
) -> Map<Seq<char>, EntryView> {
    Map::new(
        |k: Seq<char>| m.contains_key(k),
        |k: Seq<char>| if members.contains(k) && done.contains(k) { updated_entry(m[k], v) } else { m[k] },
    )
}

/// Rewrites the member entries of one dependency table; says whether any was
/// rewritten.
fn rewrite_dependency_table(d: &mut DocumentMut, table: &str, new_version: &str, members: &Vec<String>) -> (dirty: bool)
    ensures
        !is_table(document_view(*old(d)), table@) ==> document_view(*final(d)) == document_view(*old(d)) && !dirty,
        is_table(document_view(*old(d)), table@) ==> document_view(*final(d)) == document_view(*old(d)).insert(
            table@,
            TopView::Table(updated_dependencies(table_of(document_view(*old(d)), table@), string_views(members@), new_version@)),
        ),
        dirty == table_names_member(document_view(*old(d)), table@, string_views(members@)),
{
    let ghost d0 = document_view(*d);
    let ghost m = table_of(d0, table@);
    let ghost names = string_views(members@);
    let ghost v = new_version@;
    match table_keys(d, table) {
        None => false,
        Some(keys) => {
            let ghost ks = string_views(keys@);
            let mut dirty = false;
            let mut i: usize = 0;
            assert(d0.insert(table@, TopView::Table(partly_updated(m, ks.subrange(0, 0), names, v))) =~= d0) by {
                assert(partly_updated(m, ks.subrange(0, 0), names, v) =~= m);
            }
            while i < keys.len()
                invariant
                    i <= keys@.len(),
                    ks == string_views(keys@),
                    names == string_views(members@),
                    v == new_version@,
                    d0 == document_view(*old(d)),
                    ks.no_duplicates(),
                    ks.to_set() == m.dom(),
                    is_table(d0, table@),
                    m == table_of(d0, table@),
                    document_view(*d) == d0.insert(table@, TopView::Table(partly_updated(m, ks.subrange(0, i as int), names, v))),
                    dirty == exists|j: int| 0 <= j < i && names.contains(ks[j]) && !(m[ks[j]] is Other),
                decreases keys@.len() - i,
            {
                let ghost done = ks.subrange(0, i as int);
                let ghost next = ks.subrange(0, i as int + 1);
                let key = &keys[i];
                assert(ks[i as int] == key@);
                assert(ks.to_set().contains(ks[i as int]));
                assert(!done.contains(key@)) by {
                    if done.contains(key@) {
                        let j = choose|j: int| 0 <= j < done.len() && #[trigger] done[j] == key@;
                        assert(ks[j] == ks[i as int]);
                    }
                }
                assert forall|k: Seq<char>| #[trigger] next.contains(k) <==> done.contains(k) || k == key@ by {
                    if next.contains(k) {
                        let j = choose|j: int| 0 <= j < next.len() && #[trigger] next[j] == k;
                        if j < i {
                            assert(done[j] == k);
                        }
                    }
                    if done.contains(k) {
                        let j = choose|j: int| 0 <= j < done.len() && #[trigger] done[j] == k;
                        assert(next[j] == k);
                    }
                    if k == key@ {
                        assert(next[i as int] == k);
                    }
                }
                let ghost before = partly_updated(m, done, names, v);
                let ghost after = partly_updated(m, next, names, v);
                assert(m.contains_key(key@));
                assert(before[key@] == m[key@]);
                assert(table_of(document_view(*d), table@) == before);
                assert forall|k: Seq<char>| k != key@ implies #[trigger] after.contains_key(k) == before.contains_key(k)
                    && (after.contains_key(k) ==> after[k] == before[k]) by {
                    if after.contains_key(k) {
                        assert(next.contains(k) == done.contains(k));
                    }
                }
                assert(next.contains(key@));
                if is_member(members, key) {
                    proof { reveal_strlit("version"); }
                    match entry_shape(d, table, key.as_str()) {
                        EntryShape::Inline => {
                            set_inline_field(d, table, key.as_str(), "version", new_version);
                            dirty = true;
                            assert(before.insert(key@, updated_entry(m[key@], v)) =~= after);
                        },
                        EntryShape::Text => {
                            set_text_entry(d, table, key.as_str(), new_version);
                            dirty = true;
                            assert(before.insert(key@, updated_entry(m[key@], v)) =~= after);
                        },
                        EntryShape::Other => {
                            assert(before =~= after);
                        },
                    }
                } else {
                    assert(!names.contains(key@));
                    assert(before =~= after);
                }
                proof {
                    assert(document_view(*d) =~= d0.insert(table@, TopView::Table(after)));
                }
                i += 1;
            }
            proof {
                assert(ks.subrange(0, keys@.len() as int) == ks);
                assert(partly_updated(m, ks, names, v) =~= updated_dependencies(m, names, v));
                if names_member(m, names) {
                    let k = choose|k: Seq<char>| m.contains_key(k) && names.contains(k) && !(m[k] is Other);
                    assert(ks.to_set().contains(k));
                    let j = choose|j: int| 0 <= j < ks.len() && ks[j] == k;
                }
                if dirty {
                    let j = choose|j: int| 0 <= j < keys@.len() && names.contains(ks[j]) && !(m[ks[j]] is Other);
                    assert(ks.to_set().contains(ks[j]));
                }
            }
            dirty
        },
    }
}

/// Rewrites a parsed manifest to version `new_version`: the package table's
/// own version, and every entry of the three dependency tables that names one
/// of `members`. Fails, leaving the document as it was, where the manifest has
/// no `package` item. Says whether anything was rewritten.
pub fn update_document(d: &mut DocumentMut, new_version: &str, members: &Vec<String>) -> (r: Result<bool, SetVersionError>)
    ensures
        match r {
            Ok(dirty) => document_view(*old(d)).contains_key("package"@)
                && document_view(*final(d)) == updated_manifest(document_view(*old(d)), string_views(members@), new_version@)
                && dirty == manifest_changes(document_view(*old(d)), string_views(members@)),
            Err(e) => !document_view(*old(d)).contains_key("package"@)
                && e is MissingPackageTable && *final(d) == *old(d),
        },
{
    let ghost d0 = document_view(*d);
    let ghost names = string_views(members@);
    let ghost v = new_version@;
    if !has_top_key(d, "package") {
        return Err(SetVersionError::MissingPackageTable);
    }
    proof {
        reveal_strlit("package");
        reveal_strlit("dependencies");
        reveal_strlit("dev-dependencies");
        reveal_strlit("build-dependencies");
        assert("package"@[0] != "dependencies"@[0] && "package"@[0] != "dev-dependencies"@[0]);
        assert("package"@[0] != "build-dependencies"@[0] && "dependencies"@[0] != "build-dependencies"@[0]);
        assert("dependencies"@[2] != "dev-dependencies"@[2] && "dev-dependencies"@[0] != "build-dependencies"@[0]);
    }
    let mut dirty = false;
    if table_keys(d, "package").is_some() {
        set_text_entry(d, "package", "version", new_version);
        dirty = true;
    }
    let ghost d1 = document_view(*d);
    assert(table_of(d1, "dependencies"@) == table_of(d0, "dependencies"@));
    let a = rewrite_dependency_table(d, "dependencies", new_version, members);
    let ghost d2 = document_view(*d);
    assert(table_of(d2, "dev-dependencies"@) == table_of(d0, "dev-dependencies"@));
    let b = rewrite_dependency_table(d, "dev-dependencies", new_version, members);
    let ghost d3 = document_view(*d);
    assert(table_of(d3, "build-dependencies"@) == table_of(d0, "build-dependencies"@));
    let c = rewrite_dependency_table(d, "build-dependencies", new_version, members);
    proof {
        reveal_strlit("version");
        assert(document_view(*d) =~= updated_manifest(d0, names, v));
    }
    Ok(dirty || a || b || c)
}

/// Rewrites manifest text `text` to version `new_version`, as
/// [`update_document`] does, and gives the new text where anything changed.
pub fn update_manifest(text: &str, new_version: &str, members: &Vec<String>) -> (r: Result<Option<String>, SetVersionError>)
    ensures
        rewrite_outcome(text@, string_views(members@), new_version@, r),
{
    let mut d = match parse_document(text) {
        Ok(d) => d,
        Err(reason) => return Err(SetVersionError::ManifestParse { reason }),
    };
    match update_document(&mut d, new_version, members) {
        Err(e) => Err(e),
        Ok(false) => Ok(None),
        Ok(true) => Ok(Some(render_document(&d))),
    }
}

} // verus!
