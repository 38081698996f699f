//! The human-readable listing of the interpreters found on the machine.

use vstd::prelude::*;
use vstd::multiset::Multiset;
use vstd::seq_lib::lemma_multiset_commutative;
use crate::error::{Error, ErrorModel};
use crate::version::{version_text, ExactVersion, RequestedVersion};

verus! {

/// One found interpreter: its version and its path.
pub type Entry = (ExactVersion, Seq<char>);

pub open spec fn version_le(a: ExactVersion, b: ExactVersion) -> bool {
    a.major < b.major || (a.major == b.major && a.minor <= b.minor)
}

/// Puts `e` into `s`, which runs from the highest version down, before the
/// first entry whose version is not higher than its own.
pub open spec fn insert_desc(e: Entry, s: Seq<Entry>) -> Seq<Entry>
    decreases s.len(),
{
    if s.len() == 0 {
        seq![e]
    } else if version_le(s[0].0, e.0) {
        seq![e] + s
    } else {
        seq![s[0]] + insert_desc(e, s.drop_first())
    }
}

/// The entries from the highest version down.
pub open spec fn sort_desc(s: Seq<Entry>) -> Seq<Entry>
    decreases s.len(),
{
    if s.len() == 0 {
        seq![]
    } else {
        insert_desc(s.last(), sort_desc(s.drop_last()))
    }
}

/// The rows of the listing: version text, then path.
pub open spec fn rows_of(s: Seq<Entry>) -> Seq<(Seq<char>, Seq<char>)> {
    s.map_values(|e: Entry| (version_text(e.0), e.1))
}

pub open spec fn entries_model(v: Seq<(ExactVersion, String)>) -> Seq<Entry> {
    v.map_values(|e: (ExactVersion, String)| (e.0, e.1@))
}

/// The text of a table of two columns, one row per pair, with no borders, no
/// header and a vertical line between the columns.
pub uninterp spec fn table_text(rows: Seq<(Seq<char>, Seq<char>)>) -> Seq<char>;

/// The listing of the given interpreters, or the error for an empty one.
pub open spec fn listing(s: Seq<Entry>) -> Result<Seq<char>, ErrorModel> {
    if s.len() == 0 {
        Err(ErrorModel::NoExecutableFound(RequestedVersion::Any))
    } else {
        Ok(table_text(rows_of(sort_desc(s))) + seq!['\n'])
    }
}

/// Relies on comfy_table's `Table`: `new`, `load_style` with the empty
/// `presets::NOTHING` style given a U+2502 junction between columns,
/// `add_rows`, and its `Display` text. Without its terminal feature the text
/// depends on the rows alone.
#[verifier::external_body]
fn render_table(rows: &Vec<(String, String)>) -> (r: String)
    ensures
        r@ == table_text(rows@.map_values(|row: (String, String)| (row.0@, row.1@))),
{
    let mut table = comfy_table::Table::new();
    table.load_style(
        comfy_table::presets::NOTHING.content_lines(
            comfy_table::ContentLineStyle::none().junction('\u{2502}'),
        ),
    );
    table.add_rows(rows.iter().map(|row| vec![row.0.clone(), row.1.clone()]));
    table.to_string()
}

/// The entries run from the highest version down.
pub open spec fn is_descending(s: Seq<Entry>) -> bool {
    forall|i: int, j: int| 0 <= i < j < s.len() ==> version_le(#[trigger] s[j].0, #[trigger] s[i].0)
}

/// No entry has a version above `b`.
pub open spec fn bounded_by(s: Seq<Entry>, b: ExactVersion) -> bool {
    forall|i: int| 0 <= i < s.len() ==> version_le(#[trigger] s[i].0, b)
}

proof fn lemma_insert_bounded(e: Entry, s: Seq<Entry>, b: ExactVersion)
    requires
        bounded_by(s, b),
        version_le(e.0, b),
    ensures
        bounded_by(insert_desc(e, s), b),
    decreases s.len(),
{
    if s.len() > 0 && !version_le(s[0].0, e.0) {
        let t = s.drop_first();
        lemma_insert_bounded(e, t, b);
        let r = insert_desc(e, t);
        assert forall|i: int| 0 <= i < insert_desc(e, s).len() implies version_le(
            #[trigger] insert_desc(e, s)[i].0,
            b,
        ) by {
            if i > 0 {
                assert(insert_desc(e, s)[i] == r[i - 1]);
            }
        }
    }
}

proof fn lemma_insert_desc(e: Entry, s: Seq<Entry>)
    requires
        is_descending(s),
    ensures
        is_descending(insert_desc(e, s)),
        insert_desc(e, s).to_multiset() == s.to_multiset().insert(e),
    decreases s.len(),
{
    broadcast use vstd::multiset::group_multiset_axioms, vstd::multiset::group_multiset_properties, vstd::seq_lib::group_to_multiset_ensures;

    if s.len() == 0 {
        assert(insert_desc(e, s) =~= seq![e]);
        assert(seq![e] =~= s.push(e));
    } else if version_le(s[0].0, e.0) {
        vstd::seq_lib::lemma_seq_union_to_multiset_commutative(seq![e], s);
        assert(s + seq![e] =~= s.push(e));
    } else {
        let t = s.drop_first();
        assert(is_descending(t)) by {
            assert forall|i: int, j: int| 0 <= i < j < t.len() implies version_le(
                #[trigger] t[j].0,
                #[trigger] t[i].0,
            ) by {
                assert(t[i] == s[i + 1] && t[j] == s[j + 1]);
            }
        }
        lemma_insert_desc(e, t);
        let r = insert_desc(e, t);
        assert(bounded_by(t, s[0].0)) by {
            assert forall|i: int| 0 <= i < t.len() implies version_le(#[trigger] t[i].0, s[0].0) by {
                assert(t[i] == s[i + 1]);
            }
        }
        lemma_insert_bounded(e, t, s[0].0);
        let whole = seq![s[0]] + r;
        assert forall|i: int, j: int| 0 <= i < j < whole.len() implies version_le(
            #[trigger] whole[j].0,
            #[trigger] whole[i].0,
        ) by {
            assert(whole[j] == r[j - 1]);
            if i > 0 {
                assert(whole[i] == r[i - 1]);
            }
        }
        lemma_multiset_commutative(seq![s[0]], r);
        lemma_multiset_commutative(seq![s[0]], t);
        assert(seq![s[0]] + t =~= s);
        assert(s.to_multiset().insert(e) =~= seq![s[0]].to_multiset().add(
            t.to_multiset().insert(e),
        ));
    }
}

/// The listing order holds every entry as often as the input does, from the
/// highest version down.
pub proof fn lemma_sort_desc(s: Seq<Entry>)
    ensures
        is_descending(sort_desc(s)),
        sort_desc(s).to_multiset() == s.to_multiset(),
    decreases s.len(),
{
    broadcast use vstd::multiset::group_multiset_axioms, vstd::multiset::group_multiset_properties, vstd::seq_lib::group_to_multiset_ensures;

    if s.len() == 0 {
        assert(s.to_multiset().len() == 0);
        assert(sort_desc(s).to_multiset().len() == 0);
        assert(s.to_multiset() =~= Multiset::<Entry>::empty());
        assert(sort_desc(s).to_multiset() =~= Multiset::<Entry>::empty());
    } else {
        lemma_sort_desc(s.drop_last());
        lemma_insert_desc(s.last(), sort_desc(s.drop_last()));
        assert(s.drop_last().push(s.last()) =~= s);
        vstd::seq_lib::to_multiset_build(s.drop_last(), s.last());
    }
}

/// Where `p` is the first place at which `e` may go, inserting there is
/// inserting in order.
proof fn lemma_insert_at(e: Entry, s: Seq<Entry>, p: int)
    requires
        0 <= p <= s.len(),
        forall|j: int| 0 <= j < p ==> !version_le(#[trigger] s[j].0, e.0),
        p < s.len() ==> version_le(s[p].0, e.0),
    ensures
        insert_desc(e, s) == s.take(p) + seq![e] + s.skip(p),
    decreases s.len(),
{
    if s.len() == 0 {
        assert(s.take(p) + seq![e] + s.skip(p) =~= seq![e]);
    } else if p == 0 {
        assert(s.take(0) + seq![e] + s.skip(0) =~= seq![e] + s);
    } else {
        let t = s.drop_first();
        assert forall|j: int| 0 <= j < p - 1 implies !version_le(#[trigger] t[j].0, e.0) by {
            assert(t[j] == s[j + 1]);
        }
        lemma_insert_at(e, t, p - 1);
        assert(s.take(p) + seq![e] + s.skip(p) =~= seq![s[0]] + (t.take(p - 1) + seq![e] + t.skip(
            p - 1,
        )));
    }
}

/// `e` inserted where it belongs in `sorted`.
fn insert_sorted(sorted: &mut Vec<(ExactVersion, String)>, e: (ExactVersion, String))
    ensures
        entries_model(final(sorted)@) == insert_desc((e.0, e.1@), entries_model(old(sorted)@)),
{
    let ghost m = entries_model(sorted@);
    let ghost em: Entry = (e.0, e.1@);
    let mut p: usize = 0;
    while p < sorted.len()
        invariant
            p <= sorted@.len(),
            m == entries_model(sorted@),
            em == (e.0, e.1@),
            forall|j: int| 0 <= j < p ==> !version_le(#[trigger] m[j].0, em.0),
        ensures
            p < sorted@.len() ==> version_le(m[p as int].0, em.0),
        decreases sorted@.len() - p,
    {
        let v = sorted[p].0;
        assert(m[p as int].0 == v);
        if v.major < e.0.major || (v.major == e.0.major && v.minor <= e.0.minor) {
            break;
        }
        p = p + 1;
    }
    proof {
        lemma_insert_at(em, m, p as int);
    }
    sorted.insert(p, e);
    assert(entries_model(sorted@) =~= m.take(p as int) + seq![em] + m.skip(p as int));
}

/// The interpreters as a table from the highest version down, one row each
/// with the version and then the path, ending in a newline.
pub fn list_executables(executables: &Vec<(ExactVersion, String)>) -> (r: Result<String, Error>)
    ensures
        r matches Ok(text) ==> listing(entries_model(executables@)) == Ok::<Seq<char>, ErrorModel>(
            text@,
        ),
        r matches Err(e) ==> listing(entries_model(executables@)) == Err::<Seq<char>, ErrorModel>(
            e@,
        ),
{
    if executables.len() == 0 {
        return Err(Error::NoExecutableFound(RequestedVersion::Any));
    }
    let ghost all = entries_model(executables@);
    let mut sorted: Vec<(ExactVersion, String)> = Vec::new();
    let mut i: usize = 0;
    while i < executables.len()
        invariant
            i <= executables@.len(),
            all == entries_model(executables@),
            entries_model(sorted@) == sort_desc(all.take(i as int)),
        decreases executables@.len() - i,
    {
        let e = (executables[i].0, executables[i].1.clone());
        assert(all.take(i + 1).drop_last() =~= all.take(i as int));
        insert_sorted(&mut sorted, e);
        i = i + 1;
    }
    assert(all.take(i as int) =~= all);
    let mut rows: Vec<(String, String)> = Vec::new();
    let mut k: usize = 0;
    while k < sorted.len()
        invariant
            k <= sorted@.len(),
            rows@.map_values(|row: (String, String)| (row.0@, row.1@)) == rows_of(
                entries_model(sorted@),
            ).take(k as int),
        decreases sorted@.len() - k,
    {
        let v = sorted[k].0.to_text();
        let path = sorted[k].1.clone();
        let ghost before = rows@;
        rows.push((v, path));
        assert(rows_of(entries_model(sorted@))[k as int] == (v@, path@));
        assert(rows@.map_values(|row: (String, String)| (row.0@, row.1@)) =~= before.map_values(
            |row: (String, String)| (row.0@, row.1@),
        ).push((v@, path@)));
        k = k + 1;
        assert(rows@.map_values(|row: (String, String)| (row.0@, row.1@)) =~= rows_of(
            entries_model(sorted@),
        ).take(k as int));
    }
    assert(rows_of(entries_model(sorted@)).take(k as int) =~= rows_of(entries_model(sorted@)));
    let mut text = render_table(&rows);
    text.append("\n");
    proof {
        reveal_strlit("\n");
    }
    assert(text@ =~= table_text(rows_of(sort_desc(all))) + seq!['\n']);
    Ok(text)
}

} // verus!
