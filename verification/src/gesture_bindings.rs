//! The contents of the bindings file: gesture and command keys per run mode, and how
//! they are merged over the default bindings.
use vstd::prelude::*;

use crate::command::{command_for_wire_text, command_wire_text, lemma_command_wire_key_round_trip, OsCommand};
use crate::command_mapper::{
    default_browser_table, default_desktop_table, default_media_table, is_complete_table,
    lemma_default_tables_complete, BindingTable, GestureCommandMap,
};
use crate::gesture_id::{
    bindable_seq, gesture_for_wire_text, gesture_wire_text, is_bindable,
    lemma_gesture_wire_key_round_trip, GestureId,
};
use crate::text::trimmed;

verus! {

/// The text of a key pair.
pub open spec fn pair_text(p: (String, String)) -> (Seq<char>, Seq<char>) {
    (p.0@, p.1@)
}

/// The texts of a list of key pairs.
pub open spec fn pairs_text(ps: Seq<(String, String)>) -> Seq<(Seq<char>, Seq<char>)> {
    ps.map_values(|p: (String, String)| pair_text(p))
}

/// One override: when both keys parse, the gesture is bound to the command.
pub open spec fn apply_pair(m: Map<GestureId, OsCommand>, p: (Seq<char>, Seq<char>)) -> Map<GestureId, OsCommand> {
    match (gesture_for_wire_text(trimmed(p.0)), command_for_wire_text(trimmed(p.1))) {
        (Some(g), Some(c)) => m.insert(g, c),
        _ => m,
    }
}

/// The overrides applied in order.
pub open spec fn apply_pairs(m: Map<GestureId, OsCommand>, ps: Seq<(Seq<char>, Seq<char>)>) -> Map<GestureId, OsCommand>
    decreases ps.len(),
{
    if ps.len() == 0 {
        m
    } else {
        apply_pairs(apply_pair(m, ps[0]), ps.drop_first())
    }
}

/// The key pairs of the gestures in `gs` that `m` binds, in the order of `gs`.
pub open spec fn entries_text(m: Map<GestureId, OsCommand>, gs: Seq<GestureId>) -> Seq<(Seq<char>, Seq<char>)>
    decreases gs.len(),
{
    if gs.len() == 0 {
        Seq::empty()
    } else {
        let g = gs.last();
        let rest = entries_text(m, gs.drop_last());
        if m.contains_key(g) && gesture_wire_text(g) is Some {
            rest.push((gesture_wire_text(g).unwrap(), command_wire_text(m[g])))
        } else {
            rest
        }
    }
}

/// Applies the key pairs of a bindings file to a table; pairs whose gesture or
/// command key is unknown are skipped.
pub fn apply_overrides(table: &mut BindingTable, raw: &Vec<(String, String)>)
    ensures
        final(table)@ == apply_pairs(old(table)@, pairs_text(raw@)),
{
    let ghost ps = pairs_text(raw@);
    let mut i: usize = 0;
    assert(ps.skip(0) =~= ps);
    while i < raw.len()
        invariant
            i <= raw@.len(),
            ps == pairs_text(raw@),
            apply_pairs(table@, ps.skip(i as int)) == apply_pairs(old(table)@, ps),
        decreases raw.len() - i,
    {
        proof {
            assert(ps.skip(i as int).drop_first() =~= ps.skip(i + 1));
            assert(ps.skip(i as int)[0] == pair_text(raw@[i as int]));
        }
        let gesture = GestureId::parse_wire_key(raw[i].0.as_str());
        let command = OsCommand::parse_wire_key(raw[i].1.as_str());
        match (gesture, command) {
            (Some(g), Some(c)) => {
                table.insert(g, c);
            },
            _ => {},
        }
        i += 1;
    }
    assert(ps.skip(i as int) =~= Seq::<(Seq<char>, Seq<char>)>::empty());
}

/// The key pairs of a table, one per bound gesture that has a key, in the order of
/// the bindable gestures.
pub fn table_to_strings(table: &BindingTable) -> (r: Vec<(String, String)>)
    ensures
        pairs_text(r@) == entries_text(table@, bindable_seq()),
{
    let gs = GestureId::bindable();
    let mut out: Vec<(String, String)> = Vec::new();
    let mut i: usize = 0;
    while i < gs.len()
        invariant
            gs@ == bindable_seq(),
            i <= gs@.len(),
            pairs_text(out@) == entries_text(table@, gs@.take(i as int)),
        decreases gs.len() - i,
    {
        let g = gs[i];
        proof {
            assert(gs@.take(i + 1).drop_last() =~= gs@.take(i as int));
            assert(gs@.take(i + 1).last() == g);
        }
        match table.get(g) {
            Some(c) => match g.wire_key() {
                Some(gk) => {
                    out.push((gk.to_owned(), c.wire_key().to_owned()));
                    assert(pairs_text(out@) =~= entries_text(table@, gs@.take(i + 1)));
                },
                None => {},
            },
            None => {},
        }
        i += 1;
    }
    assert(gs@.take(gs@.len() as int) =~= gs@);
    out
}

/// The key pairs of a bindings file, per run mode.
#[derive(Clone, Debug)]
pub struct GestureBindingsFile {
    pub desktop: Vec<(String, String)>,
    pub media: Vec<(String, String)>,
    pub browser: Vec<(String, String)>,
}

/// The default bindings with the overrides of a bindings file applied.
pub fn merge_with_defaults(file: &GestureBindingsFile) -> (r: GestureCommandMap)
    ensures
        r.desktop@ == apply_pairs(default_desktop_table(), pairs_text(file.desktop@)),
        r.media@ == apply_pairs(default_media_table(), pairs_text(file.media@)),
        r.browser@ == apply_pairs(default_browser_table(), pairs_text(file.browser@)),
{
    let mut map = GestureCommandMap::app_defaults();
    let mut desktop = map.desktop.clone();
    apply_overrides(&mut desktop, &file.desktop);
    let mut media = map.media.clone();
    apply_overrides(&mut media, &file.media);
    let mut browser = map.browser.clone();
    apply_overrides(&mut browser, &file.browser);
    GestureCommandMap { desktop, media, browser }
}

/// The bindings file that stores a map.
pub fn bindings_file(map: &GestureCommandMap) -> (r: GestureBindingsFile)
    ensures
        pairs_text(r.desktop@) == entries_text(map.desktop@, bindable_seq()),
        pairs_text(r.media@) == entries_text(map.media@, bindable_seq()),
        pairs_text(r.browser@) == entries_text(map.browser@, bindable_seq()),
{
    GestureBindingsFile {
        desktop: table_to_strings(&map.desktop),
        media: table_to_strings(&map.media),
        browser: table_to_strings(&map.browser),
    }
}

proof fn lemma_apply_pairs_append(
    m: Map<GestureId, OsCommand>,
    a: Seq<(Seq<char>, Seq<char>)>,
    b: Seq<(Seq<char>, Seq<char>)>,
)
    ensures
        apply_pairs(m, a + b) == apply_pairs(apply_pairs(m, a), b),
    decreases a.len(),
{
    if a.len() == 0 {
        assert(a + b =~= b);
    } else {
        assert((a + b).drop_first() =~= a.drop_first() + b);
        lemma_apply_pairs_append(apply_pair(m, a[0]), a.drop_first(), b);
    }
}

proof fn lemma_apply_entries(base: Map<GestureId, OsCommand>, m: Map<GestureId, OsCommand>, gs: Seq<GestureId>)
    requires
        forall|i: int| 0 <= i < gs.len() ==> is_bindable(#[trigger] gs[i]),
    ensures
        apply_pairs(base, entries_text(m, gs)) == base.union_prefer_right(
            m.restrict(gs.to_set()),
        ),
    decreases gs.len(),
{
    if gs.len() == 0 {
        assert(apply_pairs(base, entries_text(m, gs)) == base);
        assert(base.union_prefer_right(m.restrict(gs.to_set())) =~= base);
    } else {
        let g = gs.last();
        let init = gs.drop_last();
        lemma_apply_entries(base, m, init);
        let before = base.union_prefer_right(m.restrict(init.to_set()));
        assert(gs.to_set() =~= init.to_set().insert(g)) by {
            assert forall|x: GestureId| gs.to_set().contains(x) implies init.to_set().insert(g).contains(x) by {
                let k = choose|k: int| 0 <= k < gs.len() && gs[k] == x;
                if k < gs.len() - 1 {
                    assert(init[k] == x);
                }
            }
            assert forall|x: GestureId| init.to_set().insert(g).contains(x) implies gs.to_set().contains(x) by {
                if x != g {
                    let k = choose|k: int| 0 <= k < init.len() && init[k] == x;
                    assert(gs[k] == x);
                } else {
                    assert(gs[gs.len() - 1] == x);
                }
            }
        }
        assert(is_bindable(gs[gs.len() - 1]));
        if m.contains_key(g) && gesture_wire_text(g) is Some {
            let p = (gesture_wire_text(g).unwrap(), command_wire_text(m[g]));
            lemma_gesture_wire_key_round_trip(g);
            lemma_command_wire_key_round_trip(m[g]);
            let single = seq![p];
            assert(entries_text(m, gs) == entries_text(m, init).push(p));
            assert(entries_text(m, init).push(p) =~= entries_text(m, init) + single);
            lemma_apply_pairs_append(base, entries_text(m, init), single);
            assert(single.drop_first() =~= Seq::<(Seq<char>, Seq<char>)>::empty());
            assert(single[0] == p);
            assert(apply_pairs(apply_pair(before, p), single.drop_first()) == apply_pair(before, p));
            assert(apply_pairs(before, single) == apply_pair(before, p));
            assert(apply_pair(before, p) == before.insert(g, m[g]));
            assert(before.insert(g, m[g]) =~= base.union_prefer_right(m.restrict(gs.to_set())));
        } else {
            lemma_gesture_wire_key_round_trip(g);
            assert(!m.contains_key(g));
            assert(before =~= base.union_prefer_right(m.restrict(gs.to_set())));
        }
    }
}

/// Storing a table in the bindings file and loading it over a base table gives the
/// base table overridden by every bound gesture other than `NoGesture`.
pub proof fn lemma_bindings_file_round_trip(base: Map<GestureId, OsCommand>, m: Map<GestureId, OsCommand>)
    ensures
        apply_pairs(base, entries_text(m, bindable_seq())) == base.union_prefer_right(
            m.remove(GestureId::NoGesture),
        ),
{
    assert forall|i: int| 0 <= i < bindable_seq().len() implies is_bindable(#[trigger] bindable_seq()[i]) by {}
    lemma_apply_entries(base, m, bindable_seq());
    assert forall|g: GestureId| bindable_seq().to_set().contains(g) <==> is_bindable(g) by {
        crate::gesture_id::lemma_trigger_text_defined(g);
    }
    assert(m.restrict(bindable_seq().to_set()) =~= m.remove(GestureId::NoGesture));
}

/// A map whose tables bind exactly the bindable gestures is saved and loaded back
/// unchanged: loading the saved file over the defaults gives the same tables.
pub proof fn lemma_save_then_load(map: GestureCommandMap, file: GestureBindingsFile)
    requires
        is_complete_table(map.desktop@),
        is_complete_table(map.media@),
        is_complete_table(map.browser@),
        pairs_text(file.desktop@) == entries_text(map.desktop@, bindable_seq()),
        pairs_text(file.media@) == entries_text(map.media@, bindable_seq()),
        pairs_text(file.browser@) == entries_text(map.browser@, bindable_seq()),
    ensures
        apply_pairs(default_desktop_table(), pairs_text(file.desktop@)) == map.desktop@,
        apply_pairs(default_media_table(), pairs_text(file.media@)) == map.media@,
        apply_pairs(default_browser_table(), pairs_text(file.browser@)) == map.browser@,
{
    lemma_default_tables_complete();
    lemma_bindings_file_round_trip(default_desktop_table(), map.desktop@);
    lemma_bindings_file_round_trip(default_media_table(), map.media@);
    lemma_bindings_file_round_trip(default_browser_table(), map.browser@);
    assert(default_desktop_table().union_prefer_right(map.desktop@.remove(GestureId::NoGesture))
        =~= map.desktop@);
    assert(default_media_table().union_prefer_right(map.media@.remove(GestureId::NoGesture))
        =~= map.media@);
    assert(default_browser_table().union_prefer_right(map.browser@.remove(GestureId::NoGesture))
        =~= map.browser@);
}

} // verus!
