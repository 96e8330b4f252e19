//! Validation of the authored configuration: warnings about empty pages,
//! radial menus with too few sectors, blank names and reused shortcuts.
use crate::model::{
    ActionSet, ActionSetView, ConfigView, QuickActionConfig, RadialMenuSet,
    RadialMenuSetView, SetEntry, SetEntryView, MIN_SECTORS,
};
use crate::text::{decimal, is_blank, str_eq, str_is_blank, usize_to_decimal};
use vstd::prelude::*;

verus! {

// ─── message texts ────────────────────────────────────────────────────────────

pub open spec fn quoted(s: Seq<char>) -> Seq<char> {
    "\""@ + s + "\""@
}

pub open spec fn msg_empty_page(name: Seq<char>, i: nat) -> Seq<char> {
    "Set "@ + quoted(name) + " (#"@ + decimal(i) + ") has no entries"@
}

pub open spec fn msg_empty_wheel_set(wheel_set: Seq<char>, page: Seq<char>) -> Seq<char> {
    "Radial menu set "@ + quoted(wheel_set) + " in page "@ + quoted(page) + " has no radial menus"@
}

pub open spec fn msg_few_sectors(menu: Seq<char>, i: nat, wheel_set: Seq<char>) -> Seq<char> {
    "Radial menu "@ + quoted(menu) + " (#"@ + decimal(i) + ") in radial menu set "@ + quoted(
        wheel_set,
    ) + " must have at least 2 sectors"@
}

pub open spec fn msg_blank_switch(i: nat, page: Seq<char>) -> Seq<char> {
    "HUD switch #"@ + decimal(i) + " in set "@ + quoted(page) + " has an empty name"@
}

pub open spec fn msg_reused_shortcut(page: Seq<char>, i: nat, key: Seq<char>, count: nat) -> Seq<
    char,
> {
    "Page "@ + quoted(page) + " (#"@ + decimal(i) + ") reuses shortcut "@ + quoted(key) + " "@
        + decimal(count) + " times"@
}

pub open spec fn msg_no_pages() -> Seq<char> {
    "HUD must contain at least one page"@
}

pub open spec fn msg_blank_action(i: nat, page: Seq<char>) -> Seq<char> {
    "Action #"@ + decimal(i) + " in set "@ + quoted(page) + " has an empty name"@
}

pub open spec fn msg_blank_wheel_set(i: nat, page: Seq<char>) -> Seq<char> {
    "Radial menu set #"@ + decimal(i) + " in page "@ + quoted(page) + " has an empty name"@
}

// ─── what is reported ─────────────────────────────────────────────────────────

/// Warnings about the first `n` radial menus of set `w`: each with fewer than
/// two sectors.
pub open spec fn menu_warnings(w: RadialMenuSetView, n: int) -> Seq<Seq<char>>
    decreases n,
{
    if n <= 0 {
        Seq::empty()
    } else {
        let m = w.radial_menus[n - 1];
        menu_warnings(w, n - 1) + if m.slots.len() < MIN_SECTORS {
            seq![msg_few_sectors(m.name, (n - 1) as nat, w.name)]
        } else {
            Seq::empty()
        }
    }
}

/// Warnings about entry `e` of page `p` (page number `i`): a radial menu set
/// without menus or with menus of too few sectors; a HUD switch with a blank
/// name.
pub open spec fn entry_structure_warnings(p: ActionSetView, i: nat, e: SetEntryView) -> Seq<Seq<char>> {
    match e {
        SetEntryView::RadialMenuSet(w) => (if w.radial_menus.len() == 0 {
            seq![msg_empty_wheel_set(w.name, p.name)]
        } else {
            Seq::empty()
        }) + menu_warnings(w, w.radial_menus.len() as int),
        SetEntryView::HudSwitch(h) => if is_blank(h.name) {
            seq![msg_blank_switch(i, p.name)]
        } else {
            Seq::empty()
        },
        SetEntryView::Action(_) | SetEntryView::Wheel(_) => Seq::empty(),
    }
}

pub open spec fn entries_structure_warnings(p: ActionSetView, i: nat, n: int) -> Seq<Seq<char>>
    decreases n,
{
    if n <= 0 {
        Seq::empty()
    } else {
        entries_structure_warnings(p, i, n - 1) + entry_structure_warnings(p, i, p.entries[n - 1])
    }
}

/// Structural warnings about page `p`, page number `i`.
pub open spec fn page_structure_warnings(p: ActionSetView, i: nat) -> Seq<Seq<char>> {
    (if p.entries.len() == 0 {
        seq![msg_empty_page(p.name, i)]
    } else {
        Seq::empty()
    }) + entries_structure_warnings(p, i, p.entries.len() as int)
}

pub open spec fn structure_warnings(c: ConfigView, n: int) -> Seq<Seq<char>>
    decreases n,
{
    if n <= 0 {
        Seq::empty()
    } else {
        structure_warnings(c, n - 1) + page_structure_warnings(c.sets[n - 1], (n - 1) as nat)
    }
}

/// `k` as a list of one key, or no keys when it is empty.
pub open spec fn bound_key(k: Seq<char>) -> Seq<Seq<char>> {
    if k.len() > 0 {
        seq![k]
    } else {
        Seq::empty()
    }
}

/// The shortcuts entry `e` binds: an action's key, a HUD switch's key, or a
/// radial menu set's previous, next and switch keys; empty keys are skipped.
pub open spec fn entry_keys(e: SetEntryView) -> Seq<Seq<char>> {
    match e {
        SetEntryView::Action(a) => bound_key(a.key),
        SetEntryView::HudSwitch(h) => bound_key(h.key),
        SetEntryView::RadialMenuSet(w) => bound_key(w.prev_wheel_key) + bound_key(w.next_wheel_key)
            + bound_key(w.switch_key),
        SetEntryView::Wheel(_) => Seq::empty(),
    }
}

/// The shortcuts bound by the first `n` entries, in order.
pub open spec fn page_keys(entries: Seq<SetEntryView>, n: int) -> Seq<Seq<char>>
    decreases n,
{
    if n <= 0 {
        Seq::empty()
    } else {
        page_keys(entries, n - 1) + entry_keys(entries[n - 1])
    }
}

/// The distinct keys among the first `n` of `ks`, in order of first use.
pub open spec fn distinct_keys(ks: Seq<Seq<char>>, n: int) -> Seq<Seq<char>>
    decreases n,
{
    if n <= 0 {
        Seq::empty()
    } else {
        let d = distinct_keys(ks, n - 1);
        if d.contains(ks[n - 1]) {
            d
        } else {
            d.push(ks[n - 1])
        }
    }
}

/// How often `k` occurs among the first `n` of `ks`.
pub open spec fn occurrences(ks: Seq<Seq<char>>, k: Seq<char>, n: int) -> nat
    decreases n,
{
    if n <= 0 {
        0
    } else {
        occurrences(ks, k, n - 1) + if ks[n - 1] == k {
            1nat
        } else {
            0nat
        }
    }
}

/// A warning for each of the first `m` distinct keys `d` of `ks` that occurs
/// more than once on page `p` (number `i`).
pub open spec fn reuse_warnings(
    p: ActionSetView,
    i: nat,
    ks: Seq<Seq<char>>,
    d: Seq<Seq<char>>,
    m: int,
) -> Seq<Seq<char>>
    decreases m,
{
    if m <= 0 {
        Seq::empty()
    } else {
        let k = d[m - 1];
        let n = occurrences(ks, k, ks.len() as int);
        reuse_warnings(p, i, ks, d, m - 1) + if n > 1 {
            seq![msg_reused_shortcut(p.name, i, k, n)]
        } else {
            Seq::empty()
        }
    }
}

/// Warnings about shortcuts page `p` (number `i`) binds more than once.
pub open spec fn page_reuse_warnings(p: ActionSetView, i: nat) -> Seq<Seq<char>> {
    let ks = page_keys(p.entries, p.entries.len() as int);
    let d = distinct_keys(ks, ks.len() as int);
    reuse_warnings(p, i, ks, d, d.len() as int)
}

pub open spec fn reuse_warnings_upto(c: ConfigView, n: int) -> Seq<Seq<char>>
    decreases n,
{
    if n <= 0 {
        Seq::empty()
    } else {
        reuse_warnings_upto(c, n - 1) + page_reuse_warnings(c.sets[n - 1], (n - 1) as nat)
    }
}

/// Warning about entry `e` (number `i`) of page `p` having a blank name.
pub open spec fn entry_name_warnings(p: ActionSetView, i: nat, e: SetEntryView) -> Seq<Seq<char>> {
    match e {
        SetEntryView::Action(a) => if is_blank(a.name) {
            seq![msg_blank_action(i, p.name)]
        } else {
            Seq::empty()
        },
        SetEntryView::RadialMenuSet(w) => if is_blank(w.name) {
            seq![msg_blank_wheel_set(i, p.name)]
        } else {
            Seq::empty()
        },
        SetEntryView::HudSwitch(h) => if is_blank(h.name) {
            seq![msg_blank_switch(i, p.name)]
        } else {
            Seq::empty()
        },
        SetEntryView::Wheel(_) => Seq::empty(),
    }
}

pub open spec fn page_name_warnings(p: ActionSetView, n: int) -> Seq<Seq<char>>
    decreases n,
{
    if n <= 0 {
        Seq::empty()
    } else {
        page_name_warnings(p, n - 1) + entry_name_warnings(p, (n - 1) as nat, p.entries[n - 1])
    }
}

pub open spec fn name_warnings(c: ConfigView, n: int) -> Seq<Seq<char>>
    decreases n,
{
    if n <= 0 {
        Seq::empty()
    } else {
        name_warnings(c, n - 1) + page_name_warnings(c.sets[n - 1], c.sets[n - 1].entries.len() as int)
    }
}

/// All warnings about configuration `c`, in the order they are reported:
/// structural warnings page by page, reused shortcuts page by page, a missing
/// page, then blank names page by page.
pub open spec fn config_warnings(c: ConfigView) -> Seq<Seq<char>> {
    let n = c.sets.len() as int;
    structure_warnings(c, n) + reuse_warnings_upto(c, n) + (if n == 0 {
        seq![msg_no_pages()]
    } else {
        Seq::empty()
    }) + name_warnings(c, n)
}

pub open spec fn strings_view(s: Seq<String>) -> Seq<Seq<char>> {
    s.map_values(|x: String| x@)
}

/// Warnings about the configuration, and whether there are any.
pub struct ConfigValidation {
    /// Human-readable warnings found in the authored configuration.
    pub warnings: Vec<String>,
    /// Whether validation found anything to warn about.
    pub has_errors: bool,
}

// ─── message building ─────────────────────────────────────────────────────────

fn push_quoted(out: &mut String, s: &str)
    ensures
        final(out)@ == old(out)@ + quoted(s@),
{
    proof {
        reveal_strlit("\"");
    }
    out.append("\"");
    out.append(s);
    out.append("\"");
    assert(final(out)@ =~= old(out)@ + quoted(s@));
}

fn push_number(out: &mut String, n: usize)
    ensures
        final(out)@ == old(out)@ + decimal(n as nat),
{
    let d = usize_to_decimal(n);
    out.append(d.as_str());
}

fn text_empty_page(name: &str, i: usize) -> (r: String)
    ensures
        r@ == msg_empty_page(name@, i as nat),
{
    proof {
        reveal_strlit("Set ");
        reveal_strlit(" (#");
        reveal_strlit(") has no entries");
    }
    let mut s = String::from_str("Set ");
    push_quoted(&mut s, name);
    s.append(" (#");
    push_number(&mut s, i);
    s.append(") has no entries");
    assert(s@ =~= msg_empty_page(name@, i as nat));
    s
}

fn text_empty_wheel_set(ws: &str, page: &str) -> (r: String)
    ensures
        r@ == msg_empty_wheel_set(ws@, page@),
{
    proof {
        reveal_strlit("Radial menu set ");
        reveal_strlit(" in page ");
        reveal_strlit(" has no radial menus");
    }
    let mut s = String::from_str("Radial menu set ");
    push_quoted(&mut s, ws);
    s.append(" in page ");
    push_quoted(&mut s, page);
    s.append(" has no radial menus");
    assert(s@ =~= msg_empty_wheel_set(ws@, page@));
    s
}

fn text_few_sectors(menu: &str, i: usize, ws: &str) -> (r: String)
    ensures
        r@ == msg_few_sectors(menu@, i as nat, ws@),
{
    proof {
        reveal_strlit("Radial menu ");
        reveal_strlit(" (#");
        reveal_strlit(") in radial menu set ");
        reveal_strlit(" must have at least 2 sectors");
    }
    let mut s = String::from_str("Radial menu ");
    push_quoted(&mut s, menu);
    s.append(" (#");
    push_number(&mut s, i);
    s.append(") in radial menu set ");
    push_quoted(&mut s, ws);
    s.append(" must have at least 2 sectors");
    assert(s@ =~= msg_few_sectors(menu@, i as nat, ws@));
    s
}

fn text_numbered(prefix: &str, i: usize, middle: &str, page: &str) -> (r: String)
    ensures
        r@ == prefix@ + decimal(i as nat) + middle@ + quoted(page@) + " has an empty name"@,
{
    proof {
        reveal_strlit(" has an empty name");
    }
    let mut s = String::from_str(prefix);
    push_number(&mut s, i);
    s.append(middle);
    push_quoted(&mut s, page);
    s.append(" has an empty name");
    assert(s@ =~= prefix@ + decimal(i as nat) + middle@ + quoted(page@) + " has an empty name"@);
    s
}

fn text_blank_switch(i: usize, page: &str) -> (r: String)
    ensures
        r@ == msg_blank_switch(i as nat, page@),
{
    proof {
        reveal_strlit("HUD switch #");
        reveal_strlit(" in set ");
    }
    text_numbered("HUD switch #", i, " in set ", page)
}

fn text_blank_action(i: usize, page: &str) -> (r: String)
    ensures
        r@ == msg_blank_action(i as nat, page@),
{
    proof {
        reveal_strlit("Action #");
        reveal_strlit(" in set ");
    }
    text_numbered("Action #", i, " in set ", page)
}

fn text_blank_wheel_set(i: usize, page: &str) -> (r: String)
    ensures
        r@ == msg_blank_wheel_set(i as nat, page@),
{
    proof {
        reveal_strlit("Radial menu set #");
        reveal_strlit(" in page ");
    }
    text_numbered("Radial menu set #", i, " in page ", page)
}

fn text_reused_shortcut(page: &str, i: usize, key: &str, count: usize) -> (r: String)
    ensures
        r@ == msg_reused_shortcut(page@, i as nat, key@, count as nat),
{
    proof {
        reveal_strlit("Page ");
        reveal_strlit(" (#");
        reveal_strlit(") reuses shortcut ");
        reveal_strlit(" ");
        reveal_strlit(" times");
    }
    let mut s = String::from_str("Page ");
    push_quoted(&mut s, page);
    s.append(" (#");
    push_number(&mut s, i);
    s.append(") reuses shortcut ");
    push_quoted(&mut s, key);
    s.append(" ");
    push_number(&mut s, count);
    s.append(" times");
    assert(s@ =~= msg_reused_shortcut(page@, i as nat, key@, count as nat));
    s
}

// ─── collecting warnings ──────────────────────────────────────────────────────

fn push_message(out: &mut Vec<String>, m: String)
    ensures
        strings_view(final(out)@) == strings_view(old(out)@).push(m@),
{
    let ghost before = strings_view(out@);
    let ghost mv = m@;
    out.push(m);
    assert(strings_view(out@) =~= before.push(mv));
}

fn wheel_set_structure(out: &mut Vec<String>, w: &RadialMenuSet, page: &str)
    ensures
        strings_view(final(out)@) == strings_view(old(out)@) + (if w@.radial_menus.len() == 0 {
            seq![msg_empty_wheel_set(w@.name, page@)]
        } else {
            Seq::<Seq<char>>::empty()
        }) + menu_warnings(w@, w@.radial_menus.len() as int),
{
    let ghost start = strings_view(out@);
    if w.radial_menus.len() == 0 {
        push_message(out, text_empty_wheel_set(w.name.as_str(), page));
    }
    let ghost mid = strings_view(out@);
    let n = w.radial_menus.len();
    for k in 0..n
        invariant
            n == w@.radial_menus.len(),
            strings_view(out@) == mid + menu_warnings(w@, k as int),
    {
        assert(w@.radial_menus[k as int] == w.radial_menus@[k as int]@);
        if w.radial_menus[k].slots.len() < MIN_SECTORS {
            push_message(out, text_few_sectors(w.radial_menus[k].name.as_str(), k, w.name.as_str()));
        }
        assert(strings_view(out@) =~= mid + menu_warnings(w@, k + 1));
    }
    assert(strings_view(out@) =~= start + (if w@.radial_menus.len() == 0 {
        seq![msg_empty_wheel_set(w@.name, page@)]
    } else {
        Seq::<Seq<char>>::empty()
    }) + menu_warnings(w@, w@.radial_menus.len() as int));
}

fn page_structure(out: &mut Vec<String>, p: &ActionSet, i: usize)
    ensures
        strings_view(final(out)@) == strings_view(old(out)@) + page_structure_warnings(p@, i as nat),
{
    let ghost start = strings_view(out@);
    if p.entries.len() == 0 {
        push_message(out, text_empty_page(p.name.as_str(), i));
    }
    let ghost mid = strings_view(out@);
    let n = p.entries.len();
    for j in 0..n
        invariant
            n == p@.entries.len(),
            strings_view(out@) == mid + entries_structure_warnings(p@, i as nat, j as int),
    {
        let ghost before = strings_view(out@);
        assert(p@.entries[j as int] == p.entries@[j as int]@);
        match &p.entries[j] {
            SetEntry::RadialMenuSet(w) => {
                wheel_set_structure(out, w, p.name.as_str());
            },
            SetEntry::HudSwitch(h) => {
                if str_is_blank(h.name.as_str()) {
                    push_message(out, text_blank_switch(i, p.name.as_str()));
                }
            },
            SetEntry::Action(_) | SetEntry::Wheel(_) => {},
        }
        assert(strings_view(out@) =~= before + entry_structure_warnings(
            p@,
            i as nat,
            p@.entries[j as int],
        ));
        assert(strings_view(out@) =~= mid + entries_structure_warnings(p@, i as nat, j + 1));
    }
    assert(strings_view(out@) =~= start + page_structure_warnings(p@, i as nat));
}

fn push_key(keys: &mut Vec<String>, k: &String)
    ensures
        strings_view(final(keys)@) == strings_view(old(keys)@) + bound_key(k@),
{
    let ghost before = strings_view(keys@);
    if k.unicode_len() > 0 {
        keys.push(k.clone());
    }
    assert(strings_view(keys@) =~= before + bound_key(k@));
}

/// The shortcuts page `p` binds, in order.
fn collect_page_keys(p: &ActionSet) -> (r: Vec<String>)
    ensures
        strings_view(r@) == page_keys(p@.entries, p@.entries.len() as int),
{
    let mut keys: Vec<String> = Vec::new();
    let n = p.entries.len();
    assert(strings_view(keys@) =~= Seq::<Seq<char>>::empty());
    for j in 0..n
        invariant
            n == p@.entries.len(),
            strings_view(keys@) == page_keys(p@.entries, j as int),
    {
        assert(p@.entries[j as int] == p.entries@[j as int]@);
        let ghost before = strings_view(keys@);
        match &p.entries[j] {
            SetEntry::Action(a) => push_key(&mut keys, &a.key),
            SetEntry::HudSwitch(h) => push_key(&mut keys, &h.key),
            SetEntry::RadialMenuSet(w) => {
                push_key(&mut keys, &w.prev_wheel_key);
                push_key(&mut keys, &w.next_wheel_key);
                push_key(&mut keys, &w.switch_key);
            },
            SetEntry::Wheel(_) => {},
        }
        assert(strings_view(keys@) =~= before + entry_keys(p@.entries[j as int]));
    }
    keys
}

proof fn lemma_occurrences_bound(ks: Seq<Seq<char>>, k: Seq<char>, n: int)
    requires
        0 <= n <= ks.len(),
    ensures
        occurrences(ks, k, n) <= n,
    decreases n,
{
    if n > 0 {
        lemma_occurrences_bound(ks, k, n - 1);
    }
}

proof fn lemma_distinct_no_dup(ks: Seq<Seq<char>>, n: int)
    requires
        0 <= n <= ks.len(),
    ensures
        distinct_keys(ks, n).no_duplicates(),
        forall|t: int|
            0 <= t < distinct_keys(ks, n).len() ==> occurrences(
                ks,
                #[trigger] distinct_keys(ks, n)[t],
                n,
            ) >= 1,
        forall|k: Seq<char>| occurrences(ks, k, n) >= 1 ==> #[trigger] distinct_keys(ks, n).contains(k),
        distinct_keys(ks, n).len() <= n,
    decreases n,
{
    if n > 0 {
        lemma_distinct_no_dup(ks, n - 1);
        let d = distinct_keys(ks, n - 1);
        assert forall|k: Seq<char>| occurrences(ks, k, n) >= 1 implies #[trigger] distinct_keys(
            ks,
            n,
        ).contains(k) by {
            if occurrences(ks, k, n - 1) >= 1 {
                assert(d.contains(k));
                if !d.contains(ks[n - 1]) {
                    let t = choose|t: int| 0 <= t < d.len() && d[t] == k;
                    assert(d.push(ks[n - 1])[t] == k);
                }
            } else {
                assert(ks[n - 1] == k);
                if !d.contains(ks[n - 1]) {
                    assert(d.push(ks[n - 1])[d.len() as int] == k);
                }
            }
        }
        assert forall|t: int| 0 <= t < distinct_keys(ks, n).len() implies occurrences(
            ks,
            #[trigger] distinct_keys(ks, n)[t],
            n,
        ) >= 1 by {
            if t < d.len() {
                assert(distinct_keys(ks, n)[t] == d[t]);
            }
        }
    }
}

/// Counts of each distinct key among `keys`, in order of first use.
fn count_keys(keys: &Vec<String>) -> (r: (Vec<String>, Vec<usize>))
    ensures
        strings_view(r.0@) == distinct_keys(strings_view(keys@), keys@.len() as int),
        r.1@.len() == r.0@.len(),
        forall|t: int|
            0 <= t < r.1@.len() ==> #[trigger] r.1@[t] == occurrences(
                strings_view(keys@),
                r.0@[t]@,
                keys@.len() as int,
            ),
{
    let ghost ks = strings_view(keys@);
    let mut uniq: Vec<String> = Vec::new();
    let mut counts: Vec<usize> = Vec::new();
    let n = keys.len();
    assert(strings_view(uniq@) =~= distinct_keys(ks, 0));
    for j in 0..n
        invariant
            n == keys@.len(),
            ks == strings_view(keys@),
            strings_view(uniq@) == distinct_keys(ks, j as int),
            counts@.len() == uniq@.len(),
            forall|t: int|
                0 <= t < counts@.len() ==> #[trigger] counts@[t] == occurrences(
                    ks,
                    uniq@[t]@,
                    j as int,
                ),
    {
        proof {
            lemma_distinct_no_dup(ks, j as int);
        }
        let k = &keys[j];
        assert(ks[j as int] == k@);
        let m = uniq.len();
        let mut found: usize = m;
        let mut t: usize = 0;
        while t < m && found == m
            invariant
                m == uniq@.len(),
                t <= m,
                found <= m,
                found == m ==> forall|q: int| 0 <= q < t ==> uniq@[q]@ != k@,
                found < m ==> uniq@[found as int]@ == k@,
            decreases m - t,
        {
            if str_eq(uniq[t].as_str(), k.as_str()) {
                found = t;
            }
            t = t + 1;
        }
        let ghost d = distinct_keys(ks, j as int);
        if found < m {
            assert(d[found as int] == uniq@[found as int]@);
            assert(d.contains(ks[j as int]));
            proof {
                lemma_occurrences_bound(ks, uniq@[found as int]@, j as int);
            }
            let c = counts[found];
            counts.set(found, c + 1);
            assert forall|q: int| 0 <= q < counts@.len() implies #[trigger] counts@[q]
                == occurrences(ks, uniq@[q]@, j + 1) by {
                if q != found {
                    assert(d[q] == uniq@[q]@);
                    assert(d.no_duplicates());
                    assert(uniq@[q]@ != k@);
                }
            }
        } else {
            assert(!d.contains(ks[j as int])) by {
                if d.contains(ks[j as int]) {
                    let q = choose|q: int| 0 <= q < d.len() && d[q] == ks[j as int];
                    assert(d[q] == uniq@[q]@);
                }
            }
            assert(occurrences(ks, k@, j as int) == 0) by {
                if occurrences(ks, k@, j as int) >= 1 {
                    assert(d.contains(k@));
                }
            }
            let ghost before = strings_view(uniq@);
            uniq.push(k.clone());
            counts.push(1);
            assert(strings_view(uniq@) =~= before.push(k@));
            assert forall|q: int| 0 <= q < counts@.len() implies #[trigger] counts@[q]
                == occurrences(ks, uniq@[q]@, j + 1) by {
                if q < m {
                    assert(d[q] == uniq@[q]@);
                    assert(uniq@[q]@ != k@);
                }
            }
        }
    }
    (uniq, counts)
}

fn page_reuse(out: &mut Vec<String>, p: &ActionSet, i: usize)
    ensures
        strings_view(final(out)@) == strings_view(old(out)@) + page_reuse_warnings(p@, i as nat),
{
    let keys = collect_page_keys(p);
    let ghost ks = strings_view(keys@);
    let (uniq, counts) = count_keys(&keys);
    let ghost d = strings_view(uniq@);
    let ghost start = strings_view(out@);
    let m = uniq.len();
    for t in 0..m
        invariant
            m == uniq@.len(),
            counts@.len() == m,
            d == strings_view(uniq@),
            ks == strings_view(keys@),
            ks == page_keys(p@.entries, p@.entries.len() as int),
            d == distinct_keys(ks, ks.len() as int),
            forall|q: int|
                0 <= q < counts@.len() ==> #[trigger] counts@[q] == occurrences(
                    ks,
                    uniq@[q]@,
                    keys@.len() as int,
                ),
            strings_view(out@) == start + reuse_warnings(p@, i as nat, ks, d, t as int),
    {
        assert(d[t as int] == uniq@[t as int]@);
        let ghost before = strings_view(out@);
        if counts[t] > 1 {
            push_message(out, text_reused_shortcut(p.name.as_str(), i, uniq[t].as_str(), counts[t]));
        }
        assert(strings_view(out@) =~= start + reuse_warnings(p@, i as nat, ks, d, t + 1));
    }
}

fn page_names(out: &mut Vec<String>, p: &ActionSet)
    ensures
        strings_view(final(out)@) == strings_view(old(out)@) + page_name_warnings(
            p@,
            p@.entries.len() as int,
        ),
{
    let ghost start = strings_view(out@);
    let n = p.entries.len();
    for j in 0..n
        invariant
            n == p@.entries.len(),
            strings_view(out@) == start + page_name_warnings(p@, j as int),
    {
        assert(p@.entries[j as int] == p.entries@[j as int]@);
        let ghost before = strings_view(out@);
        match &p.entries[j] {
            SetEntry::Action(a) => {
                if str_is_blank(a.name.as_str()) {
                    push_message(out, text_blank_action(j, p.name.as_str()));
                }
            },
            SetEntry::RadialMenuSet(w) => {
                if str_is_blank(w.name.as_str()) {
                    push_message(out, text_blank_wheel_set(j, p.name.as_str()));
                }
            },
            SetEntry::HudSwitch(h) => {
                if str_is_blank(h.name.as_str()) {
                    push_message(out, text_blank_switch(j, p.name.as_str()));
                }
            },
            SetEntry::Wheel(_) => {},
        }
        assert(strings_view(out@) =~= start + page_name_warnings(p@, j + 1));
    }
}

/// Validates the configuration.
///
/// Warns, in this order: for each page, when it has no entries, and for each
/// of its entries, a radial menu set without radial menus, each radial menu
/// with fewer than two sectors, and a HUD switch with a blank name (numbered
/// by its page); for each page, each shortcut bound more than once on it;
/// when there are no pages; and for each page, each action, radial menu set
/// and HUD switch with a blank name (numbered by its entry). Shortcuts may be
/// reused across pages.
pub fn validate_config(cfg: &QuickActionConfig) -> (r: ConfigValidation)
    ensures
        strings_view(r.warnings@) == config_warnings(cfg@),
        r.has_errors == (config_warnings(cfg@).len() > 0),
{
    let mut out: Vec<String> = Vec::new();
    let n = cfg.sets.len();
    assert(strings_view(out@) =~= Seq::<Seq<char>>::empty());
    for i in 0..n
        invariant
            n == cfg@.sets.len(),
            strings_view(out@) == structure_warnings(cfg@, i as int),
    {
        assert(cfg@.sets[i as int] == cfg.sets@[i as int]@);
        page_structure(&mut out, &cfg.sets[i], i);
    }
    let ghost a = strings_view(out@);
    for i in 0..n
        invariant
            n == cfg@.sets.len(),
            strings_view(out@) == a + reuse_warnings_upto(cfg@, i as int),
    {
        assert(cfg@.sets[i as int] == cfg.sets@[i as int]@);
        page_reuse(&mut out, &cfg.sets[i], i);
        assert(strings_view(out@) =~= a + reuse_warnings_upto(cfg@, i + 1));
    }
    if n == 0 {
        proof {
            reveal_strlit("HUD must contain at least one page");
        }
        push_message(&mut out, String::from_str("HUD must contain at least one page"));
    }
    let ghost b = strings_view(out@);
    for i in 0..n
        invariant
            n == cfg@.sets.len(),
            strings_view(out@) == b + name_warnings(cfg@, i as int),
    {
        assert(cfg@.sets[i as int] == cfg.sets@[i as int]@);
        page_names(&mut out, &cfg.sets[i]);
        assert(strings_view(out@) =~= b + name_warnings(cfg@, i + 1));
    }
    assert(strings_view(out@) =~= config_warnings(cfg@));
    let has_errors = out.len() > 0;
    ConfigValidation { warnings: out, has_errors }
}

} // verus!
