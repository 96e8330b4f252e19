//! Fixed value palettes that editor actions cycle through.
use crate::text::str_eq;
use vstd::prelude::*;

verus! {

/// The palettes the editor cycles values through.
#[derive(Clone, Copy, PartialEq, Eq, Structural, Debug)]
pub enum Palette {
    /// Icons of quick actions.
    Icons,
    /// Commands of actions and sectors.
    Commands,
    /// Highlight color of a radial menu.
    Highlight,
    /// Inner and outer border ring colors (the empty string is no border).
    Border,
    /// Background color of a radial menu.
    WheelBg,
    /// Hub (inner circle) color of a radial menu.
    Hub,
    /// Background color of the HUD overlay.
    HudBg,
}

/// The entries of palette `p`, in cycling order.
pub open spec fn palette(p: Palette) -> Seq<Seq<char>> {
    match p {
        Palette::Icons => seq![
            "\u{25c6}"@,
            "\u{25cf}"@,
            "\u{25a0}"@,
            "\u{25b2}"@,
            "\u{2605}"@,
            "\u{2665}"@,
        ],
        Palette::Commands => seq![
            "none"@,
            "use"@,
            "equip"@,
            "attack"@,
            "interact"@,
            "dash"@,
            "jump"@,
            "crouch"@,
        ],
        Palette::Highlight => seq![
            "#f59e0b"@,
            "#3b82f6"@,
            "#14b8a6"@,
            "#8b5cf6"@,
            "#22c55e"@,
            "#ef4444"@,
            "#f97316"@,
        ],
        Palette::Border => seq![
            ""@,
            "#f59e0b"@,
            "#3b82f6"@,
            "#14b8a6"@,
            "#8b5cf6"@,
            "#22c55e"@,
            "#ef4444"@,
        ],
        Palette::WheelBg => seq![
            ""@,
            "#0d1520"@,
            "#111827"@,
            "#1a1a2e"@,
            "#0f172a"@,
            "#1c1c1c"@,
            "#0a0f1e"@,
        ],
        Palette::Hub => seq![
            ""@,
            "#0d1520"@,
            "#111827"@,
            "#1a1a2e"@,
            "#0f172a"@,
            "#1c1c1c"@,
            "#142030"@,
        ],
        Palette::HudBg => seq![
            ""@,
            "#0d1520"@,
            "#111827"@,
            "#1a1a2e"@,
            "#0f172a"@,
            "#1c1c1c"@,
            "#0a0f1e"@,
            "#0e1116"@,
            "#160b0b"@,
            "#0b160b"@,
        ],
    }
}

pub open spec fn strs_view(s: Seq<&str>) -> Seq<Seq<char>> {
    s.map_values(|x: &str| x@)
}

/// First index `>= from` at which `p` holds `x`, or `p.len()` when none.
pub open spec fn find_from(p: Seq<Seq<char>>, x: Seq<char>, from: int) -> int
    decreases p.len() - from,
{
    if from >= p.len() || from < 0 {
        p.len() as int
    } else if p[from] == x {
        from
    } else {
        find_from(p, x, from + 1)
    }
}

/// The palette entry after `current`, wrapping around; the first entry
/// when `current` is not in the palette.
pub open spec fn cycle_in(p: Seq<Seq<char>>, current: Seq<char>) -> Seq<char> {
    let i = find_from(p, current, 0);
    if i < p.len() {
        p[(i + 1) % (p.len() as int)]
    } else {
        p[0]
    }
}

/// The entry of palette `p` after `current`.
pub open spec fn cycle_palette_spec(p: Palette, current: Seq<char>) -> Seq<char> {
    cycle_in(palette(p), current)
}

proof fn lemma_find_from_bounds(p: Seq<Seq<char>>, x: Seq<char>, from: int)
    requires
        0 <= from,
    ensures
        from <= find_from(p, x, from) <= p.len() || (from > p.len() && find_from(p, x, from)
            == p.len()),
        find_from(p, x, from) < p.len() ==> p[find_from(p, x, from)] == x,
        forall|j: int| from <= j < find_from(p, x, from) ==> p[j] != x,
    decreases p.len() - from,
{
    if from < p.len() && p[from] != x {
        lemma_find_from_bounds(p, x, from + 1);
    }
}

/// The entries of palette `p`.
pub fn palette_entries(p: Palette) -> (r: Vec<&'static str>)
    ensures
        strs_view(r@) == palette(p),
        r@.len() > 0,
{
    proof {
        reveal_strlit("\u{25c6}");
        reveal_strlit("\u{25cf}");
        reveal_strlit("\u{25a0}");
        reveal_strlit("\u{25b2}");
        reveal_strlit("\u{2605}");
        reveal_strlit("\u{2665}");
        reveal_strlit("none");
        reveal_strlit("use");
        reveal_strlit("equip");
        reveal_strlit("attack");
        reveal_strlit("interact");
        reveal_strlit("dash");
        reveal_strlit("jump");
        reveal_strlit("crouch");
        reveal_strlit("#f59e0b");
        reveal_strlit("#3b82f6");
        reveal_strlit("#14b8a6");
        reveal_strlit("#8b5cf6");
        reveal_strlit("#22c55e");
        reveal_strlit("#ef4444");
        reveal_strlit("#f97316");
        reveal_strlit("");
        reveal_strlit("#0d1520");
        reveal_strlit("#111827");
        reveal_strlit("#1a1a2e");
        reveal_strlit("#0f172a");
        reveal_strlit("#1c1c1c");
        reveal_strlit("#0a0f1e");
        reveal_strlit("#142030");
        reveal_strlit("#0e1116");
        reveal_strlit("#160b0b");
        reveal_strlit("#0b160b");
    }
    let r = match p {
        Palette::Icons => vec!["\u{25c6}", "\u{25cf}", "\u{25a0}", "\u{25b2}", "\u{2605}", "\u{2665}"],
        Palette::Commands => vec!["none", "use", "equip", "attack", "interact", "dash", "jump", "crouch"],
        Palette::Highlight => vec![
            "#f59e0b",
            "#3b82f6",
            "#14b8a6",
            "#8b5cf6",
            "#22c55e",
            "#ef4444",
            "#f97316",
        ],
        Palette::Border => vec!["", "#f59e0b", "#3b82f6", "#14b8a6", "#8b5cf6", "#22c55e", "#ef4444"],
        Palette::WheelBg => vec!["", "#0d1520", "#111827", "#1a1a2e", "#0f172a", "#1c1c1c", "#0a0f1e"],
        Palette::Hub => vec!["", "#0d1520", "#111827", "#1a1a2e", "#0f172a", "#1c1c1c", "#142030"],
        Palette::HudBg => vec![
            "",
            "#0d1520",
            "#111827",
            "#1a1a2e",
            "#0f172a",
            "#1c1c1c",
            "#0a0f1e",
            "#0e1116",
            "#160b0b",
            "#0b160b",
        ],
    };
    assert(strs_view(r@) =~= palette(p));
    r
}

/// The entry of palette `p` that follows `current` (wrapping around), or the
/// palette's first entry when `current` is not one of its entries.
pub fn cycle_palette(p: Palette, current: &str) -> (r: String)
    ensures
        r@ == cycle_palette_spec(p, current@),
{
    let entries = palette_entries(p);
    let ghost pv = strs_view(entries@);
    let n = entries.len();
    let mut i: usize = 0;
    while i < n
        invariant
            n == entries@.len(),
            pv == strs_view(entries@),
            pv == palette(p),
            n > 0,
            i <= n,
            forall|j: int| 0 <= j < i ==> pv[j] != current@,
        decreases n - i,
    {
        if str_eq(entries[i], current) {
            proof {
                assert(pv[i as int] == entries@[i as int]@);
                lemma_find_from_bounds(pv, current@, 0);
                let k = find_from(pv, current@, 0);
                if k > i {
                    assert(pv[i as int] != current@);
                }
                assert(k == i);
                if i + 1 < n {
                    assert((i + 1) % (n as int) == i + 1) by (nonlinear_arith)
                        requires
                            i + 1 < n,
                    ;
                } else {
                    assert((i + 1) % (n as int) == 0) by (nonlinear_arith)
                        requires
                            i + 1 == n,
                            n > 0,
                    ;
                }
            }
            let next = if i + 1 < n {
                i + 1
            } else {
                0
            };
            assert(pv[next as int] == entries@[next as int]@);
            return String::from_str(entries[next]);
        }
        i = i + 1;
    }
    proof {
        lemma_find_from_bounds(pv, current@, 0);
        assert(pv[0] == entries@[0]@);
    }
    String::from_str(entries[0])
}

} // verus!
