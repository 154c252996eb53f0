//! Keyboard layouts, and reading them from what system tools report.
use crate::lines::{
    lemma_split_at_separator,
    contains_exec, contains_text, find_char_from, is_white_space_exec, lines_chars,
    lines_of, occurs_at, occurs_at_exec, slice_chars, split_chars, split_on, starts_with_exec,
    texts_of, trim_chars, trim_quotes, trim_white_space, white_space_run,
};
use crate::text::{chars_of, push_char, push_str};
use vstd::prelude::*;

verus! {

/// A keyboard layout (such as `de` or `us`) and its optional variant (such as `nodeadkeys`).
#[derive(Debug, Clone)]
pub struct KeyboardLayout {
    pub layout: String,
    pub variant: Option<String>,
}

/// The layout and variant texts.
pub open spec fn layout_view(k: KeyboardLayout) -> (Seq<char>, Option<Seq<char>>) {
    (
        k.layout@,
        match k.variant {
            Some(v) => Some(v@),
            None => None,
        },
    )
}

/// The layout and variant texts of an optional layout.
pub open spec fn detected_view(k: Option<KeyboardLayout>) -> Option<(Seq<char>, Option<Seq<char>>)> {
    match k {
        Some(l) => Some(layout_view(l)),
        None => None,
    }
}

/// The full name of a layout: `layout` or `layout(variant)`.
pub open spec fn full_name_text(layout: Seq<char>, variant: Option<Seq<char>>) -> Seq<char> {
    match variant {
        Some(v) => layout + seq!['('] + v + seq![')'],
        None => layout,
    }
}

/// The piece after the first `sep` and before the next one, if `sep` occurs.
pub open spec fn second_field(line: Seq<char>, sep: char) -> Option<Seq<char>> {
    let parts = split_on(line, sep);
    if parts.len() >= 2 {
        Some(parts[1])
    } else {
        None
    }
}

/// The layout named by the first `X11 Layout:` line of `localectl status`.
pub open spec fn localectl_layout_in(ls: Seq<Seq<char>>) -> Option<Seq<char>>
    decreases ls.len(),
{
    if ls.len() == 0 {
        None
    } else if contains_text(ls[0], "X11 Layout:"@) {
        match second_field(ls[0], ':') {
            Some(f) => Some(trim_white_space(f)),
            None => None,
        }
    } else {
        localectl_layout_in(ls.skip(1))
    }
}

/// Layout and variant after the `XKBLAYOUT=` and `XKBVARIANT=` lines of
/// `/etc/default/keyboard`, the last assignment of each winning; `None` when a field is missing.
pub open spec fn keyboard_file_scan(
    ls: Seq<Seq<char>>,
    layout: Option<Seq<char>>,
    variant: Option<Seq<char>>,
) -> Option<(Option<Seq<char>>, Option<Seq<char>>)>
    decreases ls.len(),
{
    if ls.len() == 0 {
        Some((layout, variant))
    } else {
        let line = ls[0];
        let next_layout = if occurs_at(line, "XKBLAYOUT="@, 0) {
            match second_field(line, '=') {
                Some(v) => Some(Some(trim_quotes(v))),
                None => None,
            }
        } else {
            Some(layout)
        };
        match next_layout {
            None => None,
            Some(l) => {
                let next_variant = if occurs_at(line, "XKBVARIANT="@, 0) {
                    match second_field(line, '=') {
                        Some(v) => Some(Some(trim_quotes(v))),
                        None => None,
                    }
                } else {
                    Some(variant)
                };
                match next_variant {
                    None => None,
                    Some(v) => keyboard_file_scan(ls.skip(1), l, v),
                }
            },
        }
    }
}

/// The value of an assignment line `KEY=VALUE`: the piece after the first `=` and
/// before any next one, without surrounding double quotes.
pub open spec fn assigned_value(line: Seq<char>) -> Seq<char> {
    trim_quotes(split_on(line, '=')[1])
}

/// A line that starts with `XKBLAYOUT=` or `XKBVARIANT=` always has a value.
proof fn lemma_assignment_has_value(line: Seq<char>)
    ensures
        occurs_at(line, "XKBLAYOUT="@, 0) ==> second_field(line, '=') == Some(
            split_on(line, '=')[1],
        ),
        occurs_at(line, "XKBVARIANT="@, 0) ==> second_field(line, '=') == Some(
            split_on(line, '=')[1],
        ),
{
    reveal_strlit("XKBLAYOUT=");
    reveal_strlit("XKBVARIANT=");
    if occurs_at(line, "XKBLAYOUT="@, 0) {
        assert(line[9] == line.subrange(0, 10)[9]);
        lemma_split_at_separator(line, '=', Seq::empty(), 9);
    }
    if occurs_at(line, "XKBVARIANT="@, 0) {
        assert(line[10] == line.subrange(0, 11)[10]);
        lemma_split_at_separator(line, '=', Seq::empty(), 10);
    }
}

/// Scanning lines never fails, and a field that no line assigns keeps its value.
proof fn lemma_scan_keeps_unassigned(
    ls: Seq<Seq<char>>,
    layout: Option<Seq<char>>,
    variant: Option<Seq<char>>,
)
    ensures
        keyboard_file_scan(ls, layout, variant) is Some,
        (forall|j: int| 0 <= j < ls.len() ==> !occurs_at(#[trigger] ls[j], "XKBLAYOUT="@, 0))
            ==> keyboard_file_scan(ls, layout, variant).unwrap().0 == layout,
        (forall|j: int| 0 <= j < ls.len() ==> !occurs_at(#[trigger] ls[j], "XKBVARIANT="@, 0))
            ==> keyboard_file_scan(ls, layout, variant).unwrap().1 == variant,
    decreases ls.len(),
{
    if ls.len() > 0 {
        lemma_assignment_has_value(ls[0]);
        let line = ls[0];
        let l = if occurs_at(line, "XKBLAYOUT="@, 0) { Some(assigned_value(line)) } else { layout };
        let v = if occurs_at(line, "XKBVARIANT="@, 0) { Some(assigned_value(line)) } else { variant };
        assert(keyboard_file_scan(ls, layout, variant) == keyboard_file_scan(ls.skip(1), l, v));
        lemma_scan_keeps_unassigned(ls.skip(1), l, v);
        if forall|j: int| 0 <= j < ls.len() ==> !occurs_at(#[trigger] ls[j], "XKBLAYOUT="@, 0) {
            assert(!occurs_at(ls[0], "XKBLAYOUT="@, 0));
            assert forall|j: int| 0 <= j < ls.skip(1).len() implies !occurs_at(
                #[trigger] ls.skip(1)[j],
                "XKBLAYOUT="@,
                0,
            ) by {
                assert(ls.skip(1)[j] == ls[j + 1]);
            }
        }
        if forall|j: int| 0 <= j < ls.len() ==> !occurs_at(#[trigger] ls[j], "XKBVARIANT="@, 0) {
            assert(!occurs_at(ls[0], "XKBVARIANT="@, 0));
            assert forall|j: int| 0 <= j < ls.skip(1).len() implies !occurs_at(
                #[trigger] ls.skip(1)[j],
                "XKBVARIANT="@,
                0,
            ) by {
                assert(ls.skip(1)[j] == ls[j + 1]);
            }
        }
    }
}

/// Scanning lines, a field that some line assigns ends with a value.
proof fn lemma_scan_assigned_field(
    ls: Seq<Seq<char>>,
    layout: Option<Seq<char>>,
    variant: Option<Seq<char>>,
    i: int,
)
    requires
        0 <= i < ls.len() || layout is Some || variant is Some,
    ensures
        keyboard_file_scan(ls, layout, variant) is Some,
        (layout is Some || (0 <= i < ls.len() && occurs_at(ls[i], "XKBLAYOUT="@, 0)))
            ==> keyboard_file_scan(ls, layout, variant).unwrap().0 is Some,
        (variant is Some || (0 <= i < ls.len() && occurs_at(ls[i], "XKBVARIANT="@, 0)))
            ==> keyboard_file_scan(ls, layout, variant).unwrap().1 is Some,
    decreases ls.len(),
{
    lemma_scan_keeps_unassigned(ls, layout, variant);
    if ls.len() > 0 {
        lemma_assignment_has_value(ls[0]);
        let line = ls[0];
        let l = if occurs_at(line, "XKBLAYOUT="@, 0) { Some(assigned_value(line)) } else { layout };
        let v = if occurs_at(line, "XKBVARIANT="@, 0) { Some(assigned_value(line)) } else { variant };
        assert(keyboard_file_scan(ls, layout, variant) == keyboard_file_scan(ls.skip(1), l, v));
        if i > 0 && i < ls.len() {
            assert(ls.skip(1)[i - 1] == ls[i]);
            lemma_scan_assigned_field(ls.skip(1), l, v, i - 1);
        } else if l is Some || v is Some {
            lemma_scan_assigned_field(ls.skip(1), l, v, -1);
        }
    }
}

/// Scanning lines, the last line that assigns `key` gives that field its value,
/// whatever lines stand before it.
proof fn lemma_scan_last_assignment(
    ls: Seq<Seq<char>>,
    layout: Option<Seq<char>>,
    variant: Option<Seq<char>>,
    key: Seq<char>,
    i: int,
)
    requires
        key == "XKBLAYOUT="@ || key == "XKBVARIANT="@,
        0 <= i < ls.len(),
        occurs_at(ls[i], key, 0),
        forall|j: int| i < j < ls.len() ==> !occurs_at(#[trigger] ls[j], key, 0),
    ensures
        keyboard_file_scan(ls, layout, variant) is Some,
        key == "XKBLAYOUT="@ ==> keyboard_file_scan(ls, layout, variant).unwrap().0 == Some(
            assigned_value(ls[i]),
        ),
        key == "XKBVARIANT="@ ==> keyboard_file_scan(ls, layout, variant).unwrap().1 == Some(
            assigned_value(ls[i]),
        ),
    decreases ls.len(),
{
    lemma_assignment_has_value(ls[0]);
    let line = ls[0];
    let l = if occurs_at(line, "XKBLAYOUT="@, 0) { Some(assigned_value(line)) } else { layout };
    let v = if occurs_at(line, "XKBVARIANT="@, 0) { Some(assigned_value(line)) } else { variant };
    assert(keyboard_file_scan(ls, layout, variant) == keyboard_file_scan(ls.skip(1), l, v));
    assert forall|j: int| 0 <= j < ls.skip(1).len() && i <= j implies !occurs_at(
        #[trigger] ls.skip(1)[j],
        key,
        0,
    ) by {
        assert(ls.skip(1)[j] == ls[j + 1]);
    }
    if i == 0 {
        lemma_scan_keeps_unassigned(ls.skip(1), l, v);
    } else {
        assert(ls.skip(1)[i - 1] == ls[i]);
        lemma_scan_last_assignment(ls.skip(1), l, v, key, i - 1);
    }
}

/// What `/etc/default/keyboard` gives: a layout once `XKBLAYOUT=` was assigned.
pub open spec fn keyboard_file_layout(content: Seq<char>) -> Option<(Seq<char>, Option<Seq<char>>)> {
    match keyboard_file_scan(lines_of(content), None, None) {
        Some((Some(l), v)) => Some((l, v)),
        _ => None,
    }
}

/// `/etc/default/keyboard` gives the layout of its last `XKBLAYOUT=` line, whatever
/// lines (blank ones and comments too) stand around it.
pub proof fn lemma_keyboard_file_last_layout_wins(content: Seq<char>, i: int)
    requires
        0 <= i < lines_of(content).len(),
        occurs_at(lines_of(content)[i], "XKBLAYOUT="@, 0),
        forall|j: int|
            i < j < lines_of(content).len() ==> !occurs_at(#[trigger] lines_of(content)[j], "XKBLAYOUT="@, 0),
    ensures
        keyboard_file_layout(content) matches Some((l, _)) && l == assigned_value(lines_of(content)[i]),
{
    lemma_scan_last_assignment(lines_of(content), None, None, "XKBLAYOUT="@, i);
}

/// With a layout assigned, the last `XKBVARIANT=` line gives the variant, whatever
/// lines stand around it; without such a line there is no variant.
pub proof fn lemma_keyboard_file_variant(content: Seq<char>, i: int, k: int)
    requires
        0 <= i < lines_of(content).len(),
        occurs_at(lines_of(content)[i], "XKBLAYOUT="@, 0),
    ensures
        0 <= k < lines_of(content).len() && occurs_at(lines_of(content)[k], "XKBVARIANT="@, 0) && (
        forall|j: int|
            k < j < lines_of(content).len() ==> !occurs_at(
                #[trigger] lines_of(content)[j],
                "XKBVARIANT="@,
                0,
            )) ==> (keyboard_file_layout(content) matches Some((_, v)) && v == Some(
            assigned_value(lines_of(content)[k]),
        )),
        (forall|j: int|
            0 <= j < lines_of(content).len() ==> !occurs_at(
                #[trigger] lines_of(content)[j],
                "XKBVARIANT="@,
                0,
            )) ==> (keyboard_file_layout(content) matches Some((_, v)) && v is None),
{
    let ls = lines_of(content);
    lemma_scan_assigned_field(ls, None, None, i);
    lemma_scan_keeps_unassigned(ls, None, None);
    if 0 <= k < ls.len() && occurs_at(ls[k], "XKBVARIANT="@, 0) && (forall|j: int|
        k < j < ls.len() ==> !occurs_at(#[trigger] ls[j], "XKBVARIANT="@, 0)) {
        lemma_scan_last_assignment(ls, None, None, "XKBVARIANT="@, k);
    }
}

/// Without an `XKBLAYOUT=` line `/etc/default/keyboard` gives no layout.
pub proof fn lemma_keyboard_file_without_layout(content: Seq<char>)
    requires
        forall|j: int|
            0 <= j < lines_of(content).len() ==> !occurs_at(#[trigger] lines_of(content)[j], "XKBLAYOUT="@, 0),
    ensures
        keyboard_file_layout(content) is None,
{
    lemma_scan_keeps_unassigned(lines_of(content), None, None);
}

/// The layout text of a `('xkb', 'LAYOUT')` entry that starts at index `p`
/// (the regular expression `\('xkb',\s*'([^']+)'\)` matching there).
pub open spec fn xkb_entry_at(s: Seq<char>, p: int) -> Option<Seq<char>> {
    if occurs_at(s, "('xkb',"@, p) {
        let q = p + "('xkb',"@.len() + white_space_run(s.skip(p + "('xkb',"@.len()));
        if q < s.len() && s[q] == '\'' {
            match find_char_from(s, '\'', q + 1) {
                Some(r) => if r > q + 1 && r + 1 < s.len() && s[r + 1] == ')' {
                    Some(s.subrange(q + 1, r))
                } else {
                    None
                },
                None => None,
            }
        } else {
            None
        }
    } else {
        None
    }
}

/// The first `('xkb', 'LAYOUT')` entry at or after index `p`.
pub open spec fn xkb_entry_from(s: Seq<char>, p: int) -> Option<Seq<char>>
    decreases s.len() + 1 - p,
{
    if p < 0 || p > s.len() {
        None
    } else {
        match xkb_entry_at(s, p) {
            Some(l) => Some(l),
            None => xkb_entry_from(s, p + 1),
        }
    }
}

/// `NAME(VARIANT)` starting at index `p` (the regular expression `([^(]+)\(([^)]+)\)`
/// matching there): the name and the variant.
pub open spec fn variant_at(l: Seq<char>, p: int) -> Option<(Seq<char>, Seq<char>)> {
    if 0 <= p < l.len() && l[p] != '(' {
        match find_char_from(l, '(', p) {
            Some(q) => match find_char_from(l, ')', q + 1) {
                Some(r) => if r > q + 1 {
                    Some((l.subrange(p, q), l.subrange(q + 1, r)))
                } else {
                    None
                },
                None => None,
            },
            None => None,
        }
    } else {
        None
    }
}

/// The first `NAME(VARIANT)` at or after index `p`.
pub open spec fn variant_from(l: Seq<char>, p: int) -> Option<(Seq<char>, Seq<char>)>
    decreases l.len() + 1 - p,
{
    if p < 0 || p > l.len() {
        None
    } else {
        match variant_at(l, p) {
            Some(v) => Some(v),
            None => variant_from(l, p + 1),
        }
    }
}

/// What the GNOME input sources give: the first xkb entry, split into name and
/// variant when it reads `NAME(VARIANT)`.
pub open spec fn gsettings_layout(s: Seq<char>) -> Option<(Seq<char>, Option<Seq<char>>)> {
    match xkb_entry_from(s, 0) {
        None => None,
        Some(l) => match variant_from(l, 0) {
            Some((name, variant)) => Some((name, Some(variant))),
            None => Some((l, None)),
        },
    }
}

fn string_of(v: &Vec<char>) -> (s: String)
    ensures
        s@ == v@,
{
    let mut s = String::new();
    let mut i: usize = 0;
    while i < v.len()
        invariant
            i <= v@.len(),
            s@ == v@.take(i as int),
        decreases v@.len() - i,
    {
        push_char(&mut s, v[i]);
        i = i + 1;
        assert(s@ =~= v@.take(i as int));
    }
    assert(v@.take(v@.len() as int) =~= v@);
    s
}

fn second_field_exec(line: &Vec<char>, sep: char) -> (r: Option<Vec<char>>)
    ensures
        match (r, second_field(line@, sep)) {
            (Some(x), Some(y)) => x@ == y,
            (None, None) => true,
            _ => false,
        },
{
    let parts = split_chars(line, sep);
    if parts.len() >= 2 {
        assert(parts@[1]@ == texts_of(parts@)[1]);
        Some(slice_chars(&parts[1], 0, parts[1].len()))
    } else {
        None
    }
}

fn find_char_from_exec(s: &Vec<char>, c: char, from: usize) -> (r: Option<usize>)
    ensures
        match (r, find_char_from(s@, c, from as int)) {
            (Some(x), Some(y)) => x == y,
            (None, None) => true,
            _ => false,
        },
        r matches Some(x) ==> from <= x < s@.len() && s@[x as int] == c,
{
    let mut i = from;
    while i < s.len()
        invariant
            from <= i,
            find_char_from(s@, c, from as int) == find_char_from(s@, c, i as int),
        decreases s@.len() - i,
    {
        if s[i] == c {
            return Some(i);
        }
        i = i + 1;
    }
    None
}

fn white_space_run_exec(s: &Vec<char>, from: usize) -> (n: usize)
    requires
        from <= s@.len(),
    ensures
        n == white_space_run(s@.skip(from as int)),
        from + n <= s@.len(),
{
    let mut i = from;
    while i < s.len() && is_white_space_exec(s[i])
        invariant
            from <= i <= s@.len(),
            white_space_run(s@.skip(from as int)) == (i - from) + white_space_run(s@.skip(i as int)),
        decreases s@.len() - i,
    {
        assert(s@.skip(i as int).skip(1) =~= s@.skip(i + 1));
        i = i + 1;
    }
    i - from
}

fn xkb_entry_at_exec(s: &Vec<char>, prefix: &Vec<char>, p: usize) -> (r: Option<Vec<char>>)
    requires
        prefix@ == "('xkb',"@,
        p <= s@.len(),
    ensures
        match (r, xkb_entry_at(s@, p as int)) {
            (Some(x), Some(y)) => x@ == y,
            (None, None) => true,
            _ => false,
        },
{
    let len = s.len();
    if !occurs_at_exec(s, prefix, p) {
        return None;
    }
    let start = p + prefix.len();
    let q = start + white_space_run_exec(s, start);
    if q < s.len() && s[q] == '\'' {
        match find_char_from_exec(s, '\'', q + 1) {
            Some(r) => {
                if r > q + 1 && r + 1 < s.len() && s[r + 1] == ')' {
                    Some(slice_chars(s, q + 1, r))
                } else {
                    None
                }
            },
            None => None,
        }
    } else {
        None
    }
}

fn variant_at_exec(l: &Vec<char>, p: usize) -> (r: Option<(Vec<char>, Vec<char>)>)
    ensures
        match (r, variant_at(l@, p as int)) {
            (Some((a, b)), Some((x, y))) => a@ == x && b@ == y,
            (None, None) => true,
            _ => false,
        },
{
    let len = l.len();
    if p < len && l[p] != '(' {
        match find_char_from_exec(l, '(', p) {
            Some(q) => match find_char_from_exec(l, ')', q + 1) {
                Some(r) => {
                    if r > q + 1 {
                        Some((slice_chars(l, p, q), slice_chars(l, q + 1, r)))
                    } else {
                        None
                    }
                },
                None => None,
            },
            None => None,
        }
    } else {
        None
    }
}

/// A system report that a keyboard layout is read from.
#[derive(Debug, Clone, Copy, PartialEq, Eq, Structural)]
pub enum LayoutSource {
    /// The output of `localectl status`.
    Localectl,
    /// The output of `gsettings get org.gnome.desktop.input-sources sources`.
    Gsettings,
    /// The content of `/etc/default/keyboard`.
    KeyboardFile,
}

/// The layout and variant that the report of a source gives.
pub open spec fn report_layout(source: LayoutSource, report: Seq<char>) -> Option<(Seq<char>, Option<Seq<char>>)> {
    match source {
        LayoutSource::Localectl => match localectl_layout_in(lines_of(report)) {
            Some(l) => Some((l, None::<Seq<char>>)),
            None => None,
        },
        LayoutSource::Gsettings => gsettings_layout(report),
        LayoutSource::KeyboardFile => keyboard_file_layout(report),
    }
}

/// The source asked when `s` gives no layout: `localectl`, then `gsettings`, then
/// `/etc/default/keyboard`, then none.
pub open spec fn next_source(s: LayoutSource) -> Option<LayoutSource> {
    match s {
        LayoutSource::Localectl => Some(LayoutSource::Gsettings),
        LayoutSource::Gsettings => Some(LayoutSource::KeyboardFile),
        LayoutSource::KeyboardFile => None,
    }
}

impl LayoutSource {
    /// The source asked first: `localectl`.
    pub fn first() -> (s: Self)
        ensures
            s == LayoutSource::Localectl,
    {
        LayoutSource::Localectl
    }

    /// The source asked when this one gives no layout: `localectl`, then `gsettings`,
    /// then `/etc/default/keyboard`, then none.
    pub fn next(self) -> (s: Option<Self>)
        ensures
            s == next_source(self),
    {
        match self {
            LayoutSource::Localectl => Some(LayoutSource::Gsettings),
            LayoutSource::Gsettings => Some(LayoutSource::KeyboardFile),
            LayoutSource::KeyboardFile => None,
        }
    }
}

/// The outcome of asking `source`, which gave `found`: that layout, or else the
/// source to ask next (`None` once every source was asked).
pub open spec fn detect_step_spec(source: LayoutSource, found: Option<KeyboardLayout>) -> Result<
    KeyboardLayout,
    Option<LayoutSource>,
> {
    match found {
        Some(l) => Ok(l),
        None => Err(next_source(source)),
    }
}

/// One step of detecting the layout: the first layout that a source gives is the
/// result, and no later source is asked; a source that gives none hands on to the
/// next one, and after the last one detection ends without a layout.
pub fn detect_step(source: LayoutSource, found: Option<KeyboardLayout>) -> (r: Result<
    KeyboardLayout,
    Option<LayoutSource>,
>)
    ensures
        r == detect_step_spec(source, found),
{
    match found {
        Some(l) => Ok(l),
        None => Err(source.next()),
    }
}

/// How many sources come after `s`.
pub open spec fn sources_after(s: LayoutSource) -> nat {
    match s {
        LayoutSource::Localectl => 2,
        LayoutSource::Gsettings => 1,
        LayoutSource::KeyboardFile => 0,
    }
}

/// Detection by `detect_step` from `source` on, where `found(s)` is the layout that
/// source `s` gives.
pub open spec fn detection_from(
    source: LayoutSource,
    found: spec_fn(LayoutSource) -> Option<KeyboardLayout>,
) -> Option<KeyboardLayout>
    decreases sources_after(source),
{
    match detect_step_spec(source, found(source)) {
        Ok(l) => Some(l),
        Err(None) => None,
        Err(Some(next)) => detection_from(next, found),
    }
}

/// Detection gives the first layout found: that of `localectl` if it gives one,
/// else that of `gsettings`, else that of `/etc/default/keyboard`; none when no
/// source gives a layout.
pub proof fn lemma_detection_takes_first_layout(found: spec_fn(LayoutSource) -> Option<KeyboardLayout>)
    ensures
        detection_from(LayoutSource::Localectl, found) == (match found(LayoutSource::Localectl) {
            Some(l) => Some(l),
            None => match found(LayoutSource::Gsettings) {
                Some(l) => Some(l),
                None => found(LayoutSource::KeyboardFile),
            },
        }),
{
    reveal_with_fuel(detection_from, 3);
}

impl KeyboardLayout {
    /// Creates a layout.
    pub fn new(layout: String, variant: Option<String>) -> (k: Self)
        ensures
            k.layout == layout,
            k.variant == variant,
    {
        KeyboardLayout { layout, variant }
    }

    /// `layout` or `layout(variant)`.
    pub fn full_name(&self) -> (s: String)
        ensures
            s@ == full_name_text(layout_view(*self).0, layout_view(*self).1),
    {
        match &self.variant {
            Some(variant) => {
                let mut s = self.layout.clone();
                push_char(&mut s, '(');
                push_str(&mut s, variant.as_str());
                push_char(&mut s, ')');
                assert(s@ =~= full_name_text(layout_view(*self).0, layout_view(*self).1));
                s
            },
            None => self.layout.clone(),
        }
    }

    /// Reads the layout from the report of a source.
    pub fn from_report(source: LayoutSource, report: &str) -> (r: Option<KeyboardLayout>)
        ensures
            detected_view(r) == report_layout(source, report@),
    {
        match source {
            LayoutSource::Localectl => KeyboardLayout::from_localectl_status(report),
            LayoutSource::Gsettings => KeyboardLayout::from_gsettings_sources(report),
            LayoutSource::KeyboardFile => KeyboardLayout::from_etc_default_keyboard(report),
        }
    }

    /// Reads the layout from the output of `localectl status`: the text after
    /// `X11 Layout:` on the first line that holds it, trimmed; no variant.
    pub fn from_localectl_status(stdout: &str) -> (r: Option<KeyboardLayout>)
        ensures
            detected_view(r) == (match localectl_layout_in(lines_of(stdout@)) {
                Some(l) => Some((l, None::<Seq<char>>)),
                None => None,
            }),
    {
        let text = chars_of(stdout);
        let ls = lines_chars(&text);
        let pattern = chars_of("X11 Layout:");
        let ghost all = texts_of(ls@);
        let mut i: usize = 0;
        assert(all.skip(0) =~= all);
        while i < ls.len()
            invariant
                all == texts_of(ls@),
                all == lines_of(text@),
                text@ == stdout@,
                pattern@ == "X11 Layout:"@,
                i <= ls@.len(),
                localectl_layout_in(all) == localectl_layout_in(all.skip(i as int)),
            decreases ls@.len() - i,
        {
            let line = &ls[i];
            assert(line@ == all[i as int]);
            assert(all.skip(i as int)[0] == all[i as int]);
            if contains_exec(line, &pattern) {
                return match second_field_exec(line, ':') {
                    Some(field) => {
                        let trimmed = trim_chars(&field, true);
                        Some(KeyboardLayout { layout: string_of(&trimmed), variant: None })
                    },
                    None => None,
                };
            }
            assert(all.skip(i as int).skip(1) =~= all.skip(i + 1));
            i = i + 1;
        }
        None
    }

    /// Reads the layout and variant from `/etc/default/keyboard`: the values of the
    /// `XKBLAYOUT=` and `XKBVARIANT=` lines, without surrounding quotes.
    pub fn from_etc_default_keyboard(content: &str) -> (r: Option<KeyboardLayout>)
        ensures
            detected_view(r) == keyboard_file_layout(content@),
    {
        let text = chars_of(content);
        let ls = lines_chars(&text);
        let layout_key = chars_of("XKBLAYOUT=");
        let variant_key = chars_of("XKBVARIANT=");
        let ghost all = texts_of(ls@);
        let mut layout: Option<Vec<char>> = None;
        let mut variant: Option<Vec<char>> = None;
        let mut i: usize = 0;
        assert(all.skip(0) =~= all);
        while i < ls.len()
            invariant
                all == texts_of(ls@),
                all == lines_of(text@),
                text@ == content@,
                layout_key@ == "XKBLAYOUT="@,
                variant_key@ == "XKBVARIANT="@,
                i <= ls@.len(),
                keyboard_file_scan(all, None, None) == keyboard_file_scan(
                    all.skip(i as int),
                    chars_view(layout),
                    chars_view(variant),
                ),
            decreases ls@.len() - i,
        {
            let line = &ls[i];
            assert(line@ == all[i as int]);
            assert(all.skip(i as int)[0] == all[i as int]);
            assert(all.skip(i as int).skip(1) =~= all.skip(i + 1));
            if starts_with_exec(line, &layout_key) {
                match second_field_exec(line, '=') {
                    Some(value) => {
                        layout = Some(trim_chars(&value, false));
                    },
                    None => {
                        return None;
                    },
                }
            }
            if starts_with_exec(line, &variant_key) {
                match second_field_exec(line, '=') {
                    Some(value) => {
                        variant = Some(trim_chars(&value, false));
                    },
                    None => {
                        return None;
                    },
                }
            }
            i = i + 1;
        }
        match layout {
            Some(l) => Some(
                KeyboardLayout {
                    layout: string_of(&l),
                    variant: match variant {
                        Some(v) => Some(string_of(&v)),
                        None => None,
                    },
                },
            ),
            None => None,
        }
    }

    /// Reads the layout from the GNOME input sources (`gsettings get
    /// org.gnome.desktop.input-sources sources`): the first `('xkb', 'LAYOUT')` entry;
    /// `NAME(VARIANT)` gives a name and a variant.
    pub fn from_gsettings_sources(stdout: &str) -> (r: Option<KeyboardLayout>)
        ensures
            detected_view(r) == gsettings_layout(stdout@),
    {
        let text = chars_of(stdout);
        let prefix = chars_of("('xkb',");
        let layout = match xkb_entry_search(&text, &prefix) {
            Some(l) => l,
            None => {
                return None;
            },
        };
        match variant_search(&layout) {
            Some((name, variant)) => Some(
                KeyboardLayout { layout: string_of(&name), variant: Some(string_of(&variant)) },
            ),
            None => Some(KeyboardLayout { layout: string_of(&layout), variant: None }),
        }
    }
}

fn xkb_entry_search(s: &Vec<char>, prefix: &Vec<char>) -> (r: Option<Vec<char>>)
    requires
        prefix@ == "('xkb',"@,
    ensures
        match (r, xkb_entry_from(s@, 0)) {
            (Some(x), Some(y)) => x@ == y,
            (None, None) => true,
            _ => false,
        },
{
    let len = s.len();
    let mut p: usize = 0;
    while p < len
        invariant
            len == s@.len(),
            prefix@ == "('xkb',"@,
            p <= len,
            xkb_entry_from(s@, 0) == xkb_entry_from(s@, p as int),
        decreases len - p,
    {
        match xkb_entry_at_exec(s, prefix, p) {
            Some(entry) => {
                return Some(entry);
            },
            None => {},
        }
        p = p + 1;
    }
    assert(xkb_entry_from(s@, len + 1) is None);
    xkb_entry_at_exec(s, prefix, len)
}

fn variant_search(l: &Vec<char>) -> (r: Option<(Vec<char>, Vec<char>)>)
    ensures
        match (r, variant_from(l@, 0)) {
            (Some((a, b)), Some((x, y))) => a@ == x && b@ == y,
            (None, None) => true,
            _ => false,
        },
{
    let len = l.len();
    let mut q: usize = 0;
    while q < len
        invariant
            len == l@.len(),
            q <= len,
            variant_from(l@, 0) == variant_from(l@, q as int),
        decreases len - q,
    {
        match variant_at_exec(l, q) {
            Some(found) => {
                return Some(found);
            },
            None => {},
        }
        q = q + 1;
    }
    assert(variant_from(l@, len + 1) is None);
    variant_at_exec(l, len)
}

/// The text of an optional character vector.
pub open spec fn chars_view(v: Option<Vec<char>>) -> Option<Seq<char>> {
    match v {
        Some(x) => Some(x@),
        None => None,
    }
}

} // verus!
