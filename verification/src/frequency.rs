//! Counting how often each color occurs, and ranking the colors by count.
use crate::color::{rgb_hex_seq, RgbColor24, ToHex};
use crate::text::{decimal_seq, hex_digit, push_decimal, push_str};
use core::cmp::Ordering;
use dashmap::DashMap;
use vstd::std_specs::cmp::PartialOrdSpecImpl;
use vstd::prelude::*;

verus! {

#[verifier::external_type_specification]
#[verifier::external_body]
#[verifier::reject_recursive_types(K)]
#[verifier::reject_recursive_types(V)]
#[verifier::reject_recursive_types(S)]
pub struct ExDashMap<K, V, S>(DashMap<K, V, S>);

/// The color channels `(red, green, blue)` by which a color is counted.
pub type ColorKey = (u8, u8, u8);

/// The counts held by a concurrent map from color channels to counts.
pub uninterp spec fn color_counts(map: DashMap<ColorKey, usize>) -> Map<ColorKey, usize>;

/// `DashMap::new`: the map starts empty.
#[verifier::external_body]
fn counts_new() -> (fresh: DashMap<ColorKey, usize>)
    ensures
        color_counts(fresh) =~= Map::empty(),
{
    DashMap::new()
}

/// `DashMap::get`: the count stored under `key`, if any.
#[verifier::external_body]
fn counts_get(m: &DashMap<ColorKey, usize>, key: ColorKey) -> (r: Option<usize>)
    ensures
        r == (if color_counts(*m).contains_key(key) {
            Some(color_counts(*m)[key])
        } else {
            None
        }),
{
    m.get(&key).map(|entry| *entry.value())
}

/// `DashMap::insert`: stores `value` under `key`, replacing any earlier count.
#[verifier::external_body]
fn counts_insert(m: &mut DashMap<ColorKey, usize>, key: ColorKey, value: usize)
    ensures
        color_counts(*final(m)) == color_counts(*old(m)).insert(key, value),
{
    m.insert(key, value);
}

/// `DashMap::len`: the number of stored pairs.
#[verifier::external_body]
fn counts_len(m: &DashMap<ColorKey, usize>) -> (n: usize)
    ensures
        n == color_counts(*m).dom().len(),
{
    m.len()
}

/// `DashMap::iter`: every stored pair once, in an order that the map does not fix.
#[verifier::external_body]
fn counts_entries(m: &DashMap<ColorKey, usize>) -> (v: Vec<(ColorKey, usize)>)
    ensures
        forall|i: int|
            0 <= i < v@.len() ==> #[trigger] color_counts(*m).contains_key(v@[i].0)
                && color_counts(*m)[v@[i].0] == v@[i].1,
        forall|i: int, j: int| 0 <= i < j < v@.len() ==> v@[i].0 != v@[j].0,
        forall|k: ColorKey|
            #[trigger] color_counts(*m).contains_key(k) ==> exists|i: int|
                0 <= i < v@.len() && v@[i].0 == k,
{
    m.iter().map(|entry| (*entry.key(), *entry.value())).collect()
}

/// A color together with the number of times it occurs.
#[derive(Debug, Clone, Copy)]
pub struct ColorFrequency<PDF> {
    pub color: PDF,
    pub frequency: usize,
}

impl<PDF> ColorFrequency<PDF> {
    /// Pairs a color with its count.
    pub fn new(color: PDF, frequency: usize) -> (f: Self)
        ensures
            f.color == color,
            f.frequency == frequency,
    {
        ColorFrequency { color, frequency }
    }
}

impl<PDF> PartialEq for ColorFrequency<PDF> {
    /// Two color frequencies are equal when their counts are.
    fn eq(&self, other: &Self) -> (r: bool) {
        self.frequency == other.frequency
    }
}

impl<PDF> vstd::std_specs::cmp::PartialEqSpecImpl for ColorFrequency<PDF> {
    open spec fn obeys_eq_spec() -> bool {
        true
    }

    open spec fn eq_spec(&self, other: &Self) -> bool {
        self.frequency == other.frequency
    }
}

impl<PDF> Eq for ColorFrequency<PDF> {}

/// The order of two counts.
pub open spec fn count_order(a: usize, b: usize) -> Option<Ordering> {
    if a < b {
        Some(Ordering::Less)
    } else if a == b {
        Some(Ordering::Equal)
    } else {
        Some(Ordering::Greater)
    }
}

impl<PDF> PartialOrd for ColorFrequency<PDF> {
    /// Color frequencies are ordered by their counts alone.
    fn partial_cmp(&self, other: &Self) -> (r: Option<Ordering>) {
        if self.frequency < other.frequency {
            Some(Ordering::Less)
        } else if self.frequency == other.frequency {
            Some(Ordering::Equal)
        } else {
            Some(Ordering::Greater)
        }
    }
}

impl<PDF> PartialOrdSpecImpl for ColorFrequency<PDF> {
    open spec fn obeys_partial_cmp_spec() -> bool {
        true
    }

    open spec fn partial_cmp_spec(&self, other: &Self) -> Option<Ordering> {
        count_order(self.frequency, other.frequency)
    }
}

/// The channels of a color.
pub open spec fn key_of(c: RgbColor24) -> ColorKey {
    (c.red, c.green, c.blue)
}

/// The color with the given channels.
pub open spec fn color_of(k: ColorKey) -> RgbColor24 {
    RgbColor24 { red: k.0, green: k.1, blue: k.2 }
}

/// The 24-bit number `0xRRGGBB` of a color; it orders colors as their `#RRGGBB` texts do.
pub open spec fn color_number(c: RgbColor24) -> int {
    c.red * 65536 + c.green * 256 + c.blue
}

/// `a` ranks before `b`: a higher count, or the same count and a smaller color number.
pub open spec fn ranks_before(a: ColorFrequency<RgbColor24>, b: ColorFrequency<RgbColor24>) -> bool {
    a.frequency > b.frequency || (a.frequency == b.frequency && color_number(a.color)
        < color_number(b.color))
}

/// `s` lists each color of `counts` exactly once with its count, best ranked first.
pub open spec fn is_ranking(s: Seq<ColorFrequency<RgbColor24>>, counts: Map<ColorKey, usize>) -> bool {
    &&& s.len() == counts.dom().len()
    &&& forall|i: int|
        0 <= i < s.len() ==> #[trigger] counts.contains_key(key_of(s[i].color))
            && counts[key_of(s[i].color)] == s[i].frequency
    &&& forall|k: ColorKey|
        #[trigger] counts.contains_key(k) ==> exists|i: int|
            0 <= i < s.len() && key_of(s[i].color) == k
    &&& forall|i: int, j: int| 0 <= i < j < s.len() ==> ranks_before(#[trigger] s[i], #[trigger] s[j])
}

proof fn lemma_color_number_injective(a: RgbColor24, b: RgbColor24)
    ensures
        color_number(a) == color_number(b) ==> a == b,
{
}


proof fn lemma_ranking_element_at(
    s: Seq<ColorFrequency<RgbColor24>>,
    counts: Map<ColorKey, usize>,
    k: ColorKey,
) -> (j: int)
    requires
        is_ranking(s, counts),
        counts.contains_key(k),
    ensures
        0 <= j < s.len(),
        key_of(s[j].color) == k,
        s[j] == (ColorFrequency { color: color_of(k), frequency: counts[k] }),
{
    let j = choose|j: int| 0 <= j < s.len() && key_of(s[j].color) == k;
    assert(counts.contains_key(key_of(s[j].color)));
    j
}

proof fn lemma_rankings_agree_below(
    s1: Seq<ColorFrequency<RgbColor24>>,
    s2: Seq<ColorFrequency<RgbColor24>>,
    counts: Map<ColorKey, usize>,
    n: int,
)
    requires
        is_ranking(s1, counts),
        is_ranking(s2, counts),
        0 <= n <= s1.len(),
    ensures
        forall|i: int| 0 <= i < n ==> s1[i] == s2[i],
    decreases n,
{
    if n > 0 {
        let i = n - 1;
        lemma_rankings_agree_below(s1, s2, counts, i);
        assert(counts.contains_key(key_of(s1[i].color)));
        assert(counts.contains_key(key_of(s2[i].color)));
        let j = lemma_ranking_element_at(s2, counts, key_of(s1[i].color));
        let j2 = lemma_ranking_element_at(s1, counts, key_of(s2[i].color));
        assert(s1[i] == (ColorFrequency { color: color_of(key_of(s1[i].color)), frequency: counts[key_of(s1[i].color)] }));
        assert(s2[i] == (ColorFrequency { color: color_of(key_of(s2[i].color)), frequency: counts[key_of(s2[i].color)] }));
        assert(s2[j] == s1[i]);
        assert(s1[j2] == s2[i]);
        if j < i {
            assert(s1[j] == s2[j]);
            assert(ranks_before(s1[j], s1[i]));
        }
        if j2 < i {
            assert(s1[j2] == s2[j2]);
            assert(ranks_before(s2[j2], s2[i]));
        }
        if j > i {
            assert(ranks_before(s2[i], s2[j]));
            if j2 > i {
                assert(ranks_before(s1[i], s1[j2]));
            }
        }
    }
}

/// A count has exactly one ranking: the order of `get_sorted` does not depend on the
/// order in which the map hands out its entries.
pub proof fn lemma_ranking_unique(
    s1: Seq<ColorFrequency<RgbColor24>>,
    s2: Seq<ColorFrequency<RgbColor24>>,
    counts: Map<ColorKey, usize>,
)
    requires
        is_ranking(s1, counts),
        is_ranking(s2, counts),
    ensures
        s1 == s2,
{
    lemma_rankings_agree_below(s1, s2, counts, s1.len() as int);
    assert(s1 =~= s2);
}

/// How often each color occurs.
pub struct ColorFrequencyMap {
    counts: DashMap<ColorKey, usize>,
}

impl View for ColorFrequencyMap {
    type V = Map<ColorKey, usize>;

    closed spec fn view(&self) -> Map<ColorKey, usize> {
        color_counts(self.counts)
    }
}

impl Default for ColorFrequencyMap {
    /// An empty map.
    fn default() -> (m: Self)
        ensures
            m@ == Map::<ColorKey, usize>::empty(),
    {
        ColorFrequencyMap::new()
    }
}

impl core::ops::Deref for ColorFrequencyMap {
    type Target = DashMap<ColorKey, usize>;

    /// The concurrent map of counts itself.
    fn deref(&self) -> (m: &DashMap<ColorKey, usize>)
        ensures
            color_counts(*m) == self@,
    {
        &self.counts
    }
}

impl ColorFrequencyMap {
    /// An empty count.
    pub fn new() -> (m: Self)
        ensures
            m@ == Map::<ColorKey, usize>::empty(),
    {
        ColorFrequencyMap { counts: counts_new() }
    }

    /// The count of a color (`None` when it never occurred).
    pub fn count_of(&self, color: RgbColor24) -> (r: Option<usize>)
        ensures
            r == (if self@.contains_key(key_of(color)) {
                Some(self@[key_of(color)])
            } else {
                None
            }),
    {
        counts_get(&self.counts, (color.red, color.green, color.blue))
    }

    /// The number of distinct colors counted.
    pub fn len(&self) -> (n: usize)
        ensures
            n == self@.dom().len(),
    {
        counts_len(&self.counts)
    }

    /// Counts one more occurrence of a color.
    pub fn add_occurrence(&mut self, color: RgbColor24)
        requires
            old(self)@.contains_key(key_of(color)) ==> old(self)@[key_of(color)] < usize::MAX,
        ensures
            final(self)@ == old(self)@.insert(
                key_of(color),
                if old(self)@.contains_key(key_of(color)) {
                    (old(self)@[key_of(color)] + 1) as usize
                } else {
                    1usize
                },
            ),
    {
        let key = (color.red, color.green, color.blue);
        let next = match counts_get(&self.counts, key) {
            Some(n) => n + 1,
            None => 1,
        };
        counts_insert(&mut self.counts, key, next);
    }

    /// The colors with their counts, best ranked first: higher count first,
    /// and among equal counts the smaller `#RRGGBB` text first.
    pub fn get_sorted(&self) -> (v: Vec<ColorFrequency<RgbColor24>>)
        ensures
            is_ranking(v@, self@),
    {
        let entries = counts_entries(&self.counts);
        let ghost counts = self@;
        let mut sorted: Vec<ColorFrequency<RgbColor24>> = Vec::new();
        let mut k: usize = 0;
        let ghost mut origin: Seq<int> = Seq::empty();
        let ghost mut place: Seq<int> = Seq::empty();
        while k < entries.len()
            invariant
                k <= entries@.len(),
                counts == color_counts(self.counts),
                forall|i: int|
                    0 <= i < entries@.len() ==> #[trigger] counts.contains_key(entries@[i].0)
                        && counts[entries@[i].0] == entries@[i].1,
                forall|i: int, j: int| 0 <= i < j < entries@.len() ==> entries@[i].0 != entries@[j].0,
                holds_first_entries(sorted@, entries@, k as int, origin, place),
            decreases entries@.len() - k,
        {
            let (key, frequency) = entries[k];
            let item = ColorFrequency { color: RgbColor24 { red: key.0, green: key.1, blue: key.2 }, frequency };
            let mut pos: usize = 0;
            while pos < sorted.len() && (sorted[pos].frequency > frequency || (sorted[pos].frequency
                == frequency && color_key_less(&sorted[pos].color, &item.color)))
                invariant
                    pos <= sorted@.len(),
                    item.frequency == frequency,
                    forall|i: int| 0 <= i < pos ==> ranks_before(#[trigger] sorted@[i], item),
                decreases sorted@.len() - pos,
            {
                pos = pos + 1;
            }
            proof {
                lemma_place_found(sorted@, entries@, k as int, origin, place, pos as int, item);
            }
            let ghost old_sorted = sorted@;
            sorted.insert(pos, item);
            proof {
                let r = lemma_insert_keeps_ranking(
                    old_sorted,
                    sorted@,
                    entries@,
                    k as int,
                    origin,
                    place,
                    pos as int,
                    item,
                );
                origin = r.0;
                place = r.1;
            }
            k = k + 1;
        }
        proof {
            assert forall|i: int|
                0 <= i < sorted@.len() implies #[trigger] counts.contains_key(key_of(sorted@[i].color))
                && counts[key_of(sorted@[i].color)] == sorted@[i].frequency by {
                let j = origin[i];
                assert(counts.contains_key(entries@[j].0));
            }
            assert forall|key: ColorKey|
                #[trigger] counts.contains_key(key) implies exists|i: int|
                    0 <= i < sorted@.len() && key_of(sorted@[i].color) == key by {
                let j = choose|j: int| 0 <= j < entries@.len() && entries@[j].0 == key;
                assert(key_of(sorted@[place[j]].color) == entries@[j].0);
            }
            lemma_ranking_len(sorted@, counts);
        }
        sorted
    }

    /// The best ranked color, or `None` when nothing was counted.
    pub fn get_dominant_color(&self) -> (r: Option<ColorFrequency<RgbColor24>>)
        ensures
            r matches Some(f) ==> exists|s: Seq<ColorFrequency<RgbColor24>>|
                is_ranking(s, self@) && s.len() > 0 && s[0] == f,
            r is None <==> self@.dom().len() == 0,
    {
        let sorted = self.get_sorted();
        if sorted.len() > 0 {
            Some(sorted[0])
        } else {
            None
        }
    }

    /// The `n` best ranked colors (all of them when there are fewer).
    pub fn get_dominant_colors(&self, n: usize) -> (v: Vec<ColorFrequency<RgbColor24>>)
        ensures
            exists|s: Seq<ColorFrequency<RgbColor24>>|
                is_ranking(s, self@) && v@ == s.take(if n < s.len() { n as int } else { s.len() as int }),
    {
        let sorted = self.get_sorted();
        let mut v: Vec<ColorFrequency<RgbColor24>> = Vec::new();
        let mut i: usize = 0;
        while i < n && i < sorted.len()
            invariant
                i <= sorted@.len(),
                i <= n,
                is_ranking(sorted@, self@),
                v@ == sorted@.take(i as int),
            decreases sorted@.len() - i,
        {
            v.push(sorted[i]);
            i = i + 1;
            assert(v@ =~= sorted@.take(i as int));
        }
        assert(v@ == sorted@.take(if n < sorted@.len() { n as int } else { sorted@.len() as int }));
        v
    }
}


/// The line of the color ranked at `i` (from 0): `  N: #RRGGBB - COUNT pixels`, with `N = i + 1`.
pub open spec fn frequency_line(i: nat, f: ColorFrequency<RgbColor24>) -> Seq<char> {
    "  "@ + decimal_seq(i + 1) + ": "@ + rgb_hex_seq(f.color) + " - "@ + decimal_seq(f.frequency as nat)
        + " pixels"@
}

/// The lines of ranked colors, joined by `, `.
pub open spec fn frequency_lines_text(s: Seq<ColorFrequency<RgbColor24>>) -> Seq<char>
    decreases s.len(),
{
    if s.len() == 0 {
        Seq::empty()
    } else if s.len() == 1 {
        frequency_line(0, s[0])
    } else {
        frequency_lines_text(s.drop_last()) + ", "@ + frequency_line((s.len() - 1) as nat, s.last())
    }
}

impl ColorFrequencyMap {
    /// The five best ranked colors with their counts, as text: `  1: #RRGGBB - N pixels`,
    /// and so on, joined by `, `.
    pub fn to_display_string(&self) -> (text: String)
        ensures
            exists|s: Seq<ColorFrequency<RgbColor24>>|
                is_ranking(s, self@) && text@ == frequency_lines_text(
                    s.take(if s.len() < 5 { s.len() as int } else { 5 }),
                ),
    {
        let sorted = self.get_sorted();
        let mut text = String::new();
        let mut i: usize = 0;
        assert(sorted@.take(0) =~= Seq::<ColorFrequency<RgbColor24>>::empty());
        while i < 5 && i < sorted.len()
            invariant
                i <= sorted@.len(),
                i <= 5,
                is_ranking(sorted@, self@),
                text@ == frequency_lines_text(sorted@.take(i as int)),
            decreases sorted@.len() - i,
        {
            let ghost before = text@;
            if i > 0 {
                push_str(&mut text, ", ");
            }
            push_str(&mut text, "  ");
            push_decimal(&mut text, (i + 1) as u64);
            push_str(&mut text, ": ");
            let hex = sorted[i].color.to_hex();
            push_str(&mut text, hex.as_str());
            push_str(&mut text, " - ");
            push_decimal(&mut text, sorted[i].frequency as u64);
            push_str(&mut text, " pixels");
            proof {
                let t = sorted@.take(i + 1);
                assert(t.drop_last() =~= sorted@.take(i as int));
                assert(t.last() == sorted@[i as int]);
                if i == 0 {
                    assert(text@ =~= frequency_line(0, sorted@[0]));
                } else {
                    assert(text@ =~= before + ", "@ + frequency_line(i as nat, sorted@[i as int]));
                }
            }
            i = i + 1;
        }
        text
    }
}

/// The entries placed so far, in ranking order: `sorted` holds exactly the first `k` entries;
/// `origin[i]` is the entry that `sorted[i]` came from and `place[j]` where entry `j` stands.
pub open spec fn holds_first_entries(
    sorted: Seq<ColorFrequency<RgbColor24>>,
    entries: Seq<(ColorKey, usize)>,
    k: int,
    origin: Seq<int>,
    place: Seq<int>,
) -> bool {
    &&& sorted.len() == k
    &&& origin.len() == k
    &&& place.len() == k
    &&& forall|i: int|
        0 <= i < k ==> 0 <= #[trigger] origin[i] < k && key_of(sorted[i].color) == entries[origin[i]].0
            && sorted[i].frequency == entries[origin[i]].1
    &&& forall|j: int|
        0 <= j < k ==> 0 <= #[trigger] place[j] < k && key_of(sorted[place[j]].color) == entries[j].0
    &&& forall|i: int, j: int|
        0 <= i < j < sorted.len() ==> ranks_before(#[trigger] sorted[i], #[trigger] sorted[j])
}

proof fn lemma_place_found(
    sorted: Seq<ColorFrequency<RgbColor24>>,
    entries: Seq<(ColorKey, usize)>,
    k: int,
    origin: Seq<int>,
    place: Seq<int>,
    pos: int,
    item: ColorFrequency<RgbColor24>,
)
    requires
        0 <= k < entries.len(),
        holds_first_entries(sorted, entries, k, origin, place),
        forall|i: int, j: int| 0 <= i < j < entries.len() ==> entries[i].0 != entries[j].0,
        key_of(item.color) == entries[k].0,
        0 <= pos <= sorted.len(),
        pos < sorted.len() ==> !ranks_before(sorted[pos], item),
    ensures
        forall|i: int| pos <= i < sorted.len() ==> ranks_before(item, #[trigger] sorted[i]),
{
    if pos < sorted.len() {
        let j = origin[pos];
        assert(entries[j].0 != entries[k].0);
        lemma_color_number_injective(sorted[pos].color, item.color);
        assert(ranks_before(item, sorted[pos]));
        assert forall|i: int| pos <= i < sorted.len() implies ranks_before(item, #[trigger] sorted[i]) by {
            if i > pos {
                assert(ranks_before(sorted[pos], sorted[i]));
            }
        }
    }
}

proof fn lemma_insert_keeps_ranking(
    old_sorted: Seq<ColorFrequency<RgbColor24>>,
    sorted: Seq<ColorFrequency<RgbColor24>>,
    entries: Seq<(ColorKey, usize)>,
    k: int,
    origin: Seq<int>,
    place: Seq<int>,
    pos: int,
    item: ColorFrequency<RgbColor24>,
) -> (r: (Seq<int>, Seq<int>))
    requires
        0 <= k < entries.len(),
        holds_first_entries(old_sorted, entries, k, origin, place),
        key_of(item.color) == entries[k].0,
        item.frequency == entries[k].1,
        0 <= pos <= old_sorted.len(),
        forall|i: int| 0 <= i < pos ==> ranks_before(#[trigger] old_sorted[i], item),
        forall|i: int| pos <= i < old_sorted.len() ==> ranks_before(item, #[trigger] old_sorted[i]),
        sorted == old_sorted.insert(pos, item),
    ensures
        holds_first_entries(sorted, entries, k + 1, r.0, r.1),
{
    let new_origin = origin.insert(pos, k);
    let new_place = Seq::new(
        (k + 1) as nat,
        |j: int|
            if j == k {
                pos
            } else if place[j] >= pos {
                place[j] + 1
            } else {
                place[j]
            },
    );
    assert forall|i: int|
        0 <= i < k + 1 implies 0 <= #[trigger] new_origin[i] < k + 1 && key_of(sorted[i].color)
        == entries[new_origin[i]].0 && sorted[i].frequency == entries[new_origin[i]].1 by {
        if i < pos {
            assert(sorted[i] == old_sorted[i] && new_origin[i] == origin[i]);
        } else if i == pos {
            assert(sorted[i] == item && new_origin[i] == k);
        } else {
            assert(sorted[i] == old_sorted[i - 1] && new_origin[i] == origin[i - 1]);
        }
    }
    assert forall|j: int|
        0 <= j < k + 1 implies 0 <= #[trigger] new_place[j] < k + 1 && key_of(
        sorted[new_place[j]].color,
    ) == entries[j].0 by {
        if j == k {
            assert(sorted[pos] == item);
        } else if place[j] >= pos {
            assert(sorted[place[j] + 1] == old_sorted[place[j]]);
        } else {
            assert(sorted[place[j]] == old_sorted[place[j]]);
        }
    }
    assert forall|a: int, b: int|
        0 <= a < b < sorted.len() implies ranks_before(#[trigger] sorted[a], #[trigger] sorted[b]) by {
        if b < pos {
            assert(sorted[a] == old_sorted[a] && sorted[b] == old_sorted[b]);
        } else if b == pos {
            assert(sorted[a] == old_sorted[a]);
        } else if a < pos {
            assert(sorted[a] == old_sorted[a] && sorted[b] == old_sorted[b - 1]);
        } else if a == pos {
            assert(sorted[b] == old_sorted[b - 1]);
        } else {
            assert(sorted[a] == old_sorted[a - 1] && sorted[b] == old_sorted[b - 1]);
        }
    }
    (new_origin, new_place)
}

fn color_key_less(a: &RgbColor24, b: &RgbColor24) -> (r: bool)
    ensures
        r == (color_number(*a) < color_number(*b)),
{
    a.red < b.red || (a.red == b.red && (a.green < b.green || (a.green == b.green && a.blue < b.blue)))
}

/// A sequence whose colors are distinct and that covers exactly the keys of a finite map
/// has as many elements as the map has keys.
proof fn lemma_ranking_len(s: Seq<ColorFrequency<RgbColor24>>, counts: Map<ColorKey, usize>)
    requires
        forall|i: int|
            0 <= i < s.len() ==> #[trigger] counts.contains_key(key_of(s[i].color))
                && counts[key_of(s[i].color)] == s[i].frequency,
        forall|k: ColorKey|
            #[trigger] counts.contains_key(k) ==> exists|i: int| 0 <= i < s.len() && key_of(s[i].color) == k,
        forall|i: int, j: int| 0 <= i < j < s.len() ==> ranks_before(#[trigger] s[i], #[trigger] s[j]),
    ensures
        s.len() == counts.dom().len(),
{
    let keys = s.map_values(|f: ColorFrequency<RgbColor24>| key_of(f.color));
    assert forall|i: int, j: int| 0 <= i < j < keys.len() implies keys[i] != keys[j] by {
        assert(ranks_before(s[i], s[j]));
        assert(keys[i] == key_of(s[i].color) && keys[j] == key_of(s[j].color));
        if keys[i] == keys[j] {
            assert(counts.contains_key(key_of(s[i].color)));
            assert(counts.contains_key(key_of(s[j].color)));
            assert(s[i].frequency == s[j].frequency);
            assert(color_number(s[i].color) == color_number(s[j].color));
        }
    }
    assert(keys.no_duplicates());
    assert(keys.to_set() =~= counts.dom()) by {
        assert forall|k: ColorKey| counts.dom().contains(k) implies keys.to_set().contains(k) by {
            let i = choose|i: int| 0 <= i < s.len() && key_of(s[i].color) == k;
            assert(keys[i] == key_of(s[i].color));
        }
        assert forall|k: ColorKey| keys.to_set().contains(k) implies counts.dom().contains(k) by {
            let i = choose|i: int| 0 <= i < keys.len() && keys[i] == k;
            assert(keys[i] == key_of(s[i].color));
            assert(counts.contains_key(key_of(s[i].color)));
        }
    }
    keys.unique_seq_to_set();
}


/// Whether text `a` sorts before text `b` as strings compare: at the first place where
/// they differ the character of `a` is smaller, or `a` is a proper prefix of `b`.
pub open spec fn text_before(a: Seq<char>, b: Seq<char>) -> bool {
    ||| exists|i: int|
        0 <= i < a.len() && i < b.len() && #[trigger] a.take(i) == b.take(i) && (a[i] as int) < (b[i] as int)
    ||| (a.len() < b.len() && a == b.take(a.len() as int))
}

proof fn lemma_hex_digit_order(x: int, y: int)
    requires
        0 <= x < 16,
        0 <= y < 16,
    ensures
        x < y <==> (hex_digit(x) as int) < (hex_digit(y) as int),
        x == y <==> hex_digit(x) == hex_digit(y),
{
}

proof fn lemma_byte_digits(x: u8, y: u8)
    ensures
        x < y <==> (x / 16 < y / 16 || (x / 16 == y / 16 && x % 16 < y % 16)),
        x == y <==> (x / 16 == y / 16 && x % 16 == y % 16),
{
}

/// The digits of `#RRGGBB` after the `#`, as numbers.
spec fn hex_text_digit(c: RgbColor24, k: int) -> int {
    if k == 1 {
        (c.red / 16) as int
    } else if k == 2 {
        (c.red % 16) as int
    } else if k == 3 {
        (c.green / 16) as int
    } else if k == 4 {
        (c.green % 16) as int
    } else if k == 5 {
        (c.blue / 16) as int
    } else {
        (c.blue % 16) as int
    }
}

proof fn lemma_hex_text_shape(c: RgbColor24)
    ensures
        rgb_hex_seq(c).len() == 7,
        rgb_hex_seq(c)[0] == '#',
        forall|k: int| 1 <= k < 7 ==> #[trigger] rgb_hex_seq(c)[k] == hex_digit(hex_text_digit(c, k)),
        forall|k: int| 1 <= k < 7 ==> 0 <= #[trigger] hex_text_digit(c, k) < 16,
{
    let s = rgb_hex_seq(c);
    assert(s =~= seq![
        '#',
        hex_digit((c.red / 16) as int),
        hex_digit((c.red % 16) as int),
        hex_digit((c.green / 16) as int),
        hex_digit((c.green % 16) as int),
        hex_digit((c.blue / 16) as int),
        hex_digit((c.blue % 16) as int),
    ]);
}

/// Colors ranked by number rank as their `#RRGGBB` texts sort: one color's number
/// is smaller than another's exactly when its text sorts first.
pub proof fn lemma_color_number_order_is_hex_text_order(a: RgbColor24, b: RgbColor24)
    ensures
        color_number(a) < color_number(b) <==> text_before(rgb_hex_seq(a), rgb_hex_seq(b)),
{
    let sa = rgb_hex_seq(a);
    let sb = rgb_hex_seq(b);
    lemma_hex_text_shape(a);
    lemma_hex_text_shape(b);
    lemma_byte_digits(a.red, b.red);
    lemma_byte_digits(a.green, b.green);
    lemma_byte_digits(a.blue, b.blue);
    assert forall|k: int| 1 <= k < 7 implies (hex_text_digit(a, k) < hex_text_digit(b, k) <==> (
    #[trigger] sa[k] as int) < (sb[k] as int)) && (hex_text_digit(a, k) == hex_text_digit(b, k) <==> sa[k]
        == sb[k]) by {
        lemma_hex_digit_order(hex_text_digit(a, k), hex_text_digit(b, k));
    }
    // The first place where the texts differ decides both orders.
    let first_diff = if a.red / 16 != b.red / 16 {
        1int
    } else if a.red % 16 != b.red % 16 {
        2int
    } else if a.green / 16 != b.green / 16 {
        3int
    } else if a.green % 16 != b.green % 16 {
        4int
    } else if a.blue / 16 != b.blue / 16 {
        5int
    } else if a.blue % 16 != b.blue % 16 {
        6int
    } else {
        7int
    };
    assert(forall|k: int| 1 <= k < first_diff ==> hex_text_digit(a, k) == hex_text_digit(b, k));
    assert forall|k: int| 0 <= k < first_diff implies #[trigger] sa[k] == sb[k] by {
        if k >= 1 {
            assert(hex_text_digit(a, k) == hex_text_digit(b, k));
        }
    }
    if first_diff < 7 {
        assert(sa.take(first_diff) =~= sb.take(first_diff));
        assert(color_number(a) < color_number(b) <==> hex_text_digit(a, first_diff) < hex_text_digit(
            b,
            first_diff,
        ));
        if color_number(a) < color_number(b) {
            assert((sa[first_diff] as int) < (sb[first_diff] as int));
        } else {
            assert forall|i: int|
                0 <= i < sa.len() && i < sb.len() && #[trigger] sa.take(i) == sb.take(i) implies !((
                sa[i] as int) < (sb[i] as int)) by {
                if i > first_diff {
                    assert(sa.take(i)[first_diff] == sb.take(i)[first_diff]);
                }
            }
        }
    } else {
        assert(sa =~= sb);
        assert(color_number(a) == color_number(b));
    }
}

} // verus!
