//! State of the file browser popup: the listing of the current directory,
//! the filter typed over it, the selection, and the output file name being typed.

use vstd::prelude::*;
use crate::paths::{join_path, parent_of, path_join, path_parent};
use crate::text::{
    chars_of, lemma_text_less_asymmetric, lemma_text_less_total, lemma_text_less_transitive,
    nat_text, occurs, occurs_in, pop_char, push_char, push_str, push_u64, string_of, text_less,
    text_lt, to_lowercase, unicode_lowercase, digit_char, all_ascii, ascii_lower,
};

verus! {

/// Whether the file browser is choosing an input or an output path.
#[derive(Debug, Clone, Copy, PartialEq, Eq, Structural)]
pub enum FileBrowserTarget {
    Input,
    Output,
}

/// One entry of a directory listing.
#[derive(Debug)]
pub struct DirEntry {
    pub name: String,
    pub path: String,
    pub is_dir: bool,
    pub size: u64,
}

impl Clone for DirEntry {
    fn clone(&self) -> (res: Self)
        ensures
            res == *self,
    {
        DirEntry { name: self.name.clone(), path: self.path.clone(), is_dir: self.is_dir, size: self.size }
    }
}

/// What confirming or entering an entry did.
#[derive(Debug)]
pub enum Navigation {
    /// Nothing was chosen and the directory is the same.
    Stay,
    /// The browser moved to another directory, whose listing must now be read.
    Entered,
    /// A path was chosen.
    Selected(String),
}

/// Whether an entry is shown under a filter: always for an empty filter, else
/// when the lowercased filter occurs in the lowercased name.
pub open spec fn entry_matches(e: DirEntry, filter: Seq<char>) -> bool {
    let f = unicode_lowercase(filter);
    f.len() == 0 || occurs_in(f, unicode_lowercase(e.name@))
}

/// The indices, in increasing order, of the first `n` entries that a filter shows.
pub open spec fn matching_indices(entries: Seq<DirEntry>, filter: Seq<char>, n: nat) -> Seq<usize>
    decreases n,
{
    if n == 0 {
        seq![]
    } else {
        let prev = matching_indices(entries, filter, (n - 1) as nat);
        if entry_matches(entries[n - 1], filter) {
            prev.push((n - 1) as usize)
        } else {
            prev
        }
    }
}

/// Text that occurs in text that occurs in `s` occurs in `s`.
proof fn lemma_occurs_transitive(p: Seq<char>, q: Seq<char>, s: Seq<char>)
    requires
        occurs_in(p, q),
        occurs_in(q, s),
    ensures
        occurs_in(p, s),
{
    let i = choose|i: int| 0 <= i && i + p.len() <= q.len() && #[trigger] q.subrange(i, i + p.len()) == p;
    let j = choose|j: int| 0 <= j && j + q.len() <= s.len() && #[trigger] s.subrange(j, j + q.len()) == q;
    assert(s.subrange(j + i, j + i + p.len()) =~= q.subrange(i, i + p.len()));
}

/// A filter whose lowercased text occurs in the lowercased text of another
/// shows every entry that the other shows.
proof fn lemma_wider_filter_matches(e: DirEntry, narrow: Seq<char>, wide: Seq<char>)
    requires
        occurs_in(unicode_lowercase(wide), unicode_lowercase(narrow)),
        entry_matches(e, narrow),
    ensures
        entry_matches(e, wide),
{
    let (w, n) = (unicode_lowercase(wide), unicode_lowercase(narrow));
    if w.len() > 0 {
        lemma_occurs_transitive(w, n, unicode_lowercase(e.name@));
    }
}

/// Narrowing the filter never shows an entry that was hidden: when the
/// lowercased old filter occurs in the lowercased new one (as when a
/// character is typed after an ASCII filter), the entries the new filter
/// shows are among those the old one showed, so there are no more of them.
pub proof fn law_narrowing_filter_hides(entries: Seq<DirEntry>, old_filter: Seq<char>, new_filter: Seq<char>, n: nat)
    requires
        occurs_in(unicode_lowercase(old_filter), unicode_lowercase(new_filter)),
        n <= entries.len(),
    ensures
        forall|k: usize| #[trigger] matching_indices(entries, new_filter, n).contains(k)
            ==> matching_indices(entries, old_filter, n).contains(k),
        matching_indices(entries, new_filter, n).len() <= matching_indices(entries, old_filter, n).len(),
    decreases n,
{
    if n > 0 {
        let m = (n - 1) as nat;
        law_narrowing_filter_hides(entries, old_filter, new_filter, m);
        let e = entries[m as int];
        if entry_matches(e, new_filter) {
            lemma_wider_filter_matches(e, new_filter, old_filter);
        }
        let (pn, po) = (matching_indices(entries, new_filter, m), matching_indices(entries, old_filter, m));
        assert forall|k: usize| #[trigger] matching_indices(entries, new_filter, n).contains(k)
            implies matching_indices(entries, old_filter, n).contains(k) by {
            if entry_matches(e, new_filter) && k == m as usize {
                assert(matching_indices(entries, old_filter, n).last() == k);
            } else {
                assert(pn.contains(k));
                let j = choose|j: int| 0 <= j < po.len() && po[j] == k;
                if entry_matches(e, old_filter) {
                    assert(matching_indices(entries, old_filter, n)[j] == k);
                } else {
                    assert(matching_indices(entries, old_filter, n)[j] == k);
                }
            }
        }
    }
}

/// Whether an entry is hidden: its name starts with a dot.
pub open spec fn is_hidden(e: DirEntry) -> bool {
    e.name@.len() > 0 && e.name@[0] == '.'
}

/// Whether `a` is listed before `b`: directories first, then by lowercased name.
pub open spec fn listed_before(a: DirEntry, b: DirEntry) -> bool {
    (a.is_dir && !b.is_dir) || (a.is_dir == b.is_dir && text_less(
        unicode_lowercase(a.name@),
        unicode_lowercase(b.name@),
    ))
}

/// Whether a listing is in order: no entry should come before one listed earlier.
pub open spec fn listing_sorted(s: Seq<DirEntry>) -> bool {
    forall|i: int, j: int| 0 <= i < j < s.len() ==> !listed_before(#[trigger] s[j], #[trigger] s[i])
}

/// `n - 1`, or 0 for 0.
pub open spec fn last_position(n: nat) -> nat {
    if n == 0 { 0 } else { (n - 1) as nat }
}

proof fn lemma_listed_before_asymmetric(a: DirEntry, b: DirEntry)
    ensures
        listed_before(a, b) ==> !listed_before(b, a),
{
    lemma_text_less_asymmetric(unicode_lowercase(a.name@), unicode_lowercase(b.name@));
}

proof fn lemma_listed_before_transitive(a: DirEntry, b: DirEntry, c: DirEntry)
    requires
        listed_before(a, b),
        listed_before(b, c),
    ensures
        listed_before(a, c),
{
    if a.is_dir == b.is_dir && b.is_dir == c.is_dir {
        lemma_text_less_transitive(
            unicode_lowercase(a.name@),
            unicode_lowercase(b.name@),
            unicode_lowercase(c.name@),
        );
    }
}

/// Whether two entries sort alike: both directories or both not, with the
/// same lowercased name.
pub open spec fn ties(a: DirEntry, b: DirEntry) -> bool {
    a.is_dir == b.is_dir && unicode_lowercase(a.name@) == unicode_lowercase(b.name@)
}

/// Whether an entry sorts alike with `e`.
pub open spec fn ties_to(e: DirEntry) -> spec_fn(DirEntry) -> bool {
    |x: DirEntry| ties(x, e)
}

/// The entries of `s` that sort alike with `e`, in their order in `s`.
pub open spec fn tied_with(s: Seq<DirEntry>, e: DirEntry) -> Seq<DirEntry> {
    s.filter(ties_to(e))
}

/// Whether `res` is `listing` sorted: in order, with the same entries, and
/// with the entries that sort alike in the order they had.
pub open spec fn sorted_from(res: Seq<DirEntry>, listing: Seq<DirEntry>) -> bool {
    &&& listing_sorted(res)
    &&& res.to_multiset() == listing.to_multiset()
    &&& forall|e: DirEntry| #[trigger] tied_with(res, e) == tied_with(listing, e)
}

/// Of two entries, one is listed before the other or they sort alike.
proof fn lemma_listed_before_total(a: DirEntry, b: DirEntry)
    ensures
        listed_before(a, b) || listed_before(b, a) || ties(a, b),
        ties(a, b) ==> !listed_before(a, b),
{
    lemma_text_less_total(unicode_lowercase(a.name@), unicode_lowercase(b.name@));
    lemma_text_less_asymmetric(unicode_lowercase(a.name@), unicode_lowercase(b.name@));
}

/// Inserting `x` into a sorted listing after every entry that `x` does not
/// come before, and before the first one it does, keeps the order among the
/// entries that sort alike: `x` comes after those already there.
proof fn lemma_insert_keeps_ties(s: Seq<DirEntry>, p: int, x: DirEntry, f: DirEntry)
    requires
        0 <= p <= s.len(),
        listing_sorted(s),
        forall|q: int| 0 <= q < p ==> !listed_before(x, #[trigger] s[q]),
        p < s.len() ==> listed_before(x, s[p]),
    ensures
        tied_with(s.insert(p, x), f) == tied_with(s.push(x), f),
{
    let pred = ties_to(f);
    let (head, tail) = (s.take(p), s.skip(p));
    assert(s.insert(p, x) =~= head + (seq![x] + tail));
    assert(s =~= head + tail);
    Seq::filter_distributes_over_add(head, seq![x] + tail, pred);
    Seq::filter_distributes_over_add(seq![x], tail, pred);
    Seq::filter_distributes_over_add(head, tail, pred);
    s.lemma_filter_push(x, pred);
    assert(seq![x] =~= Seq::<DirEntry>::empty().push(x));
    Seq::<DirEntry>::empty().lemma_filter_push(x, pred);
    assert(Seq::<DirEntry>::empty().filter(pred) =~= Seq::<DirEntry>::empty()) by {
        reveal(Seq::filter);
    }
    if ties(x, f) {
        assert forall|q: int| 0 <= q < tail.len() implies !pred(#[trigger] tail[q]) by {
            let y = s[p + q];
            assert(tail[q] == y);
            if q > 0 {
                assert(!listed_before(y, s[p]));
                lemma_listed_before_total(s[p], y);
                if listed_before(s[p], y) {
                    lemma_listed_before_transitive(x, s[p], y);
                }
            }
            lemma_listed_before_total(x, y);
        }
        tail.lemma_all_neg_filter_empty(pred);
    }
}

/// What moving into the shown entry at position `k` does: out of range,
/// nothing; a directory becomes the current directory with the filter
/// cleared and all else kept; a file is chosen and nothing changes.
pub open spec fn navigated(s: FileBrowserState, k: int, t: FileBrowserState, res: Navigation) -> bool {
    let shown = 0 <= k < s.filtered_indices@.len() && s.filtered_indices@[k] < s.entries@.len();
    let e = s.entries@[s.filtered_indices@[k] as int];
    &&& !shown ==> res is Stay && t == s
    &&& shown && e.is_dir ==> res is Entered && t.current_dir == e.path
        && t.filter_text@.len() == 0
        && t.entries == s.entries
        && t.filtered_indices == s.filtered_indices
        && t.selected_index == s.selected_index
        && t.target == s.target
        && t.output_filename == s.output_filename
        && t.output_extension == s.output_extension
    &&& shown && !e.is_dir ==> (res matches Navigation::Selected(p) && p == e.path) && t == s
}

/// What confirming the selection does: with nothing shown there, nothing; a
/// highlighted directory is entered; a highlighted file is chosen.
pub open spec fn confirmed(s: FileBrowserState, t: FileBrowserState, res: Navigation) -> bool {
    match s.shown_at(s.selected_index as int) {
        None => res is Stay && t == s,
        Some(e) => if e.is_dir {
            res is Entered && s.entered(t, e.path)
        } else {
            (res matches Navigation::Selected(p) && p == e.path) && t == s
        },
    }
}

/// Confirming the selection is moving into the entry shown at the selected
/// position: the same result and the same browser after it.
pub proof fn law_confirm_navigates_selected(s: FileBrowserState, t: FileBrowserState, res: Navigation)
    ensures
        confirmed(s, t, res) <==> navigated(s, s.selected_index as int, t, res),
{
    let k = s.selected_index as int;
    if s.shown_at(k) is Some && s.shown_at(k).unwrap().is_dir {
        let e = s.shown_at(k).unwrap();
        if navigated(s, k, t, res) {
            assert(t == (FileBrowserState { current_dir: e.path, filter_text: t.filter_text, ..s }));
        }
    }
}

/// The file browser state.
#[derive(Debug)]
pub struct FileBrowserState {
    pub current_dir: String,
    pub entries: Vec<DirEntry>,
    pub selected_index: usize,
    pub filter_text: String,
    pub target: FileBrowserTarget,
    /// The entries the filter shows, as indices into `entries`.
    pub filtered_indices: Vec<usize>,
    /// In output mode: the file name (without extension) being typed.
    pub output_filename: String,
    /// In output mode: the extension of the chosen container format.
    pub output_extension: String,
}

/// The key by which a listing is ordered: whether the entry is a directory
/// and its lowercased name.
struct SortKey {
    is_dir: bool,
    lower: Vec<char>,
}

fn sort_key(e: &DirEntry) -> (res: SortKey)
    ensures
        res.is_dir == e.is_dir,
        res.lower@ == unicode_lowercase(e.name@),
{
    let lower = to_lowercase(e.name.as_str());
    SortKey { is_dir: e.is_dir, lower: chars_of(lower.as_str()) }
}

fn key_before(a: &SortKey, b: &SortKey) -> (res: bool)
    ensures
        res == ((a.is_dir && !b.is_dir) || (a.is_dir == b.is_dir && text_less(a.lower@, b.lower@))),
{
    if a.is_dir != b.is_dir {
        a.is_dir
    } else {
        text_lt(&a.lower, &b.lower)
    }
}

/// Sorts a listing: directories first, then by lowercased name; entries that
/// sort alike keep their order.
pub fn sort_listing(listing: Vec<DirEntry>) -> (res: Vec<DirEntry>)
    ensures
        sorted_from(res@, listing@),
{
    broadcast use vstd::seq_lib::group_to_multiset_ensures;

    let mut res: Vec<DirEntry> = Vec::new();
    let mut keys: Vec<SortKey> = Vec::new();
    let mut i: usize = 0;
    while i < listing.len()
        invariant
            i <= listing.len(),
            res@.len() == keys@.len(),
            forall|k: int| 0 <= k < keys@.len() ==> (#[trigger] keys@[k]).is_dir == res@[k].is_dir
                && keys@[k].lower@ == unicode_lowercase(res@[k].name@),
            listing_sorted(res@),
            res@.to_multiset() == listing@.take(i as int).to_multiset(),
            forall|f: DirEntry| #[trigger] tied_with(res@, f) == tied_with(listing@.take(i as int), f),
        decreases listing.len() - i,
    {
        let e = listing[i].clone();
        let key = sort_key(&e);
        let mut p: usize = 0;
        while p < res.len() && !key_before(&key, &keys[p])
            invariant
                p <= res@.len(),
                res@.len() == keys@.len(),
                key.is_dir == e.is_dir,
                key.lower@ == unicode_lowercase(e.name@),
                forall|k: int| 0 <= k < keys@.len() ==> (#[trigger] keys@[k]).is_dir == res@[k].is_dir
                    && keys@[k].lower@ == unicode_lowercase(res@[k].name@),
                forall|q: int| 0 <= q < p ==> !listed_before(e, #[trigger] res@[q]),
            decreases res@.len() - p,
        {
            p = p + 1;
        }
        proof {
            if p < res@.len() {
                assert(listed_before(e, res@[p as int]));
            }
            assert forall|a: int, b: int| 0 <= a < b < res@.len() + 1 implies !listed_before(
                #[trigger] res@.insert(p as int, e)[b],
                #[trigger] res@.insert(p as int, e)[a],
            ) by {
                let s = res@.insert(p as int, e);
                if b < p {
                    assert(s[a] == res@[a] && s[b] == res@[b]);
                } else if b == p {
                    assert(s[a] == res@[a]);
                } else if a == p {
                    assert(s[b] == res@[b - 1]);
                    lemma_listed_before_asymmetric(res@[p as int], e);
                    if listed_before(res@[b - 1], e) {
                        if b - 1 > p {
                            lemma_listed_before_transitive(res@[b - 1], e, res@[p as int]);
                        }
                    }
                } else if a < p {
                    assert(s[a] == res@[a] && s[b] == res@[b - 1]);
                } else {
                    assert(s[a] == res@[a - 1] && s[b] == res@[b - 1]);
                }
            }
            assert(listing@.take(i + 1) =~= listing@.take(i as int).push(listing@[i as int]));
        }
        let ghost old_res = res@;
        res.insert(p, e);
        keys.insert(p, key);
        proof {
            vstd::seq_lib::to_multiset_insert(old_res, p as int, e);
            vstd::seq_lib::to_multiset_build(listing@.take(i as int), listing@[i as int]);
            assert forall|f: DirEntry| #[trigger] tied_with(res@, f) == tied_with(
                listing@.take(i + 1),
                f,
            ) by {
                assert(res@ == old_res.insert(p as int, e));
                lemma_insert_keeps_ties(old_res, p as int, e, f);
                assert(tied_with(old_res, f) == tied_with(listing@.take(i as int), f));
                old_res.lemma_filter_push(e, ties_to(f));
                listing@.take(i as int).lemma_filter_push(e, ties_to(f));
                assert(listing@.take(i + 1) =~= listing@.take(i as int).push(e));
            }
        }
        i = i + 1;
    }
    assert(listing@.take(i as int) =~= listing@);
    res
}

} // verus!

verus! {

/// The listing without its hidden entries, in order.
pub open spec fn visible_listing(s: Seq<DirEntry>) -> Seq<DirEntry>
    decreases s.len(),
{
    if s.len() == 0 {
        seq![]
    } else if is_hidden(s.last()) {
        visible_listing(s.drop_last())
    } else {
        visible_listing(s.drop_last()).push(s.last())
    }
}

fn drop_hidden(listing: Vec<DirEntry>) -> (res: Vec<DirEntry>)
    ensures
        res@ == visible_listing(listing@),
{
    let mut res: Vec<DirEntry> = Vec::new();
    let mut i: usize = 0;
    while i < listing.len()
        invariant
            i <= listing.len(),
            res@ == visible_listing(listing@.take(i as int)),
        decreases listing.len() - i,
    {
        let e = &listing[i];
        let hidden = e.name.as_str().unicode_len() > 0 && e.name.as_str().get_char(0) == '.';
        if !hidden {
            res.push(e.clone());
        }
        assert(listing@.take(i + 1).drop_last() =~= listing@.take(i as int));
        i = i + 1;
    }
    assert(listing@.take(i as int) =~= listing@);
    res
}

/// The rendering of a count of tenths as `whole.tenth`.
pub open spec fn tenths_text(t: nat) -> Seq<char> {
    nat_text(t / 10) + seq!['.', digit_char(t % 10)]
}

/// `2^k`.
pub open spec fn pow2(k: nat) -> nat
    decreases k,
{
    if k == 0 { 1 } else { 2 * pow2((k - 1) as nat) }
}

/// The number of binary digits of `n` (0 for 0).
pub open spec fn bit_length(n: nat) -> nat
    decreases n,
{
    if n == 0 { 0 } else { 1 + bit_length(n / 2) }
}

/// `n / d` rounded to the nearest integer, ties to the even one.
pub open spec fn div_round_even(n: nat, d: nat) -> nat {
    let q = n / d;
    let r = n % d;
    if 2 * r > d || (2 * r == d && q % 2 == 1) { q + 1 } else { q }
}

/// The value of `n` once converted to a double-precision float: `n` itself when
/// it fits in 53 binary digits, else `n` rounded to 53 significant binary digits,
/// ties to even.
pub open spec fn as_double(n: nat) -> nat {
    if bit_length(n) <= 53 {
        n
    } else {
        let k = (bit_length(n) - 53) as nat;
        div_round_even(n, pow2(k)) * pow2(k)
    }
}

/// A byte count as shown in the listing: `N B` below 1024, else the count in
/// KB, MB or GB with one decimal, rounded to nearest with ties to even, from the
/// count as a double-precision float.
pub open spec fn size_text(size: nat) -> Seq<char> {
    let gb = 1073741824nat;
    let mb = 1048576nat;
    let kb = 1024nat;
    if size >= gb {
        tenths_text(div_round_even(as_double(size) * 10, gb)) + " GB"@
    } else if size >= mb {
        tenths_text(div_round_even(as_double(size) * 10, mb)) + " MB"@
    } else if size >= kb {
        tenths_text(div_round_even(as_double(size) * 10, kb)) + " KB"@
    } else {
        nat_text(size) + " B"@
    }
}

fn round_even(n: u128, d: u128) -> (res: u128)
    requires
        d > 0,
        d <= 0x1_0000_0000_0000_0000,
        n <= 0xffff_ffff_ffff_ffff_ffff,
    ensures
        res == div_round_even(n as nat, d as nat),
        res <= n + 1,
{
    let q = n / d;
    let r = n % d;
    if 2 * r > d || (2 * r == d && q % 2 == 1) {
        q + 1
    } else {
        q
    }
}

proof fn lemma_bit_length_bound(n: nat, k: nat)
    requires
        n < pow2(k),
    ensures
        bit_length(n) <= k,
    decreases n,
{
    if n > 0 {
        assert(k > 0);
        lemma_bit_length_bound(n / 2, (k - 1) as nat);
    }
}

proof fn lemma_pow2_monotonic(a: nat, b: nat)
    requires
        a <= b,
    ensures
        pow2(a) <= pow2(b),
    decreases b,
{
    if a < b {
        lemma_pow2_monotonic(a, (b - 1) as nat);
    }
}

proof fn lemma_pow2_64()
    ensures
        pow2(64) == 0x1_0000_0000_0000_0000,
{
    reveal_with_fuel(pow2, 65);
}

proof fn lemma_round_bound(n: nat, p: nat)
    requires
        p > 0,
    ensures
        div_round_even(n, p) * p <= n + p,
{
    let q = n / p;
    let r = n % p;
    assert(q * p + r == n) by (nonlinear_arith)
        requires
            p > 0,
            q == n / p,
            r == n % p,
    ;
    assert((q + 1) * p == q * p + p) by (nonlinear_arith);
    assert(r >= 0) by (nonlinear_arith)
        requires
            p > 0,
            r == n % p,
    ;
}

fn double_value(n: u64) -> (res: u128)
    ensures
        res == as_double(n as nat),
        res <= n + 2048,
{
    proof {
        lemma_pow2_64();
        lemma_bit_length_bound(n as nat, 64);
    }
    let mut bits: u64 = 0;
    let mut m: u64 = n;
    while m > 0
        invariant
            bit_length(n as nat) == bits + bit_length(m as nat),
            bits <= 64,
            m <= n,
            m as nat <= 0xffff_ffff_ffff_ffff,
            bits + bit_length(m as nat) <= 64,
        decreases m,
    {
        m = m / 2;
        bits = bits + 1;
    }
    if bits <= 53 {
        return n as u128;
    }
    let k = bits - 53;
    let mut p: u128 = 1;
    let mut j: u64 = 0;
    while j < k
        invariant
            j <= k,
            k <= 11,
            p == pow2(j as nat),
            1 <= p <= 2048,
        decreases k - j,
    {
        proof {
            lemma_pow2_monotonic((j + 1) as nat, 11);
            reveal_with_fuel(pow2, 12);
        }
        p = p * 2;
        j = j + 1;
    }
    let q = round_even(n as u128, p);
    proof {
        lemma_round_bound(n as nat, p as nat);
    }
    assert(q * p <= n + p);
    q * p
}

} // verus!

verus! {

fn push_tenths(s: &mut String, t: u128)
    requires
        t <= 0xffff_ffff_ffff_ffff,
    ensures
        final(s)@ == old(s)@ + tenths_text(t as nat),
{
    push_u64(s, (t / 10) as u64);
    push_char(s, '.');
    let d: u8 = (t % 10) as u8;
    push_char(s, (48u8 + d) as char);
    assert(final(s)@ =~= old(s)@ + tenths_text(t as nat));
}

impl FileBrowserState {
    /// Whether the filtered indices are those of the entries the filter shows.
    pub open spec fn filter_consistent(self) -> bool {
        self.filtered_indices@ == matching_indices(
            self.entries@,
            self.filter_text@,
            self.entries@.len(),
        )
    }

    /// The browser over `current_dir` once its listing has been read: hidden
    /// entries left out, directories first then by name, first entry selected,
    /// no filter and no output name typed.
    pub fn with_listing(
        current_dir: String,
        target: FileBrowserTarget,
        extension: &str,
        listing: Vec<DirEntry>,
    ) -> (res: Self)
        ensures
            res.current_dir == current_dir,
            res.target == target,
            res.output_extension@ == extension@,
            res.output_filename@.len() == 0,
            res.filter_text@.len() == 0,
            res.selected_index == 0,
            sorted_from(res.entries@, visible_listing(listing@)),
            res.filter_consistent(),
    {
        let mut browser = FileBrowserState {
            current_dir,
            entries: Vec::new(),
            selected_index: 0,
            filter_text: String::new(),
            target,
            filtered_indices: Vec::new(),
            output_filename: String::new(),
            output_extension: string_of(extension),
        };
        browser.set_listing(listing);
        browser
    }

    /// Installs a freshly read listing of the current directory: hidden entries
    /// are left out, directories come first then names in order, the first entry
    /// is selected and the filter is applied again.
    pub fn set_listing(&mut self, listing: Vec<DirEntry>)
        ensures
            sorted_from(final(self).entries@, visible_listing(listing@)),
            final(self).selected_index == 0,
            final(self).filter_consistent(),
            final(self).current_dir == old(self).current_dir,
            final(self).filter_text == old(self).filter_text,
            final(self).target == old(self).target,
            final(self).output_filename == old(self).output_filename,
            final(self).output_extension == old(self).output_extension,
    {
        let visible = drop_hidden(listing);
        self.entries = sort_listing(visible);
        self.selected_index = 0;
        self.rebuild_filter();
    }

    /// Recomputes the filtered indices from the entries and the filter text.
    pub fn rebuild_filter(&mut self)
        ensures
            final(self).filter_consistent(),
            all_ascii(final(self).filter_text@) ==> unicode_lowercase(final(self).filter_text@)
                == final(self).filter_text@.map_values(|c: char| ascii_lower(c)),
            final(self).entries == old(self).entries,
            final(self).selected_index == old(self).selected_index,
            final(self).current_dir == old(self).current_dir,
            final(self).filter_text == old(self).filter_text,
            final(self).target == old(self).target,
            final(self).output_filename == old(self).output_filename,
            final(self).output_extension == old(self).output_extension,
    {
        let lower = to_lowercase(self.filter_text.as_str());
        let pat = chars_of(lower.as_str());
        let mut indices: Vec<usize> = Vec::new();
        let mut i: usize = 0;
        while i < self.entries.len()
            invariant
                i <= self.entries@.len(),
                pat@ == unicode_lowercase(self.filter_text@),
                indices@ == matching_indices(self.entries@, self.filter_text@, i as nat),
            decreases self.entries@.len() - i,
        {
            let shown = if pat.len() == 0 {
                true
            } else {
                let name_lower = to_lowercase(self.entries[i].name.as_str());
                let name_chars = chars_of(name_lower.as_str());
                occurs(&pat, &name_chars)
            };
            if shown {
                indices.push(i);
            }
            i = i + 1;
        }
        self.filtered_indices = indices;
    }

    /// Moves the selection up one entry, stopping at the first.
    pub fn select_prev(&mut self)
        ensures
            final(self).selected_index == if old(self).selected_index == 0 {
                0
            } else {
                (old(self).selected_index - 1) as usize
            },
            final(self).entries == old(self).entries,
            final(self).filtered_indices == old(self).filtered_indices,
            final(self).current_dir == old(self).current_dir,
            final(self).filter_text == old(self).filter_text,
            final(self).target == old(self).target,
            final(self).output_filename == old(self).output_filename,
            final(self).output_extension == old(self).output_extension,
    {
        self.selected_index = if self.selected_index == 0 { 0 } else { self.selected_index - 1 };
    }

    /// Moves the selection down one entry, stopping at the last visible one.
    pub fn select_next(&mut self)
        ensures
            final(self).selected_index == (if old(self).selected_index + 1 <= last_position(
                old(self).filtered_indices@.len(),
            ) {
                old(self).selected_index + 1
            } else {
                last_position(old(self).filtered_indices@.len()) as int
            }),
            final(self).entries == old(self).entries,
            final(self).filtered_indices == old(self).filtered_indices,
            final(self).current_dir == old(self).current_dir,
            final(self).filter_text == old(self).filter_text,
            final(self).target == old(self).target,
            final(self).output_filename == old(self).output_filename,
            final(self).output_extension == old(self).output_extension,
    {
        let count = self.visible_count();
        let max = if count == 0 { 0 } else { count - 1 };
        let next = if self.selected_index == usize::MAX { usize::MAX } else { self.selected_index + 1 };
        self.selected_index = if next <= max { next } else { max };
    }

    fn clamp_selection(&mut self)
        ensures
            final(self).selected_index == (if old(self).selected_index <= last_position(
                old(self).filtered_indices@.len(),
            ) {
                old(self).selected_index as int
            } else {
                last_position(old(self).filtered_indices@.len()) as int
            }),
            final(self).entries == old(self).entries,
            final(self).filtered_indices == old(self).filtered_indices,
            final(self).current_dir == old(self).current_dir,
            final(self).filter_text == old(self).filter_text,
            final(self).target == old(self).target,
            final(self).output_filename == old(self).output_filename,
            final(self).output_extension == old(self).output_extension,
    {
        let count = self.visible_count();
        let max = if count == 0 { 0 } else { count - 1 };
        if self.selected_index > max {
            self.selected_index = max;
        }
    }

    /// Types a character into the filter: the filter is applied again and the
    /// selection kept within the visible entries.
    pub fn filter_push(&mut self, c: char)
        ensures
            final(self).filter_text@ == old(self).filter_text@.push(c),
            final(self).filter_consistent(),
            final(self).selected_index == (if old(self).selected_index <= last_position(
                final(self).filtered_indices@.len(),
            ) {
                old(self).selected_index as int
            } else {
                last_position(final(self).filtered_indices@.len()) as int
            }),
            final(self).entries == old(self).entries,
            final(self).current_dir == old(self).current_dir,
            final(self).target == old(self).target,
            final(self).output_filename == old(self).output_filename,
            final(self).output_extension == old(self).output_extension,
            old(self).filter_consistent() && all_ascii(old(self).filter_text@) && (c as u32) < 128
                ==> {
                &&& forall|k: usize| #[trigger] final(self).filtered_indices@.contains(k)
                    ==> old(self).filtered_indices@.contains(k)
                &&& final(self).filtered_indices@.len() <= old(self).filtered_indices@.len()
            },
    {
        let ghost before = *self;
        // The old filter lowercased: it is what the entries shown so far were matched against.
        let _before_lower = to_lowercase(self.filter_text.as_str());
        push_char(&mut self.filter_text, c);
        self.rebuild_filter();
        self.clamp_selection();
        proof {
            let (t, t2) = (before.filter_text@, self.filter_text@);
            if before.filter_consistent() && all_ascii(t) && (c as u32) < 128 {
                assert(all_ascii(t2));
                let (lo, ln) = (unicode_lowercase(t), unicode_lowercase(t2));
                assert(ln =~= lo.push(ascii_lower(c)));
                assert(ln.subrange(0int, 0int + lo.len()) =~= lo);
                assert(occurs_in(lo, ln));
                law_narrowing_filter_hides(self.entries@, t, t2, self.entries@.len());
            }
        }
    }

    /// Erases the last character of the filter (nothing when it is empty): the
    /// filter is applied again and the selection kept within the visible entries.
    pub fn filter_pop(&mut self)
        ensures
            final(self).filter_text@ == (if old(self).filter_text@.len() == 0 {
                old(self).filter_text@
            } else {
                old(self).filter_text@.drop_last()
            }),
            final(self).filter_consistent(),
            final(self).selected_index == (if old(self).selected_index <= last_position(
                final(self).filtered_indices@.len(),
            ) {
                old(self).selected_index as int
            } else {
                last_position(final(self).filtered_indices@.len()) as int
            }),
            final(self).entries == old(self).entries,
            final(self).current_dir == old(self).current_dir,
            final(self).target == old(self).target,
            final(self).output_filename == old(self).output_filename,
            final(self).output_extension == old(self).output_extension,
    {
        let _ = pop_char(&mut self.filter_text);
        self.rebuild_filter();
        self.clamp_selection();
    }

    /// Types a character into the output file name.
    pub fn filename_push(&mut self, c: char)
        ensures
            final(self).output_filename@ == old(self).output_filename@.push(c),
            final(self).entries == old(self).entries,
            final(self).filtered_indices == old(self).filtered_indices,
            final(self).selected_index == old(self).selected_index,
            final(self).current_dir == old(self).current_dir,
            final(self).filter_text == old(self).filter_text,
            final(self).target == old(self).target,
            final(self).output_extension == old(self).output_extension,
    {
        push_char(&mut self.output_filename, c);
    }

    /// Erases the last character of the output file name, if any.
    pub fn filename_pop(&mut self)
        ensures
            final(self).output_filename@ == (if old(self).output_filename@.len() == 0 {
                old(self).output_filename@
            } else {
                old(self).output_filename@.drop_last()
            }),
            final(self).entries == old(self).entries,
            final(self).filtered_indices == old(self).filtered_indices,
            final(self).selected_index == old(self).selected_index,
            final(self).current_dir == old(self).current_dir,
            final(self).filter_text == old(self).filter_text,
            final(self).target == old(self).target,
            final(self).output_extension == old(self).output_extension,
    {
        let _ = pop_char(&mut self.output_filename);
    }

    /// The output path being typed: the current directory joined with the file
    /// name and, when there is one, `.` and the extension; none without a name.
    pub open spec fn spec_output_full_path(self) -> Option<Seq<char>> {
        if self.output_filename@.len() == 0 {
            None
        } else if self.output_extension@.len() == 0 {
            Some(path_join(self.current_dir@, self.output_filename@))
        } else {
            Some(
                path_join(
                    self.current_dir@,
                    self.output_filename@ + seq!['.'] + self.output_extension@,
                ),
            )
        }
    }

    /// Builds the full output path from the current directory, the file name and
    /// the extension.
    pub fn output_full_path(&self) -> (res: Option<String>)
        ensures
            res.is_some() == self.spec_output_full_path().is_some(),
            res matches Some(p) ==> p@ == self.spec_output_full_path().unwrap(),
    {
        if self.output_filename.as_str().unicode_len() == 0 {
            return None;
        }
        let name = if self.output_extension.as_str().unicode_len() == 0 {
            self.output_filename.clone()
        } else {
            let mut n = self.output_filename.clone();
            push_char(&mut n, '.');
            push_str(&mut n, self.output_extension.as_str());
            assert(n@ =~= self.output_filename@ + seq!['.'] + self.output_extension@);
            n
        };
        Some(join_path(self.current_dir.as_str(), name.as_str()))
    }

    /// Returns the number of entries the filter shows.
    pub fn visible_count(&self) -> (res: usize)
        ensures
            res == self.filtered_indices@.len(),
    {
        self.filtered_indices.len()
    }

    /// Returns the selected entry among those the filter shows.
    pub fn selected_entry(&self) -> (res: Option<&DirEntry>)
        ensures
            res.is_some() == (self.selected_index < self.filtered_indices@.len()
                && self.filtered_indices@[self.selected_index as int] < self.entries@.len()),
            res matches Some(e) ==> *e == self.entries@[self.filtered_indices@[self.selected_index as int] as int],
    {
        if self.selected_index < self.filtered_indices.len() {
            let idx = self.filtered_indices[self.selected_index];
            if idx < self.entries.len() {
                return Some(&self.entries[idx]);
            }
        }
        None
    }

    /// The positions among the first `k` filtered indices of those that index
    /// an entry.
    pub open spec fn shown_positions(self, k: nat) -> Seq<usize>
        decreases k,
    {
        if k == 0 {
            Seq::empty()
        } else {
            let before = self.shown_positions((k - 1) as nat);
            if self.filtered_indices@[k - 1] < self.entries@.len() {
                before.push((k - 1) as usize)
            } else {
                before
            }
        }
    }

    /// Returns the entries the filter shows, each with its position among the
    /// filtered indices; an index that names no entry is skipped.
    pub fn visible_entries(&self) -> (res: Vec<(usize, &DirEntry)>)
        ensures
            ({
                let shown = self.shown_positions(self.filtered_indices@.len());
                &&& res@.len() == shown.len()
                &&& forall|j: int| 0 <= j < res@.len() ==> #[trigger] res@[j].0 == shown[j]
                    && *res@[j].1 == self.entries@[self.filtered_indices@[shown[j] as int] as int]
            }),
    {
        let mut res: Vec<(usize, &DirEntry)> = Vec::new();
        let mut k: usize = 0;
        while k < self.filtered_indices.len()
            invariant
                k <= self.filtered_indices@.len(),
                res@.len() == self.shown_positions(k as nat).len(),
                forall|j: int| 0 <= j < res@.len() ==> #[trigger] res@[j].0 == self.shown_positions(k as nat)[j]
                    && *res@[j].1 == self.entries@[self.filtered_indices@[self.shown_positions(k as nat)[j] as int] as int],
            decreases self.filtered_indices@.len() - k,
        {
            let idx = self.filtered_indices[k];
            let ghost prev = self.shown_positions(k as nat);
            let ghost before = res@;
            if idx < self.entries.len() {
                res.push((k, &self.entries[idx]));
            }
            proof {
                let next = self.shown_positions((k + 1) as nat);
                assert(next == if idx < self.entries@.len() { prev.push(k) } else { prev });
                assert forall|j: int| 0 <= j < res@.len() implies #[trigger] res@[j].0 == next[j]
                    && *res@[j].1 == self.entries@[self.filtered_indices@[next[j] as int] as int] by {
                    if j < before.len() {
                        assert(res@[j] == before[j]);
                        assert(next[j] == prev[j]);
                    }
                }
            }
            k = k + 1;
        }
        res
    }

    /// Enters or chooses the entry at position `filtered_idx` among those shown.
    /// A directory becomes the current directory, with the filter cleared; its
    /// listing is then to be read and installed with `set_listing`. A file is
    /// chosen. Out of range, nothing happens.
    pub fn navigate_into(&mut self, filtered_idx: usize) -> (res: Navigation)
        ensures
            navigated(*old(self), filtered_idx as int, *final(self), res),
    {
        if filtered_idx >= self.filtered_indices.len() {
            return Navigation::Stay;
        }
        let entry_idx = self.filtered_indices[filtered_idx];
        if entry_idx >= self.entries.len() {
            return Navigation::Stay;
        }
        if self.entries[entry_idx].is_dir {
            self.current_dir = self.entries[entry_idx].path.clone();
            self.filter_text = String::new();
            Navigation::Entered
        } else {
            Navigation::Selected(self.entries[entry_idx].path.clone())
        }
    }

    /// Moves to the parent directory, clearing the filter; its listing is then to
    /// be read and installed. Reports whether there was a parent to move to.
    pub fn navigate_up(&mut self) -> (res: bool)
        ensures
            res == path_parent(old(self).current_dir@).is_some(),
            res ==> final(self).current_dir@ == path_parent(old(self).current_dir@).unwrap()
                && final(self).filter_text@.len() == 0,
            !res ==> final(self).current_dir == old(self).current_dir
                && final(self).filter_text == old(self).filter_text,
            final(self).entries == old(self).entries,
            final(self).filtered_indices == old(self).filtered_indices,
            final(self).selected_index == old(self).selected_index,
            final(self).target == old(self).target,
            final(self).output_filename == old(self).output_filename,
            final(self).output_extension == old(self).output_extension,
    {
        match parent_of(self.current_dir.as_str()) {
            Some(parent) => {
                self.current_dir = parent;
                self.filter_text = String::new();
                true
            },
            None => false,
        }
    }

    /// The entry shown at position `k` of the filtered list, if there is one.
    pub open spec fn shown_at(self, k: int) -> Option<DirEntry> {
        if 0 <= k < self.filtered_indices@.len() && self.filtered_indices@[k] < self.entries@.len() {
            Some(self.entries@[self.filtered_indices@[k] as int])
        } else {
            None
        }
    }

    /// Whether `after` is the browser moved into `dir`, with the filter cleared
    /// and all else as it was.
    pub open spec fn entered(self, after: Self, dir: String) -> bool {
        &&& after == (FileBrowserState { current_dir: dir, filter_text: after.filter_text, ..self })
        &&& after.filter_text@.len() == 0
    }

    /// Confirms the selected entry (input mode): enters a directory or chooses a file.
    pub fn confirm_selected(&mut self) -> (res: Navigation)
        ensures
            confirmed(*old(self), *final(self), res),
    {
        let idx = self.selected_index;
        let res = self.navigate_into(idx);
        proof {
            law_confirm_navigates_selected(*old(self), *self, res);
        }
        res
    }

    /// Confirms the output choice: a highlighted directory is entered; else the
    /// typed output path is chosen, if a name has been typed.
    pub fn confirm_output(&mut self) -> (res: Navigation)
        ensures
            match old(self).shown_at(old(self).selected_index as int) {
                Some(e) if e.is_dir => res is Entered && old(self).entered(*final(self), e.path),
                _ => *final(self) == *old(self) && match old(self).spec_output_full_path() {
                    Some(p) => res matches Navigation::Selected(q) && q@ == p,
                    None => res is Stay,
                },
            },
    {
        let dir_selected = match self.selected_entry() {
            Some(entry) => entry.is_dir,
            None => false,
        };
        if dir_selected {
            let idx = self.selected_index;
            return self.navigate_into(idx);
        }
        match self.output_full_path() {
            Some(path) => Navigation::Selected(path),
            None => Navigation::Stay,
        }
    }

    /// Renders a byte count for display: `N B`, or KB, MB or GB with one decimal.
    pub fn format_size(size: u64) -> (res: String)
        ensures
            res@ == size_text(size as nat),
    {
        let mut s = String::new();
        if size >= 1073741824 {
            let v = double_value(size);
            push_tenths(&mut s, round_even(v * 10, 1073741824));
            push_str(&mut s, " GB");
        } else if size >= 1048576 {
            let v = double_value(size);
            push_tenths(&mut s, round_even(v * 10, 1048576));
            push_str(&mut s, " MB");
        } else if size >= 1024 {
            let v = double_value(size);
            push_tenths(&mut s, round_even(v * 10, 1024));
            push_str(&mut s, " KB");
        } else {
            push_u64(&mut s, size);
            push_str(&mut s, " B");
        }
        assert(s@ =~= size_text(size as nat));
        s
    }
}

impl Clone for FileBrowserState {
    fn clone(&self) -> (res: Self)
        ensures
            res.current_dir == self.current_dir,
            res.entries@ == self.entries@,
            res.selected_index == self.selected_index,
            res.filter_text == self.filter_text,
            res.target == self.target,
            res.filtered_indices@ == self.filtered_indices@,
            res.output_filename == self.output_filename,
            res.output_extension == self.output_extension,
    {
        let entries = self.entries.clone();
        let filtered = self.filtered_indices.clone();
        assert(entries@ =~= self.entries@);
        assert(filtered@ =~= self.filtered_indices@);
        FileBrowserState {
            current_dir: self.current_dir.clone(),
            entries,
            selected_index: self.selected_index,
            filter_text: self.filter_text.clone(),
            target: self.target,
            filtered_indices: filtered,
            output_filename: self.output_filename.clone(),
            output_extension: self.output_extension.clone(),
        }
    }
}

} // verus!
