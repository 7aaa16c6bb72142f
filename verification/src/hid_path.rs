//! Which HID device interfaces may be asked for the battery level, and in
//! which order they are tried.
use vstd::prelude::*;
use crate::text::{chars_of, contains, has_infix, lowercase, owned, push_chars, to_ascii_lowercase, views};

verus! {

broadcast use vstd::seq_lib::group_to_multiset_ensures;

/// USB product id of the wired Viper V4 Pro.
pub const VIPER_V4_PRO_WIRED_PID: u16 = 0x00E5;
/// USB product id of the Viper V4 Pro's wireless receiver.
pub const VIPER_V4_PRO_WIRELESS_PID: u16 = 0x00E6;

/// The path names one of the two feature interfaces that carry battery
/// reports (`mi_03` or `mi_04`).
pub open spec fn names_safe_interface(path: Seq<char>) -> bool {
    has_infix(path, "mi_03"@) || has_infix(path, "mi_04"@)
}

/// A lower-case device path that may be queried: a Razer device (`vid_1532`),
/// a Viper V4 Pro (`pid_00e5` or `pid_00e6`), not a top-level input
/// collection (`&col`), and one of the safe feature interfaces.
pub open spec fn spec_is_supported_battery_path(path: Seq<char>) -> bool {
    &&& has_infix(path, "vid_1532"@)
    &&& (has_infix(path, "pid_00e5"@) || has_infix(path, "pid_00e6"@))
    &&& !has_infix(path, "&col"@)
    &&& names_safe_interface(path)
}

/// The product id that a lower-case path names; the wireless id wins when
/// both occur.
pub open spec fn spec_pid_from_path(path: Seq<char>) -> Option<u16> {
    if has_infix(path, "pid_00e6"@) {
        Some(VIPER_V4_PRO_WIRELESS_PID)
    } else if has_infix(path, "pid_00e5"@) {
        Some(VIPER_V4_PRO_WIRED_PID)
    } else {
        None
    }
}

/// The rank of a lower-case path's interface: 0 for `mi_03`, 1 for `mi_04`,
/// 2 for any other.
pub open spec fn spec_interface_preference(path: Seq<char>) -> int {
    if has_infix(path, "mi_03"@) {
        0
    } else if has_infix(path, "mi_04"@) {
        1
    } else {
        2
    }
}

/// The interface name that a path shows, after lower-casing it: the first of
/// `mi_00` to `mi_04` that occurs in it, else `unknown`.
pub open spec fn spec_path_interface_hint(path: Seq<char>) -> Seq<char> {
    let lower = lowercase(path);
    if has_infix(lower, "mi_00"@) {
        "mi_00"@
    } else if has_infix(lower, "mi_01"@) {
        "mi_01"@
    } else if has_infix(lower, "mi_02"@) {
        "mi_02"@
    } else if has_infix(lower, "mi_03"@) {
        "mi_03"@
    } else if has_infix(lower, "mi_04"@) {
        "mi_04"@
    } else {
        "unknown"@
    }
}

/// Lexicographic order of texts by character code, which is the order of
/// `String`s (their UTF-8 bytes compare in the same order as their characters).
pub open spec fn chars_le(a: Seq<char>, b: Seq<char>) -> bool
    decreases a.len(),
{
    if a.len() == 0 {
        true
    } else if b.len() == 0 {
        false
    } else if a[0] != b[0] {
        a[0] < b[0]
    } else {
        chars_le(a.drop_first(), b.drop_first())
    }
}

/// A device interface that may carry battery reports.
#[derive(Debug, Clone)]
pub struct HidCandidate {
    pub path: String,
    pub pid: u16,
}

impl View for HidCandidate {
    type V = (Seq<char>, u16);

    open spec fn view(&self) -> (Seq<char>, u16) {
        (self.path@, self.pid)
    }
}

/// The key candidates are tried by: the interface rank, then wireless before
/// wired, then the path.
pub open spec fn candidate_key(c: (Seq<char>, u16)) -> (int, bool, Seq<char>) {
    (spec_interface_preference(lowercase(c.0)), c.1 != VIPER_V4_PRO_WIRELESS_PID, c.0)
}

/// Lexicographic order of candidate keys (`false` before `true`).
pub open spec fn key_le(a: (int, bool, Seq<char>), b: (int, bool, Seq<char>)) -> bool {
    ||| a.0 < b.0
    ||| a.0 == b.0 && !a.1 && b.1
    ||| a.0 == b.0 && a.1 == b.1 && chars_le(a.2, b.2)
}

/// Candidates stand in the order they are tried.
pub open spec fn sorted_by_key(s: Seq<(Seq<char>, u16)>) -> bool {
    forall|i: int, j: int|
        0 <= i < j < s.len() ==> key_le(candidate_key(#[trigger] s[i]), candidate_key(#[trigger] s[j]))
}

/// The candidate for a device path, if the path is a supported one.
pub open spec fn spec_candidate(path: Seq<char>) -> Option<(Seq<char>, u16)> {
    let lower = lowercase(path);
    if spec_is_supported_battery_path(lower) && spec_pid_from_path(lower) is Some {
        Some((path, spec_pid_from_path(lower)->0))
    } else {
        None
    }
}

/// The candidates for a list of device paths, in the order of the list.
pub open spec fn spec_candidates(paths: Seq<Seq<char>>) -> Seq<(Seq<char>, u16)>
    decreases paths.len(),
{
    if paths.len() == 0 {
        Seq::empty()
    } else {
        match spec_candidate(paths.last()) {
            Some(c) => spec_candidates(paths.drop_last()).push(c),
            None => spec_candidates(paths.drop_last()),
        }
    }
}

/// The views of a sequence of candidates.
pub open spec fn candidate_views(s: Seq<HidCandidate>) -> Seq<(Seq<char>, u16)> {
    s.map_values(|c: HidCandidate| c@)
}

pub(crate) fn supported_chars(path: &Vec<char>) -> (r: bool)
    ensures
        r == spec_is_supported_battery_path(path@),
{
    contains(path, "vid_1532") && (contains(path, "pid_00e5") || contains(path, "pid_00e6"))
        && !contains(path, "&col") && (contains(path, "mi_03") || contains(path, "mi_04"))
}

fn pid_from_chars(path: &Vec<char>) -> (r: Option<u16>)
    ensures
        r == spec_pid_from_path(path@),
{
    if contains(path, "pid_00e6") {
        Some(VIPER_V4_PRO_WIRELESS_PID)
    } else if contains(path, "pid_00e5") {
        Some(VIPER_V4_PRO_WIRED_PID)
    } else {
        None
    }
}

fn preference_chars(path: &Vec<char>) -> (r: usize)
    ensures
        r == spec_interface_preference(path@),
{
    if contains(path, "mi_03") {
        0
    } else if contains(path, "mi_04") {
        1
    } else {
        2
    }
}

/// Whether a lower-case device path is one that may be queried for the battery.
pub fn is_supported_battery_path(path: &str) -> (r: bool)
    ensures
        r == spec_is_supported_battery_path(path@),
{
    let chars = chars_of(path);
    supported_chars(&chars)
}

/// The product id that a lower-case device path names.
pub fn pid_from_path(path: &str) -> (r: Option<u16>)
    ensures
        r == spec_pid_from_path(path@),
{
    let chars = chars_of(path);
    pid_from_chars(&chars)
}

/// The rank of a lower-case device path's interface (lower is tried first).
pub fn interface_preference(path: &str) -> (r: usize)
    ensures
        r == spec_interface_preference(path@),
        r <= 2,
{
    let chars = chars_of(path);
    preference_chars(&chars)
}

/// The interface name of a device path, for the probe report: it shows the
/// interface and hides the device instance id.
pub fn path_interface_hint(path: &str) -> (hint: String)
    ensures
        hint@ == spec_path_interface_hint(path@),
{
    let lower = to_ascii_lowercase(path);
    if contains(&lower, "mi_00") {
        owned("mi_00")
    } else if contains(&lower, "mi_01") {
        owned("mi_01")
    } else if contains(&lower, "mi_02") {
        owned("mi_02")
    } else if contains(&lower, "mi_03") {
        owned("mi_03")
    } else if contains(&lower, "mi_04") {
        owned("mi_04")
    } else {
        owned("unknown")
    }
}

/// The candidate for a device path, given the path and its lower-case form.
pub fn candidate_from_path(path: String, lower_path: &str) -> (r: Option<HidCandidate>)
    ensures
        match r {
            Some(c) => spec_is_supported_battery_path(lower_path@) && spec_pid_from_path(
                lower_path@,
            ) == Some(c.pid) && c.path == path,
            None => !spec_is_supported_battery_path(lower_path@) || spec_pid_from_path(
                lower_path@,
            ) is None,
        },
{
    if !is_supported_battery_path(lower_path) {
        return None;
    }
    match pid_from_path(lower_path) {
        Some(pid) => Some(HidCandidate { path, pid }),
        None => None,
    }
}

/// `chars_le` orders any two texts one way or the other.
pub proof fn lemma_chars_le_total(a: Seq<char>, b: Seq<char>)
    ensures
        chars_le(a, b) || chars_le(b, a),
    decreases a.len(),
{
    if a.len() > 0 && b.len() > 0 && a[0] == b[0] {
        lemma_chars_le_total(a.drop_first(), b.drop_first());
    }
}

/// `chars_le` is reflexive.
pub proof fn lemma_chars_le_reflexive(a: Seq<char>)
    ensures
        chars_le(a, a),
    decreases a.len(),
{
    if a.len() > 0 {
        lemma_chars_le_reflexive(a.drop_first());
    }
}

/// `chars_le` is transitive.
pub proof fn lemma_chars_le_transitive(a: Seq<char>, b: Seq<char>, c: Seq<char>)
    requires
        chars_le(a, b),
        chars_le(b, c),
    ensures
        chars_le(a, c),
    decreases a.len(),
{
    if a.len() > 0 && b.len() > 0 && c.len() > 0 && a[0] == b[0] && b[0] == c[0] {
        lemma_chars_le_transitive(a.drop_first(), b.drop_first(), c.drop_first());
    }
}

/// Two texts that each come no later than the other are equal.
pub proof fn lemma_chars_le_antisymmetric(a: Seq<char>, b: Seq<char>)
    requires
        chars_le(a, b),
        chars_le(b, a),
    ensures
        a == b,
    decreases a.len(),
{
    if a.len() > 0 && b.len() > 0 {
        lemma_chars_le_antisymmetric(a.drop_first(), b.drop_first());
        assert(a =~= seq![a[0]] + a.drop_first());
        assert(b =~= seq![b[0]] + b.drop_first());
    }
}

proof fn lemma_key_le_total(a: (int, bool, Seq<char>), b: (int, bool, Seq<char>))
    ensures
        key_le(a, b) || key_le(b, a),
{
    lemma_chars_le_total(a.2, b.2);
}

proof fn lemma_key_le_transitive(
    a: (int, bool, Seq<char>),
    b: (int, bool, Seq<char>),
    c: (int, bool, Seq<char>),
)
    requires
        key_le(a, b),
        key_le(b, c),
    ensures
        key_le(a, c),
{
    if a.0 == b.0 && b.0 == c.0 && a.1 == b.1 && b.1 == c.1 {
        lemma_chars_le_transitive(a.2, b.2, c.2);
    }
}

fn chars_le_exec(a: &Vec<char>, b: &Vec<char>) -> (r: bool)
    ensures
        r == chars_le(a@, b@),
{
    let mut i: usize = 0;
    assert(a@.skip(0) =~= a@ && b@.skip(0) =~= b@);
    while i < a.len() && i < b.len()
        invariant
            i <= a.len(),
            i <= b.len(),
            chars_le(a@, b@) == chars_le(a@.skip(i as int), b@.skip(i as int)),
        decreases a.len() - i,
    {
        let x = a[i];
        let y = b[i];
        assert(a@.skip(i as int)[0] == x);
        assert(b@.skip(i as int)[0] == y);
        if x != y {
            return x < y;
        }
        assert(a@.skip(i as int).drop_first() =~= a@.skip(i + 1));
        assert(b@.skip(i as int).drop_first() =~= b@.skip(i + 1));
        i = i + 1;
    }
    i == a.len()
}

/// Whether candidate `a` is tried no later than candidate `b`.
fn tried_no_later(a: &HidCandidate, b: &HidCandidate) -> (r: bool)
    ensures
        r == key_le(candidate_key(a@), candidate_key(b@)),
{
    let lower_a = to_ascii_lowercase(a.path.as_str());
    let lower_b = to_ascii_lowercase(b.path.as_str());
    let rank_a = preference_chars(&lower_a);
    let rank_b = preference_chars(&lower_b);
    if rank_a != rank_b {
        return rank_a < rank_b;
    }
    let wired_a = a.pid != VIPER_V4_PRO_WIRELESS_PID;
    let wired_b = b.pid != VIPER_V4_PRO_WIRELESS_PID;
    if wired_a != wired_b {
        return !wired_a;
    }
    let chars_a = chars_of(a.path.as_str());
    let chars_b = chars_of(b.path.as_str());
    chars_le_exec(&chars_a, &chars_b)
}

/// Inserts `c` behind every candidate tried no later than it.
fn insert_sorted(out: &mut Vec<HidCandidate>, c: HidCandidate)
    requires
        sorted_by_key(candidate_views(old(out)@)),
        forall|k: int|
            0 <= k < old(out)@.len() ==> spec_candidate(old(out)@[k].path@) == Some(
                #[trigger] old(out)@[k]@,
            ),
        spec_candidate(c.path@) == Some(c@),
    ensures
        sorted_by_key(candidate_views(final(out)@)),
        forall|k: int|
            0 <= k < final(out)@.len() ==> spec_candidate(final(out)@[k].path@) == Some(
                #[trigger] final(out)@[k]@,
            ),
        candidate_views(final(out)@).to_multiset() == candidate_views(old(out)@).to_multiset().insert(
            c@,
        ),
{
    let ghost before = candidate_views(out@);
    let mut pos: usize = 0;
    while pos < out.len() && tried_no_later(&out[pos], &c)
        invariant
            pos <= out.len(),
            before == candidate_views(out@),
            sorted_by_key(before),
            forall|k: int| 0 <= k < pos ==> key_le(candidate_key(before[k]), candidate_key(c@)),
            forall|k: int|
                0 <= k < out@.len() ==> spec_candidate(out@[k].path@) == Some(#[trigger] out@[k]@),
        decreases out.len() - pos,
    {
        pos = pos + 1;
    }
    let ghost cv = c@;
    let ghost old_items = out@;
    out.insert(pos, c);
    proof {
        assert forall|k: int| 0 <= k < out@.len() implies spec_candidate(out@[k].path@) == Some(
            #[trigger] out@[k]@,
        ) by {
            if k < pos {
                assert(out@[k] == old_items[k]);
            } else if k > pos {
                assert(out@[k] == old_items[k - 1]);
            }
        }
        let after = candidate_views(out@);
        assert(after =~= before.insert(pos as int, cv));
        if pos < before.len() {
            lemma_key_le_total(candidate_key(before[pos as int]), candidate_key(cv));
        }
        assert forall|i: int, j: int| 0 <= i < j < after.len() implies key_le(
            candidate_key(#[trigger] after[i]),
            candidate_key(#[trigger] after[j]),
        ) by {
            if j < pos {
                assert(after[i] == before[i] && after[j] == before[j]);
            } else if j == pos {
                assert(after[i] == before[i]);
            } else if i == pos {
                assert(after[j] == before[j - 1]);
                if j - 1 > pos {
                    assert(key_le(candidate_key(before[pos as int]), candidate_key(before[j - 1])));
                    lemma_key_le_transitive(
                        candidate_key(cv),
                        candidate_key(before[pos as int]),
                        candidate_key(before[j - 1]),
                    );
                }
            } else if i < pos {
                assert(after[i] == before[i] && after[j] == before[j - 1]);
            } else {
                assert(after[i] == before[i - 1] && after[j] == before[j - 1]);
            }
        }
    }
}

/// The battery candidates among the enumerated device paths, in the order
/// they are tried (the computing part of the device enumeration).
pub fn candidates_from_paths(paths: &Vec<String>) -> (out: Vec<HidCandidate>)
    ensures
        candidate_views(out@).to_multiset() == spec_candidates(views(paths@)).to_multiset(),
        sorted_by_key(candidate_views(out@)),
        forall|k: int|
            0 <= k < out@.len() ==> spec_candidate(out@[k].path@) == Some(#[trigger] out@[k]@),
{
    let mut out: Vec<HidCandidate> = Vec::new();
    let mut i: usize = 0;
    while i < paths.len()
        invariant
            i <= paths.len(),
            sorted_by_key(candidate_views(out@)),
            forall|k: int|
                0 <= k < out@.len() ==> spec_candidate(out@[k].path@) == Some(#[trigger] out@[k]@),
            candidate_views(out@).to_multiset() == spec_candidates(
                views(paths@).take(i as int),
            ).to_multiset(),
        decreases paths.len() - i,
    {
        let path = paths[i].clone();
        let lower = to_ascii_lowercase(path.as_str());
        let mut lower_text = String::new();
        push_chars(&mut lower_text, &lower);
        let ghost path_view = path@;
        let found = candidate_from_path(path, lower_text.as_str());
        proof {
            let now = views(paths@).take(i + 1);
            assert(now.drop_last() =~= views(paths@).take(i as int));
            assert(now.last() == path_view);
            assert(lower_text@ == lowercase(path_view));
        }
        match found {
            Some(c) => {
                insert_sorted(&mut out, c);
            },
            None => {},
        }
        i = i + 1;
    }
    assert(views(paths@).take(paths@.len() as int) =~= views(paths@));
    out
}



/// A device path that the reader may open: its lower-case form is supported.
pub open spec fn query_allowed(path: Seq<char>) -> bool {
    spec_is_supported_battery_path(lowercase(path))
}

/// Whether a device path may be opened for a battery query (the guard in
/// front of every query).
pub fn path_may_be_queried(path: &str) -> (r: bool)
    ensures
        r == query_allowed(path@),
{
    let lower = to_ascii_lowercase(path);
    supported_chars(&lower)
}

/// A supported path always names a product id and one of the two safe
/// interfaces, so it always makes a candidate.
pub proof fn lemma_supported_path_makes_candidate(path: Seq<char>)
    requires
        query_allowed(path),
    ensures
        spec_pid_from_path(lowercase(path)) is Some,
        spec_interface_preference(lowercase(path)) < 2,
        spec_candidate(path) == Some((path, spec_pid_from_path(lowercase(path))->0)),
{
}

/// Every candidate comes from a supported path and carries the product id
/// that its path names.
pub proof fn lemma_candidates_are_supported(paths: Seq<Seq<char>>)
    ensures
        forall|k: int|
            0 <= k < spec_candidates(paths).len() ==> {
                &&& query_allowed(#[trigger] spec_candidates(paths)[k].0)
                &&& spec_candidate(spec_candidates(paths)[k].0) == Some(spec_candidates(paths)[k])
            },
    decreases paths.len(),
{
    if paths.len() > 0 {
        lemma_candidates_are_supported(paths.drop_last());
    }
}

/// Candidates are tried by interface first (`mi_03` before `mi_04`), then
/// the wireless receiver before the wired mouse.
pub proof fn lemma_candidate_order(s: Seq<(Seq<char>, u16)>, i: int, j: int)
    requires
        sorted_by_key(s),
        0 <= i < j < s.len(),
    ensures
        spec_interface_preference(lowercase(s[i].0)) <= spec_interface_preference(lowercase(s[j].0)),
        spec_interface_preference(lowercase(s[i].0)) == spec_interface_preference(lowercase(s[j].0))
            && s[j].1 == VIPER_V4_PRO_WIRELESS_PID ==> s[i].1 == VIPER_V4_PRO_WIRELESS_PID,
{
    assert(key_le(candidate_key(s[i]), candidate_key(s[j])));
}

} // verus!
