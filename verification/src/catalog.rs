//! Build-time catalog tooling: the curated name list, raw field-name
//! normalization, and the sort-and-deduplicate step that turns gathered
//! names into the closed catalog.
//!
//! Discovery of extra names from an external structured data archive is a
//! one-time, pre-composition step that happens outside this crate; what is
//! discovered is handed to [`build_catalog`] as plain strings. The runtime
//! core never reads these archives.

use vstd::prelude::*;

verus! {

/// Relies on `String::push`: appends the given character to the end of
/// the string.
pub assume_specification[ String::push ](s: &mut String, ch: char)
    ensures
        final(s)@ == old(s)@.push(ch),
;

/// ASCII upper-casing of a single character; anything outside `a..=z` is
/// left as it is.
pub open spec fn spec_upper(c: char) -> char {
    match c {
            'a' => 'A',
            'b' => 'B',
            'c' => 'C',
            'd' => 'D',
            'e' => 'E',
            'f' => 'F',
            'g' => 'G',
            'h' => 'H',
            'i' => 'I',
            'j' => 'J',
            'k' => 'K',
            'l' => 'L',
            'm' => 'M',
            'n' => 'N',
            'o' => 'O',
            'p' => 'P',
            'q' => 'Q',
            'r' => 'R',
            's' => 'S',
            't' => 'T',
            'u' => 'U',
            'v' => 'V',
            'w' => 'W',
            'x' => 'X',
            'y' => 'Y',
            'z' => 'Z',
        _ => c,
    }
}

/// Upper-cases one ASCII character.
pub fn upper_char(c: char) -> (r: char)
    ensures
        r == spec_upper(c),
{
    match c {
            'a' => 'A',
            'b' => 'B',
            'c' => 'C',
            'd' => 'D',
            'e' => 'E',
            'f' => 'F',
            'g' => 'G',
            'h' => 'H',
            'i' => 'I',
            'j' => 'J',
            'k' => 'K',
            'l' => 'L',
            'm' => 'M',
            'n' => 'N',
            'o' => 'O',
            'p' => 'P',
            'q' => 'Q',
            'r' => 'R',
            's' => 'S',
            't' => 'T',
            'u' => 'U',
            'v' => 'V',
            'w' => 'W',
            'x' => 'X',
            'y' => 'Y',
            'z' => 'Z',
        _ => c,
    }
}

/// Capitalized concatenation of the underscore-separated segments of a
/// raw name: `at_start` says whether the next character opens a segment.
/// Empty segments (consecutive underscores) contribute nothing.
pub open spec fn spec_normalize_from(s: Seq<char>, at_start: bool) -> Seq<char>
    decreases s.len(),
{
    if s.len() == 0 {
        Seq::<char>::empty()
    } else if s[0] == '_' {
        spec_normalize_from(s.drop_first(), true)
    } else if at_start {
        seq![spec_upper(s[0])] + spec_normalize_from(s.drop_first(), false)
    } else {
        seq![s[0]] + spec_normalize_from(s.drop_first(), false)
    }
}

/// The catalog identifier of a raw snake-case field name: split on `_`,
/// upper-case the first character of each segment, concatenate.
pub open spec fn spec_normalize(s: Seq<char>) -> Seq<char> {
    spec_normalize_from(s, true)
}

/// Transforms a raw field name discovered in an external archive into a
/// catalog identifier, reproducing the archive convention exactly:
/// segments split on `_`, first character of each segment upper-cased,
/// segments concatenated.
pub fn normalize_name(raw: &str) -> (r: String)
    ensures
        r@ == spec_normalize(raw@),
{
    let n = raw.unicode_len();
    let mut out = String::new();
    let mut at_start = true;
    let mut i: usize = 0;
    proof {
        assert(raw@.skip(0) =~= raw@);
        assert(Seq::<char>::empty() + spec_normalize(raw@) =~= spec_normalize(raw@));
    }
    while i < n
        invariant
            n == raw@.len(),
            i <= n,
            out@ + spec_normalize_from(raw@.skip(i as int), at_start) == spec_normalize(raw@),
        decreases n - i,
    {
        let ghost rem = raw@.skip(i as int);
        let ghost was_start = at_start;
        proof {
            assert(rem.len() > 0);
            assert(rem[0] == raw@[i as int]);
            assert(rem.drop_first() =~= raw@.skip(i as int + 1));
        }
        let c = raw.get_char(i);
        if c == '_' {
            at_start = true;
            proof {
                assert(spec_normalize_from(rem, was_start) == spec_normalize_from(
                    raw@.skip(i as int + 1),
                    true,
                ));
            }
        } else if at_start {
            let u = upper_char(c);
            let ghost pre = out@;
            out.push(u);
            at_start = false;
            proof {
                assert(spec_normalize_from(rem, true) == seq![spec_upper(rem[0])]
                    + spec_normalize_from(raw@.skip(i as int + 1), false));
                assert(out@ + spec_normalize_from(raw@.skip(i as int + 1), false) =~= pre
                    + spec_normalize_from(rem, true));
            }
        } else {
            let ghost pre = out@;
            out.push(c);
            proof {
                assert(spec_normalize_from(rem, false) == seq![rem[0]] + spec_normalize_from(
                    raw@.skip(i as int + 1),
                    false,
                ));
                assert(out@ + spec_normalize_from(raw@.skip(i as int + 1), false) =~= pre
                    + spec_normalize_from(rem, false));
            }
        }
        i += 1;
    }
    proof {
        assert(raw@.skip(i as int) =~= Seq::<char>::empty());
        assert(spec_normalize_from(Seq::<char>::empty(), at_start) =~= Seq::<char>::empty());
        assert(out@ + Seq::<char>::empty() =~= out@);
    }
    out
}

/// Strict lexicographic order on character sequences, by code point; a
/// proper prefix comes first.
pub open spec fn lex_lt(a: Seq<char>, b: Seq<char>) -> bool
    decreases a.len(),
{
    if b.len() == 0 {
        false
    } else if a.len() == 0 {
        true
    } else if (a[0] as u32) < (b[0] as u32) {
        true
    } else if (a[0] as u32) > (b[0] as u32) {
        false
    } else {
        lex_lt(a.drop_first(), b.drop_first())
    }
}

/// Any two character sequences compare: one is smaller, or they are equal.
pub proof fn lemma_lex_trichotomy(a: Seq<char>, b: Seq<char>)
    ensures
        lex_lt(a, b) || lex_lt(b, a) || a == b,
    decreases a.len(),
{
    if b.len() == 0 && a.len() == 0 {
        assert(a =~= b);
    } else if b.len() == 0 || a.len() == 0 {
    } else if (a[0] as u32) == (b[0] as u32) {
        vstd::utf8::char_u32_cast(a[0], a[0] as u32);
        vstd::utf8::char_u32_cast(b[0], b[0] as u32);
        assert(a[0] == b[0]);
        lemma_lex_trichotomy(a.drop_first(), b.drop_first());
        if a.drop_first() == b.drop_first() {
            assert(a.drop_first().len() == a.len() - 1);
            assert(b.drop_first().len() == b.len() - 1);
            assert(a.len() == b.len());
            assert forall|i: int| 0 <= i < a.len() implies a[i] == b[i] by {
                if i > 0 {
                    assert(a[i] == a.drop_first()[i - 1]);
                    assert(b[i] == b.drop_first()[i - 1]);
                }
            }
            assert(a =~= b);
        }
    }
}

/// Lexicographic order is transitive.
pub proof fn lemma_lex_lt_trans(a: Seq<char>, b: Seq<char>, c: Seq<char>)
    requires
        lex_lt(a, b),
        lex_lt(b, c),
    ensures
        lex_lt(a, c),
    decreases a.len(),
{
    if a.len() == 0 {
    } else {
        if (a[0] as u32) == (b[0] as u32) && (b[0] as u32) == (c[0] as u32) {
            lemma_lex_lt_trans(a.drop_first(), b.drop_first(), c.drop_first());
        }
    }
}

/// Compares two names in strict lexicographic order by code point.
pub fn str_lt(a: &str, b: &str) -> (r: bool)
    ensures
        r == lex_lt(a@, b@),
{
    let an = a.unicode_len();
    let bn = b.unicode_len();
    let mut i: usize = 0;
    proof {
        assert(a@.skip(0) =~= a@);
        assert(b@.skip(0) =~= b@);
    }
    while i < an && i < bn
        invariant
            an == a@.len(),
            bn == b@.len(),
            i <= an,
            i <= bn,
            lex_lt(a@, b@) == lex_lt(a@.skip(i as int), b@.skip(i as int)),
        decreases an - i,
    {
        let ghost ra = a@.skip(i as int);
        let ghost rb = b@.skip(i as int);
        proof {
            assert(ra[0] == a@[i as int]);
            assert(rb[0] == b@[i as int]);
            assert(ra.drop_first() =~= a@.skip(i as int + 1));
            assert(rb.drop_first() =~= b@.skip(i as int + 1));
        }
        let ca = a.get_char(i);
        let cb = b.get_char(i);
        if (ca as u32) < (cb as u32) {
            return true;
        }
        if (ca as u32) > (cb as u32) {
            return false;
        }
        proof {
            assert(lex_lt(ra, rb) == lex_lt(a@.skip(i as int + 1), b@.skip(i as int + 1)));
        }
        i += 1;
    }
    proof {
        if i >= an {
            assert(a@.skip(i as int) =~= Seq::<char>::empty());
        }
        if i >= bn {
            assert(b@.skip(i as int) =~= Seq::<char>::empty());
        }
    }
    i < bn
}

/// A name list in strictly increasing lexicographic order: sorted, with
/// no duplicates.
pub open spec fn sorted_unique(v: Seq<String>) -> bool {
    forall|i: int, j: int| 0 <= i < j < v.len() ==> lex_lt(v[i]@, v[j]@)
}

/// Whether some entry of the list reads exactly `x`.
pub open spec fn contains_name(v: Seq<String>, x: Seq<char>) -> bool {
    exists|i: int| 0 <= i < v.len() && v[i]@ == x
}

/// The position of the first entry not lexicographically below `s`; the
/// list length if every entry is below `s`.
fn lower_bound(out: &Vec<String>, s: &str) -> (p: usize)
    ensures
        p <= out@.len(),
        forall|j: int| 0 <= j < p ==> lex_lt(out@[j]@, s@),
        p < out@.len() ==> !lex_lt(out@[p as int]@, s@),
{
    let mut p: usize = 0;
    while p < out.len()
        invariant
            p <= out@.len(),
            forall|j: int| 0 <= j < p ==> lex_lt(out@[j]@, s@),
        decreases out@.len() - p,
    {
        if !str_lt(out[p].as_str(), s) {
            return p;
        }
        p += 1;
    }
    p
}

/// Inserts a name into a sorted, duplicate-free list, keeping it so; a
/// name already present is dropped.
fn insert_unique_sorted(out: &mut Vec<String>, s: String)
    requires
        sorted_unique(old(out)@),
    ensures
        sorted_unique(final(out)@),
        forall|x: Seq<char>|
            contains_name(final(out)@, x) <==> (contains_name(old(out)@, x) || x == s@),
{
    let ghost pre = out@;
    let p = lower_bound(out, s.as_str());
    if p < out.len() {
        if !str_lt(s.as_str(), out[p].as_str()) {
            proof {
                lemma_lex_trichotomy(s@, pre[p as int]@);
                assert(pre[p as int]@ == s@);
                assert forall|x: Seq<char>|
                    contains_name(out@, x) <==> (contains_name(pre, x) || x == s@) by {
                    if x == s@ {
                        assert(out@[p as int]@ == x);
                        assert(contains_name(out@, x));
                    }
                }
            }
            return;
        }
    }
    out.insert(p, s);
    proof {
        let newv = out@;
        assert forall|i: int, j: int| 0 <= i < j < newv.len() implies lex_lt(
            newv[i]@,
            newv[j]@,
        ) by {
            if j < p {
            } else if i < p && j == p {
            } else if i < p && j > p {
                assert(newv[j]@ == pre[j - 1]@);
            } else if i == p && j > p {
                assert(newv[j]@ == pre[j - 1]@);
                if j - 1 > p {
                    assert(lex_lt(s@, pre[p as int]@));
                    assert(lex_lt(pre[p as int]@, pre[j - 1]@));
                    lemma_lex_lt_trans(s@, pre[p as int]@, pre[j - 1]@);
                }
            } else {
                assert(newv[i]@ == pre[i - 1]@);
                assert(newv[j]@ == pre[j - 1]@);
            }
        }
        assert forall|x: Seq<char>|
            contains_name(newv, x) <==> (contains_name(pre, x) || x == s@) by {
            if contains_name(newv, x) {
                let i = choose|i: int| 0 <= i < newv.len() && newv[i]@ == x;
                if i < p {
                    assert(pre[i]@ == x);
                    assert(contains_name(pre, x));
                } else if i == p {
                } else {
                    assert(pre[i - 1]@ == x);
                    assert(contains_name(pre, x));
                }
            }
            if x == s@ {
                assert(newv[p as int]@ == x);
                assert(contains_name(newv, x));
            } else if contains_name(pre, x) {
                let i = choose|i: int| 0 <= i < pre.len() && pre[i]@ == x;
                if i < p {
                    assert(newv[i]@ == x);
                } else {
                    assert(newv[i + 1]@ == x);
                }
                assert(contains_name(newv, x));
            }
        }
    }
}

/// Sorts a gathered name list and removes duplicates: exactly the names
/// that came in come out, each once, in increasing lexicographic order.
pub fn sort_dedup(names: Vec<String>) -> (r: Vec<String>)
    ensures
        sorted_unique(r@),
        forall|x: Seq<char>| contains_name(r@, x) <==> contains_name(names@, x),
{
    let mut out: Vec<String> = Vec::new();
    let mut idx: usize = 0;
    while idx < names.len()
        invariant
            idx <= names@.len(),
            sorted_unique(out@),
            forall|x: Seq<char>|
                contains_name(out@, x) <==> contains_name(names@.take(idx as int), x),
        decreases names@.len() - idx,
    {
        let ghost pre = out@;
        let s = names[idx].clone();
        insert_unique_sorted(&mut out, s);
        proof {
            let t1 = names@.take(idx as int);
            let t2 = names@.take(idx as int + 1);
            assert forall|x: Seq<char>|
                contains_name(out@, x) <==> contains_name(t2, x) by {
                if contains_name(out@, x) {
                    if x == names@[idx as int]@ {
                        assert(t2[idx as int]@ == x);
                        assert(contains_name(t2, x));
                    } else {
                        assert(contains_name(t1, x));
                        let i = choose|i: int| 0 <= i < t1.len() && t1[i]@ == x;
                        assert(t2[i]@ == x);
                        assert(contains_name(t2, x));
                    }
                }
                if contains_name(t2, x) {
                    let i = choose|i: int| 0 <= i < t2.len() && t2[i]@ == x;
                    if i < idx {
                        assert(t1[i]@ == x);
                        assert(contains_name(t1, x));
                    } else {
                        assert(x == names@[idx as int]@);
                    }
                    assert(contains_name(out@, x));
                }
            }
        }
        idx += 1;
    }
    proof {
        assert(names@.take(idx as int) =~= names@);
    }
    out
}

/// The curated name list of the signal catalog, in its historical order,
/// duplicates included: the raw material of [`build_catalog`].
pub open spec fn spec_io_list() -> Seq<Seq<char>> {
    seq![
        "OSSTopEnd6F"@,
        "OSSTruss6F"@,
        "OSSGIR6F"@,
        "OSSCRING6F"@,
        "OSSCellLcl6F"@,
        "OSSM1Lcl6F"@,
        "MCM2Lcl6F"@,
        "MCM2TE6F"@,
        "MCM2RB6F"@,
        "OSSMirrorCovers6F"@,
        "OSSAzDriveTorque"@,
        "OSSElDriveTorque"@,
        "OSSRotDriveTorque"@,
        "MountCmd"@,
        "OSSAzEncoderAngle"@,
        "OSSElEncoderAngle"@,
        "OSSRotEncoderAngle"@,
        "M1HPLC"@,
        "OSSHardpointD"@,
        "OSSHarpointDeltaF"@,
        "M1HPCmd"@,
        "HPFcmd"@,
        "M1RBMcmd"@,
        "M1CGFM"@,
        "M1HPLC"@,
        "M1S1HPLC"@,
        "M1S1BMcmd"@,
        "M1S1ACTF"@,
        "M1ActuatorsSegment1"@,
        "M1S2HPLC"@,
        "M1S2BMcmd"@,
        "M1S2ACTF"@,
        "M1ActuatorsSegment2"@,
        "M1S3HPLC"@,
        "M1S3BMcmd"@,
        "M1S3ACTF"@,
        "M1ActuatorsSegment3"@,
        "M1S4HPLC"@,
        "M1S4BMcmd"@,
        "M1S4ACTF"@,
        "M1ActuatorsSegment4"@,
        "M1S5HPLC"@,
        "M1S5BMcmd"@,
        "M1S5ACTF"@,
        "M1ActuatorsSegment5"@,
        "M1S6HPLC"@,
        "M1S6BMcmd"@,
        "M1S6ACTF"@,
        "M1ActuatorsSegment6"@,
        "M1S7HPLC"@,
        "M1S7BMcmd"@,
        "M1S7ACTF"@,
        "M1ActuatorsSegment7"@,
        "M2poscmd"@,
        "M2posFB"@,
        "M2posactF"@,
        "TTcmd"@,
        "PZTFB"@,
        "PZTF"@,
        "TTSP"@,
        "TTFB"@,
        "TTcmd"@,
        "SrcWfeRms"@,
        "SrcSegmentWfeRms"@,
        "SrcSegmentPiston"@,
        "SrcSegmentGradients"@,
        "Pssn"@,
        "SensorData"@,
        "M1modes"@,
    ]
}

/// Returns the curated list of signal names, in its historical order,
/// duplicates included.
#[verifier::rlimit(50)]
pub fn io_list() -> (r: Vec<&'static str>)
    ensures
        r@.len() == spec_io_list().len(),
        forall|i: int| 0 <= i < r@.len() ==> r@[i]@ == spec_io_list()[i],
{
    let mut v: Vec<&'static str> = Vec::new();
    v.push("OSSTopEnd6F");
    v.push("OSSTruss6F");
    v.push("OSSGIR6F");
    v.push("OSSCRING6F");
    v.push("OSSCellLcl6F");
    v.push("OSSM1Lcl6F");
    v.push("MCM2Lcl6F");
    v.push("MCM2TE6F");
    v.push("MCM2RB6F");
    v.push("OSSMirrorCovers6F");
    v.push("OSSAzDriveTorque");
    v.push("OSSElDriveTorque");
    v.push("OSSRotDriveTorque");
    v.push("MountCmd");
    v.push("OSSAzEncoderAngle");
    v.push("OSSElEncoderAngle");
    v.push("OSSRotEncoderAngle");
    v.push("M1HPLC");
    v.push("OSSHardpointD");
    v.push("OSSHarpointDeltaF");
    v.push("M1HPCmd");
    v.push("HPFcmd");
    v.push("M1RBMcmd");
    v.push("M1CGFM");
    v.push("M1HPLC");
    v.push("M1S1HPLC");
    v.push("M1S1BMcmd");
    v.push("M1S1ACTF");
    v.push("M1ActuatorsSegment1");
    v.push("M1S2HPLC");
    v.push("M1S2BMcmd");
    v.push("M1S2ACTF");
    v.push("M1ActuatorsSegment2");
    v.push("M1S3HPLC");
    v.push("M1S3BMcmd");
    v.push("M1S3ACTF");
    v.push("M1ActuatorsSegment3");
    v.push("M1S4HPLC");
    v.push("M1S4BMcmd");
    v.push("M1S4ACTF");
    v.push("M1ActuatorsSegment4");
    v.push("M1S5HPLC");
    v.push("M1S5BMcmd");
    v.push("M1S5ACTF");
    v.push("M1ActuatorsSegment5");
    v.push("M1S6HPLC");
    v.push("M1S6BMcmd");
    v.push("M1S6ACTF");
    v.push("M1ActuatorsSegment6");
    v.push("M1S7HPLC");
    v.push("M1S7BMcmd");
    v.push("M1S7ACTF");
    v.push("M1ActuatorsSegment7");
    v.push("M2poscmd");
    v.push("M2posFB");
    v.push("M2posactF");
    v.push("TTcmd");
    v.push("PZTFB");
    v.push("PZTF");
    v.push("TTSP");
    v.push("TTFB");
    v.push("TTcmd");
    v.push("SrcWfeRms");
    v.push("SrcSegmentWfeRms");
    v.push("SrcSegmentPiston");
    v.push("SrcSegmentGradients");
    v.push("Pssn");
    v.push("SensorData");
    v.push("M1modes");
    v
}

/// Builds the closed catalog: the names discovered in an external archive
/// (already normalized) together with the curated list, sorted and
/// deduplicated.
pub fn build_catalog(discovered: Vec<String>) -> (r: Vec<String>)
    ensures
        sorted_unique(r@),
        forall|x: Seq<char>|
            contains_name(r@, x) <==> (contains_name(discovered@, x) || spec_io_list().contains(
                x,
            )),
{
    let ghost disc = discovered@;
    let mut all = discovered;
    let list = io_list();
    let mut i: usize = 0;
    while i < list.len()
        invariant
            i <= list@.len(),
            list@.len() == spec_io_list().len(),
            forall|j: int| 0 <= j < list@.len() ==> list@[j]@ == spec_io_list()[j],
            all@.len() == disc.len() + i,
            forall|j: int| 0 <= j < disc.len() ==> all@[j] == disc[j],
            forall|j: int| 0 <= j < i ==> all@[disc.len() + j]@ == spec_io_list()[j],
        decreases list@.len() - i,
    {
        all.push(list[i].to_owned());
        i += 1;
    }
    let r = sort_dedup(all);
    proof {
        assert forall|x: Seq<char>|
            contains_name(r@, x) <==> (contains_name(disc, x) || spec_io_list().contains(x)) by {
            if contains_name(r@, x) {
                let k = choose|k: int| 0 <= k < all@.len() && all@[k]@ == x;
                if k < disc.len() {
                    assert(disc[k]@ == x);
                    assert(contains_name(disc, x));
                } else {
                    assert(all@[k]@ == spec_io_list()[k - disc.len()]);
                    assert(spec_io_list().contains(x));
                }
            }
            if contains_name(disc, x) {
                let k = choose|k: int| 0 <= k < disc.len() && disc[k]@ == x;
                assert(all@[k]@ == x);
                assert(contains_name(all@, x));
            } else if spec_io_list().contains(x) {
                let k = choose|k: int| 0 <= k < spec_io_list().len() && spec_io_list()[k] == x;
                assert(all@[disc.len() + k]@ == x);
                assert(contains_name(all@, x));
            }
        }
    }
    r
}

} // verus!
