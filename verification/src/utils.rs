//! The image-filename rules: stored images are numbered, and a new upload
//! takes the lowest free slot. Listing a directory and the database is the
//! surrounding program's part; the choice of the next filename is here.

use vstd::prelude::*;
use crate::digits::{dec_chars, dec_chars_of, parse_u32_spec};
use crate::strutil::{chars_to_string, str_chars};

verus! {

/// The part of a filename before its first dot; the whole name when it has
/// none.
pub open spec fn dot_prefix(s: Seq<char>) -> Seq<char>
    decreases s.len(),
{
    if s.len() == 0 {
        s
    } else if s[0] == '.' {
        Seq::empty()
    } else {
        seq![s[0]] + dot_prefix(s.drop_first())
    }
}

/// The slot number a filename claims: its dot prefix read as a number.
pub open spec fn prefix_num(name: Seq<char>) -> Option<u32> {
    parse_u32_spec(dot_prefix(name))
}

/// The claimed slot numbers of a list of filenames, in order.
pub open spec fn nums_of(names: Seq<Seq<char>>) -> Seq<u32>
    decreases names.len(),
{
    if names.len() == 0 {
        Seq::empty()
    } else {
        nums_of(names.drop_last()) + (match prefix_num(names.last()) {
            Some(n) => seq![n],
            None => Seq::empty(),
        })
    }
}

/// The claimed slot numbers of both lists an upload must avoid.
pub open spec fn filename_nums(folder: Seq<Seq<char>>, db: Seq<Seq<char>>) -> Seq<u32> {
    nums_of(folder) + nums_of(db)
}

/// The largest claimed number; zero when nothing is claimed.
pub open spec fn max_num(ns: Seq<u32>) -> u32
    decreases ns.len(),
{
    if ns.len() == 0 {
        0u32
    } else {
        let m = max_num(ns.drop_last());
        if ns.last() > m {
            ns.last()
        } else {
            m
        }
    }
}

/// The next filename's number: the first unclaimed slot at or after `i` and
/// below the maximum, else one past the maximum.
pub open spec fn first_gap(ns: Seq<u32>, i: int) -> int
    decreases max_num(ns) as int - i,
{
    if i >= max_num(ns) as int {
        max_num(ns) as int + 1
    } else if !ns.contains(i as u32) {
        i
    } else {
        first_gap(ns, i + 1)
    }
}

proof fn lemma_max_num_ge(ns: Seq<u32>, i: int)
    requires
        0 <= i < ns.len(),
    ensures
        ns[i] <= max_num(ns),
    decreases ns.len(),
{
    if i == ns.len() - 1 {
    } else {
        lemma_max_num_ge(ns.drop_last(), i);
    }
}

proof fn lemma_dot_prefix_take(s: Seq<char>, i: int)
    requires
        0 <= i <= s.len(),
        forall|j: int| 0 <= j < i ==> s[j] != '.',
        i < s.len() ==> s[i] == '.',
    ensures
        dot_prefix(s) == s.take(i),
    decreases i,
{
    if s.len() == 0 {
        assert(s.take(i) =~= s);
    } else if i == 0 {
        assert(s[0] == '.');
        assert(s.take(0) =~= Seq::<char>::empty());
    } else {
        let rest = s.drop_first();
        assert(forall|j: int| 0 <= j < i - 1 ==> rest[j] == s[j + 1] && s[j + 1] != '.');
        assert(i - 1 < rest.len() ==> rest[i - 1] == s[i]);
        lemma_dot_prefix_take(rest, i - 1);
        assert(seq![s[0]] + rest.take(i - 1) =~= s.take(i));
    }
}

/// The dot prefix of a filename.
fn split_prefix(name: &str) -> (r: Vec<char>)
    ensures
        r@ == dot_prefix(name@),
{
    let cs = str_chars(name);
    let n = cs.len();
    let mut i: usize = 0;
    while i < n && cs[i] != '.'
        invariant
            i <= n,
            n == cs@.len(),
            cs@ == name@,
            forall|j: int| 0 <= j < i ==> cs@[j] != '.',
        decreases n - i,
    {
        i = i + 1;
    }
    proof {
        lemma_dot_prefix_take(name@, i as int);
    }
    let mut out: Vec<char> = Vec::new();
    let mut j: usize = 0;
    while j < i
        invariant
            j <= i <= n,
            n == cs@.len(),
            cs@ == name@,
            out@ == name@.take(j as int),
        decreases i - j,
    {
        out.push(cs[j]);
        assert(out@ =~= name@.take(j + 1));
        j = j + 1;
    }
    out
}

/// The slot number a filename claims, if any.
pub fn filename_slot(name: &str) -> (r: Option<u32>)
    ensures
        r == prefix_num(name@),
{
    let p = split_prefix(name);
    crate::digits::parse_u32_chars(&p)
}

/// The part of a filename after its last dot; nothing when it has no dot.
/// An upload keeps only its extension: the name itself is replaced by the
/// next free slot number.
pub open spec fn last_dot_suffix(s: Seq<char>) -> Option<Seq<char>>
    decreases s.len(),
{
    if s.len() == 0 {
        None
    } else if s.last() == '.' {
        Some(Seq::empty())
    } else {
        match last_dot_suffix(s.drop_last()) {
            Some(e) => Some(e.push(s.last())),
            None => None,
        }
    }
}

proof fn lemma_no_dot_no_suffix(s: Seq<char>)
    requires
        forall|j: int| 0 <= j < s.len() ==> s[j] != '.',
    ensures
        last_dot_suffix(s) is None,
    decreases s.len(),
{
    if s.len() > 0 {
        assert(forall|j: int| 0 <= j < s.len() - 1 ==> s.drop_last()[j] == #[trigger] s[j]);
        lemma_no_dot_no_suffix(s.drop_last());
    }
}

proof fn lemma_suffix_after_dot(s: Seq<char>, i: int)
    requires
        1 <= i <= s.len(),
        s[i - 1] == '.',
        forall|j: int| i <= j < s.len() ==> s[j] != '.',
    ensures
        last_dot_suffix(s) == Some(s.skip(i)),
    decreases s.len(),
{
    if i == s.len() {
        assert(s.last() == '.');
        assert(s.skip(i) =~= Seq::<char>::empty());
    } else {
        assert(s.last() != '.');
        let rest = s.drop_last();
        assert(forall|j: int| i <= j < rest.len() ==> rest[j] == #[trigger] s[j]);
        lemma_suffix_after_dot(rest, i);
        assert(rest.skip(i).push(s.last()) =~= s.skip(i));
    }
}

/// The extension of an uploaded filename, taken after its last dot.
pub fn file_extension(name: &str) -> (r: Option<String>)
    ensures
        match r {
            Some(e) => last_dot_suffix(name@) == Some(e@),
            None => last_dot_suffix(name@) is None,
        },
{
    let cs = str_chars(name);
    let n = cs.len();
    let mut i: usize = n;
    while i > 0 && cs[i - 1] != '.'
        invariant
            i <= n,
            n == cs@.len(),
            cs@ == name@,
            forall|j: int| i <= j < n ==> cs@[j] != '.',
        decreases i,
    {
        i = i - 1;
    }
    if i == 0 {
        proof {
            lemma_no_dot_no_suffix(name@);
        }
        return None;
    }
    proof {
        lemma_suffix_after_dot(name@, i as int);
    }
    let mut ext: Vec<char> = Vec::new();
    let mut j: usize = i;
    while j < n
        invariant
            i <= j <= n,
            n == cs@.len(),
            cs@ == name@,
            ext@ == name@.subrange(i as int, j as int),
        decreases n - j,
    {
        ext.push(cs[j]);
        assert(ext@ =~= name@.subrange(i as int, j + 1));
        j = j + 1;
    }
    assert(name@.subrange(i as int, n as int) =~= name@.skip(i as int));
    Some(chars_to_string(&ext))
}

/// The next free image filename, given the filenames in the album's folder
/// and those recorded in the database: the lowest slot number that neither
/// list claims, starting from 1 and never above one past the largest claim.
pub fn calculate_next_filename_image(
    filenames_folder: &Vec<&str>,
    filenames_db: &Vec<&str>,
) -> (r: String)
    requires
        max_num(filename_nums(filenames_folder.deep_view(), filenames_db.deep_view()))
            < u32::MAX,
    ensures
        r@ == dec_chars_of(
            first_gap(
                filename_nums(filenames_folder.deep_view(), filenames_db.deep_view()),
                1,
            ) as nat,
        ),
{
    let ghost all = filename_nums(filenames_folder.deep_view(), filenames_db.deep_view());
    let mut nums: Vec<u32> = Vec::new();
    let nf = filenames_folder.len();
    let mut i: usize = 0;
    proof {
        assert(filenames_folder.deep_view().take(0int) =~= Seq::<Seq<char>>::empty());
    }
    while i < nf
        invariant
            i <= nf,
            nf == filenames_folder@.len(),
            filenames_folder.deep_view().len() == nf,
            nums@ == nums_of(filenames_folder.deep_view().take(i as int)),
        decreases nf - i,
    {
        let ghost fv = filenames_folder.deep_view();
        proof {
            assert(fv.take(i + 1).drop_last() =~= fv.take(i as int));
            assert(fv.take(i + 1).last() == fv[i as int]);
            assert(fv[i as int] == filenames_folder@[i as int]@);
        }
        match filename_slot(filenames_folder[i]) {
            Some(n) => {
                nums.push(n);
                assert(nums@ =~= nums_of(fv.take(i + 1)));
            },
            None => {
                assert(nums@ =~= nums_of(fv.take(i + 1)));
            },
        }
        i = i + 1;
    }
    proof {
        assert(filenames_folder.deep_view().take(nf as int) =~= filenames_folder.deep_view());
        assert(filenames_db.deep_view().take(0int) =~= Seq::<Seq<char>>::empty());
        assert(nums@ =~= nums_of(filenames_folder.deep_view()) + nums_of(
            filenames_db.deep_view().take(0int),
        ));
    }
    let nd = filenames_db.len();
    let mut k: usize = 0;
    while k < nd
        invariant
            k <= nd,
            nd == filenames_db@.len(),
            filenames_db.deep_view().len() == nd,
            nums@ == nums_of(filenames_folder.deep_view()) + nums_of(
                filenames_db.deep_view().take(k as int),
            ),
        decreases nd - k,
    {
        let ghost dv = filenames_db.deep_view();
        proof {
            assert(dv.take(k + 1).drop_last() =~= dv.take(k as int));
            assert(dv.take(k + 1).last() == dv[k as int]);
            assert(dv[k as int] == filenames_db@[k as int]@);
        }
        match filename_slot(filenames_db[k]) {
            Some(n) => {
                nums.push(n);
                assert(nums@ =~= nums_of(filenames_folder.deep_view()) + nums_of(
                    dv.take(k + 1),
                ));
            },
            None => {
                assert(nums@ =~= nums_of(filenames_folder.deep_view()) + nums_of(
                    dv.take(k + 1),
                ));
            },
        }
        k = k + 1;
    }
    proof {
        assert(filenames_db.deep_view().take(nd as int) =~= filenames_db.deep_view());
        assert(nums@ == all);
    }
    // the largest claimed slot
    let total = nums.len();
    let mut max_i: u32 = 0;
    let mut j: usize = 0;
    proof {
        assert(nums@.take(0int) =~= Seq::<u32>::empty());
    }
    while j < total
        invariant
            j <= total,
            total == nums@.len(),
            max_i == max_num(nums@.take(j as int)),
        decreases total - j,
    {
        proof {
            assert(nums@.take(j + 1).drop_last() =~= nums@.take(j as int));
            assert(nums@.take(j + 1).last() == nums@[j as int]);
        }
        if nums[j] > max_i {
            max_i = nums[j];
        }
        j = j + 1;
    }
    proof {
        assert(nums@.take(total as int) =~= nums@);
    }
    // which slots up to the largest are claimed
    let mut free_slots: Vec<bool> = Vec::new();
    let mut s: usize = 0;
    let slots: usize = (max_i as usize) + 1;
    while s < slots
        invariant
            s <= slots,
            free_slots@.len() == s,
            forall|t: int| 0 <= t < s ==> free_slots@[t] == false,
        decreases slots - s,
    {
        free_slots.push(false);
        s = s + 1;
    }
    let mut j2: usize = 0;
    proof {
        assert(nums@.take(0int) =~= Seq::<u32>::empty());
    }
    while j2 < total
        invariant
            j2 <= total,
            total == nums@.len(),
            max_i == max_num(nums@),
            free_slots@.len() == (max_i as int) + 1,
            forall|t: int|
                0 <= t <= max_i ==> free_slots@[t] == nums@.take(j2 as int).contains(t as u32),
        decreases total - j2,
    {
        let v = nums[j2];
        proof {
            lemma_max_num_ge(nums@, j2 as int);
            assert(nums@.take(j2 + 1).drop_last() =~= nums@.take(j2 as int));
        }
        free_slots.set(v as usize, true);
        proof {
            let before = nums@.take(j2 as int);
            let after = nums@.take(j2 + 1);
            assert(after =~= before.push(v));
            assert forall|t: int| 0 <= t <= max_i implies free_slots@[t] == after.contains(
                t as u32,
            ) by {
                if t == v as int {
                    assert(after[after.len() - 1] == v);
                    assert(after.contains(t as u32));
                } else {
                    assert(after.contains(t as u32) == before.contains(t as u32)) by {
                        if after.contains(t as u32) {
                            let w = choose|w: int|
                                0 <= w < after.len() && after[w] == t as u32;
                            assert(w < before.len());
                            assert(before[w] == t as u32);
                        }
                        if before.contains(t as u32) {
                            let w = choose|w: int|
                                0 <= w < before.len() && before[w] == t as u32;
                            assert(after[w] == t as u32);
                        }
                    }
                }
            }
        }
        j2 = j2 + 1;
    }
    proof {
        assert(nums@.take(total as int) =~= nums@);
    }
    // the first free slot from 1, else one past the largest claim
    let mut c: usize = 1;
    while c < (max_i as usize)
        invariant
            1 <= c,
            c <= (max_i as int) + 1,
            max_i == max_num(nums@),
            nums@ == all,
            all == filename_nums(filenames_folder.deep_view(), filenames_db.deep_view()),
            max_num(all) < u32::MAX,
            free_slots@.len() == (max_i as int) + 1,
            forall|t: int| 0 <= t <= max_i ==> free_slots@[t] == nums@.contains(t as u32),
            first_gap(all, 1) == first_gap(all, c as int),
        decreases max_i as int - c,
    {
        if !free_slots[c] {
            assert(first_gap(all, c as int) == c as int);
            let digits = dec_chars(c as u32);
            return chars_to_string(&digits);
        }
        assert(first_gap(all, c as int) == first_gap(all, c + 1));
        c = c + 1;
    }
    assert(first_gap(all, c as int) == max_num(all) as int + 1);
    let digits = dec_chars(max_i + 1);
    chars_to_string(&digits)
}

} // verus!
