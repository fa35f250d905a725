//! The controller-enable line written to `cgroup.subtree_control`.

use vstd::prelude::*;
use crate::decimal::is_space;

verus! {

pub open spec fn cpuset_word() -> Seq<u8> {
    seq![99u8, 112, 117, 115, 101, 116]
}

pub open spec fn cpu_word() -> Seq<u8> {
    seq![99u8, 112, 117]
}

pub open spec fn pids_word() -> Seq<u8> {
    seq![112u8, 105, 100, 115]
}

/// `w` stands in `s` at `i` as a whole whitespace-separated word.
pub open spec fn word_at(s: Seq<u8>, w: Seq<u8>, i: int) -> bool {
    &&& 0 <= i
    &&& i + w.len() <= s.len()
    &&& s.subrange(i, i + w.len()) == w
    &&& (i == 0 || is_space(s[i - 1]))
    &&& (i + w.len() == s.len() || is_space(s[i + w.len()]))
}

/// `w` is one of the whitespace-separated words of `s`.
pub open spec fn has_word(s: Seq<u8>, w: Seq<u8>) -> bool {
    exists|i: int| word_at(s, w, i)
}

/// `acc` followed by `+w`, separated by a space unless `acc` is empty; `acc`
/// itself where `on` is false.
pub open spec fn append_enable(acc: Seq<u8>, on: bool, w: Seq<u8>) -> Seq<u8> {
    if !on {
        acc
    } else if acc.len() == 0 {
        seq![43u8] + w
    } else {
        acc + seq![32u8, 43u8] + w
    }
}

/// The enable line for the controllers that are switched on, always in the
/// order cpuset, cpu, pids.
pub open spec fn enable_line(cpuset: bool, cpu: bool, pids: bool) -> Seq<u8> {
    append_enable(
        append_enable(append_enable(Seq::empty(), cpuset, cpuset_word()), cpu, cpu_word()),
        pids,
        pids_word(),
    )
}

/// The enable line for the controllers that a `cgroup.controllers` file offers.
pub open spec fn spec_enable_line_for(offered: Seq<u8>) -> Seq<u8> {
    enable_line(
        has_word(offered, cpuset_word()),
        has_word(offered, cpu_word()),
        has_word(offered, pids_word()),
    )
}

fn word_at_exec(s: &[u8], w: &[u8], i: usize) -> (r: bool)
    ensures
        r == word_at(s@, w@, i as int),
{
    if i > s.len() || w.len() > s.len() - i {
        return false;
    }
    let mut k: usize = 0;
    while k < w.len()
        invariant
            i <= s@.len(),
            i + w@.len() <= s@.len(),
            k <= w@.len(),
            s@.subrange(i as int, i + k) == w@.subrange(0, k as int),
        decreases w@.len() - k,
    {
        assert(i + k < s@.len() && s@.len() == s.len());
        if s[i + k] != w[k] {
            assert(s@.subrange(i as int, i + w@.len())[k as int] != w@[k as int]);
            return false;
        }
        assert(s@.subrange(i as int, i + k + 1) =~= w@.subrange(0, k + 1));
        k = k + 1;
    }
    assert(w@.subrange(0, k as int) =~= w@);
    let before = i == 0 || (s[i - 1] == 32 || s[i - 1] == 9 || s[i - 1] == 10 || s[i - 1] == 12
        || s[i - 1] == 13);
    let e = i + w.len();
    let after = e == s.len() || (s[e] == 32 || s[e] == 9 || s[e] == 10 || s[e] == 12 || s[e]
        == 13);
    before && after
}

fn has_word_exec(s: &[u8], w: &[u8]) -> (r: bool)
    ensures
        r == has_word(s@, w@),
{
    let mut i: usize = 0;
    while i < s.len()
        invariant
            i <= s@.len(),
            forall|j: int| 0 <= j < i ==> !word_at(s@, w@, j),
        decreases s@.len() - i,
    {
        if word_at_exec(s, w, i) {
            return true;
        }
        i = i + 1;
    }
    if word_at_exec(s, w, i) {
        return true;
    }
    assert forall|j: int| !word_at(s@, w@, j) by {
        if j > i {
            assert(!(j + w@.len() <= s@.len()));
        }
    }
    false
}

fn push_enable(acc: &mut Vec<u8>, on: bool, w: &Vec<u8>)
    ensures
        final(acc)@ == append_enable(old(acc)@, on, w@),
{
    if on {
        if acc.len() > 0 {
            acc.push(32);
        }
        acc.push(43);
        crate::path::push_all(acc, w.as_slice());
        assert(acc@ =~= append_enable(old(acc)@, on, w@));
    }
}

/// The line that enables, among the controllers that `offered` lists, those
/// that replicas use: `+cpuset`, `+cpu` and `+pids`, in that order, each at
/// most once, separated by single spaces.
pub fn enable_line_for(offered: &[u8]) -> (r: Vec<u8>)
    ensures
        r@ == spec_enable_line_for(offered@),
{
    let cpuset: Vec<u8> = vec![99u8, 112, 117, 115, 101, 116];
    let cpu: Vec<u8> = vec![99u8, 112, 117];
    let pids: Vec<u8> = vec![112u8, 105, 100, 115];
    assert(cpuset@ =~= cpuset_word());
    assert(cpu@ =~= cpu_word());
    assert(pids@ =~= pids_word());
    let mut out: Vec<u8> = Vec::new();
    push_enable(&mut out, has_word_exec(offered, cpuset.as_slice()), &cpuset);
    push_enable(&mut out, has_word_exec(offered, cpu.as_slice()), &cpu);
    push_enable(&mut out, has_word_exec(offered, pids.as_slice()), &pids);
    out
}

/// The enable line depends only on which of the three controllers are
/// offered: not on their order, on repeats, or on other controllers.
pub proof fn lemma_enable_line_order_stable(a: Seq<u8>, b: Seq<u8>)
    requires
        has_word(a, cpuset_word()) == has_word(b, cpuset_word()),
        has_word(a, cpu_word()) == has_word(b, cpu_word()),
        has_word(a, pids_word()) == has_word(b, pids_word()),
    ensures
        spec_enable_line_for(a) == spec_enable_line_for(b),
{
}

/// Where all three controllers are offered, in any order, the line is
/// `+cpuset +cpu +pids`.
pub proof fn lemma_enable_line_all_offered(offered: Seq<u8>)
    requires
        has_word(offered, cpuset_word()),
        has_word(offered, cpu_word()),
        has_word(offered, pids_word()),
    ensures
        spec_enable_line_for(offered) == seq![
            43u8, 99, 112, 117, 115, 101, 116, 32, 43, 99, 112, 117, 32, 43, 112, 105, 100, 115
        ],
{
    assert(spec_enable_line_for(offered) =~= seq![
        43u8, 99, 112, 117, 115, 101, 116, 32, 43, 99, 112, 117, 32, 43, 112, 105, 100, 115
    ]);
}

/// `s` with every `+` removed: the controller names of an enable line.
pub open spec fn strip_plus(s: Seq<u8>) -> Seq<u8>
    decreases s.len(),
{
    if s.len() == 0 {
        s
    } else if s.last() == 43 {
        strip_plus(s.drop_last())
    } else {
        strip_plus(s.drop_last()).push(s.last())
    }
}

proof fn lemma_read_back_cpuset_cpu_pids()
    ensures
        has_word(strip_plus(enable_line(true, true, true)), cpuset_word()),
        has_word(strip_plus(enable_line(true, true, true)), cpu_word()),
        has_word(strip_plus(enable_line(true, true, true)), pids_word()),
{
    reveal_with_fuel(strip_plus, 19);
    let e = enable_line(true, true, true);
    assert(e =~= seq![43u8, 99, 112, 117, 115, 101, 116, 32, 43, 99, 112, 117, 32, 43, 112, 105, 100, 115]);
    let p = seq![99u8, 112, 117, 115, 101, 116, 32, 99, 112, 117, 32, 112, 105, 100, 115];
    assert(strip_plus(e) =~= p);
    assert(word_at(p, cpuset_word(), 0)) by {
        assert(p.subrange(0, 6) =~= cpuset_word());
    }
    assert(word_at(p, cpu_word(), 7)) by {
        assert(p.subrange(7, 10) =~= cpu_word());
    }
    assert(word_at(p, pids_word(), 11)) by {
        assert(p.subrange(11, 15) =~= pids_word());
    }
}

proof fn lemma_read_back_cpuset_cpu()
    ensures
        has_word(strip_plus(enable_line(true, true, false)), cpuset_word()),
        has_word(strip_plus(enable_line(true, true, false)), cpu_word()),
        !has_word(strip_plus(enable_line(true, true, false)), pids_word()),
{
    reveal_with_fuel(strip_plus, 19);
    let e = enable_line(true, true, false);
    assert(e =~= seq![43u8, 99, 112, 117, 115, 101, 116, 32, 43, 99, 112, 117]);
    let p = seq![99u8, 112, 117, 115, 101, 116, 32, 99, 112, 117];
    assert(strip_plus(e) =~= p);
    assert(word_at(p, cpuset_word(), 0)) by {
        assert(p.subrange(0, 6) =~= cpuset_word());
    }
    assert(word_at(p, cpu_word(), 7)) by {
        assert(p.subrange(7, 10) =~= cpu_word());
    }
    assert forall|i: int| !word_at(p, pids_word(), i) by {
        if word_at(p, pids_word(), i) {
            assert(p.subrange(i, i + 4)[0] == pids_word()[0]);
            assert(p.subrange(i, i + 4)[1] == pids_word()[1]);
            assert(p.subrange(i, i + 4)[2] == pids_word()[2]);
            assert(p.subrange(i, i + 4)[3] == pids_word()[3]);
        }
    }
}

proof fn lemma_read_back_cpuset_pids()
    ensures
        has_word(strip_plus(enable_line(true, false, true)), cpuset_word()),
        !has_word(strip_plus(enable_line(true, false, true)), cpu_word()),
        has_word(strip_plus(enable_line(true, false, true)), pids_word()),
{
    reveal_with_fuel(strip_plus, 19);
    let e = enable_line(true, false, true);
    assert(e =~= seq![43u8, 99, 112, 117, 115, 101, 116, 32, 43, 112, 105, 100, 115]);
    let p = seq![99u8, 112, 117, 115, 101, 116, 32, 112, 105, 100, 115];
    assert(strip_plus(e) =~= p);
    assert(word_at(p, cpuset_word(), 0)) by {
        assert(p.subrange(0, 6) =~= cpuset_word());
    }
    assert forall|i: int| !word_at(p, cpu_word(), i) by {
        if word_at(p, cpu_word(), i) {
            assert(p.subrange(i, i + 3)[0] == cpu_word()[0]);
            assert(p.subrange(i, i + 3)[1] == cpu_word()[1]);
            assert(p.subrange(i, i + 3)[2] == cpu_word()[2]);
        }
    }
    assert(word_at(p, pids_word(), 7)) by {
        assert(p.subrange(7, 11) =~= pids_word());
    }
}

proof fn lemma_read_back_cpuset()
    ensures
        has_word(strip_plus(enable_line(true, false, false)), cpuset_word()),
        !has_word(strip_plus(enable_line(true, false, false)), cpu_word()),
        !has_word(strip_plus(enable_line(true, false, false)), pids_word()),
{
    reveal_with_fuel(strip_plus, 19);
    let e = enable_line(true, false, false);
    assert(e =~= seq![43u8, 99, 112, 117, 115, 101, 116]);
    let p = seq![99u8, 112, 117, 115, 101, 116];
    assert(strip_plus(e) =~= p);
    assert(word_at(p, cpuset_word(), 0)) by {
        assert(p.subrange(0, 6) =~= cpuset_word());
    }
    assert forall|i: int| !word_at(p, cpu_word(), i) by {
        if word_at(p, cpu_word(), i) {
            assert(p.subrange(i, i + 3)[0] == cpu_word()[0]);
            assert(p.subrange(i, i + 3)[1] == cpu_word()[1]);
            assert(p.subrange(i, i + 3)[2] == cpu_word()[2]);
        }
    }
    assert forall|i: int| !word_at(p, pids_word(), i) by {
        if word_at(p, pids_word(), i) {
            assert(p.subrange(i, i + 4)[0] == pids_word()[0]);
            assert(p.subrange(i, i + 4)[1] == pids_word()[1]);
            assert(p.subrange(i, i + 4)[2] == pids_word()[2]);
            assert(p.subrange(i, i + 4)[3] == pids_word()[3]);
        }
    }
}

proof fn lemma_read_back_cpu_pids()
    ensures
        !has_word(strip_plus(enable_line(false, true, true)), cpuset_word()),
        has_word(strip_plus(enable_line(false, true, true)), cpu_word()),
        has_word(strip_plus(enable_line(false, true, true)), pids_word()),
{
    reveal_with_fuel(strip_plus, 19);
    let e = enable_line(false, true, true);
    assert(e =~= seq![43u8, 99, 112, 117, 32, 43, 112, 105, 100, 115]);
    let p = seq![99u8, 112, 117, 32, 112, 105, 100, 115];
    assert(strip_plus(e) =~= p);
    assert forall|i: int| !word_at(p, cpuset_word(), i) by {
        if word_at(p, cpuset_word(), i) {
            assert(p.subrange(i, i + 6)[0] == cpuset_word()[0]);
            assert(p.subrange(i, i + 6)[1] == cpuset_word()[1]);
            assert(p.subrange(i, i + 6)[2] == cpuset_word()[2]);
            assert(p.subrange(i, i + 6)[3] == cpuset_word()[3]);
            assert(p.subrange(i, i + 6)[4] == cpuset_word()[4]);
            assert(p.subrange(i, i + 6)[5] == cpuset_word()[5]);
        }
    }
    assert(word_at(p, cpu_word(), 0)) by {
        assert(p.subrange(0, 3) =~= cpu_word());
    }
    assert(word_at(p, pids_word(), 4)) by {
        assert(p.subrange(4, 8) =~= pids_word());
    }
}

proof fn lemma_read_back_cpu()
    ensures
        !has_word(strip_plus(enable_line(false, true, false)), cpuset_word()),
        has_word(strip_plus(enable_line(false, true, false)), cpu_word()),
        !has_word(strip_plus(enable_line(false, true, false)), pids_word()),
{
    reveal_with_fuel(strip_plus, 19);
    let e = enable_line(false, true, false);
    assert(e =~= seq![43u8, 99, 112, 117]);
    let p = seq![99u8, 112, 117];
    assert(strip_plus(e) =~= p);
    assert forall|i: int| !word_at(p, cpuset_word(), i) by {
        if word_at(p, cpuset_word(), i) {
            assert(p.subrange(i, i + 6)[0] == cpuset_word()[0]);
            assert(p.subrange(i, i + 6)[1] == cpuset_word()[1]);
            assert(p.subrange(i, i + 6)[2] == cpuset_word()[2]);
            assert(p.subrange(i, i + 6)[3] == cpuset_word()[3]);
            assert(p.subrange(i, i + 6)[4] == cpuset_word()[4]);
            assert(p.subrange(i, i + 6)[5] == cpuset_word()[5]);
        }
    }
    assert(word_at(p, cpu_word(), 0)) by {
        assert(p.subrange(0, 3) =~= cpu_word());
    }
    assert forall|i: int| !word_at(p, pids_word(), i) by {
        if word_at(p, pids_word(), i) {
            assert(p.subrange(i, i + 4)[0] == pids_word()[0]);
            assert(p.subrange(i, i + 4)[1] == pids_word()[1]);
            assert(p.subrange(i, i + 4)[2] == pids_word()[2]);
            assert(p.subrange(i, i + 4)[3] == pids_word()[3]);
        }
    }
}

proof fn lemma_read_back_pids()
    ensures
        !has_word(strip_plus(enable_line(false, false, true)), cpuset_word()),
        !has_word(strip_plus(enable_line(false, false, true)), cpu_word()),
        has_word(strip_plus(enable_line(false, false, true)), pids_word()),
{
    reveal_with_fuel(strip_plus, 19);
    let e = enable_line(false, false, true);
    assert(e =~= seq![43u8, 112, 105, 100, 115]);
    let p = seq![112u8, 105, 100, 115];
    assert(strip_plus(e) =~= p);
    assert forall|i: int| !word_at(p, cpuset_word(), i) by {
        if word_at(p, cpuset_word(), i) {
            assert(p.subrange(i, i + 6)[0] == cpuset_word()[0]);
            assert(p.subrange(i, i + 6)[1] == cpuset_word()[1]);
            assert(p.subrange(i, i + 6)[2] == cpuset_word()[2]);
            assert(p.subrange(i, i + 6)[3] == cpuset_word()[3]);
            assert(p.subrange(i, i + 6)[4] == cpuset_word()[4]);
            assert(p.subrange(i, i + 6)[5] == cpuset_word()[5]);
        }
    }
    assert forall|i: int| !word_at(p, cpu_word(), i) by {
        if word_at(p, cpu_word(), i) {
            assert(p.subrange(i, i + 3)[0] == cpu_word()[0]);
            assert(p.subrange(i, i + 3)[1] == cpu_word()[1]);
            assert(p.subrange(i, i + 3)[2] == cpu_word()[2]);
        }
    }
    assert(word_at(p, pids_word(), 0)) by {
        assert(p.subrange(0, 4) =~= pids_word());
    }
}

proof fn lemma_read_back_none()
    ensures
        !has_word(strip_plus(enable_line(false, false, false)), cpuset_word()),
        !has_word(strip_plus(enable_line(false, false, false)), cpu_word()),
        !has_word(strip_plus(enable_line(false, false, false)), pids_word()),
{
    reveal_with_fuel(strip_plus, 19);
    let e = enable_line(false, false, false);
    assert(e =~= Seq::<u8>::empty());
    let p = Seq::<u8>::empty();
    assert(strip_plus(e) =~= p);
    assert forall|i: int| !word_at(p, cpuset_word(), i) by {
        if word_at(p, cpuset_word(), i) {
            assert(p.subrange(i, i + 6)[0] == cpuset_word()[0]);
            assert(p.subrange(i, i + 6)[1] == cpuset_word()[1]);
            assert(p.subrange(i, i + 6)[2] == cpuset_word()[2]);
            assert(p.subrange(i, i + 6)[3] == cpuset_word()[3]);
            assert(p.subrange(i, i + 6)[4] == cpuset_word()[4]);
            assert(p.subrange(i, i + 6)[5] == cpuset_word()[5]);
        }
    }
    assert forall|i: int| !word_at(p, cpu_word(), i) by {
        if word_at(p, cpu_word(), i) {
            assert(p.subrange(i, i + 3)[0] == cpu_word()[0]);
            assert(p.subrange(i, i + 3)[1] == cpu_word()[1]);
            assert(p.subrange(i, i + 3)[2] == cpu_word()[2]);
        }
    }
    assert forall|i: int| !word_at(p, pids_word(), i) by {
        if word_at(p, pids_word(), i) {
            assert(p.subrange(i, i + 4)[0] == pids_word()[0]);
            assert(p.subrange(i, i + 4)[1] == pids_word()[1]);
            assert(p.subrange(i, i + 4)[2] == pids_word()[2]);
            assert(p.subrange(i, i + 4)[3] == pids_word()[3]);
        }
    }
}

/// Which controllers the stripped enable line names: exactly those switched on.
proof fn lemma_read_back_flags(a: bool, b: bool, c: bool)
    ensures
        has_word(strip_plus(enable_line(a, b, c)), cpuset_word()) == a,
        has_word(strip_plus(enable_line(a, b, c)), cpu_word()) == b,
        has_word(strip_plus(enable_line(a, b, c)), pids_word()) == c,
{
    if a && b && c {
        lemma_read_back_cpuset_cpu_pids();
    } else if a && b && !c {
        lemma_read_back_cpuset_cpu();
    } else if a && !b && c {
        lemma_read_back_cpuset_pids();
    } else if a && !b && !c {
        lemma_read_back_cpuset();
    } else if !a && b && c {
        lemma_read_back_cpu_pids();
    } else if !a && b && !c {
        lemma_read_back_cpu();
    } else if !a && !b && c {
        lemma_read_back_pids();
    } else {
        lemma_read_back_none();
    }
}

/// An enable line, read back as a controller list once its `+` signs are
/// removed, gives the same line again.
pub proof fn lemma_enable_line_read_back(offered: Seq<u8>)
    ensures
        spec_enable_line_for(strip_plus(spec_enable_line_for(offered))) == spec_enable_line_for(
            offered,
        ),
{
    lemma_read_back_flags(
        has_word(offered, cpuset_word()),
        has_word(offered, cpu_word()),
        has_word(offered, pids_word()),
    );
}

} // verus!
